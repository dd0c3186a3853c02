use inhumanity::bureau::{Bureau, InhumanityError, Outgoing, ServerCommand};
use inhumanity::ids::{random_suspect_id, suspect_id_from_draws, ConnectionId, SuspectId, SUSPECT_ID_LETTERS};
use inhumanity::protocol::{accept_connection, handle_client_message, ClientCommand};

fn is_code(s: &str) -> bool {
    s.chars().count() == 4 && s.chars().all(|c| SUSPECT_ID_LETTERS.contains(c))
}

fn single(out: Vec<Outgoing>) -> Outgoing {
    assert_eq!(out.len(), 1);
    out.into_iter().next().unwrap()
}

fn login_suspect(bureau: &mut Bureau, cid: ConnectionId) -> SuspectId {
    let r = handle_client_message(bureau, cid, None, ClientCommand::LogInAsSuspect);
    r.ok().flatten().expect("suspect login succeeds")
}

fn login_investigator(
    bureau: &mut Bureau,
    cid: ConnectionId,
    code: &str,
) -> Result<Option<SuspectId>, InhumanityError> {
    handle_client_message(
        bureau,
        cid,
        None,
        ClientCommand::LogInAsInvestigator { suspect_id: SuspectId(code.to_string()) },
    )
}

fn shout(
    bureau: &mut Bureau,
    cid: ConnectionId,
    local: Option<SuspectId>,
    message: &str,
) -> Result<Option<SuspectId>, InhumanityError> {
    handle_client_message(
        bureau,
        cid,
        local,
        ClientCommand::InvestigatorShout { message: message.to_string() },
    )
}

#[test]
fn connection_receives_connected_and_becomes_suspect() {
    let mut bureau = Bureau::new();
    let a = accept_connection(&mut bureau);
    assert_eq!(a, ConnectionId(0));
    let hello = single(bureau.take_outbox());
    assert_eq!(hello.target, a);
    assert!(matches!(hello.command, ServerCommand::Connected));

    let id = login_suspect(&mut bureau, a);
    assert!(is_code(&id.0));
    let reply = single(bureau.take_outbox());
    assert_eq!(reply.target, a);
    match reply.command {
        ServerCommand::BecomeSuspect { suspect_id } => assert_eq!(suspect_id.0, id.0),
        other => panic!("unexpected {:?}", other),
    }
    let game = bureau.game(&id).expect("session exists");
    assert_eq!(game.suspect_cid, a);
    assert_eq!(game.investigator_cid, None);
}

#[test]
fn investigator_joins_by_code() {
    let mut bureau = Bureau::new();
    let a = accept_connection(&mut bureau);
    let id = login_suspect(&mut bureau, a);
    let b = accept_connection(&mut bureau);
    bureau.take_outbox();

    let r = login_investigator(&mut bureau, b, &id.0);
    assert_eq!(r.unwrap().unwrap().0, id.0);
    let reply = single(bureau.take_outbox());
    assert_eq!(reply.target, b);
    match reply.command {
        ServerCommand::BecomeInvestigator { suspect_id } => assert_eq!(suspect_id.0, id.0),
        other => panic!("unexpected {:?}", other),
    }
    assert_eq!(bureau.game(&id).unwrap().investigator_cid, Some(b));
}

#[test]
fn investigator_shout_reaches_suspect() {
    let mut bureau = Bureau::new();
    let a = accept_connection(&mut bureau);
    let id = login_suspect(&mut bureau, a);
    let b = accept_connection(&mut bureau);
    let local_b = login_investigator(&mut bureau, b, &id.0).unwrap();
    bureau.take_outbox();

    let r = shout(&mut bureau, b, local_b, "Where were you on Tuesday?");
    assert_eq!(r.unwrap().unwrap().0, id.0);
    let echo = single(bureau.take_outbox());
    assert_eq!(echo.target, a);
    match echo.command {
        ServerCommand::Echo { message } => assert_eq!(message, "Where were you on Tuesday?"),
        other => panic!("unexpected {:?}", other),
    }
}

#[test]
fn second_investigator_is_refused() {
    let mut bureau = Bureau::new();
    let a = accept_connection(&mut bureau);
    let id = login_suspect(&mut bureau, a);
    let b = accept_connection(&mut bureau);
    login_investigator(&mut bureau, b, &id.0).unwrap();
    let c = accept_connection(&mut bureau);
    bureau.take_outbox();

    let r = login_investigator(&mut bureau, c, &id.0);
    assert_eq!(r.err(), Some(InhumanityError::InvestigatorAlreadyAssigned));
    assert!(bureau.take_outbox().is_empty());
    assert_eq!(bureau.game(&id).unwrap().investigator_cid, Some(b));

    // Later attempts keep failing, also after other sessions were opened.
    let d = accept_connection(&mut bureau);
    login_suspect(&mut bureau, d);
    assert_eq!(
        bureau.attach_investigator(&id, d),
        Err(InhumanityError::InvestigatorAlreadyAssigned)
    );
    assert_eq!(bureau.game(&id).unwrap().investigator_cid, Some(b));
}

#[test]
fn suspect_cannot_shout() {
    let mut bureau = Bureau::new();
    let a = accept_connection(&mut bureau);
    let id = login_suspect(&mut bureau, a);
    let b = accept_connection(&mut bureau);
    login_investigator(&mut bureau, b, &id.0).unwrap();
    bureau.take_outbox();

    let r = shout(&mut bureau, a, Some(id.clone()), "hi");
    assert_eq!(r.err(), Some(InhumanityError::RoleViolation));
    assert!(bureau.take_outbox().is_empty());
}

#[test]
fn suspect_without_investigator_cannot_shout() {
    let mut bureau = Bureau::new();
    let a = accept_connection(&mut bureau);
    let id = login_suspect(&mut bureau, a);
    bureau.take_outbox();
    let r = shout(&mut bureau, a, Some(id), "hi");
    assert_eq!(r.err(), Some(InhumanityError::RoleViolation));
    assert!(bureau.take_outbox().is_empty());
}

#[test]
fn shout_without_session_fails() {
    let mut bureau = Bureau::new();
    let a = accept_connection(&mut bureau);
    bureau.take_outbox();
    let r = shout(&mut bureau, a, None, "hello?");
    assert_eq!(r.err(), Some(InhumanityError::NoActiveSession));
    assert!(bureau.take_outbox().is_empty());
}

#[test]
fn shout_with_unknown_session_fails() {
    let mut bureau = Bureau::new();
    let a = accept_connection(&mut bureau);
    bureau.take_outbox();
    let r = shout(&mut bureau, a, Some(SuspectId("QQQQ".to_string())), "hello?");
    assert_eq!(r.err(), Some(InhumanityError::SessionNotFound));
    assert!(bureau.take_outbox().is_empty());
}

#[test]
fn unknown_code_login_fails() {
    let mut bureau = Bureau::new();
    let a = accept_connection(&mut bureau);
    bureau.take_outbox();
    let r = login_investigator(&mut bureau, a, "ZZZZ");
    assert_eq!(r.err(), Some(InhumanityError::SessionNotFound));
    assert!(!bureau.has_game(&SuspectId("ZZZZ".to_string())));
    assert!(bureau.take_outbox().is_empty());
}

#[test]
fn send_to_unknown_connection_fails() {
    let mut bureau = Bureau::new();
    let r = bureau.send(ConnectionId(7), ServerCommand::Connected);
    assert_eq!(r, Err(InhumanityError::ConnectionNotFound));
    assert!(bureau.take_outbox().is_empty());
}

#[test]
fn send_after_disconnect_fails() {
    let mut bureau = Bureau::new();
    let a = bureau.connect();
    bureau.disconnect(a);
    bureau.disconnect(a);
    let r = bureau.send(a, ServerCommand::Echo { message: "x".to_string() });
    assert_eq!(r, Err(InhumanityError::ConnectionNotFound));
}

#[test]
fn suspect_login_on_closed_connection_fails() {
    let mut bureau = Bureau::new();
    let a = bureau.connect();
    bureau.disconnect(a);
    let r = handle_client_message(&mut bureau, a, None, ClientCommand::LogInAsSuspect);
    assert_eq!(r.err(), Some(InhumanityError::ConnectionNotFound));
    assert!(bureau.take_outbox().is_empty());
}

#[test]
fn connection_ids_are_never_reused() {
    let mut bureau = Bureau::new();
    let a = bureau.connect();
    let b = bureau.connect();
    bureau.disconnect(a);
    let c = bureau.connect();
    assert_eq!(a, ConnectionId(0));
    assert_eq!(b, ConnectionId(1));
    assert_eq!(c, ConnectionId(2));
}

#[test]
fn session_codes_are_distinct_and_well_formed() {
    let mut bureau = Bureau::new();
    let a = bureau.connect();
    let mut codes: Vec<String> = Vec::new();
    for _ in 0..200 {
        let id = bureau.new_game(a).unwrap();
        assert!(is_code(&id.0));
        assert!(!codes.contains(&id.0));
        codes.push(id.0);
    }
}

#[test]
fn random_codes_use_the_whole_alphabet_only() {
    let mut seen: Vec<char> = Vec::new();
    for _ in 0..2000 {
        let id = random_suspect_id();
        assert!(is_code(&id.0));
        for c in id.0.chars() {
            if !seen.contains(&c) {
                seen.push(c);
            }
        }
    }
    assert_eq!(seen.len(), 20);
}

#[test]
fn codes_from_draws() {
    assert_eq!(suspect_id_from_draws(&vec![0, 18, 12, 7]).0, "BXQK");
    assert_eq!(suspect_id_from_draws(&vec![19, 19, 19, 19]).0, "ZZZZ");
    assert_eq!(suspect_id_from_draws(&vec![]).0, "");
}

#[test]
fn first_unused_takes_first_free_candidate() {
    let mut bureau = Bureau::new();
    let a = bureau.connect();
    let taken = bureau.new_game(a).unwrap();
    let free: Vec<&str> = ["BBBB", "CCCC", "DDDD"].into_iter().filter(|c| *c != taken.0).collect();
    let candidates = vec![
        taken.clone(),
        SuspectId(free[0].to_string()),
        SuspectId(free[1].to_string()),
    ];
    assert_eq!(bureau.first_unused(&candidates).unwrap().0, free[0]);
    assert!(bureau.first_unused(&vec![taken.clone(), taken.clone()]).is_none());
    assert!(bureau.first_unused(&vec![]).is_none());
}

#[test]
fn first_login_on_empty_bureau_succeeds() {
    let mut bureau = Bureau::new();
    assert!(bureau.next_suspect_id().is_some());
    let a = bureau.connect();
    let id = bureau.new_game(a).unwrap();
    assert!(is_code(&id.0));
    assert!(bureau.has_game(&id));
}

use inhumanity::bureau::{Bureau, InhumanityError, ServerCommand};
use inhumanity::ids::SuspectId;
use inhumanity::lifecycle::{on_connection_event, ConnectionAction, ConnectionEvent};
use inhumanity::protocol::{accept_connection, ClientCommand};

fn session_of(action: ConnectionAction) -> SuspectId {
    match action {
        ConnectionAction::Continue(Some(id)) => id,
        other => panic!("unexpected {:?}", other),
    }
}

fn is_live(bureau: &mut Bureau, cid: inhumanity::ids::ConnectionId) -> bool {
    let r = bureau.send(cid, ServerCommand::Connected);
    bureau.take_outbox();
    r.is_ok()
}

#[test]
fn login_keeps_connection_open() {
    let mut bureau = Bureau::new();
    let a = accept_connection(&mut bureau);
    let action =
        on_connection_event(&mut bureau, a, None, ConnectionEvent::Command(ClientCommand::LogInAsSuspect));
    let id = session_of(action);
    assert_eq!(id.0.chars().count(), 4);
    assert!(is_live(&mut bureau, a));
}

#[test]
fn late_investigator_is_terminated() {
    let mut bureau = Bureau::new();
    let a = accept_connection(&mut bureau);
    let id = session_of(on_connection_event(
        &mut bureau,
        a,
        None,
        ConnectionEvent::Command(ClientCommand::LogInAsSuspect),
    ));
    let b = accept_connection(&mut bureau);
    let join = ClientCommand::LogInAsInvestigator { suspect_id: id.clone() };
    session_of(on_connection_event(&mut bureau, b, None, ConnectionEvent::Command(join)));
    let c = accept_connection(&mut bureau);
    let join_again = ClientCommand::LogInAsInvestigator { suspect_id: id.clone() };
    let action = on_connection_event(&mut bureau, c, None, ConnectionEvent::Command(join_again));
    assert!(matches!(
        action,
        ConnectionAction::Terminate(Some(InhumanityError::InvestigatorAlreadyAssigned))
    ));
    assert!(!is_live(&mut bureau, c));
    assert!(is_live(&mut bureau, b));
    assert_eq!(bureau.game(&id).unwrap().investigator_cid, Some(b));
}

#[test]
fn shouting_suspect_is_terminated() {
    let mut bureau = Bureau::new();
    let a = accept_connection(&mut bureau);
    let id = session_of(on_connection_event(
        &mut bureau,
        a,
        None,
        ConnectionEvent::Command(ClientCommand::LogInAsSuspect),
    ));
    bureau.take_outbox();
    let shout = ClientCommand::InvestigatorShout { message: "hi".to_string() };
    let action = on_connection_event(&mut bureau, a, Some(id), ConnectionEvent::Command(shout));
    assert!(matches!(action, ConnectionAction::Terminate(Some(InhumanityError::RoleViolation))));
    assert!(bureau.take_outbox().is_empty());
    assert!(!is_live(&mut bureau, a));
}

#[test]
fn unknown_code_terminates_without_creating_session() {
    let mut bureau = Bureau::new();
    let a = accept_connection(&mut bureau);
    bureau.take_outbox();
    let join = ClientCommand::LogInAsInvestigator { suspect_id: SuspectId("ZZZZ".to_string()) };
    let action = on_connection_event(&mut bureau, a, None, ConnectionEvent::Command(join));
    assert!(matches!(action, ConnectionAction::Terminate(Some(InhumanityError::SessionNotFound))));
    assert!(!bureau.has_game(&SuspectId("ZZZZ".to_string())));
    assert!(!is_live(&mut bureau, a));
}

#[test]
fn parse_failure_terminates() {
    let mut bureau = Bureau::new();
    let a = accept_connection(&mut bureau);
    let action = on_connection_event(
        &mut bureau,
        a,
        None,
        ConnectionEvent::Failed(InhumanityError::ProtocolParseError),
    );
    assert!(matches!(action, ConnectionAction::Terminate(Some(InhumanityError::ProtocolParseError))));
    assert!(!is_live(&mut bureau, a));
}

#[test]
fn close_terminates_without_error() {
    let mut bureau = Bureau::new();
    let a = accept_connection(&mut bureau);
    let action = on_connection_event(&mut bureau, a, None, ConnectionEvent::Closed);
    assert!(matches!(action, ConnectionAction::Terminate(None)));
    assert!(!is_live(&mut bureau, a));
}

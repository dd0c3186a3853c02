use vstd::prelude::*;

use crate::bureau::{
    attach_step, codes_distinct, has_session, lemma_session_index, send_step, session_index,
    sessions_kept, Bureau, BureauView, GameView, InhumanityError, ServerCommand,
    ServerCommandView,
};
use crate::ids::{is_suspect_code, ConnectionId, SuspectId};

verus! {

/// A frame that a client sends to the server.
#[derive(Debug)]
pub enum ClientCommand {
    LogInAsSuspect,
    LogInAsInvestigator { suspect_id: SuspectId },
    InvestigatorShout { message: String },
}

pub enum ClientCommandView {
    LogInAsSuspect,
    LogInAsInvestigator { suspect_id: Seq<char> },
    InvestigatorShout { message: Seq<char> },
}

impl View for ClientCommand {
    type V = ClientCommandView;

    open spec fn view(&self) -> ClientCommandView {
        match self {
            ClientCommand::LogInAsSuspect => ClientCommandView::LogInAsSuspect,
            ClientCommand::LogInAsInvestigator { suspect_id } =>
                ClientCommandView::LogInAsInvestigator { suspect_id: suspect_id@ },
            ClientCommand::InvestigatorShout { message } => ClientCommandView::InvestigatorShout {
                message: message@,
            },
        }
    }
}

/// The session that a connection has established, seen as its code.
pub open spec fn local_view(s: Option<SuspectId>) -> Option<Seq<char>> {
    match s {
        Some(id) => Some(id@),
        None => None,
    }
}

/// The outcome of a command, with the session code seen as its characters.
pub open spec fn outcome_view(r: Result<Option<SuspectId>, InhumanityError>) -> Result<
    Option<Seq<char>>,
    InhumanityError,
> {
    match r {
        Ok(s) => Ok(local_view(s)),
        Err(e) => Err(e),
    }
}

/// A suspect logs in on `cid` and gets the session coded `id`: the session is opened,
/// then `BecomeSuspect` is sent to `cid`.
pub open spec fn suspect_login_step(b: BureauView, cid: ConnectionId, id: Seq<char>) -> (
    Result<Option<Seq<char>>, InhumanityError>,
    BureauView,
) {
    let opened = BureauView {
        games: b.games.push(GameView { suspect_id: id, suspect_cid: cid, investigator_cid: None }),
        ..b
    };
    let (sent, after) = send_step(opened, cid, ServerCommandView::BecomeSuspect { suspect_id: id });
    match sent {
        Ok(_) => (Ok(Some(id)), after),
        Err(e) => (Err(e), opened),
    }
}

/// What a suspect login may return: a fresh, well-formed code is chosen and the login
/// goes on with it; only when sessions already exist may it instead find no free code.
pub open spec fn suspect_login_outcome(
    b: BureauView,
    cid: ConnectionId,
    r: Result<Option<Seq<char>>, InhumanityError>,
    after: BureauView,
) -> bool {
    ||| b.games.len() > 0 && r == Err::<Option<Seq<char>>, InhumanityError>(
        InhumanityError::IdentifierSpaceExhausted,
    ) && after == b
    ||| {
        let id = after.games.last().suspect_id;
        &&& after.games.len() > 0
        &&& is_suspect_code(id)
        &&& !has_session(b.games, id)
        &&& (r, after) == suspect_login_step(b, cid, id)
    }
}

/// An investigator logs in on `cid` to the session coded `id`.
pub open spec fn investigator_login_step(b: BureauView, cid: ConnectionId, id: Seq<char>) -> (
    Result<Option<Seq<char>>, InhumanityError>,
    BureauView,
) {
    let (attached, games) = attach_step(b.games, id, cid);
    match attached {
        Err(e) => (Err(e), b),
        Ok(_) => {
            let joined = BureauView { games, ..b };
            let (sent, after) = send_step(
                joined,
                cid,
                ServerCommandView::BecomeInvestigator { suspect_id: id },
            );
            match sent {
                Ok(_) => (Ok(Some(id)), after),
                Err(e) => (Err(e), joined),
            }
        },
    }
}

/// Connection `cid`, whose established session is `local`, shouts `message`.
pub open spec fn shout_step(
    b: BureauView,
    cid: ConnectionId,
    local: Option<Seq<char>>,
    message: Seq<char>,
) -> (Result<Option<Seq<char>>, InhumanityError>, BureauView) {
    match local {
        None => (Err(InhumanityError::NoActiveSession), b),
        Some(id) => {
            if !has_session(b.games, id) {
                (Err(InhumanityError::SessionNotFound), b)
            } else {
                let game = b.games[session_index(b.games, id)];
                if game.investigator_cid == Some(cid) {
                    let (sent, after) = send_step(
                        b,
                        game.suspect_cid,
                        ServerCommandView::Echo { message },
                    );
                    match sent {
                        Ok(_) => (Ok(Some(id)), after),
                        Err(e) => (Err(e), b),
                    }
                } else {
                    (Err(InhumanityError::RoleViolation), b)
                }
            }
        },
    }
}

/// What handling `command` from connection `cid`, whose established session is `local`,
/// may return and leave behind.
pub open spec fn command_outcome(
    b: BureauView,
    cid: ConnectionId,
    local: Option<Seq<char>>,
    command: ClientCommandView,
    r: Result<Option<Seq<char>>, InhumanityError>,
    after: BureauView,
) -> bool {
    match command {
        ClientCommandView::LogInAsSuspect => suspect_login_outcome(b, cid, r, after),
        ClientCommandView::LogInAsInvestigator { suspect_id } => (r, after)
            == investigator_login_step(b, cid, suspect_id),
        ClientCommandView::InvestigatorShout { message } => (r, after) == shout_step(
            b,
            cid,
            local,
            message,
        ),
    }
}

/// Registers a new connection and greets it with `Connected`.
pub fn accept_connection(bureau: &mut Bureau) -> (r: ConnectionId)
    requires
        old(bureau).wf(),
        old(bureau)@.next_cid < u64::MAX,
    ensures
        final(bureau).wf(),
        r.0 == old(bureau)@.next_cid,
        final(bureau)@ == (BureauView {
            next_cid: (r.0 + 1) as u64,
            connections: old(bureau)@.connections.insert(r.0),
            outbox: old(bureau)@.outbox.push((r, ServerCommandView::Connected)),
            ..old(bureau)@
        }),
{
    let cid = bureau.connect();
    let _ = bureau.send(cid, ServerCommand::Connected);
    cid
}

/// Applies one command of connection `cid`, whose established session is `suspect_id`,
/// and returns the connection's session afterwards.
pub fn handle_client_message(
    bureau: &mut Bureau,
    cid: ConnectionId,
    suspect_id: Option<SuspectId>,
    command: ClientCommand,
) -> (r: Result<Option<SuspectId>, InhumanityError>)
    requires
        old(bureau).wf(),
    ensures
        final(bureau).wf(),
        sessions_kept(old(bureau)@.games, final(bureau)@.games),
        command_outcome(
            old(bureau)@,
            cid,
            local_view(suspect_id),
            command@,
            outcome_view(r),
            final(bureau)@,
        ),
{
    match command {
        ClientCommand::LogInAsSuspect => {
            let id = match bureau.new_game(cid) {
                Ok(id) => id,
                Err(e) => {
                    return Err(e);
                },
            };
            match bureau.send(cid, ServerCommand::BecomeSuspect { suspect_id: id.clone() }) {
                Ok(()) => Ok(Some(id)),
                Err(e) => Err(e),
            }
        },
        ClientCommand::LogInAsInvestigator { suspect_id: requested } => {
            match bureau.attach_investigator(&requested, cid) {
                Ok(()) => {},
                Err(e) => {
                    return Err(e);
                },
            }
            match bureau.send(
                cid,
                ServerCommand::BecomeInvestigator { suspect_id: requested.clone() },
            ) {
                Ok(()) => Ok(Some(requested)),
                Err(e) => Err(e),
            }
        },
        ClientCommand::InvestigatorShout { message } => {
            let id = match suspect_id {
                Some(id) => id,
                None => {
                    return Err(InhumanityError::NoActiveSession);
                },
            };
            let (investigator_cid, suspect_cid) = match bureau.game(&id) {
                Some(game) => (game.investigator_cid, game.suspect_cid),
                None => {
                    return Err(InhumanityError::SessionNotFound);
                },
            };
            let is_investigator = match investigator_cid {
                Some(c) => c == cid,
                None => false,
            };
            if is_investigator {
                match bureau.send(suspect_cid, ServerCommand::Echo { message }) {
                    Ok(()) => Ok(Some(id)),
                    Err(e) => Err(e),
                }
            } else {
                Err(InhumanityError::RoleViolation)
            }
        },
    }
}

/// Once an investigator has been attached to a session, every later attempt to attach
/// one to it fails with `InvestigatorAlreadyAssigned` and changes nothing, whatever
/// other operations ran in between (they keep the sessions, as each operation states).
pub proof fn lemma_investigator_attached_once(
    before: Seq<GameView>,
    later: Seq<GameView>,
    id: Seq<char>,
    winner: ConnectionId,
    loser: ConnectionId,
)
    requires
        codes_distinct(before),
        codes_distinct(later),
        attach_step(before, id, winner).0 == Ok::<(), InhumanityError>(()),
        sessions_kept(attach_step(before, id, winner).1, later),
    ensures
        attach_step(later, id, loser) == (
            Err::<(), InhumanityError>(InhumanityError::InvestigatorAlreadyAssigned),
            later,
        ),
{
    let i = session_index(before, id);
    let attached = attach_step(before, id, winner).1;
    assert(attached[i].suspect_id == id);
    lemma_session_index(later, id, i);
}

/// A shout by the recorded investigator of a session whose suspect is connected
/// delivers exactly one `Echo`, carrying the message unchanged, to the suspect,
/// and changes nothing else.
pub proof fn lemma_investigator_shout_echoes(
    b: BureauView,
    cid: ConnectionId,
    id: Seq<char>,
    message: Seq<char>,
)
    requires
        b.wf(),
        has_session(b.games, id),
        b.games[session_index(b.games, id)].investigator_cid == Some(cid),
        b.connections.contains(b.games[session_index(b.games, id)].suspect_cid.0),
    ensures
        shout_step(b, cid, Some(id), message) == (
            Ok::<Option<Seq<char>>, InhumanityError>(Some(id)),
            BureauView {
                outbox: b.outbox.push(
                    (
                        b.games[session_index(b.games, id)].suspect_cid,
                        ServerCommandView::Echo { message },
                    ),
                ),
                ..b
            },
        ),
{
}

/// A shout from a connection without an established session, or from the suspect of
/// its session who is not also its investigator, fails and delivers nothing.
pub proof fn lemma_shout_without_role_fails(
    b: BureauView,
    cid: ConnectionId,
    local: Option<Seq<char>>,
    message: Seq<char>,
)
    requires
        b.wf(),
        match local {
            None => true,
            Some(id) => has_session(b.games, id) && b.games[session_index(
                b.games,
                id,
            )].suspect_cid == cid && b.games[session_index(b.games, id)].investigator_cid != Some(
                cid,
            ),
        },
    ensures
        shout_step(b, cid, local, message).0 is Err,
        shout_step(b, cid, local, message).1 == b,
{
}

/// A suspect login on a live connection, while no session exists, succeeds: it opens
/// one session under a well-formed code and sends `BecomeSuspect` with that code to the
/// connection, and nothing else.
pub proof fn lemma_suspect_login_without_sessions_succeeds(
    b: BureauView,
    cid: ConnectionId,
    r: Result<Option<Seq<char>>, InhumanityError>,
    after: BureauView,
)
    requires
        b.games.len() == 0,
        b.connections.contains(cid.0),
        suspect_login_outcome(b, cid, r, after),
    ensures
        r matches Ok(Some(id)) && is_suspect_code(id) && after == (BureauView {
            games: seq![GameView { suspect_id: id, suspect_cid: cid, investigator_cid: None }],
            outbox: b.outbox.push((cid, ServerCommandView::BecomeSuspect { suspect_id: id })),
            ..b
        }),
{
    let id = after.games.last().suspect_id;
    assert(b.games.push(GameView { suspect_id: id, suspect_cid: cid, investigator_cid: None })
        =~= seq![GameView { suspect_id: id, suspect_cid: cid, investigator_cid: None }]);
}

/// An investigator login with a code that names no session fails with
/// `SessionNotFound` and changes nothing.
pub proof fn lemma_unknown_code_login_fails(b: BureauView, cid: ConnectionId, id: Seq<char>)
    requires
        !has_session(b.games, id),
    ensures
        investigator_login_step(b, cid, id) == (
            Err::<Option<Seq<char>>, InhumanityError>(InhumanityError::SessionNotFound),
            b,
        ),
{
}

} // verus!

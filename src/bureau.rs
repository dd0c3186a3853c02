use std::collections::HashSet;
use vstd::prelude::*;
use vstd::std_specs::hash::*;

use crate::ids::{is_suspect_code, random_suspect_id, ConnectionId, SuspectId};

verus! {

broadcast use group_hash_axioms;

/// Every way in which handling a connection's command can fail.
#[derive(Clone, Copy, Debug, PartialEq, Eq, Structural)]
pub enum InhumanityError {
    /// The inbound frame is malformed or has an unknown tag.
    ProtocolParseError,
    /// The target of a send is not a live connection.
    ConnectionNotFound,
    /// No session has the given code.
    SessionNotFound,
    /// The session already has its investigator.
    InvestigatorAlreadyAssigned,
    /// The connection does not hold the role that the command needs.
    RoleViolation,
    /// The command needs a session that the connection has not established.
    NoActiveSession,
    /// An outbound command could not be encoded.
    SerializationError,
    /// Writing to a live connection failed.
    TransportError,
    /// No unused session code was found within the allotted attempts.
    IdentifierSpaceExhausted,
}

/// A frame that the server sends to a client.
#[derive(Debug)]
pub enum ServerCommand {
    Connected,
    BecomeSuspect { suspect_id: SuspectId },
    BecomeInvestigator { suspect_id: SuspectId },
    Echo { message: String },
}

pub enum ServerCommandView {
    Connected,
    BecomeSuspect { suspect_id: Seq<char> },
    BecomeInvestigator { suspect_id: Seq<char> },
    Echo { message: Seq<char> },
}

impl View for ServerCommand {
    type V = ServerCommandView;

    open spec fn view(&self) -> ServerCommandView {
        match self {
            ServerCommand::Connected => ServerCommandView::Connected,
            ServerCommand::BecomeSuspect { suspect_id } => ServerCommandView::BecomeSuspect {
                suspect_id: suspect_id@,
            },
            ServerCommand::BecomeInvestigator { suspect_id } =>
                ServerCommandView::BecomeInvestigator { suspect_id: suspect_id@ },
            ServerCommand::Echo { message } => ServerCommandView::Echo { message: message@ },
        }
    }
}

/// A frame waiting to be written to its target connection.
#[derive(Debug)]
pub struct Outgoing {
    pub target: ConnectionId,
    pub command: ServerCommand,
}

impl View for Outgoing {
    type V = (ConnectionId, ServerCommandView);

    open spec fn view(&self) -> (ConnectionId, ServerCommandView) {
        (self.target, self.command@)
    }
}

/// The pairing of one suspect connection with at most one investigator connection.
#[derive(Debug)]
pub struct Game {
    pub suspect_id: SuspectId,
    pub suspect_cid: ConnectionId,
    pub investigator_cid: Option<ConnectionId>,
}

pub struct GameView {
    pub suspect_id: Seq<char>,
    pub suspect_cid: ConnectionId,
    pub investigator_cid: Option<ConnectionId>,
}

impl View for Game {
    type V = GameView;

    open spec fn view(&self) -> GameView {
        GameView {
            suspect_id: self.suspect_id@,
            suspect_cid: self.suspect_cid,
            investigator_cid: self.investigator_cid,
        }
    }
}

/// The abstract state of a bureau.
pub struct BureauView {
    /// The identifier that the next connection gets.
    pub next_cid: u64,
    /// The live connections.
    pub connections: Set<u64>,
    /// The sessions, in order of creation.
    pub games: Seq<GameView>,
    /// Frames accepted for delivery and not yet handed to the transport.
    pub outbox: Seq<(ConnectionId, ServerCommandView)>,
}

/// No two sessions share a code.
pub open spec fn codes_distinct(games: Seq<GameView>) -> bool {
    forall|i: int, j: int|
        0 <= i < games.len() && 0 <= j < games.len() && i != j ==> games[i].suspect_id
            != games[j].suspect_id
}

impl BureauView {
    pub open spec fn wf(&self) -> bool {
        &&& codes_distinct(self.games)
        &&& forall|i: int| 0 <= i < self.games.len() ==> is_suspect_code(#[trigger] self.games[i].suspect_id)
        &&& forall|c: u64| self.connections.contains(c) ==> c < self.next_cid
    }
}

pub open spec fn has_session(games: Seq<GameView>, id: Seq<char>) -> bool {
    exists|i: int| 0 <= i < games.len() && games[i].suspect_id == id
}

/// Where the session with the given code stands (meaningful when there is one).
pub open spec fn session_index(games: Seq<GameView>, id: Seq<char>) -> int {
    choose|i: int| 0 <= i < games.len() && games[i].suspect_id == id
}

/// What attaching `cid` as investigator of session `id` returns, and the sessions after it.
pub open spec fn attach_step(games: Seq<GameView>, id: Seq<char>, cid: ConnectionId) -> (
    Result<(), InhumanityError>,
    Seq<GameView>,
) {
    if !has_session(games, id) {
        (Err(InhumanityError::SessionNotFound), games)
    } else {
        let i = session_index(games, id);
        if games[i].investigator_cid is Some {
            (Err(InhumanityError::InvestigatorAlreadyAssigned), games)
        } else {
            (Ok(()), games.update(i, GameView { investigator_cid: Some(cid), ..games[i] }))
        }
    }
}

/// What sending `command` to `target` returns, and the state after it.
pub open spec fn send_step(b: BureauView, target: ConnectionId, command: ServerCommandView) -> (
    Result<(), InhumanityError>,
    BureauView,
) {
    if b.connections.contains(target.0) {
        (Ok(()), BureauView { outbox: b.outbox.push((target, command)), ..b })
    } else {
        (Err(InhumanityError::ConnectionNotFound), b)
    }
}

/// Every session of `before` is still in `after` at its place, with its code and
/// suspect, and keeps its investigator once it has one.
pub open spec fn sessions_kept(before: Seq<GameView>, after: Seq<GameView>) -> bool {
    &&& before.len() <= after.len()
    &&& forall|i: int|
        0 <= i < before.len() ==> {
            &&& (#[trigger] after[i]).suspect_id == before[i].suspect_id
            &&& after[i].suspect_cid == before[i].suspect_cid
            &&& (before[i].investigator_cid is Some ==> after[i].investigator_cid
                == before[i].investigator_cid)
        }
}

/// `k` is the first of `candidates` that names no session.
pub open spec fn first_unused_at(games: Seq<GameView>, candidates: Seq<Seq<char>>, k: int) -> bool {
    &&& 0 <= k < candidates.len()
    &&& !has_session(games, candidates[k])
    &&& forall|j: int| 0 <= j < k ==> has_session(games, #[trigger] candidates[j])
}

/// How many times a fresh code is drawn before allocation gives up.
pub const MAX_SUSPECT_ID_ATTEMPTS: usize = 64;

/// The process-wide registry of connections and sessions.
pub struct Bureau {
    next_cid: u64,
    connections: HashSet<u64>,
    /// Sessions keyed by their code; `wf` keeps the codes distinct, so this is a map
    /// whose lookups can be proved (a string-keyed hash map gives no such facts).
    games: Vec<Game>,
    outbox: Vec<Outgoing>,
}

impl View for Bureau {
    type V = BureauView;

    closed spec fn view(&self) -> BureauView {
        BureauView {
            next_cid: self.next_cid,
            connections: self.connections@,
            games: self.games@.map_values(|g: Game| g@),
            outbox: self.outbox@.map_values(|o: Outgoing| o@),
        }
    }
}

impl Bureau {
    pub open spec fn wf(&self) -> bool {
        self@.wf()
    }

    pub fn new() -> (r: Bureau)
        ensures
            r.wf(),
            r@.next_cid == 0,
            r@.connections == Set::<u64>::empty(),
            r@.games == Seq::<GameView>::empty(),
            r@.outbox == Seq::<(ConnectionId, ServerCommandView)>::empty(),
    {
        let r = Bureau {
            next_cid: 0,
            connections: HashSet::new(),
            games: Vec::new(),
            outbox: Vec::new(),
        };
        assert(r@.games =~= Seq::<GameView>::empty());
        assert(r@.outbox =~= Seq::<(ConnectionId, ServerCommandView)>::empty());
        r
    }

    fn next_cid(&mut self) -> (r: ConnectionId)
        requires
            old(self)@.next_cid < u64::MAX,
        ensures
            r.0 == old(self)@.next_cid,
            final(self)@ == (BureauView { next_cid: (r.0 + 1) as u64, ..old(self)@ }),
    {
        let result = ConnectionId(self.next_cid);
        self.next_cid = self.next_cid + 1;
        result
    }

    /// Whether another connection identifier can still be handed out.
    pub fn can_connect(&self) -> (r: bool)
        ensures
            r == (self@.next_cid < u64::MAX),
    {
        self.next_cid < u64::MAX
    }

    /// Registers a new connection under an identifier never handed out before.
    pub fn connect(&mut self) -> (r: ConnectionId)
        requires
            old(self).wf(),
            old(self)@.next_cid < u64::MAX,
        ensures
            final(self).wf(),
            r.0 == old(self)@.next_cid,
            !old(self)@.connections.contains(r.0),
            final(self)@ == (BureauView {
                next_cid: (r.0 + 1) as u64,
                connections: old(self)@.connections.insert(r.0),
                ..old(self)@
            }),
    {
        let cid = self.next_cid();
        self.connections.insert(cid.0);
        cid
    }

    /// Forgets a connection; sessions that name it are left as they are.
    pub fn disconnect(&mut self, cid: ConnectionId)
        requires
            old(self).wf(),
        ensures
            final(self).wf(),
            final(self)@ == (BureauView {
                connections: old(self)@.connections.remove(cid.0),
                ..old(self)@
            }),
    {
        self.connections.remove(&cid.0);
    }

    /// Accepts `command` for delivery to `cid`, which must be a live connection.
    pub fn send(&mut self, cid: ConnectionId, command: ServerCommand) -> (r: Result<
        (),
        InhumanityError,
    >)
        requires
            old(self).wf(),
        ensures
            final(self).wf(),
            (r, final(self)@) == send_step(old(self)@, cid, command@),
    {
        if self.connections.contains(&cid.0) {
            self.outbox.push(Outgoing { target: cid, command });
            assert(self@.outbox =~= old(self)@.outbox.push((cid, command@)));
            assert(self@.games == old(self)@.games);
            assert(self@.connections == old(self)@.connections);
            assert(self.wf());
            Ok(())
        } else {
            assert(self.wf());
            Err(InhumanityError::ConnectionNotFound)
        }
    }

    /// Hands over the frames accepted so far, oldest first, and empties the outbox.
    pub fn take_outbox(&mut self) -> (r: Vec<Outgoing>)
        requires
            old(self).wf(),
        ensures
            final(self).wf(),
            r@.map_values(|o: Outgoing| o@) == old(self)@.outbox,
            final(self)@ == (BureauView {
                outbox: Seq::<(ConnectionId, ServerCommandView)>::empty(),
                ..old(self)@
            }),
    {
        let mut taken: Vec<Outgoing> = Vec::new();
        std::mem::swap(&mut taken, &mut self.outbox);
        assert(self@.outbox =~= Seq::<(ConnectionId, ServerCommandView)>::empty());
        taken
    }

    /// The position of the session named `suspect_id`, if there is one.
    fn find_game(&self, suspect_id: &SuspectId) -> (r: Option<usize>)
        ensures
            r is None <==> !has_session(self@.games, suspect_id@),
            r matches Some(i) ==> i < self@.games.len() && self@.games[i as int].suspect_id
                == suspect_id@,
    {
        let mut i: usize = 0;
        while i < self.games.len()
            invariant
                i <= self.games@.len(),
                forall|j: int| 0 <= j < i ==> self@.games[j].suspect_id != suspect_id@,
            decreases self.games@.len() - i,
        {
            if self.games[i].suspect_id.0 == suspect_id.0 {
                return Some(i);
            }
            i = i + 1;
        }
        None
    }

    /// Whether some session is named `suspect_id`.
    pub fn has_game(&self, suspect_id: &SuspectId) -> (r: bool)
        ensures
            r == has_session(self@.games, suspect_id@),
    {
        self.find_game(suspect_id).is_some()
    }

    /// The session named `suspect_id`, if there is one.
    pub fn game(&self, suspect_id: &SuspectId) -> (r: Option<&Game>)
        requires
            self.wf(),
        ensures
            r is None <==> !has_session(self@.games, suspect_id@),
            r matches Some(g) ==> g@ == self@.games[session_index(self@.games, suspect_id@)],
    {
        match self.find_game(suspect_id) {
            Some(i) => {
                proof {
                    lemma_session_index(self@.games, suspect_id@, i as int);
                }
                Some(&self.games[i])
            },
            None => None,
        }
    }

    /// The first of `candidates` that names no session, if any.
    pub fn first_unused(&self, candidates: &Vec<SuspectId>) -> (r: Option<SuspectId>)
        ensures
            r is None <==> forall|k: int|
                0 <= k < candidates@.len() ==> has_session(self@.games, #[trigger] candidates@[k]@),
            r matches Some(id) ==> exists|k: int|
                first_unused_at(self@.games, candidates@.map_values(|c: SuspectId| c@), k)
                    && id@ == candidates@[k]@,
    {
        let ghost cands = candidates@.map_values(|c: SuspectId| c@);
        let mut i: usize = 0;
        while i < candidates.len()
            invariant
                i <= candidates@.len(),
                cands == candidates@.map_values(|c: SuspectId| c@),
                forall|j: int| 0 <= j < i ==> has_session(self@.games, #[trigger] candidates@[j]@),
            decreases candidates@.len() - i,
        {
            if !self.has_game(&candidates[i]) {
                proof {
                    assert(first_unused_at(self@.games, cands, i as int));
                }
                return Some(candidates[i].clone());
            }
            i = i + 1;
        }
        None
    }

    /// Draws a batch of candidate codes and takes the first one that is not in use.
    pub fn next_suspect_id(&self) -> (r: Option<SuspectId>)
        ensures
            r matches Some(id) ==> is_suspect_code(id@) && !has_session(self@.games, id@),
            self@.games.len() == 0 ==> r is Some,
    {
        let mut candidates: Vec<SuspectId> = Vec::new();
        while candidates.len() < MAX_SUSPECT_ID_ATTEMPTS
            invariant
                candidates@.len() <= MAX_SUSPECT_ID_ATTEMPTS,
                forall|j: int| 0 <= j < candidates@.len() ==> is_suspect_code(#[trigger] candidates@[j]@),
            decreases MAX_SUSPECT_ID_ATTEMPTS - candidates@.len(),
        {
            candidates.push(random_suspect_id());
        }
        let r = self.first_unused(&candidates);
        proof {
            if self@.games.len() == 0 {
                assert(!has_session(self@.games, candidates@[0]@));
            }
            if r is Some {
                let k = choose|k: int|
                    first_unused_at(self@.games, candidates@.map_values(|c: SuspectId| c@), k)
                        && r->0@ == candidates@[k]@;
                assert(is_suspect_code(candidates@[k]@));
            }
        }
        r
    }

    /// Opens a session whose suspect is `suspect_cid`, under a fresh code.
    pub fn new_game(&mut self, suspect_cid: ConnectionId) -> (r: Result<SuspectId, InhumanityError>)
        requires
            old(self).wf(),
        ensures
            final(self).wf(),
            sessions_kept(old(self)@.games, final(self)@.games),
            old(self)@.games.len() == 0 ==> r is Ok,
            match r {
                Ok(id) => {
                    &&& is_suspect_code(id@)
                    &&& !has_session(old(self)@.games, id@)
                    &&& final(self)@ == (BureauView {
                        games: old(self)@.games.push(
                            GameView { suspect_id: id@, suspect_cid, investigator_cid: None },
                        ),
                        ..old(self)@
                    })
                },
                Err(e) => e == InhumanityError::IdentifierSpaceExhausted && final(self)@ == old(
                    self,
                )@,
            },
    {
        match self.next_suspect_id() {
            Some(suspect_id) => {
                let game = Game {
                    suspect_id: suspect_id.clone(),
                    suspect_cid,
                    investigator_cid: None,
                };
                self.games.push(game);
                assert(self@.games =~= old(self)@.games.push(
                    GameView { suspect_id: suspect_id@, suspect_cid, investigator_cid: None },
                ));
                assert forall|i: int, j: int|
                    0 <= i < self@.games.len() && 0 <= j < self@.games.len() && i != j implies
                    self@.games[i].suspect_id != self@.games[j].suspect_id by {
                    let n = old(self)@.games.len() as int;
                    if i == n {
                        assert(old(self)@.games[j].suspect_id == self@.games[j].suspect_id);
                    }
                    if j == n {
                        assert(old(self)@.games[i].suspect_id == self@.games[i].suspect_id);
                    }
                }
                Ok(suspect_id)
            },
            None => Err(InhumanityError::IdentifierSpaceExhausted),
        }
    }

    /// Records `cid` as the investigator of session `suspect_id`, which must not have one yet.
    pub fn attach_investigator(&mut self, suspect_id: &SuspectId, cid: ConnectionId) -> (r: Result<
        (),
        InhumanityError,
    >)
        requires
            old(self).wf(),
        ensures
            final(self).wf(),
            sessions_kept(old(self)@.games, final(self)@.games),
            (r, final(self)@.games) == attach_step(old(self)@.games, suspect_id@, cid),
            final(self)@ == (BureauView { games: final(self)@.games, ..old(self)@ }),
    {
        match self.find_game(suspect_id) {
            None => Err(InhumanityError::SessionNotFound),
            Some(i) => {
                proof {
                    lemma_session_index(self@.games, suspect_id@, i as int);
                }
                if self.games[i].investigator_cid.is_some() {
                    Err(InhumanityError::InvestigatorAlreadyAssigned)
                } else {
                    self.games[i].investigator_cid = Some(cid);
                    assert(self@.games =~= old(self)@.games.update(
                        i as int,
                        GameView { investigator_cid: Some(cid), ..old(self)@.games[i as int] },
                    ));
                    Ok(())
                }
            },
        }
    }
}

/// With distinct codes, the session found under a code is the one at its position.
pub proof fn lemma_session_index(games: Seq<GameView>, id: Seq<char>, i: int)
    requires
        codes_distinct(games),
        0 <= i < games.len(),
        games[i].suspect_id == id,
    ensures
        has_session(games, id),
        session_index(games, id) == i,
{
    assert(has_session(games, id));
}

} // verus!

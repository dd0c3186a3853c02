use vstd::prelude::*;

use crate::bureau::{sessions_kept, Bureau, BureauView, InhumanityError};
use crate::ids::{ConnectionId, SuspectId};
use crate::protocol::{
    command_outcome, handle_client_message, local_view, outcome_view, ClientCommand,
};

verus! {

/// What the transport reports to a connection's receive loop.
pub enum ConnectionEvent {
    /// A frame arrived and was parsed into a command.
    Command(ClientCommand),
    /// Reading, parsing or writing failed.
    Failed(InhumanityError),
    /// The client closed the connection.
    Closed,
}

/// What the receive loop does next.
#[derive(Debug)]
pub enum ConnectionAction {
    /// Read the next frame; the connection's established session is now this.
    Continue(Option<SuspectId>),
    /// Stop reading: the connection has been disconnected, because of this failure if any.
    Terminate(Option<InhumanityError>),
}

pub enum ConnectionActionView {
    Continue(Option<Seq<char>>),
    Terminate(Option<InhumanityError>),
}

impl View for ConnectionAction {
    type V = ConnectionActionView;

    open spec fn view(&self) -> ConnectionActionView {
        match self {
            ConnectionAction::Continue(s) => ConnectionActionView::Continue(local_view(*s)),
            ConnectionAction::Terminate(e) => ConnectionActionView::Terminate(*e),
        }
    }
}

/// The state with connection `cid` forgotten.
pub open spec fn without_connection(b: BureauView, cid: ConnectionId) -> BureauView {
    BureauView { connections: b.connections.remove(cid.0), ..b }
}

/// Advances the receive loop of connection `cid`, whose established session is
/// `suspect_id`: a command is applied; any failure, and a close, ends the connection.
pub fn on_connection_event(
    bureau: &mut Bureau,
    cid: ConnectionId,
    suspect_id: Option<SuspectId>,
    event: ConnectionEvent,
) -> (r: ConnectionAction)
    requires
        old(bureau).wf(),
    ensures
        final(bureau).wf(),
        sessions_kept(old(bureau)@.games, final(bureau)@.games),
        match event {
            ConnectionEvent::Command(command) => exists|
                res: Result<Option<Seq<char>>, InhumanityError>,
                mid: BureauView,
            |
                #[trigger] command_outcome(
                    old(bureau)@,
                    cid,
                    local_view(suspect_id),
                    command@,
                    res,
                    mid,
                ) && match res {
                    Ok(s) => r@ == ConnectionActionView::Continue(s) && final(bureau)@ == mid,
                    Err(e) => r@ == ConnectionActionView::Terminate(Some(e)) && final(bureau)@
                        == without_connection(mid, cid),
                },
            ConnectionEvent::Failed(e) => r@ == ConnectionActionView::Terminate(Some(e))
                && final(bureau)@ == without_connection(old(bureau)@, cid),
            ConnectionEvent::Closed => r@ == ConnectionActionView::Terminate(None)
                && final(bureau)@ == without_connection(old(bureau)@, cid),
        },
{
    match event {
        ConnectionEvent::Command(command) => {
            let ghost local = local_view(suspect_id);
            let ghost c = command@;
            let result = handle_client_message(bureau, cid, suspect_id, command);
            let ghost mid = bureau@;
            let ghost res = outcome_view(result);
            proof {
                assert(command_outcome(old(bureau)@, cid, local, c, res, mid));
            }
            match result {
                Ok(s) => ConnectionAction::Continue(s),
                Err(e) => {
                    bureau.disconnect(cid);
                    ConnectionAction::Terminate(Some(e))
                },
            }
        },
        ConnectionEvent::Failed(e) => {
            bureau.disconnect(cid);
            ConnectionAction::Terminate(Some(e))
        },
        ConnectionEvent::Closed => {
            bureau.disconnect(cid);
            ConnectionAction::Terminate(None)
        },
    }
}

} // verus!

//! The delivery coordinator: invoked once a log is durably persisted, it
//! looks up a live connection for the log's scope and hands back the push to
//! perform, or absorbs the miss into the retry queue. Persistence always
//! precedes this step and never depends on its outcome; the caller's
//! submission result is unaffected by anything decided here.

use vstd::prelude::*;

use crate::connection::SendLogId;
use crate::scope::TenantScope;
use crate::server::WebSocketServer;
use crate::websocket_queue::{RetryQueueEntry, WebSocketQueue};

verus! {

/// One delivery attempt for the freshly persisted log `log_id` in scope
/// `(organization_id, application_id)`. Picks one connection: on a hit,
/// returns the connection id and the notification to push, leaving the queue
/// untouched; on a miss, appends exactly one retry entry holding the
/// attempted triple. A miss is the expected branch, not an error.
pub fn process_log(
    server: &WebSocketServer,
    queue: &mut WebSocketQueue,
    organization_id: u128,
    application_id: u128,
    log_id: u128,
) -> (r: Option<(u64, SendLogId)>)
    requires
        server.wf(),
    ensures
        ({
            let scope = TenantScope { organization_id, application_id };
            match r {
                Some((conn, msg)) => server.spec_pick(scope) == Some(conn) && msg == (SendLogId {
                    log_id,
                    app_id: application_id,
                }) && final (queue)@ == old(queue)@,
                None => server.spec_pick(scope) is None && final (queue)@ == old(queue)@.push(
                    RetryQueueEntry { organization_id, application_id, log_id },
                ),
            }
        }),
{
    match server.push_log_id(organization_id, application_id, log_id) {
        Some(push) => Some(push),
        None => {
            queue.enqueue(RetryQueueEntry { organization_id, application_id, log_id });
            None
        },
    }
}

} // verus!

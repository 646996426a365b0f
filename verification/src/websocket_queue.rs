//! The retry queue: a FIFO of delivery attempts that found no live
//! subscriber, plus the single poll step the background poller runs on a
//! fixed interval. An entry circulates until a connection appears for its
//! scope; the queue is unbounded and in-memory only, so a process restart
//! loses pending entries while the logs themselves stay durably stored.

use std::collections::VecDeque;

use vstd::prelude::*;

use crate::connection::SendLogId;
use crate::scope::TenantScope;
use crate::server::WebSocketServer;

verus! {

/// One queued, not-yet-delivered notification attempt: the tenant scope and
/// the log that awaits a live connection.
#[derive(Clone, Copy, PartialEq, Eq, Structural, Debug)]
pub struct RetryQueueEntry {
    pub organization_id: u128,
    pub application_id: u128,
    pub log_id: u128,
}

impl RetryQueueEntry {
    /// The scope the entry awaits a connection for.
    pub open spec fn spec_scope(&self) -> TenantScope {
        TenantScope {
            organization_id: self.organization_id,
            application_id: self.application_id,
        }
    }

    pub fn scope(&self) -> (s: TenantScope)
        ensures
            s == self.spec_scope(),
    {
        TenantScope {
            organization_id: self.organization_id,
            application_id: self.application_id,
        }
    }
}

/// The retry queue itself: entries wait head-first, oldest at the head.
pub struct WebSocketQueue {
    queue: VecDeque<RetryQueueEntry>,
}

impl View for WebSocketQueue {
    type V = Seq<RetryQueueEntry>;

    closed spec fn view(&self) -> Seq<RetryQueueEntry> {
        self.queue@
    }
}

impl WebSocketQueue {
    /// Creates an empty retry queue.
    pub fn new() -> (q: WebSocketQueue)
        ensures
            q@ == Seq::<RetryQueueEntry>::empty(),
    {
        WebSocketQueue { queue: VecDeque::new() }
    }

    /// Appends a missed delivery to the tail.
    pub fn enqueue(&mut self, entry: RetryQueueEntry)
        ensures
            final (self)@ == old(self)@.push(entry),
    {
        self.queue.push_back(entry);
    }

    /// Removes and returns the oldest entry, if any.
    pub fn dequeue(&mut self) -> (r: Option<RetryQueueEntry>)
        ensures
            match r {
                Some(e) => old(self)@.len() > 0 && e == old(self)@[0] && final (self)@ == old(
                    self,
                )@.drop_first(),
                None => old(self)@.len() == 0 && final (self)@ == old(self)@,
            },
    {
        let r = self.queue.pop_front();
        proof {
            if old(self)@.len() > 0 {
                assert(self.queue@ =~= old(self)@.drop_first());
            }
        }
        r
    }

    /// The number of pending entries; for observability only.
    pub fn size(&self) -> (n: usize)
        ensures
            n == self@.len(),
    {
        self.queue.len()
    }

    /// One tick of the background poller: pops the oldest entry and retries
    /// it against the registry. On a hit the entry is consumed and the
    /// delivery to perform is returned; on a miss the entry goes back to the
    /// tail. An empty queue is left untouched. Failure to find a handle is
    /// absorbed here, never surfaced as an error.
    pub fn process_queue(&mut self, server: &WebSocketServer) -> (r: Option<(u64, SendLogId)>)
        requires
            server.wf(),
        ensures
            old(self)@.len() == 0 ==> r is None && final (self)@ == old(self)@,
            old(self)@.len() > 0 ==> {
                let e = old(self)@[0];
                match r {
                    Some((conn, msg)) => server.spec_pick(e.spec_scope()) == Some(conn)
                        && msg == (SendLogId { log_id: e.log_id, app_id: e.application_id })
                        && final (self)@ == old(self)@.drop_first(),
                    None => server.spec_pick(e.spec_scope()) is None && final (self)@ == old(
                        self,
                    )@.drop_first().push(e),
                }
            },
    {
        match self.dequeue() {
            Some(entry) => {
                match server.get_connection(entry.scope()) {
                    Some(conn) => Some(
                        (conn, SendLogId { log_id: entry.log_id, app_id: entry.application_id }),
                    ),
                    None => {
                        self.enqueue(entry);
                        None
                    },
                }
            },
            None => None,
        }
    }
}

} // verus!

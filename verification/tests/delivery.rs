use cadmium::connection::{ConnectionState, FrameAction, InboundFrame, SendLogId, WebSocketActor};
use cadmium::log_service::process_log;
use cadmium::scope::TenantScope;
use cadmium::server::WebSocketServer;
use cadmium::websocket_queue::{RetryQueueEntry, WebSocketQueue};

fn hex24(v: u128) -> String {
    let mut s = String::new();
    for i in 0..24 {
        let shift = 4 * (23 - i);
        let d = ((v >> shift) & 0xf) as u32;
        s.push(char::from_digit(d, 16).unwrap());
    }
    s
}

#[test]
fn pick_on_empty_scope_returns_none() {
    let server = WebSocketServer::new();
    let scope = TenantScope::new(1, 2);
    assert_eq!(server.get_connection(scope), None);
    assert_eq!(server.connection_count(scope), 0);
}

#[test]
fn register_then_deregister_restores_handles() {
    let mut server = WebSocketServer::new();
    let scope = TenantScope::new(10, 20);
    server.add_connection(scope, 5);
    server.add_connection(scope, 7);
    server.remove_connection(scope, 7);
    assert_eq!(server.connections_of(scope), vec![5]);
    server.remove_connection(scope, 5);
    assert_eq!(server.connections_of(scope), Vec::<u64>::new());
    assert_eq!(server.get_connection(scope), None);
}

#[test]
fn deregister_removes_first_matching_only() {
    let mut server = WebSocketServer::new();
    let scope = TenantScope::new(1, 1);
    server.add_connection(scope, 3);
    server.add_connection(scope, 4);
    server.add_connection(scope, 3);
    server.remove_connection(scope, 3);
    assert_eq!(server.connections_of(scope), vec![4, 3]);
}

#[test]
fn deregister_on_unknown_scope_is_noop() {
    let mut server = WebSocketServer::new();
    let scope = TenantScope::new(1, 1);
    let other = TenantScope::new(2, 2);
    server.add_connection(scope, 9);
    server.remove_connection(other, 9);
    server.remove_connection(scope, 1234);
    assert_eq!(server.connections_of(scope), vec![9]);
}

#[test]
fn scopes_are_isolated() {
    let mut server = WebSocketServer::new();
    let a = TenantScope::new(1, 1);
    let b = TenantScope::new(1, 2);
    server.add_connection(a, 1);
    server.add_connection(b, 2);
    assert_eq!(server.get_connection(a), Some(1));
    assert_eq!(server.get_connection(b), Some(2));
    server.remove_connection(a, 1);
    assert_eq!(server.get_connection(a), None);
    assert_eq!(server.get_connection(b), Some(2));
}

#[test]
fn pick_after_register_reaches_the_handle() {
    let mut server = WebSocketServer::new();
    let scope = TenantScope::new(7, 8);
    let mut actor = WebSocketActor::new(scope, 42);
    assert_eq!(actor.state, ConnectionState::Open);
    server.add_connection(scope, actor.conn_id);
    let picked = server.get_connection(scope).unwrap();
    assert_eq!(picked, 42);
    actor.handle(SendLogId { log_id: 1, app_id: 8 });
    assert_eq!(actor.outbox.len(), 1);
    let expected = format!("New log ID: {} and App ID: {}", hex24(1), hex24(8));
    assert_eq!(actor.outbox[0], expected);
}

#[test]
fn miss_creates_exactly_one_retry_entry() {
    let server = WebSocketServer::new();
    let mut queue = WebSocketQueue::new();
    assert_eq!(queue.size(), 0);
    let r = process_log(&server, &mut queue, 11, 22, 33);
    assert!(r.is_none());
    assert_eq!(queue.size(), 1);
    let entry = queue.dequeue().unwrap();
    assert_eq!(
        entry,
        RetryQueueEntry { organization_id: 11, application_id: 22, log_id: 33 }
    );
}

#[test]
fn hit_delivers_and_leaves_queue_alone() {
    let mut server = WebSocketServer::new();
    let mut queue = WebSocketQueue::new();
    let scope = TenantScope::new(11, 22);
    server.add_connection(scope, 5);
    let (conn, msg) = process_log(&server, &mut queue, 11, 22, 33).unwrap();
    assert_eq!(conn, 5);
    assert_eq!(msg, SendLogId { log_id: 33, app_id: 22 });
    assert_eq!(queue.size(), 0);
}

#[test]
fn queue_is_fifo() {
    let mut queue = WebSocketQueue::new();
    let e1 = RetryQueueEntry { organization_id: 1, application_id: 1, log_id: 1 };
    let e2 = RetryQueueEntry { organization_id: 2, application_id: 2, log_id: 2 };
    queue.enqueue(e1);
    queue.enqueue(e2);
    assert_eq!(queue.size(), 2);
    assert_eq!(queue.dequeue(), Some(e1));
    assert_eq!(queue.dequeue(), Some(e2));
    assert_eq!(queue.dequeue(), None);
}

#[test]
fn poll_requeues_miss_at_tail() {
    let server = WebSocketServer::new();
    let mut queue = WebSocketQueue::new();
    let e1 = RetryQueueEntry { organization_id: 1, application_id: 1, log_id: 1 };
    let e2 = RetryQueueEntry { organization_id: 2, application_id: 2, log_id: 2 };
    queue.enqueue(e1);
    queue.enqueue(e2);
    assert!(queue.process_queue(&server).is_none());
    assert_eq!(queue.size(), 2);
    assert_eq!(queue.dequeue(), Some(e2));
    assert_eq!(queue.dequeue(), Some(e1));
}

#[test]
fn poll_on_empty_queue_does_nothing() {
    let server = WebSocketServer::new();
    let mut queue = WebSocketQueue::new();
    assert!(queue.process_queue(&server).is_none());
    assert_eq!(queue.size(), 0);
}

#[test]
fn entry_delivered_within_one_poll_once_handle_appears() {
    let mut server = WebSocketServer::new();
    let mut queue = WebSocketQueue::new();
    assert!(process_log(&server, &mut queue, 1, 2, 3).is_none());
    assert_eq!(queue.size(), 1);
    server.add_connection(TenantScope::new(1, 2), 77);
    let (conn, msg) = queue.process_queue(&server).unwrap();
    assert_eq!(conn, 77);
    assert_eq!(msg, SendLogId { log_id: 3, app_id: 2 });
    assert_eq!(queue.size(), 0);
}

#[test]
fn interleaved_register_deregister_leaves_exact_set() {
    let mut server = WebSocketServer::new();
    let scope = TenantScope::new(9, 9);
    // six simulated connections; 2, 4 and 5 deregister, interleaved
    server.add_connection(scope, 1);
    server.add_connection(scope, 2);
    server.add_connection(scope, 3);
    server.remove_connection(scope, 2);
    server.add_connection(scope, 4);
    server.remove_connection(scope, 4);
    server.add_connection(scope, 5);
    server.add_connection(scope, 6);
    server.remove_connection(scope, 5);
    let left = server.connections_of(scope);
    assert_eq!(left, vec![1, 3, 6]);
}

#[test]
fn actor_answers_ping_with_pong() {
    let mut actor = WebSocketActor::new(TenantScope::new(1, 1), 1);
    let action = actor.handle_frame(InboundFrame::Ping(vec![1, 2, 3]));
    assert_eq!(action, FrameAction::Pong(vec![1, 2, 3]));
    assert_eq!(actor.state, ConnectionState::Open);
}

#[test]
fn actor_discards_pong_and_text() {
    let mut actor = WebSocketActor::new(TenantScope::new(1, 1), 1);
    assert_eq!(actor.handle_frame(InboundFrame::Pong), FrameAction::Ignore);
    assert_eq!(
        actor.handle_frame(InboundFrame::Text(String::from("hello"))),
        FrameAction::Ignore
    );
    assert_eq!(actor.state, ConnectionState::Open);
    assert!(actor.outbox.is_empty());
}

#[test]
fn actor_close_deregisters_and_moves_to_closing() {
    let mut actor = WebSocketActor::new(TenantScope::new(1, 1), 6);
    let mut server = WebSocketServer::new();
    server.add_connection(actor.scope, actor.conn_id);
    let action = actor.handle_frame(InboundFrame::Close);
    assert_eq!(action, FrameAction::Deregister);
    assert_eq!(actor.state, ConnectionState::Closing);
    server.remove_connection(actor.scope, actor.conn_id);
    assert_eq!(server.get_connection(actor.scope), None);
    actor.terminate();
    assert_eq!(actor.state, ConnectionState::Terminated);
}

#[test]
fn actor_error_also_deregisters() {
    let mut actor = WebSocketActor::new(TenantScope::new(1, 1), 6);
    assert_eq!(actor.handle_frame(InboundFrame::Error), FrameAction::Deregister);
    assert_eq!(actor.state, ConnectionState::Closing);
}

#[test]
fn scenario_no_connection_enqueues_triple() {
    // submission for (O1, A1) with no open connections: the log persists
    // (outside the library), the queue gains exactly {O1, A1, log}
    let server = WebSocketServer::new();
    let mut queue = WebSocketQueue::new();
    let o1 = 0xaaa;
    let a1 = 0xbbb;
    let log = 0xccc;
    assert!(process_log(&server, &mut queue, o1, a1, log).is_none());
    assert_eq!(queue.size(), 1);
}

#[test]
fn scenario_live_connection_gets_synchronous_push() {
    let mut server = WebSocketServer::new();
    let mut queue = WebSocketQueue::new();
    let o1 = 0xaaa;
    let a1 = 0xbbb;
    let log = 0xccc;
    let mut actor = WebSocketActor::new(TenantScope::new(o1, a1), 1);
    server.add_connection(actor.scope, actor.conn_id);
    let (conn, msg) = process_log(&server, &mut queue, o1, a1, log).unwrap();
    assert_eq!(conn, actor.conn_id);
    actor.handle(msg);
    assert_eq!(queue.size(), 0);
    let expected = format!("New log ID: {} and App ID: {}", hex24(log), hex24(a1));
    assert_eq!(actor.outbox, vec![expected]);
}

#[test]
fn scenario_pending_entry_drains_after_late_register() {
    let mut server = WebSocketServer::new();
    let mut queue = WebSocketQueue::new();
    let o1 = 0xaaa;
    let a1 = 0xbbb;
    let log = 0xccc;
    assert!(process_log(&server, &mut queue, o1, a1, log).is_none());
    assert_eq!(queue.size(), 1);
    // a poll before any connection appears keeps the entry pending
    assert!(queue.process_queue(&server).is_none());
    assert_eq!(queue.size(), 1);
    // a connection registers; the next poll delivers and drains
    let mut actor = WebSocketActor::new(TenantScope::new(o1, a1), 2);
    server.add_connection(actor.scope, actor.conn_id);
    let (conn, msg) = queue.process_queue(&server).unwrap();
    assert_eq!(conn, 2);
    actor.handle(msg);
    assert_eq!(queue.size(), 0);
    let expected = format!("New log ID: {} and App ID: {}", hex24(log), hex24(a1));
    assert_eq!(actor.outbox, vec![expected]);
}

use multiplayer_test::connection::Connection;
use multiplayer_test::connection::ConnectionError;
use multiplayer_test::connection::ConnectionHandle;
use multiplayer_test::connection::ConnectionId;
use multiplayer_test::connection::link;
use multiplayer_test::events::Event;
use multiplayer_test::trusted::RunFlag;

fn test_runtime() -> tokio::runtime::Runtime {
    tokio::runtime::Builder::new_multi_thread()
        .worker_threads(1)
        .enable_io()
        .enable_time()
        .build()
        .unwrap()
}

/// A handle whose "actor" is a stub task that immediately yields the
/// given result, together with the actor-side channel ends.
fn stub_handle(
    rt: &tokio::runtime::Runtime,
    actor_result: Result<(), ConnectionError>,
) -> (
    ConnectionHandle<String, String>,
    async_channel::Sender<String>,
    async_channel::Receiver<String>,
) {
    let wiring = link::<String, String>();
    let task = rt.spawn(async move { actor_result });
    let handle = ConnectionHandle::from_parts(
        wiring.to_conn,
        wiring.from_conn,
        ConnectionId { bits: 7 },
        wiring.running,
        rt.handle().clone(),
        task,
    );
    (handle, wiring.connection.to_handle, wiring.connection.from_handle)
}

#[test]
fn disconnect_twice_is_disconnected() {
    let rt = test_runtime();
    let (mut handle, to_handle, from_handle) = stub_handle(&rt, Err(ConnectionError::Disconnected));
    // The peer side is already gone: its channel ends are closed.
    to_handle.close();
    from_handle.close();
    assert_eq!(handle.disconnect_blocking(), Err(ConnectionError::Disconnected));
    assert_eq!(handle.disconnect_blocking(), Err(ConnectionError::Disconnected));
}

#[test]
fn disconnect_clean_then_disconnected() {
    let rt = test_runtime();
    let (mut handle, _to_handle, _from_handle) = stub_handle(&rt, Ok(()));
    assert_eq!(handle.disconnect_blocking(), Ok(()));
    assert_eq!(handle.disconnect_blocking(), Err(ConnectionError::Disconnected));
    assert_eq!(handle.disconnect_blocking(), Err(ConnectionError::Disconnected));
}

#[test]
fn send_after_close_returns_message() {
    let rt = test_runtime();
    let (mut handle, _to_handle, from_handle) = stub_handle(&rt, Ok(()));
    // The actor's receiving end closes: the connection is down.
    from_handle.close();
    let rejected = handle.send_blocking(String::from("keep me")).unwrap_err();
    assert_eq!(rejected.message, "keep me");
    assert_eq!(rejected.error, ConnectionError::Disconnected);
    // Once `Disconnected` has been observed, it stays observed.
    let again = handle.send_blocking(String::from("and me")).unwrap_err();
    assert_eq!(again.message, "and me");
    assert_eq!(again.error, ConnectionError::Disconnected);
    assert_eq!(handle.try_recv(), Err(ConnectionError::Disconnected));
}

#[test]
fn send_reaches_actor_side() {
    let rt = test_runtime();
    let (mut handle, _to_handle, from_handle) = stub_handle(&rt, Ok(()));
    assert!(handle.send_blocking(String::from("first")).is_ok());
    assert!(handle.send_blocking(String::from("second")).is_ok());
    assert_eq!(from_handle.try_recv(), Ok(String::from("first")));
    assert_eq!(from_handle.try_recv(), Ok(String::from("second")));
}

#[test]
fn try_recv_orders_and_empties() {
    let rt = test_runtime();
    let (mut handle, to_handle, _from_handle) = stub_handle(&rt, Ok(()));
    to_handle.send_blocking(String::from("a")).unwrap();
    to_handle.send_blocking(String::from("b")).unwrap();
    assert_eq!(handle.try_recv(), Ok(Some(String::from("a"))));
    assert_eq!(handle.try_recv(), Ok(Some(String::from("b"))));
    assert_eq!(handle.try_recv(), Ok(None));
}

#[test]
fn try_recv_closed_is_sticky() {
    let rt = test_runtime();
    let (mut handle, to_handle, _from_handle) = stub_handle(&rt, Ok(()));
    to_handle.close();
    assert_eq!(handle.try_recv(), Err(ConnectionError::Disconnected));
    assert_eq!(handle.try_recv(), Err(ConnectionError::Disconnected));
    assert!(!handle.send_blocking(String::from("x")).is_ok());
}

#[test]
fn drain_collects_messages_in_order() {
    let rt = test_runtime();
    let (mut handle, to_handle, _from_handle) = stub_handle(&rt, Ok(()));
    to_handle.send_blocking(String::from("one")).unwrap();
    to_handle.send_blocking(String::from("two")).unwrap();
    to_handle.send_blocking(String::from("three")).unwrap();
    let events = handle.drain_events(100);
    assert_eq!(events.len(), 3);
    let expected = ["one", "two", "three"];
    for (event, want) in events.into_iter().zip(expected) {
        let (msg, id) = event.unwrap_message();
        assert_eq!(msg, want);
        assert_eq!(id, ConnectionId { bits: 7 });
    }
    assert_eq!(handle.drain_events(100).len(), 0);
}

#[test]
fn drain_reports_one_error_last() {
    let rt = test_runtime();
    let (mut handle, to_handle, _from_handle) = stub_handle(&rt, Ok(()));
    to_handle.send_blocking(String::from("one")).unwrap();
    to_handle.send_blocking(String::from("two")).unwrap();
    to_handle.close();
    let events = handle.drain_events(100);
    assert_eq!(events.len(), 3);
    assert!(matches!(events[0], Event::Message(_, _)));
    assert!(matches!(events[1], Event::Message(_, _)));
    assert!(matches!(
        events[2],
        Event::Error(ConnectionError::Disconnected, ConnectionId { bits: 7 })
    ));
    // The next pass reports the disconnect again, once.
    let next = handle.drain_events(100);
    assert_eq!(next.len(), 1);
    assert!(matches!(next[0], Event::Error(ConnectionError::Disconnected, _)));
}

#[test]
fn drain_respects_budget() {
    let rt = test_runtime();
    let (mut handle, to_handle, _from_handle) = stub_handle(&rt, Ok(()));
    for i in 0..5 {
        to_handle.send_blocking(format!("{i}")).unwrap();
    }
    let events = handle.drain_events(2);
    assert_eq!(events.len(), 2);
    let events = handle.drain_events(100);
    assert_eq!(events.len(), 3);
}

#[test]
fn actor_stop_closes_both_channels() {
    let rt = test_runtime();
    let (to_conn, from_handle) = async_channel::unbounded::<String>();
    let (to_handle, from_conn) = async_channel::unbounded::<String>();
    let conn: Connection<String, String> =
        Connection::new(to_handle, from_handle, RunFlag::new(true));
    assert!(conn.is_running());
    assert_eq!(conn.stop(), Ok(()));
    assert!(!conn.is_running());
    assert!(to_conn.is_closed());
    assert!(from_conn.is_closed());
    // A second stop finds the channels closed already.
    assert_eq!(conn.stop(), Err(ConnectionError::Disconnected));
    drop(rt);
}

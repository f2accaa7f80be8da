use multiplayer_test::connection::ConnectionError;
use multiplayer_test::connection::ConnectionHandle;
use multiplayer_test::connection::ConnectionId;
use multiplayer_test::events::PeerAddr;
use multiplayer_test::server::InternalServer;
use multiplayer_test::server::ServerError;
use multiplayer_test::server::ServerHandle;
use multiplayer_test::trusted::RunFlag;

fn test_runtime() -> tokio::runtime::Runtime {
    tokio::runtime::Builder::new_multi_thread()
        .worker_threads(1)
        .enable_io()
        .enable_time()
        .build()
        .unwrap()
}

fn stub_conn_handle(
    rt: &tokio::runtime::Runtime,
    bits: u128,
) -> ConnectionHandle<String, String> {
    let (to_conn, _from_handle) = async_channel::unbounded::<String>();
    let (_to_handle, from_conn) = async_channel::unbounded::<String>();
    let task = rt.spawn(async { Ok::<(), ConnectionError>(()) });
    ConnectionHandle::from_parts(
        to_conn,
        from_conn,
        ConnectionId { bits },
        RunFlag::new(true),
        rt.handle().clone(),
        task,
    )
}

#[test]
fn unbound_server_reports_disconnected() {
    let mut server: ServerHandle<String, String> = ServerHandle::new();
    assert_eq!(server.try_recv(), Err(ServerError::Disconnected));
    assert_eq!(server.disconnect_blocking(), Err(ServerError::Disconnected));
    assert_eq!(server.disconnect_blocking(), Err(ServerError::Disconnected));
}

#[test]
fn attached_server_receives_notifications() {
    let rt = test_runtime();
    let mut server: ServerHandle<String, String> = ServerHandle::new();
    let (to_handle, from_task) = async_channel::unbounded::<(PeerAddr, ConnectionId)>();
    let task = rt.spawn(async { Ok::<(), ServerError>(()) });
    server.attach_listener(from_task, task, rt.handle().clone());

    let addr = PeerAddr::v4(127, 0, 0, 1, 4000);
    to_handle
        .send_blocking((addr.clone(), ConnectionId { bits: 3 }))
        .unwrap();
    assert_eq!(server.try_recv(), Ok(Some((addr, ConnectionId { bits: 3 }))));
    assert_eq!(server.try_recv(), Ok(None));
    assert_eq!(server.disconnect_blocking(), Ok(()));
    assert_eq!(server.try_recv(), Err(ServerError::Disconnected));
}

#[test]
fn drain_connected_stops_on_error() {
    let rt = test_runtime();
    let mut server: ServerHandle<String, String> = ServerHandle::new();
    let (to_handle, from_task) = async_channel::unbounded::<(PeerAddr, ConnectionId)>();
    let task = rt.spawn(async { Ok::<(), ServerError>(()) });
    server.attach_listener(from_task, task, rt.handle().clone());

    for bits in 0..3u128 {
        to_handle
            .send_blocking((PeerAddr::v4(127, 0, 0, 1, 4000), ConnectionId { bits }))
            .unwrap();
    }
    to_handle.close();
    let (notes, stopped) = server.drain_connected(100);
    assert_eq!(notes.len(), 3);
    for (i, (_, id)) in notes.iter().enumerate() {
        assert_eq!(id.bits, i as u128);
    }
    assert_eq!(stopped, Some(ServerError::Disconnected));
    let (notes, stopped) = server.drain_connected(100);
    assert!(notes.is_empty());
    assert_eq!(stopped, Some(ServerError::Disconnected));
}

#[test]
fn handle_accepted_registers_then_notifies() {
    let rt = test_runtime();
    let server: ServerHandle<String, String> = ServerHandle::new();
    let (to_handle, from_task) = async_channel::unbounded::<(PeerAddr, ConnectionId)>();
    let internal = server.listener_core(to_handle);
    internal.running.store(true);

    let conn = stub_conn_handle(&rt, 9);
    let addr = PeerAddr::v4(127, 0, 0, 1, 5000);
    assert_eq!(internal.handle_accepted(addr.clone(), conn), Ok(true));
    // The consumer of a notification finds the id already registered.
    let (note_addr, note_id) = from_task.try_recv().unwrap();
    assert_eq!(note_addr, addr);
    assert_eq!(note_id, ConnectionId { bits: 9 });
    assert_eq!(server.connections.len(), 1);
    let (removed_id, _) = server.connections.remove(&note_id).unwrap();
    assert_eq!(removed_id, note_id);
    assert_eq!(server.connections.len(), 0);
}

#[test]
fn handle_accepted_verdict_follows_running_flag() {
    let rt = test_runtime();
    let server: ServerHandle<String, String> = ServerHandle::new();
    let (to_handle, from_task) = async_channel::unbounded::<(PeerAddr, ConnectionId)>();
    let internal = server.listener_core(to_handle);
    from_task.close();

    internal.running.store(true);
    let conn = stub_conn_handle(&rt, 1);
    assert_eq!(
        internal.handle_accepted(PeerAddr::v4(127, 0, 0, 1, 1), conn),
        Err(ServerError::Disconnected)
    );

    internal.running.store(false);
    let conn = stub_conn_handle(&rt, 2);
    assert_eq!(internal.handle_accepted(PeerAddr::v4(127, 0, 0, 1, 1), conn), Ok(false));
    // A registration nobody was told about is taken back.
    assert_eq!(server.connections.len(), 0);
}

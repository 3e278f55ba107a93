//! The lifecycle of servers and of their master, and the books of the
//! shutdown protocol.

use rxh::config::{Action, Pattern, SocketAddress};
use rxh::movable::Movable;
use rxh::sync::notify::{Notification, Notifier, Subscription};
use rxh::task::master::{Order, Report};
use rxh::task::server::{
    self, AcceptError, AcceptFailure, Event, Farewell, Handler, Served, SocketOptions,
};
use rxh::{Error, Master, Server, ShutdownState, State};

fn local(port: u16) -> SocketAddress {
    SocketAddress::V4 {
        ip: 0x7f00_0001,
        port,
    }
}

fn config(name: Option<&str>, limit: usize) -> rxh::config::Server {
    rxh::config::Server {
        listen: vec![local(0), local(7000)],
        replica: 1,
        patterns: vec![Pattern {
            uri: String::from("/hello"),
            action: Action::Serve(String::from("/srv")),
        }],
        max_connections: limit,
        name: name.map(String::from),
        log_name: String::from("unnamed"),
    }
}

fn new_server(limit: usize) -> Server {
    Server::init(config(None, limit), local(7000), "127.0.0.1:7000")
}

fn running_server(limit: usize) -> Server {
    let mut server = new_server(limit);
    assert_eq!(server.run(Event::Started), server::Action::CheckPermits);
    server
}

fn accept(server: &mut Server, free: usize) {
    assert_eq!(server.run(Event::Permits(free)), server::Action::AcquirePermit);
    assert_eq!(server.run(Event::PermitAcquired), server::Action::Accept);
    assert_eq!(server.run(Event::Accepted), server::Action::Serve);
}

#[test]
fn graceful_shutdown() {
    let mut server = new_server(1024);
    assert_eq!(server.state(), State::Starting);
    assert_eq!(server.permits(), 1024);

    // Make sure server is listening.
    assert_eq!(server.run(Event::Started), server::Action::CheckPermits);
    assert_eq!(server.state(), State::Listening);

    // Open a couple sockets but don't send anything yet.
    accept(&mut server, 1024);
    accept(&mut server, 1023);
    assert_eq!(server.run(Event::Permits(1022)), server::Action::AcquirePermit);
    assert_eq!(server.run(Event::PermitAcquired), server::Action::Accept);
    assert_eq!(server.state(), State::Listening);

    // Shutdown the server.
    assert_eq!(server.run(Event::ShutdownRequested), server::Action::Notify);
    assert_eq!(
        server.run(Event::Notified(2)),
        server::Action::CollectAcknowledgements
    );

    // Now the server should know that there are still 2 pending connections.
    assert_eq!(
        server.state(),
        State::ShuttingDown(ShutdownState::PendingConnections(2))
    );

    // If we try to connect using another socket it should not allow us.
    assert_eq!(server.run(Event::Accepted), server::Action::Ignore);
    assert_eq!(server.run(Event::Permits(1022)), server::Action::Ignore);
    assert_eq!(server.run(Event::PermitAcquired), server::Action::Ignore);
    assert_eq!(
        server.state(),
        State::ShuttingDown(ShutdownState::PendingConnections(2))
    );

    // Finally, after the streams above are dropped, server should be down.
    assert_eq!(
        server.run(Event::Drained),
        server::Action::Exit { failed: false }
    );
    assert_eq!(server.state(), State::ShuttingDown(ShutdownState::Done));

    for event in [
        Event::Started,
        Event::Permits(5),
        Event::PermitAcquired,
        Event::Accepted,
        Event::AcceptFailed(AcceptFailure::Listener),
        Event::ShutdownRequested,
        Event::Notified(1),
        Event::Drained,
    ] {
        assert_eq!(server.run(event), server::Action::Ignore);
        assert_eq!(server.state(), State::ShuttingDown(ShutdownState::Done));
    }
}

#[test]
fn shutdown_without_connections_shows_none_pending() {
    let mut server = running_server(8);
    assert_eq!(server.run(Event::ShutdownRequested), server::Action::Notify);
    assert_eq!(server.state(), State::Listening);
    assert_eq!(
        server.run(Event::Notified(0)),
        server::Action::CollectAcknowledgements
    );
    assert_eq!(
        server.state(),
        State::ShuttingDown(ShutdownState::PendingConnections(0))
    );
    assert_eq!(
        server.run(Event::Drained),
        server::Action::Exit { failed: false }
    );
    assert_eq!(server.state(), State::ShuttingDown(ShutdownState::Done));
}

#[test]
fn max_connections_reached_and_left() {
    let mut server = running_server(2);
    accept(&mut server, 2);
    accept(&mut server, 1);
    assert_eq!(server.state(), State::Listening);
    assert_eq!(server.run(Event::Permits(0)), server::Action::AcquirePermit);
    assert_eq!(server.state(), State::MaxConnectionsReached(2));
    assert_eq!(server.run(Event::PermitAcquired), server::Action::Accept);
    assert_eq!(server.state(), State::Listening);
    assert_eq!(server.run(Event::Accepted), server::Action::Serve);
    assert_eq!(server.run(Event::Permits(0)), server::Action::AcquirePermit);
    assert_eq!(server.state(), State::MaxConnectionsReached(2));
    assert_eq!(server.run(Event::ShutdownRequested), server::Action::Notify);
    assert_eq!(
        server.run(Event::Notified(2)),
        server::Action::CollectAcknowledgements
    );
    assert_eq!(
        server.state(),
        State::ShuttingDown(ShutdownState::PendingConnections(2))
    );
}

#[test]
fn accept_errors() {
    let mut server = running_server(4);
    assert_eq!(server.run(Event::Permits(4)), server::Action::AcquirePermit);
    assert_eq!(server.run(Event::PermitAcquired), server::Action::Accept);
    for failure in [
        AcceptFailure::ConnectionLost,
        AcceptFailure::Interrupted,
        AcceptFailure::OutOfResources,
    ] {
        assert!(!failure.fatal());
        assert_eq!(
            server.run(Event::AcceptFailed(failure)),
            server::Action::Retry
        );
        assert_eq!(server.state(), State::Listening);
        assert_eq!(server.run(Event::Permits(4)), server::Action::AcquirePermit);
        assert_eq!(server.run(Event::PermitAcquired), server::Action::Accept);
    }
    assert!(AcceptFailure::Listener.fatal());
    assert_eq!(
        server.run(Event::AcceptFailed(AcceptFailure::Listener)),
        server::Action::Notify
    );
    assert_eq!(
        server.run(Event::Notified(1)),
        server::Action::CollectAcknowledgements
    );
    assert_eq!(
        server.run(Event::Drained),
        server::Action::Exit { failed: true }
    );
    assert_eq!(server.state(), State::ShuttingDown(ShutdownState::Done));
}

#[test]
fn accept_errors_by_kind() {
    for (kind, failure) in [
        (AcceptError::ConnectionAborted, AcceptFailure::ConnectionLost),
        (AcceptError::ConnectionReset, AcceptFailure::ConnectionLost),
        (AcceptError::ConnectionRefused, AcceptFailure::ConnectionLost),
        (AcceptError::Interrupted, AcceptFailure::Interrupted),
        (AcceptError::WouldBlock, AcceptFailure::Interrupted),
        (AcceptError::TimedOut, AcceptFailure::Interrupted),
        (AcceptError::OutOfMemory, AcceptFailure::OutOfResources),
        (AcceptError::Other, AcceptFailure::Listener),
    ] {
        assert_eq!(kind.classify(), failure);
    }
}

#[test]
fn a_handler_keeps_its_permit_until_the_connection_is_over() {
    let mut handler = Handler::Serving;
    assert_eq!(
        handler.farewell(Served::Connection { tunnels: 0 }),
        Farewell::ReadNotification
    );
    assert_eq!(
        handler.farewell(Served::Notification(None)),
        Farewell::Release
    );
    assert_eq!(handler, Handler::Gone);
    assert_eq!(
        handler.farewell(Served::Notification(None)),
        Farewell::Ignore
    );

    let mut handler = Handler::Serving;
    handler.farewell(Served::Connection { tunnels: 0 });
    assert_eq!(
        handler.farewell(Served::Notification(Some(Notification::Shutdown))),
        Farewell::Acknowledge
    );
    assert_eq!(handler, Handler::Acknowledging);
    assert_eq!(handler.farewell(Served::Acknowledged), Farewell::Release);
    assert_eq!(handler, Handler::Gone);
}

#[test]
fn a_handler_keeps_its_permit_while_a_tunnel_is_open() {
    let mut handler = Handler::Serving;
    assert_eq!(
        handler.farewell(Served::Connection { tunnels: 1 }),
        Farewell::AwaitTunnels
    );
    assert_eq!(handler, Handler::Tunnelling);
    for early in [
        Served::Notification(None),
        Served::Notification(Some(Notification::Shutdown)),
        Served::Acknowledged,
        Served::Connection { tunnels: 0 },
    ] {
        assert_eq!(handler.farewell(early), Farewell::Ignore);
        assert_eq!(handler, Handler::Tunnelling);
    }
    assert_eq!(
        handler.farewell(Served::TunnelsEnded),
        Farewell::ReadNotification
    );
    assert_eq!(
        handler.farewell(Served::Notification(Some(Notification::Shutdown))),
        Farewell::Acknowledge
    );
    assert_eq!(handler.farewell(Served::Acknowledged), Farewell::Release);
    assert_eq!(handler, Handler::Gone);
}

#[test]
fn events_out_of_turn_change_nothing() {
    let mut server = new_server(4);
    for event in [
        Event::Permits(1),
        Event::PermitAcquired,
        Event::Accepted,
        Event::ShutdownRequested,
        Event::Notified(0),
        Event::Drained,
    ] {
        assert_eq!(server.run(event), server::Action::Ignore);
        assert_eq!(server.state(), State::Starting);
    }
    assert_eq!(server.run(Event::Started), server::Action::CheckPermits);
    assert_eq!(server.run(Event::Accepted), server::Action::Ignore);
    assert_eq!(server.run(Event::Started), server::Action::Ignore);
    assert_eq!(server.state(), State::Listening);
}

#[test]
fn server_socket_and_names() {
    assert_eq!(
        Server::socket_options(&config(None, 1)),
        SocketOptions {
            address: local(7000),
            ipv4: true,
            reuse_address: true,
            backlog: 1024,
        }
    );
    let six = SocketAddress::V6 {
        ip: 1,
        port: 80,
        flowinfo: 0,
        scope_id: 0,
    };
    let mut on_six = config(None, 1);
    on_six.listen = vec![six];
    on_six.replica = 0;
    assert!(!Server::socket_options(&on_six).ipv4);
    assert_eq!(Server::socket_options(&on_six).address, six);

    assert_eq!(server::log_name("127.0.0.1:7000", &None), "127.0.0.1:7000");
    assert_eq!(
        server::log_name("127.0.0.1:7000", &Some(String::from("api"))),
        "127.0.0.1:7000 (api)"
    );

    let unnamed = Server::init(config(None, 16), local(40123), "127.0.0.1:40123");
    assert_eq!(unnamed.socket_address(), local(40123));
    assert_eq!(unnamed.config().log_name, "127.0.0.1:40123");
    assert_eq!(unnamed.config().max_connections, 16);
    assert_eq!(unnamed.config().patterns.len(), 1);
    let named = Server::init(config(Some("web"), 16), local(40123), "127.0.0.1:40123");
    assert_eq!(named.config().log_name, "127.0.0.1:40123 (web)");
    assert_eq!(named.config().name, Some(String::from("web")));
}

fn bound(ports: &[u16]) -> Vec<Result<Server, Error>> {
    ports
        .iter()
        .map(|port| Ok(Server::init(config(None, 4), local(*port), "127.0.0.1")))
        .collect()
}

#[test]
fn master_runs_until_the_trigger_fires() {
    let mut master = Master::init(bound(&[7000, 8000])).unwrap();
    assert_eq!(master.sockets(), vec![local(7000), local(8000)]);
    assert_eq!(master.run(Report::Started), Order::Spawn);
    let servers = master.servers();
    assert_eq!(servers.len(), 2);
    assert_eq!(servers[1].socket_address(), local(8000));
    assert!(master.servers().is_empty());
    assert_eq!(master.sockets(), vec![local(7000), local(8000)]);

    assert_eq!(master.run(Report::ShutdownRequested), Order::Signal);
    assert_eq!(master.run(Report::ShutdownRequested), Order::Ignore);
    assert_eq!(master.run(Report::SignalSent), Order::Wait);
    assert_eq!(master.run(Report::ServerExited(Ok(()))), Order::Wait);
    assert_eq!(master.run(Report::ServerExited(Ok(()))), Order::Return);
    assert_eq!(master.run(Report::ServerExited(Ok(()))), Order::Ignore);
    assert_eq!(master.finish(), Ok(()));
}

#[test]
fn master_returns_the_first_error() {
    let mut master = Master::init(bound(&[1, 2, 3])).unwrap();
    assert_eq!(master.run(Report::Started), Order::Spawn);
    assert_eq!(master.run(Report::ServerExited(Ok(()))), Order::Wait);
    assert_eq!(
        master.run(Report::ServerExited(Err(Error::Io(String::from("first"))))),
        Order::Signal
    );
    assert_eq!(master.run(Report::SignalSent), Order::Wait);
    assert_eq!(
        master.run(Report::ServerExited(Err(Error::Http(String::from("second"))))),
        Order::Return
    );
    assert_eq!(master.finish(), Err(Error::Io(String::from("first"))));
}

#[test]
fn master_keeps_an_error_that_comes_after_the_trigger() {
    let mut master = Master::init(bound(&[1, 2])).unwrap();
    master.run(Report::Started);
    assert_eq!(master.run(Report::ShutdownRequested), Order::Signal);
    assert_eq!(master.run(Report::SignalSent), Order::Wait);
    assert_eq!(
        master.run(Report::ServerExited(Err(Error::Http(String::from("late"))))),
        Order::Wait
    );
    assert_eq!(
        master.run(Report::ServerExited(Err(Error::Io(String::from("later"))))),
        Order::Return
    );
    assert_eq!(master.finish(), Err(Error::Http(String::from("late"))));
}

#[test]
fn master_returns_when_the_last_server_failed() {
    let mut master = Master::init(bound(&[1])).unwrap();
    master.run(Report::Started);
    assert_eq!(
        master.run(Report::ServerExited(Err(Error::Io(String::from("gone"))))),
        Order::Signal
    );
    assert_eq!(master.run(Report::SignalSent), Order::Return);
    assert_eq!(master.finish(), Err(Error::Io(String::from("gone"))));
}

#[test]
fn master_without_servers() {
    let mut master = Master::init(Vec::new()).unwrap();
    assert!(master.sockets().is_empty());
    assert_eq!(master.run(Report::SignalSent), Order::Ignore);
    assert_eq!(master.run(Report::Started), Order::Spawn);
    assert_eq!(master.run(Report::ServerExited(Ok(()))), Order::Ignore);
    assert_eq!(master.run(Report::ShutdownRequested), Order::Signal);
    assert_eq!(master.run(Report::SignalSent), Order::Return);
    assert_eq!(master.finish(), Ok(()));
}

#[test]
fn master_starts_no_server_if_one_cannot_bind() {
    let mut servers = bound(&[7000]);
    servers.push(Err(Error::Io(String::from("address in use"))));
    servers.extend(bound(&[9000]));
    servers.push(Err(Error::Io(String::from("permission denied"))));
    match Master::init(servers) {
        Err(error) => assert_eq!(error, Error::Io(String::from("address in use"))),
        Ok(_) => panic!("a server that is not bound must not be started"),
    }
}

#[test]
fn errors_describe_themselves() {
    assert_eq!(
        Error::Io(String::from("connection reset")).describe(),
        "IO error: connection reset"
    );
    assert_eq!(
        Error::Toml(String::from("expected `=`")).describe(),
        "TOML parse error: expected `=`"
    );
    assert_eq!(
        Error::Http(String::from("invalid header")).describe(),
        "HTTP error: invalid header"
    );
    assert_eq!(rxh::VERSION, "0.1.0");
}

#[test]
fn notifier_waits_for_every_subscriber() {
    let mut notifier = Notifier::new();
    let mut first = notifier.subscribe();
    let mut second = notifier.subscribe();
    let mut third = notifier.subscribe();
    assert_eq!(first.receive_notification(&notifier), None);

    assert_eq!(notifier.subscribers(), 3);
    assert_eq!(notifier.notification(), None);
    assert!(!first.received());
    assert_eq!(notifier.send(Notification::Shutdown), 3);
    assert_eq!(notifier.notification(), Some(Notification::Shutdown));
    assert_eq!(notifier.collect_acknowledgements(), Some(3));

    assert_eq!(
        first.receive_notification(&notifier),
        Some(Notification::Shutdown)
    );
    assert_eq!(first.receive_notification(&notifier), None);
    assert!(first.received());
    first.acknowledge_notification(&mut notifier);
    assert_eq!(notifier.collect_acknowledgements(), Some(2));
    assert_eq!(notifier.subscribers(), 2);

    notifier.forget(third_unread(&mut third));
    assert_eq!(notifier.collect_acknowledgements(), Some(1));

    assert_eq!(
        second.receive_notification(&notifier),
        Some(Notification::Shutdown)
    );
    notifier.acknowledge(second);
    assert_eq!(notifier.collect_acknowledgements(), None);
}

fn third_unread(subscription: &mut Subscription) -> Subscription {
    std::mem::replace(subscription, Subscription::new())
}

#[test]
fn notifier_without_subscribers_has_nobody_to_wait_for() {
    let mut notifier = Notifier::new();
    assert_eq!(notifier.send(Notification::Shutdown), 0);
    assert_eq!(notifier.collect_acknowledgements(), None);

    let mut notifier = Notifier::new();
    let subscription = notifier.subscribe();
    notifier.forget(subscription);
    assert_eq!(notifier.send(Notification::Shutdown), 0);
    assert_eq!(notifier.collect_acknowledgements(), None);

    let mut notifier = Notifier::new();
    let mut subscription = notifier.subscribe();
    assert_eq!(subscription.receive_notification(&notifier), None);
    assert_eq!(notifier.send(Notification::Shutdown), 1);
    assert_eq!(
        subscription.receive_notification(&notifier),
        Some(Notification::Shutdown)
    );
    assert_eq!(notifier.collect_acknowledgements(), Some(1));
}

#[test]
fn movable_gives_its_value_once() {
    let mut movable = Movable::new(String::from("request"));
    assert_eq!(movable.take(), Ok(String::from("request")));
    assert_eq!(movable.take(), Err(rxh::movable::Error::AlreadyTaken));
    assert_eq!(movable.take(), Err(rxh::movable::Error::AlreadyTaken));
}

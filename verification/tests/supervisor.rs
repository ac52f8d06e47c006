use nd_engine::client::ClientEvent;
use nd_engine::client::Value;
use nd_engine::engine::EngineConfig;
use nd_engine::engine::EngineEvent;
use nd_engine::engine::PluginConfig;
use nd_engine::rendezvous::Connect;
use nd_engine::rendezvous::ProtocolViolation;
use nd_engine::rendezvous::Rendezvous;
use nd_engine::supervisor::Awaiting;
use nd_engine::supervisor::EngineHandle;
use nd_engine::supervisor::Fault;
use nd_engine::supervisor::Order;
use nd_engine::supervisor::Signal;
use nd_engine::supervisor::Stage;

fn connected() -> EngineHandle {
    let config = EngineConfig::new(vec![PluginConfig::new("plugin.so".to_string(), true)]);
    let mut handle = EngineHandle::spawn("bin/simulation".to_string(), config);
    assert_eq!(handle.stage(), Stage::NotStarted);
    assert_eq!(handle.awaiting(), Awaiting::Launch);
    assert_eq!(handle.step(Signal::Started), Order::Accept);
    assert_eq!(handle.stage(), Stage::Starting);
    assert_eq!(handle.step(Signal::Connected), Order::Idle);
    assert_eq!(handle.stage(), Stage::Connected);
    handle
}

#[test]
fn a_living_child_gets_the_event_after_the_look() {
    let mut handle = connected();
    let event = ClientEvent::EndAction { id: 4 };
    assert_eq!(handle.send(event), Order::Poll);
    assert_eq!(handle.awaiting(), Awaiting::Liveness);
    assert_eq!(handle.step(Signal::Alive), Order::Deliver(event));
    assert_eq!(handle.step(Signal::Delivered), Order::Idle);
    assert_eq!(handle.stage(), Stage::Connected);
    assert_eq!(handle.awaiting(), Awaiting::Nothing);
}

#[test]
fn a_killed_simulation_is_replaced_and_gets_the_event_in_flight() {
    let mut handle = connected();
    let event = ClientEvent::BeginAction { id: 3, value: Value::Analog { x: 0.5f32.to_bits() } };
    assert_eq!(handle.send(event), Order::Poll);
    assert_eq!(handle.step(Signal::Exited), Order::Launch);
    assert_eq!(handle.stage(), Stage::Crashed);
    assert_eq!(handle.step(Signal::Started), Order::Accept);
    assert_eq!(handle.stage(), Stage::Starting);
    assert_eq!(handle.step(Signal::Connected), Order::Deliver(event));
    assert_eq!(handle.stage(), Stage::Connected);
    assert_eq!(handle.step(Signal::Delivered), Order::Idle);
    assert_eq!(handle.engine_path(), "bin/simulation");
    assert_eq!(handle.engine_config().plugins().len(), 1);
    assert_eq!(handle.engine_config().plugins()[0].path(), "plugin.so");
}

#[test]
fn every_crash_is_followed_by_one_respawn() {
    let mut handle = connected();
    for id in 0..5u8 {
        let event = ClientEvent::EndAction { id };
        assert_eq!(handle.send(event), Order::Poll);
        assert_eq!(handle.step(Signal::Exited), Order::Launch);
        assert_eq!(handle.step(Signal::Exited), Order::Idle);
        assert_eq!(handle.step(Signal::Started), Order::Accept);
        assert_eq!(handle.step(Signal::Started), Order::Idle);
        assert_eq!(handle.step(Signal::Connected), Order::Deliver(event));
        assert_eq!(handle.step(Signal::Delivered), Order::Idle);
        assert_eq!(handle.stage(), Stage::Connected);
    }
}

#[test]
fn each_failure_names_its_step() {
    let mut launch = EngineHandle::spawn("x".to_string(), EngineConfig::new(Vec::new()));
    assert_eq!(launch.step(Signal::Failed), Order::Abort(Fault::Launch));
    assert_eq!(launch.stage(), Stage::Closed);

    let mut handshake = EngineHandle::spawn("x".to_string(), EngineConfig::new(Vec::new()));
    handshake.step(Signal::Started);
    assert_eq!(handshake.step(Signal::Failed), Order::Abort(Fault::Handshake));

    let mut liveness = connected();
    liveness.send(ClientEvent::CloseRequested);
    assert_eq!(liveness.step(Signal::Failed), Order::Abort(Fault::Liveness));

    let mut delivery = connected();
    delivery.send(ClientEvent::CloseRequested);
    delivery.step(Signal::Alive);
    assert_eq!(delivery.step(Signal::Failed), Order::Abort(Fault::Delivery));
    assert_eq!(delivery.stage(), Stage::Closed);

    let mut respawn = connected();
    respawn.send(ClientEvent::CloseRequested);
    respawn.step(Signal::Exited);
    assert_eq!(respawn.step(Signal::Failed), Order::Abort(Fault::Launch));

    let mut idle = connected();
    assert_eq!(idle.step(Signal::Failed), Order::Idle);
    assert_eq!(idle.stage(), Stage::Connected);
}

#[test]
fn a_closed_simulation_is_not_started_again() {
    let mut handle = connected();
    assert_eq!(handle.try_recv(Some(EngineEvent::BeginFixedUpdate(8))), Some(EngineEvent::BeginFixedUpdate(8)));
    assert_eq!(handle.stage(), Stage::Connected);
    assert_eq!(handle.try_recv(None), None);
    assert_eq!(handle.try_recv(Some(EngineEvent::Closed)), Some(EngineEvent::Closed));
    assert_eq!(handle.stage(), Stage::Closed);
    assert_eq!(handle.send(ClientEvent::CloseRequested), Order::Idle);
    assert_eq!(handle.step(Signal::Exited), Order::Idle);
    assert_eq!(handle.step(Signal::Spawn), Order::Idle);
    assert_eq!(handle.stage(), Stage::Closed);
}

#[test]
fn the_exit_of_a_simulation_that_was_asked_to_close_is_no_crash() {
    let mut handle = connected();
    assert!(!handle.is_closing());
    assert_eq!(handle.send(ClientEvent::CloseRequested), Order::Poll);
    assert_eq!(handle.step(Signal::Alive), Order::Deliver(ClientEvent::CloseRequested));
    assert!(!handle.is_closing());
    assert_eq!(handle.step(Signal::Delivered), Order::Idle);
    assert!(handle.is_closing());
    assert_eq!(handle.stage(), Stage::Connected);
    assert_eq!(handle.send(ClientEvent::EndAction { id: 2 }), Order::Poll);
    assert_eq!(handle.step(Signal::Exited), Order::Idle);
    assert_eq!(handle.stage(), Stage::Closed);
    assert_eq!(handle.send(ClientEvent::EndAction { id: 3 }), Order::Idle);
}

#[test]
fn a_simulation_that_was_asked_to_close_still_gets_events_while_it_lives() {
    let mut handle = connected();
    handle.send(ClientEvent::CloseRequested);
    handle.step(Signal::Alive);
    handle.step(Signal::Delivered);
    let event = ClientEvent::EndAction { id: 9 };
    assert_eq!(handle.send(event), Order::Poll);
    assert_eq!(handle.step(Signal::Alive), Order::Deliver(event));
    assert_eq!(handle.step(Signal::Delivered), Order::Idle);
    assert_eq!(handle.stage(), Stage::Connected);
}

#[test]
fn dropping_the_supervisor_closes_it() {
    let mut handle = connected();
    handle.send(ClientEvent::EndAction { id: 1 });
    assert_eq!(handle.step(Signal::Dropped), Order::Idle);
    assert_eq!(handle.stage(), Stage::Closed);
    assert_eq!(handle.awaiting(), Awaiting::Nothing);
    assert_eq!(handle.step(Signal::Alive), Order::Idle);
}

#[test]
fn a_busy_supervisor_does_not_take_a_second_event() {
    let mut handle = connected();
    let first = ClientEvent::EndAction { id: 1 };
    assert_eq!(handle.send(first), Order::Poll);
    assert_eq!(handle.send(ClientEvent::EndAction { id: 2 }), Order::Idle);
    assert_eq!(handle.step(Signal::Alive), Order::Deliver(first));
}

#[test]
fn a_token_is_accepted_once() {
    let mut rendezvous = Rendezvous::open("/tmp/rendezvous-1".to_string());
    assert_eq!(rendezvous.token(), "/tmp/rendezvous-1");
    assert!(!rendezvous.is_consumed());
    let first = rendezvous.accept(Connect { app_sender: "sender", engine_receiver: 7u32 });
    assert_eq!(first, Ok(("sender", 7u32)));
    assert!(rendezvous.is_consumed());
    let second = rendezvous.accept(Connect { app_sender: "other", engine_receiver: 8u32 });
    assert_eq!(second, Err(ProtocolViolation::TokenConsumed));
    let third = rendezvous.accept(Connect { app_sender: "third", engine_receiver: 9u32 });
    assert_eq!(third, Err(ProtocolViolation::TokenConsumed));
    assert!(rendezvous.is_consumed());
    assert_eq!(rendezvous.token(), "/tmp/rendezvous-1");
}

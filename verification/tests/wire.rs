use nd_engine::client::ClientEvent;
use nd_engine::client::Value;
use nd_engine::engine::EngineEvent;
use nd_engine::wire::Frame;

fn values() -> Vec<Value> {
    vec![
        Value::Digital,
        Value::Analog { x: 0.5f32.to_bits() },
        Value::Velocity { x: (-1.25f32).to_bits() },
        Value::Velocity2 { x: 3.0f32.to_bits(), y: f32::MAX.to_bits() },
        Value::Position { x: f32::NAN.to_bits() },
        Value::Position2 { x: 0, y: u32::MAX },
    ]
}

#[test]
fn every_value_survives_the_round_trip() {
    for value in values() {
        let mut bytes = Vec::new();
        value.encode_into(&mut bytes);
        assert_eq!(Value::decode(&bytes), Frame::Event(value));
    }
}

#[test]
fn every_client_event_survives_the_round_trip() {
    let mut events = vec![ClientEvent::CloseRequested, ClientEvent::EndAction { id: 255 }];
    for (id, value) in values().into_iter().enumerate() {
        events.push(ClientEvent::BeginAction { id: id as u8, value });
    }
    for event in events {
        assert_eq!(ClientEvent::decode(&event.encode()), Frame::Event(event));
    }
}

#[test]
fn every_engine_event_survives_the_round_trip() {
    let events = [
        EngineEvent::Closed,
        EngineEvent::BeginFixedUpdate(0),
        EngineEvent::EndFixedUpdate(0),
        EngineEvent::BeginFixedUpdate(u64::MAX),
        EngineEvent::EndFixedUpdate(0x0102_0304_0506_0708),
    ];
    for event in events {
        assert_eq!(EngineEvent::decode(&event.encode()), Frame::Event(event));
    }
}

#[test]
fn the_bytes_are_tag_then_fields_little_endian() {
    assert_eq!(ClientEvent::CloseRequested.encode(), vec![0]);
    assert_eq!(ClientEvent::EndAction { id: 9 }.encode(), vec![2, 9]);
    let begin = ClientEvent::BeginAction { id: 3, value: Value::Analog { x: 0.5f32.to_bits() } };
    assert_eq!(begin.encode(), vec![1, 3, 1, 0x00, 0x00, 0x00, 0x3f]);
    let two = ClientEvent::BeginAction {
        id: 1,
        value: Value::Position2 { x: 0x0403_0201, y: 0x0807_0605 },
    };
    assert_eq!(two.encode(), vec![1, 1, 5, 1, 2, 3, 4, 5, 6, 7, 8]);
    assert_eq!(EngineEvent::Closed.encode(), vec![0]);
    assert_eq!(
        EngineEvent::BeginFixedUpdate(0x0102_0304_0506_0708).encode(),
        vec![1, 8, 7, 6, 5, 4, 3, 2, 1]
    );
    assert_eq!(EngineEvent::EndFixedUpdate(1).encode(), vec![2, 1, 0, 0, 0, 0, 0, 0, 0]);
    let mut bytes = vec![0xaa];
    Value::Velocity { x: 1 }.encode_into(&mut bytes);
    assert_eq!(bytes, vec![0xaa, 2, 1, 0, 0, 0]);
}

#[test]
fn an_unknown_tag_is_skipped() {
    assert_eq!(ClientEvent::decode(&[3]), Frame::Unknown);
    assert_eq!(ClientEvent::decode(&[200, 1, 2, 3, 4, 5]), Frame::Unknown);
    assert_eq!(EngineEvent::decode(&[3, 0, 0]), Frame::Unknown);
    assert_eq!(EngineEvent::decode(&[255]), Frame::Unknown);
    assert_eq!(Value::decode(&[6, 1, 2]), Frame::Unknown);
    assert_eq!(ClientEvent::decode(&[1, 7, 6, 0, 0, 0, 0]), Frame::Unknown);
}

#[test]
fn bytes_that_do_not_fit_their_tag_are_malformed() {
    assert_eq!(ClientEvent::decode(&[]), Frame::Malformed);
    assert_eq!(ClientEvent::decode(&[0, 0]), Frame::Malformed);
    assert_eq!(ClientEvent::decode(&[1]), Frame::Malformed);
    assert_eq!(ClientEvent::decode(&[1, 3]), Frame::Malformed);
    assert_eq!(ClientEvent::decode(&[1, 3, 1, 0, 0]), Frame::Malformed);
    assert_eq!(ClientEvent::decode(&[2]), Frame::Malformed);
    assert_eq!(ClientEvent::decode(&[2, 1, 1]), Frame::Malformed);
    assert_eq!(EngineEvent::decode(&[]), Frame::Malformed);
    assert_eq!(EngineEvent::decode(&[0, 1]), Frame::Malformed);
    assert_eq!(EngineEvent::decode(&[1, 0, 0, 0]), Frame::Malformed);
    assert_eq!(EngineEvent::decode(&[2, 0, 0, 0, 0, 0, 0, 0, 0, 0]), Frame::Malformed);
    assert_eq!(Value::decode(&[]), Frame::Malformed);
    assert_eq!(Value::decode(&[0, 0]), Frame::Malformed);
    assert_eq!(Value::decode(&[3, 0, 0, 0, 0]), Frame::Malformed);
    assert_eq!(Value::decode(&[1, 0, 0, 0, 0, 0, 0, 0, 0]), Frame::Malformed);
}

#[test]
fn one_half_is_carried_exactly() {
    let event = ClientEvent::BeginAction { id: 3, value: Value::Analog { x: 0.5f32.to_bits() } };
    match ClientEvent::decode(&event.encode()) {
        Frame::Event(ClientEvent::BeginAction { id, value: Value::Analog { x } }) => {
            assert_eq!(id, 3);
            assert_eq!(f32::from_bits(x), 0.5);
        }
        other => panic!("unexpected frame {:?}", other),
    }
}

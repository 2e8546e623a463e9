// Identifiers.

use game_session::{ActorId, MessageId};

#[test]
fn actor_id_keeps_its_bytes() {
    let mut bytes = [0u8; 32];
    for (i, byte) in bytes.iter_mut().enumerate() {
        *byte = i as u8;
    }
    assert_eq!(ActorId::new(bytes).into_bytes(), bytes);
    assert_eq!(ActorId::new([0xff; 32]).into_bytes(), [0xff; 32]);
}

#[test]
fn message_id_keeps_its_bytes() {
    let mut bytes = [7u8; 32];
    bytes[31] = 9;
    assert_eq!(MessageId::new(bytes).into_bytes(), bytes);
}

#[test]
fn actor_ids_are_equal_when_all_bytes_are() {
    let a = ActorId::new([1; 32]);
    assert!(a == ActorId::new([1; 32]));
    for i in 0..32 {
        let mut bytes = [1u8; 32];
        bytes[i] = 2;
        assert!(a != ActorId::new(bytes), "byte {}", i);
    }
}

#[test]
fn message_ids_are_equal_when_all_bytes_are() {
    let a = MessageId::new([0; 32]);
    assert!(a == MessageId::new([0; 32]));
    for i in 0..32 {
        let mut bytes = [0u8; 32];
        bytes[i] = 1;
        assert!(a != MessageId::new(bytes), "byte {}", i);
    }
}

#[test]
fn ids_agree_with_those_of_the_network() {
    let actor = gstd::ActorId::from(10u64);
    assert_eq!(gstd::ActorId::new(ActorId::new(actor.into_bytes()).into_bytes()), actor);
    let message = gstd::MessageId::from(10u64);
    assert_eq!(gstd::MessageId::new(MessageId::new(message.into_bytes()).into_bytes()), message);
    assert!(ActorId::new(gstd::ActorId::from(10u64).into_bytes())
        != ActorId::new(gstd::ActorId::from(11u64).into_bytes()));
}

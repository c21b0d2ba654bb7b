use evergreen::mesh::passport::Passport as JwtPassport;
use evergreen::mesh::room::{RoomID, RoomTransition};
use evergreen::mesh::wire::InitialPayload;
use evergreen::types::auth::Passport;
use libp2p::identity::Keypair;

fn sample(peer: String) -> Passport {
    Passport::new(
        "com.firesidexr.auth".to_string(),
        peer,
        "ann".to_string(),
        42,
        Some(vec!["f1".to_string(), "f2".to_string()]),
        1_700_000_000,
    )
}

#[test]
fn passport_getters_give_back_the_fields() {
    let p = sample("peer".to_string());
    assert_eq!(p.provider(), "com.firesidexr.auth");
    assert_eq!(p.username(), "ann");
    assert_eq!(p.peer_id_str(), "peer");
    assert_eq!(p.user_id(), 42);
    assert_eq!(p.flags(), Some(&vec!["f1".to_string(), "f2".to_string()]));
    assert_eq!(p.expirey(), 1_700_000_000);
}

#[test]
fn passport_without_flags() {
    let p = Passport::new(String::new(), String::new(), String::new(), -1, None, 0);
    assert_eq!(p.flags(), None);
    assert_eq!(p.user_id(), -1);
}

#[test]
fn passport_peer_id_parses_a_real_peer_id() {
    let id = Keypair::generate_ed25519().public().to_peer_id();
    let p = sample(id.to_base58());
    assert_eq!(p.peer_id(), id.to_bytes());
    assert_eq!(p.try_peer_id(), Some(id.to_bytes()));
}

#[test]
fn passport_clone_keeps_every_field() {
    let p = sample("peer".to_string());
    let q = p.clone();
    assert_eq!(q, p);
    assert_eq!(q.flags(), Some(&vec!["f1".to_string(), "f2".to_string()]));
    let j = JwtPassport::new("x.y.z".to_string(), "p".to_string(), "q".to_string(), "u".to_string(), 1, None, 2);
    assert_eq!(j.clone(), j);
    assert_eq!(j.clone().to_jwt(), "x.y.z");
}

#[test]
fn passport_try_peer_id_rejects_text_that_is_not_a_peer_id() {
    assert_eq!(sample("not a peer id!".to_string()).try_peer_id(), None);
    assert_eq!(sample(String::new()).try_peer_id(), None);
}

#[test]
fn jwt_passport_keeps_its_jwt() {
    let id = Keypair::generate_ed25519().public().to_peer_id();
    let p = JwtPassport::new(
        "a.b.c".to_string(),
        "prov".to_string(),
        id.to_base58(),
        "bob".to_string(),
        7,
        None,
        99,
    );
    assert_eq!(p.to_jwt(), "a.b.c");
    assert_eq!(p.provider(), "prov");
    assert_eq!(p.username(), "bob");
    assert_eq!(p.user_id(), 7);
    assert_eq!(p.expirey(), 99);
    assert_eq!(p.flags(), None);
    assert_eq!(p.peer_id(), id.to_bytes());
    assert_eq!(p.peer_id_str(), id.to_base58());
}

#[test]
fn room_id_from_byte_repeats_it() {
    assert_eq!(RoomID::from(7u8).as_bytes(), [7u8; 32]);
    assert_eq!(RoomID::from(0u8).as_bytes(), [0u8; 32]);
}

#[test]
fn initial_payload_and_room_transition_build() {
    let payload = InitialPayload::new("ticket".to_string(), vec!["jwt".to_string()], vec![], Some("room".to_string()), None);
    assert_eq!(payload.ticket(), "ticket");
    let _ = RoomTransition::Simultaneous;
}

use evergreen::bindings::SigningKey;
use evergreen::types::error::Error;
use evergreen::types::packet::{signing_message, validate_from_source};
use evergreen::types::{Avatar, PacketData, RawPacket, ValidPacket};
use libp2p::identity::Keypair;

#[test]
fn message_as_bytes_gives_type_and_utf8_text() {
    let (packet_type, data) = PacketData::Message("héllo".to_string()).as_bytes();
    assert_eq!(packet_type, b"message".to_vec());
    assert_eq!(data, "héllo".as_bytes().to_vec());
}

#[test]
fn voice_as_bytes_gives_type_and_samples() {
    let (packet_type, data) = PacketData::Voice(vec![1, 2, 3, 250]).as_bytes();
    assert_eq!(packet_type, b"voice".to_vec());
    assert_eq!(data, vec![1, 2, 3, 250]);
}

#[test]
fn from_bytes_decodes_a_message() {
    let p = PacketData::from_bytes(b"message".to_vec(), b"hello there".to_vec()).unwrap();
    assert_eq!(p, PacketData::Message("hello there".to_string()));
}

#[test]
fn from_bytes_rejects_a_type_that_is_not_utf8() {
    let r = PacketData::from_bytes(vec![0xff, 0xfe], b"hello".to_vec());
    assert!(matches!(r, Err(Error::Utf8(_))));
}

#[test]
fn from_bytes_rejects_a_payload_that_is_not_utf8() {
    let r = PacketData::from_bytes(b"message".to_vec(), vec![0x68, 0xc3]);
    assert!(matches!(r, Err(Error::Utf8(_))));
}

#[test]
fn a_utf8_error_gives_back_the_rejected_bytes() {
    match PacketData::from_bytes(b"message".to_vec(), vec![0x68, 0xc3]) {
        Err(Error::Utf8(e)) => {
            assert_eq!(e.utf8_error().valid_up_to(), 1);
            assert_eq!(e.as_bytes(), &[0x68, 0xc3]);
            assert_eq!(e.into_bytes(), vec![0x68, 0xc3]);
        },
        other => panic!("unexpected {other:?}"),
    }
    match PacketData::from_bytes(vec![0xff, b'x'], b"hello".to_vec()) {
        Err(Error::Utf8(e)) => assert_eq!(e.into_bytes(), vec![0xff, b'x']),
        other => panic!("unexpected {other:?}"),
    }
}

#[test]
fn from_bytes_rejects_an_encoded_surrogate() {
    let r = PacketData::from_bytes(b"message".to_vec(), vec![0xed, 0xa0, 0x80]);
    assert!(matches!(r, Err(Error::Utf8(_))));
}

#[test]
fn from_bytes_decodes_voice_samples_as_they_are() {
    let p = PacketData::from_bytes(b"voice".to_vec(), vec![0xff, 0x00, 0xc3]).unwrap();
    assert_eq!(p, PacketData::Voice(vec![0xff, 0x00, 0xc3]));
}

#[test]
fn voice_round_trips_through_bytes() {
    for samples in [vec![], vec![0u8], vec![1, 2, 3, 250, 0xff]] {
        let original = PacketData::Voice(samples);
        let (packet_type, data) = original.as_bytes();
        assert_eq!(PacketData::from_bytes(packet_type, data).unwrap(), original);
    }
}

#[test]
fn message_round_trips_through_bytes() {
    for text in ["", "a", "hello world", "grüße 🌲"] {
        let original = PacketData::Message(text.to_string());
        let (packet_type, data) = original.as_bytes();
        assert_eq!(PacketData::from_bytes(packet_type, data).unwrap(), original);
    }
}

#[test]
fn try_from_decodes_the_data_of_a_raw_packet() {
    let raw = RawPacket::new_unsigned(PacketData::Message("hi".to_string()), 7, vec![1, 2]);
    assert_eq!(PacketData::try_from(raw).unwrap(), PacketData::Message("hi".to_string()));
}

#[test]
fn signing_message_is_type_data_big_endian_number_and_source() {
    let m = signing_message(b"ab", b"cd", 0x0102_0304_0506_0708, &[9, 8]);
    assert_eq!(m, vec![b'a', b'b', b'c', b'd', 1, 2, 3, 4, 5, 6, 7, 8, 9, 8]);
    let m = signing_message(b"", b"", u64::MAX, &[]);
    assert_eq!(m, vec![0xff; 8]);
}

#[test]
fn new_unsigned_carries_fields_and_no_signature() {
    let raw = RawPacket::new_unsigned(PacketData::Voice(vec![5, 6]), 42, vec![7]);
    assert_eq!(raw.packet_type, b"voice".to_vec());
    assert_eq!(raw.data, vec![5, 6]);
    assert_eq!(raw.sequence_number, 42);
    assert_eq!(raw.source, vec![7]);
    assert!(raw.signature.is_none());
}

#[test]
fn new_signed_signs_the_packet_and_it_verifies() {
    let keypair = Keypair::generate_ed25519();
    let key = SigningKey::new(keypair.clone());
    let source = key.peer_id().clone();
    let raw = RawPacket::new_signed(PacketData::Message("signed".to_string()), 9, &key, source.clone()).unwrap();
    assert_eq!(raw.packet_type, b"message".to_vec());
    assert_eq!(raw.data, b"signed".to_vec());
    assert_eq!(raw.sequence_number, 9);
    assert_eq!(raw.source, source);
    let signature = raw.signature.clone().unwrap();
    let expected = signing_message(b"message", b"signed", 9, &source);
    assert!(keypair.public().verify(&expected, &signature));

    let valid = ValidPacket::new(raw, key.public_key().clone(), vec![3, 3]).unwrap();
    assert!(valid.verified);
    assert_eq!(valid.data, PacketData::Message("signed".to_string()));
    assert_eq!(valid.sequence_number, 9);
    assert_eq!(valid.source, vec![3, 3]);
}

#[test]
fn a_packet_signed_with_a_fixed_key_verifies_at_the_receiver() {
    let keypair = Keypair::ed25519_from_bytes([7u8; 32]).unwrap();
    let pid = keypair.public().to_peer_id();
    let key = SigningKey::new(keypair.clone());
    assert_eq!(key.peer_id(), &pid.to_bytes());
    assert_eq!(key.public_key(), &keypair.public().encode_protobuf());
    let mut inline = vec![0u8, key.public_key().len() as u8];
    inline.extend_from_slice(key.public_key());
    assert_eq!(key.peer_id(), &inline);
    let raw = RawPacket::new_signed(PacketData::Message("hi".into()), 1, &key, pid.to_bytes()).unwrap();
    let v = ValidPacket::new(raw, key.public_key().clone(), pid.to_bytes()).unwrap();
    assert_eq!(v.data, PacketData::Message("hi".into()));
    assert_eq!(v.source, pid.to_bytes());
    assert_eq!(v.sequence_number, 1);
    assert!(v.verified);
}

#[test]
fn a_signed_voice_packet_verifies_and_decodes() {
    let key = SigningKey::new(Keypair::generate_ed25519());
    let raw = RawPacket::new_signed(PacketData::Voice(vec![9, 0, 255]), 77, &key, vec![5]).unwrap();
    let v = ValidPacket::new(raw, key.public_key().clone(), vec![5]).unwrap();
    assert!(v.verified);
    assert_eq!(v.data, PacketData::Voice(vec![9, 0, 255]));
}

#[test]
fn a_signature_from_another_key_does_not_verify() {
    let key = SigningKey::new(Keypair::generate_ed25519());
    let other = SigningKey::new(Keypair::generate_ed25519());
    let raw = RawPacket::new_signed(PacketData::Message("x".to_string()), 1, &key, vec![1]).unwrap();
    let valid = ValidPacket::new(raw, other.public_key().clone(), vec![1]).unwrap();
    assert!(!valid.verified);
}

#[test]
fn a_tampered_packet_does_not_verify() {
    let key = SigningKey::new(Keypair::generate_ed25519());
    let mut raw = RawPacket::new_signed(PacketData::Message("x".to_string()), 1, &key, vec![1]).unwrap();
    raw.sequence_number = 2;
    let valid = ValidPacket::new(raw, key.public_key().clone(), vec![1]).unwrap();
    assert!(!valid.verified);
}

#[test]
fn an_unsigned_packet_is_never_verified() {
    let key = Keypair::generate_ed25519();
    let raw = RawPacket::new_unsigned(PacketData::Message("plain".to_string()), 3, vec![4]);
    let valid = ValidPacket::new(raw, key.public().encode_protobuf(), vec![4]).unwrap();
    assert!(!valid.verified);
    assert_eq!(valid.data, PacketData::Message("plain".to_string()));
}

#[test]
fn valid_packet_rejects_a_payload_that_is_not_utf8() {
    let key = Keypair::generate_ed25519();
    let raw = RawPacket {
        packet_type: b"message".to_vec(),
        data: vec![0xc0, 0x80],
        sequence_number: 0,
        source: vec![],
        signature: None,
    };
    assert!(ValidPacket::new(raw, key.public().encode_protobuf(), vec![]).is_none());
}

#[test]
fn raw_packet_clone_is_equal_field_by_field() {
    let raw = RawPacket {
        packet_type: b"voice".to_vec(),
        data: vec![1],
        sequence_number: 5,
        source: vec![2],
        signature: Some(vec![3, 4]),
    };
    let copy = raw.clone();
    assert_eq!(copy.packet_type, raw.packet_type);
    assert_eq!(copy.data, raw.data);
    assert_eq!(copy.sequence_number, raw.sequence_number);
    assert_eq!(copy.source, raw.source);
    assert_eq!(copy.signature, raw.signature);
}

#[test]
fn default_avatar_is_empty_and_clone_keeps_it() {
    let a = Avatar::default();
    assert_eq!(a.display_name, "");
    assert_eq!(a.accent_color, "");
    let b = Avatar {
        display_name: "n".to_string(),
        head: "h".to_string(),
        torso: "t".to_string(),
        backpack: "b".to_string(),
        primary_color: "p".to_string(),
        accent_color: "a".to_string(),
    };
    assert_eq!(b.clone(), b);
}

#[test]
fn a_key_that_does_not_decode_verifies_nothing() {
    let key = SigningKey::new(Keypair::generate_ed25519());
    let raw = RawPacket::new_signed(PacketData::Message("x".to_string()), 1, &key, vec![1]).unwrap();
    let valid = ValidPacket::new(raw, vec![1, 2, 3], vec![1]).unwrap();
    assert!(!valid.verified);
}

fn sample_avatar() -> Avatar {
    Avatar {
        display_name: "Ann ✓".to_string(),
        head: "hat".to_string(),
        torso: String::new(),
        backpack: "pack".to_string(),
        primary_color: "#ff0000".to_string(),
        accent_color: "blau".to_string(),
    }
}

fn sample_movement() -> [[u32; 3]; 12] {
    let mut m = [[0u32; 3]; 12];
    for (j, row) in m.iter_mut().enumerate() {
        for (c, x) in row.iter_mut().enumerate() {
            *x = (1.5f32 * (j as f32) - (c as f32)).to_bits();
        }
    }
    m
}

#[test]
fn every_kind_of_packet_has_its_own_utf8_key() {
    let all = vec![
        PacketData::Message("m".to_string()),
        PacketData::Voice(vec![1]),
        PacketData::Movement(sample_movement()),
        PacketData::AddPassport("a.b.c".to_string()),
        PacketData::SetAvatar(sample_avatar()),
    ];
    let keys: Vec<Vec<u8>> = all.iter().map(|d| d.as_bytes().0).collect();
    let names: Vec<&str> = keys.iter().map(|k| std::str::from_utf8(k).unwrap()).collect();
    assert_eq!(names, vec!["message", "voice", "movement", "add_passport", "set_avatar"]);
}

#[test]
fn every_kind_of_packet_round_trips_through_bytes() {
    let all = vec![
        PacketData::Message("grüße".to_string()),
        PacketData::Voice(vec![0, 255, 7]),
        PacketData::Movement(sample_movement()),
        PacketData::Movement([[u32::MAX; 3]; 12]),
        PacketData::AddPassport("header.payload.sig".to_string()),
        PacketData::SetAvatar(sample_avatar()),
        PacketData::SetAvatar(Avatar::default()),
    ];
    for original in all {
        let (packet_type, data) = original.as_bytes();
        assert_eq!(PacketData::from_bytes(packet_type, data).unwrap(), original);
    }
}

#[test]
fn movement_bytes_are_big_endian_coordinates_in_order() {
    let mut m = [[0u32; 3]; 12];
    m[0][0] = 0x0102_0304;
    m[0][1] = 0x0506_0708;
    m[11][2] = 0xa0b0_c0d0;
    let (_, data) = PacketData::Movement(m).as_bytes();
    assert_eq!(data.len(), 144);
    assert_eq!(&data[0..8], &[1, 2, 3, 4, 5, 6, 7, 8]);
    assert_eq!(&data[140..144], &[0xa0, 0xb0, 0xc0, 0xd0]);
}

#[test]
fn avatar_bytes_are_length_prefixed_fields() {
    let a = Avatar {
        display_name: "ab".to_string(),
        head: String::new(),
        torso: String::new(),
        backpack: String::new(),
        primary_color: String::new(),
        accent_color: "z".to_string(),
    };
    let (_, data) = PacketData::SetAvatar(a).as_bytes();
    let mut expected = vec![0, 0, 0, 0, 0, 0, 0, 2, b'a', b'b'];
    for _ in 0..4 {
        expected.extend_from_slice(&[0; 8]);
    }
    expected.extend_from_slice(&[0, 0, 0, 0, 0, 0, 0, 1, b'z']);
    assert_eq!(data, expected);
}

#[test]
fn from_bytes_rejects_malformed_payloads() {
    assert!(matches!(PacketData::from_bytes(b"movement".to_vec(), vec![0; 143]), Err(Error::Malformed)));
    assert!(matches!(PacketData::from_bytes(b"set_avatar".to_vec(), vec![0; 47]), Err(Error::Malformed)));
    assert!(matches!(PacketData::from_bytes(b"set_avatar".to_vec(), vec![0; 49]), Err(Error::Malformed)));
    let mut bad_text = vec![0, 0, 0, 0, 0, 0, 0, 1, 0xff];
    bad_text.extend_from_slice(&[0; 40]);
    assert!(matches!(PacketData::from_bytes(b"set_avatar".to_vec(), bad_text), Err(Error::Utf8(_))));
    assert!(matches!(PacketData::from_bytes(b"add_passport".to_vec(), vec![0xc3]), Err(Error::Utf8(_))));
    let mut too_long = vec![0, 0, 0, 0, 0, 0, 0, 200];
    too_long.extend_from_slice(&[0; 40]);
    assert!(matches!(PacketData::from_bytes(b"set_avatar".to_vec(), too_long), Err(Error::Malformed)));
}

#[test]
fn empty_avatar_is_six_zero_lengths() {
    let decoded = PacketData::from_bytes(b"set_avatar".to_vec(), vec![0; 48]).unwrap();
    assert_eq!(decoded, PacketData::SetAvatar(Avatar::default()));
}

#[test]
fn a_signed_avatar_packet_verifies_and_decodes() {
    let key = SigningKey::new(Keypair::generate_ed25519());
    let raw = RawPacket::new_signed(PacketData::SetAvatar(sample_avatar()), 3, &key, vec![1]).unwrap();
    let v = ValidPacket::new(raw, key.public_key().clone(), vec![1]).unwrap();
    assert!(v.verified);
    assert_eq!(v.data, PacketData::SetAvatar(sample_avatar()));
}

#[test]
fn a_packet_signed_by_its_source_is_verified_from_the_source_alone() {
    let key = SigningKey::new(Keypair::ed25519_from_bytes([9u8; 32]).unwrap());
    let source = key.peer_id().clone();
    let raw = RawPacket::new_signed(PacketData::Message("hey".to_string()), 4, &key, source.clone()).unwrap();
    let v = validate_from_source(raw).unwrap();
    assert!(v.verified);
    assert_eq!(v.source, source);
    assert_eq!(v.sequence_number, 4);
    assert_eq!(v.data, PacketData::Message("hey".to_string()));
}

#[test]
fn a_packet_signed_by_another_key_is_not_verified_from_the_source() {
    let key = SigningKey::new(Keypair::ed25519_from_bytes([9u8; 32]).unwrap());
    let other = SigningKey::new(Keypair::ed25519_from_bytes([8u8; 32]).unwrap());
    let raw = RawPacket::new_signed(PacketData::Voice(vec![1]), 4, &other, key.peer_id().clone()).unwrap();
    let v = validate_from_source(raw).unwrap();
    assert!(!v.verified);
    assert_eq!(v.data, PacketData::Voice(vec![1]));
    let unsigned = RawPacket::new_unsigned(PacketData::Voice(vec![1]), 4, key.peer_id().clone());
    assert!(!validate_from_source(unsigned).unwrap().verified);
    let odd_source = RawPacket::new_signed(PacketData::Voice(vec![1]), 4, &key, vec![0, 1, 2]).unwrap();
    assert!(!validate_from_source(odd_source).unwrap().verified);
}

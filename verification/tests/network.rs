use evergreen::bindings::SigningKey;
use evergreen::client::{Action, Config, NetworkEvent as ClientEvent, NetworkState as ClientState, OutgoingRequest};
use evergreen::network::peers::PeerTable;
use evergreen::network::server;
use evergreen::network::untrusted::{NetworkEvent, NetworkState};
use evergreen::types::{
    Avatar, ClientCommand, Command, NetworkUpdate, PacketData, Peer, RawPacket, Response,
    ServerCommand, ValidPacket,
};


use libp2p::identity::Keypair;

/// A key and its peer id bytes.
fn identity(seed: u8) -> (SigningKey, Vec<u8>) {
    let key = SigningKey::new(Keypair::ed25519_from_bytes([seed; 32]).unwrap());
    let id = key.peer_id().clone();
    (key, id)
}

/// A packet signed by `key`, naming `source` as its source.
fn signed(key: &SigningKey, source: &[u8], data: PacketData) -> RawPacket {
    RawPacket::new_signed(data, 1, key, source.to_vec()).unwrap()
}

fn avatar(name: &str) -> Avatar {
    Avatar {
        display_name: name.to_string(),
        head: "head".to_string(),
        torso: "torso".to_string(),
        backpack: "pack".to_string(),
        primary_color: "red".to_string(),
        accent_color: "blue".to_string(),
    }
}

#[test]
fn peer_table_insert_get_and_replace() {
    let mut t = PeerTable::new();
    assert_eq!(t.len(), 0);
    assert!(!t.contains(&vec![1]));
    t.insert(vec![1], Peer { identity: "one".to_string(), avatar: Avatar::default(), passports: vec![] });
    t.insert(vec![2], Peer::default());
    assert_eq!(t.len(), 2);
    assert_eq!(t.get(&vec![1]).unwrap().identity, "one");
    t.insert(vec![1], Peer { identity: "uno".to_string(), avatar: Avatar::default(), passports: vec![] });
    assert_eq!(t.len(), 2);
    assert_eq!(t.get(&vec![1]).unwrap().identity, "uno");
    assert_eq!(t.id_at(0), vec![1]);
    assert_eq!(t.id_at(1), vec![2]);
}

#[test]
fn peer_table_set_avatar_touches_only_a_known_peer() {
    let mut t = PeerTable::new();
    t.insert(vec![1], Peer::default());
    t.insert(vec![2], Peer::default());
    t.set_avatar(&vec![2], avatar("two"));
    assert_eq!(t.get(&vec![2]).unwrap().avatar, avatar("two"));
    assert_eq!(t.get(&vec![1]).unwrap().avatar, Avatar::default());
    t.set_avatar(&vec![9], avatar("nine"));
    assert!(!t.contains(&vec![9]));
    assert_eq!(t.len(), 2);
}

#[test]
fn untrusted_reports_listen_address() {
    let mut s = NetworkState::new();
    let r = s.handle_event(NetworkEvent::NewListenAddr("/ip4/1.2.3.4/udp/9/quic-v1".to_string()));
    match r {
        Some(Response::Network(NetworkUpdate::AliveWithAddr(a))) => assert_eq!(a, "/ip4/1.2.3.4/udp/9/quic-v1"),
        other => panic!("unexpected {other:?}"),
    }
}

#[test]
fn untrusted_connection_registers_peer_and_reports_it() {
    let mut s = NetworkState::new();
    let r = s.handle_event(NetworkEvent::ConnectionEstablished(vec![7, 7]));
    assert!(matches!(r, Some(Response::Network(NetworkUpdate::NewPeer(p))) if p == vec![7, 7]));
    assert!(s.peer_table().contains(&vec![7, 7]));
}

#[test]
fn untrusted_avatar_from_known_peer_is_recorded_and_reported() {
    let (key, ann) = identity(1);
    let mut s = NetworkState::new();
    s.handle_event(NetworkEvent::ConnectionEstablished(ann.clone()));
    let r = s.handle_event(NetworkEvent::Message(ann.clone(), signed(&key, &ann, PacketData::SetAvatar(avatar("ann")))));
    match r {
        Some(Response::Client(c)) => {
            assert_eq!(c.peer, ann);
            assert_eq!(c.data, PacketData::SetAvatar(avatar("ann")));
        },
        other => panic!("unexpected {other:?}"),
    }
    assert_eq!(s.peer_table().get(&ann).unwrap().avatar, avatar("ann"));
}

#[test]
fn untrusted_avatar_from_unknown_peer_changes_nothing() {
    let (key, x) = identity(5);
    let mut s = NetworkState::new();
    let r = s.handle_event(NetworkEvent::Message(x.clone(), signed(&key, &x, PacketData::SetAvatar(avatar("x")))));
    assert!(matches!(r, Some(Response::Client(_))));
    assert_eq!(s.peer_table().len(), 0);
}

#[test]
fn untrusted_reconnect_resets_the_peer() {
    let (key, ann) = identity(1);
    let mut s = NetworkState::new();
    s.handle_event(NetworkEvent::ConnectionEstablished(ann.clone()));
    s.handle_event(NetworkEvent::Message(ann.clone(), signed(&key, &ann, PacketData::SetAvatar(avatar("ann")))));
    s.handle_event(NetworkEvent::ConnectionEstablished(ann.clone()));
    assert_eq!(s.peer_table().get(&ann).unwrap().avatar, Avatar::default());
}

#[test]
fn untrusted_closed_connection_is_reported_and_peer_kept() {
    let mut s = NetworkState::new();
    s.handle_event(NetworkEvent::ConnectionEstablished(vec![3]));
    let r = s.handle_event(NetworkEvent::ConnectionClosed(vec![3]));
    assert!(matches!(r, Some(Response::Network(NetworkUpdate::PeerDisconnected(p))) if p == vec![3]));
    assert!(s.peer_table().contains(&vec![3]));
    assert!(s.handle_event(NetworkEvent::Other).is_none());
}

#[test]
fn untrusted_drops_unsigned_and_forged_packets() {
    let (alice_key, alice) = identity(1);
    let (eve_key, _eve) = identity(2);
    let mut s = NetworkState::new();
    s.handle_event(NetworkEvent::ConnectionEstablished(alice.clone()));
    let unsigned = RawPacket::new_unsigned(PacketData::SetAvatar(avatar("eve")), 1, alice.clone());
    assert!(s.handle_event(NetworkEvent::Message(alice.clone(), unsigned)).is_none());
    let forged = signed(&eve_key, &alice, PacketData::SetAvatar(avatar("eve")));
    assert!(s.handle_event(NetworkEvent::Message(alice.clone(), forged)).is_none());
    let mut tampered = signed(&alice_key, &alice, PacketData::Message("hi".to_string()));
    tampered.data = b"bye".to_vec();
    assert!(s.handle_event(NetworkEvent::Message(alice.clone(), tampered)).is_none());
    let nobody = signed(&alice_key, &[1, 2, 3], PacketData::Message("hi".to_string()));
    assert!(s.handle_event(NetworkEvent::Message(alice.clone(), nobody)).is_none());
    assert_eq!(s.peer_table().get(&alice).unwrap().avatar, Avatar::default());
}

#[test]
fn untrusted_relayed_packet_is_reported_as_from_its_signer() {
    let (_hub_key, hub) = identity(1);
    let (bob_key, bob) = identity(2);
    let mut s = NetworkState::new();
    s.handle_event(NetworkEvent::ConnectionEstablished(hub.clone()));
    s.handle_event(NetworkEvent::ConnectionEstablished(bob.clone()));
    let relayed = signed(&bob_key, &bob, PacketData::SetAvatar(avatar("two")));
    let r = s.handle_event(NetworkEvent::Message(hub.clone(), relayed));
    assert!(matches!(r, Some(Response::Client(c)) if c.peer == bob));
    assert_eq!(s.peer_table().get(&bob).unwrap().avatar, avatar("two"));
    assert_eq!(s.peer_table().get(&hub).unwrap().avatar, Avatar::default());
}

#[test]
fn untrusted_sending_changes_nothing() {
    let mut s = NetworkState::new();
    s.handle_event(NetworkEvent::ConnectionEstablished(vec![3]));
    assert!(s.handle_command(Command::SendData(PacketData::Message("m".to_string()))).is_empty());
    assert!(s.handle_command(Command::ServerCommand(ServerCommand::KickPeer(vec![3]))).is_empty());
    assert_eq!(s.peer_table().len(), 1);
}

#[test]
fn untrusted_disconnect_drops_every_peer() {
    let mut s = NetworkState::new();
    s.handle_event(NetworkEvent::ConnectionEstablished(vec![3]));
    s.handle_event(NetworkEvent::ConnectionEstablished(vec![4]));
    let gone = s.handle_command(Command::ClientCommand(ClientCommand::Disconnect));
    assert_eq!(gone, vec![vec![3], vec![4]]);
    assert_eq!(s.peer_table().len(), 0);
}

fn sent(actions: &[Action]) -> Vec<&OutgoingRequest> {
    actions
        .iter()
        .map(|a| match a {
            Action::Send(r) => r,
            Action::Disconnect(_) => panic!("unexpected disconnect"),
        })
        .collect()
}

fn client(sign: bool, start: u64) -> (ClientState, Keypair, Vec<u8>) {
    let key = Keypair::generate_ed25519();
    let id = key.public().to_peer_id().to_bytes();
    (ClientState::new(SigningKey::new(key.clone()), Config { sign_packets: sign }, start), key, id)
}

#[test]
fn client_send_numbers_and_addresses_every_peer() {
    let (mut s, _key, id) = client(false, 10);
    s.handle_event(ClientEvent::ConnectionEstablished(vec![1]));
    s.handle_event(ClientEvent::ConnectionEstablished(vec![2]));
    let out = s.handle_command(Command::SendData(PacketData::Message("hey".to_string())));
    let out = sent(&out);
    assert_eq!(s.sequence_number(), 11);
    assert_eq!(out.len(), 2);
    assert_eq!(out[0].peer, vec![1]);
    assert_eq!(out[1].peer, vec![2]);
    for r in out {
        assert_eq!(r.packet.packet_type, b"message".to_vec());
        assert_eq!(r.packet.data, b"hey".to_vec());
        assert_eq!(r.packet.sequence_number, 11);
        assert_eq!(r.packet.source, id);
        assert!(r.packet.signature.is_none());
    }
    let out = s.handle_command(Command::SendData(PacketData::Voice(vec![1, 2])));
    let out = sent(&out);
    assert_eq!(s.sequence_number(), 12);
    assert_eq!(out[0].packet.sequence_number, 12);
    assert_eq!(out[0].packet.packet_type, b"voice".to_vec());
}

#[test]
fn client_signed_send_carries_a_valid_signature() {
    let (mut s, key, id) = client(true, 0);
    s.handle_event(ClientEvent::ConnectionEstablished(vec![4]));
    s.handle_event(ClientEvent::ConnectionEstablished(vec![5]));
    let out = s.handle_command(Command::SendData(PacketData::Message("sig".to_string())));
    let out = sent(&out);
    assert_eq!(out.len(), 2);
    assert_eq!(out[0].peer, vec![4]);
    assert_eq!(out[1].peer, vec![5]);
    assert_eq!(out[0].packet.signature, out[1].packet.signature);
    let p = &out[0].packet;
    let msg = evergreen::types::packet::signing_message(&p.packet_type, &p.data, p.sequence_number, &p.source);
    assert!(key.public().verify(&msg, p.signature.as_ref().unwrap()));
    assert_eq!(p.source, id);
    assert_eq!(p.sequence_number, 1);
}

#[test]
fn client_send_without_peers_sends_nothing_but_counts() {
    let (mut s, _key, _id) = client(false, 5);
    let out = s.handle_command(Command::SendData(PacketData::Message("x".to_string())));
    assert!(out.is_empty());
    assert_eq!(s.sequence_number(), 6);
    let out = s.handle_command(Command::ClientCommand(ClientCommand::Disconnect));
    assert!(out.is_empty());
    assert_eq!(s.sequence_number(), 6);
}

#[test]
fn client_disconnect_closes_every_connection_and_later_data_goes_nowhere() {
    let (mut s, _key, _id) = client(true, 0);
    s.handle_event(ClientEvent::ConnectionEstablished(vec![1]));
    s.handle_event(ClientEvent::ConnectionEstablished(vec![2]));
    let out = s.handle_command(Command::ClientCommand(ClientCommand::Disconnect));
    assert_eq!(out.len(), 2);
    assert!(matches!(&out[0], Action::Disconnect(p) if *p == vec![1]));
    assert!(matches!(&out[1], Action::Disconnect(p) if *p == vec![2]));
    assert_eq!(s.peer_table().len(), 0);
    let later = s.handle_command(Command::SendData(PacketData::Message("late".to_string())));
    assert!(later.is_empty());
    assert_eq!(s.sequence_number(), 1);
}

#[test]
fn client_server_commands_do_nothing() {
    let (mut s, _key, _id) = client(false, 3);
    s.handle_event(ClientEvent::ConnectionEstablished(vec![1]));
    assert!(s.handle_command(Command::ServerCommand(ServerCommand::BanPeer(vec![1]))).is_empty());
    assert_eq!(s.peer_table().len(), 1);
    assert_eq!(s.sequence_number(), 3);
}

#[test]
fn client_sent_voice_decodes_at_the_receiver() {
    let (mut sender, _key, id) = client(true, 0);
    let (mut receiver, _k2, _id2) = client(false, 0);
    sender.handle_event(ClientEvent::ConnectionEstablished(vec![9]));
    receiver.handle_event(ClientEvent::ConnectionEstablished(id.clone()));
    let out = sender.handle_command(Command::SendData(PacketData::Voice(vec![4, 5])));
    let out = sent(&out);
    let packet = out[0].packet.clone();
    assert_eq!(PacketData::try_from(packet.clone()).unwrap(), PacketData::Voice(vec![4, 5]));
    assert!(receiver.handle_event(ClientEvent::Request(id, packet)).is_none());
}

#[test]
fn client_events_report_and_keep_peers() {
    let (mut s, _key, _id) = client(false, 0);
    assert!(matches!(s.handle_event(ClientEvent::NewListenAddr("a".to_string())),
        Some(Response::Network(NetworkUpdate::AliveWithAddr(a))) if a == "a"));
    assert!(matches!(s.handle_event(ClientEvent::ConnectionEstablished(vec![8])),
        Some(Response::Network(NetworkUpdate::NewPeer(p))) if p == vec![8]));
    assert!(matches!(s.handle_event(ClientEvent::ConnectionClosed(vec![8])),
        Some(Response::Network(NetworkUpdate::PeerDisconnected(p))) if p == vec![8]));
    assert!(s.peer_table().contains(&vec![8]));
    assert!(s.handle_event(ClientEvent::Response(vec![8])).is_none());
    assert!(s.handle_event(ClientEvent::Other).is_none());
}

#[test]
fn client_request_with_a_message_reports_nothing_and_keeps_peers() {
    let (mut s, _key, _id) = client(false, 0);
    s.handle_event(ClientEvent::ConnectionEstablished(vec![8]));
    let raw = RawPacket::new_unsigned(PacketData::Message("in".to_string()), 4, vec![8]);
    assert!(s.handle_event(ClientEvent::Request(vec![8], raw)).is_none());
    let bad = RawPacket { packet_type: vec![0xff], data: vec![], sequence_number: 0, source: vec![], signature: None };
    assert!(s.handle_event(ClientEvent::Request(vec![8], bad)).is_none());
    assert_eq!(s.peer_table().len(), 1);
}

#[test]
fn client_avatar_packet_updates_known_sender() {
    let (mut s, _key, _id) = client(false, 0);
    s.handle_event(ClientEvent::ConnectionEstablished(vec![8]));
    s.handle_packet(evergreen::types::ValidPacket {
        data: PacketData::SetAvatar(avatar("bo")),
        source: vec![8],
        sequence_number: 1,
        verified: false,
    });
    assert_eq!(s.peer_table().get(&vec![8]).unwrap().avatar, avatar("bo"));
    s.handle_packet(evergreen::types::ValidPacket {
        data: PacketData::SetAvatar(avatar("zz")),
        source: vec![9],
        sequence_number: 2,
        verified: false,
    });
    assert!(!s.peer_table().contains(&vec![9]));
}

#[test]
fn server_event_decisions() {
    assert!(matches!(server::handle_event(server::NetworkEvent::ConnectionEstablished(vec![1])),
        Some(server::Action::AddExplicitPeer(p)) if p == vec![1]));
    assert!(matches!(server::handle_event(server::NetworkEvent::GossipsubNotSupported(vec![2])),
        Some(server::Action::DisconnectPeer(p)) if p == vec![2]));
    assert!(matches!(server::handle_event(server::NetworkEvent::NewListenAddr("x".to_string())),
        Some(server::Action::Report(Response::Network(NetworkUpdate::AliveWithAddr(a)))) if a == "x"));
    assert!(matches!(server::handle_event(server::NetworkEvent::Message(vec![3], PacketData::Message("m".to_string()))),
        Some(server::Action::Report(Response::Client(c))) if c.peer == vec![3]));
    assert!(server::handle_event(server::NetworkEvent::ConnectionClosed(vec![1])).is_none());
    assert!(server::handle_event(server::NetworkEvent::Other).is_none());
}

#[test]
fn server_publishes_message_text_as_utf8() {
    assert!(matches!(server::handle_command(PacketData::Message("chat ✓".to_string())),
        server::Action::Publish(b) if b == "chat ✓".as_bytes().to_vec()));
}

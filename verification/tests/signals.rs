use evergreen::signals::{poll_signal, Signal};
use evergreen::types::{Avatar, ClientResponse, NetworkUpdate, PacketData, Response, ServerResponse};

fn from_peer(data: PacketData) -> Response {
    Response::Client(ClientResponse { peer: vec![1, 2], data })
}

#[test]
fn client_data_becomes_the_matching_signal() {
    assert!(matches!(poll_signal(from_peer(PacketData::Voice(vec![9]))),
        Signal::VoipData(p, d) if p == vec![1, 2] && d == vec![9]));
    assert!(matches!(poll_signal(from_peer(PacketData::Message("hi".to_string()))),
        Signal::Message(p, t) if p == vec![1, 2] && t == "hi"));
    let bits = [[1.0f32.to_bits(), 2.0f32.to_bits(), 3.0f32.to_bits()]; 12];
    assert!(matches!(poll_signal(from_peer(PacketData::Movement(bits))),
        Signal::Movement(p, m) if p == vec![1, 2] && m == bits));
    assert!(matches!(poll_signal(from_peer(PacketData::SetAvatar(Avatar::default()))),
        Signal::SetAvatar(p, a) if p == vec![1, 2] && a == Avatar::default()));
}

#[test]
fn network_updates_become_connection_signals() {
    assert!(matches!(poll_signal(Response::Network(NetworkUpdate::NewPeer(vec![3]))), Signal::Connected));
    assert!(matches!(poll_signal(Response::Network(NetworkUpdate::PeerDisconnected(vec![3]))), Signal::Disconnected));
    assert!(matches!(poll_signal(Response::Network(NetworkUpdate::AliveWithAddr("addr".to_string()))),
        Signal::Alive(a) if a == "addr"));
    assert!(matches!(poll_signal(Response::Network(NetworkUpdate::Disconnected)), Signal::Nothing));
    assert!(matches!(poll_signal(Response::Server(ServerResponse {})), Signal::Nothing));
}

use cribbage::client::{client_step, Discovery, Query};
use cribbage::frame::{decode_frame, encode_frame};
use cribbage::peer::{multicast_group, PeerAddr, ADVERT_PORT, MULTICAST_IP};
use cribbage::record::{decode_record, encode_record, Record};
use cribbage::server::server_step;
use cribbage::wire::{wire_decode, wire_encode};

fn peer(ip: u32, port: u16) -> PeerAddr {
    PeerAddr { ip, port }
}

#[test]
fn frame_roundtrip_on_a_sample_payload() {
    let payload: Vec<u8> = vec![0, 1, 2, 253, 254, 255];
    let frame = encode_frame(&payload);
    assert_eq!(frame.len(), payload.len() + 4);
    assert_eq!(&frame[..4], &[0, 0, 0, 6]);
    assert_eq!(decode_frame(&frame), Some(payload));
}

#[test]
fn frame_roundtrip_on_an_empty_payload() {
    let payload: Vec<u8> = vec![];
    let frame = encode_frame(&payload);
    assert_eq!(frame, vec![0, 0, 0, 0]);
    assert_eq!(decode_frame(&frame), Some(payload));
}

#[test]
fn malformed_frames_are_reported_not_panicked_on() {
    // Too short to hold a header.
    assert_eq!(decode_frame(&vec![]), None);
    assert_eq!(decode_frame(&vec![0, 0, 1]), None);
    // Header does not match the number of bytes that follow.
    assert_eq!(decode_frame(&vec![0, 0, 0, 2, 9]), None);
    assert_eq!(decode_frame(&vec![0, 0, 0, 0, 9]), None);
}

#[test]
fn record_roundtrip_request() {
    let encoded = encode_record(&Record::Request);
    assert_eq!(encoded, b"cribbage-advertisement-request".to_vec());
    assert_eq!(decode_record(&encoded), Some(Record::Request));
}

#[test]
fn record_roundtrip_response_across_ports() {
    for port in [0u16, 1, 255, 256, 2929, 4001, 0xFFFF] {
        let r = Record::Response { port };
        let encoded = encode_record(&r);
        assert_eq!(&encoded[..31], b"cribbage-advertisement-response");
        assert_eq!(encoded[31], (port % 0x100) as u8);
        assert_eq!(encoded[32], (port / 0x100) as u8);
        assert_eq!(decode_record(&encoded), Some(r));
    }
}

#[test]
fn garbled_records_decode_to_none() {
    assert_eq!(decode_record(&vec![]), None);
    assert_eq!(decode_record(&vec![1, 2, 3]), None);
    // The right length for a response but the wrong marker.
    let mut bytes = encode_record(&Record::Response { port: 2929 });
    bytes[0] = b'x';
    assert_eq!(decode_record(&bytes), None);
    // The request marker with a trailing byte is no longer a request.
    let mut bytes = encode_record(&Record::Request);
    bytes.push(0);
    assert_eq!(decode_record(&bytes), None);
}

#[test]
fn wire_roundtrip_both_shapes() {
    assert_eq!(wire_decode(&wire_encode(&Record::Request)), Some(Record::Request));
    let r = Record::Response { port: 2929 };
    assert_eq!(wire_decode(&wire_encode(&r)), Some(r));
}

#[test]
fn server_replies_to_a_request_with_its_port() {
    let sender = peer(0x0A00_0001, 54321);
    let request = wire_encode(&Record::Request);
    let reply = server_step(&request, sender, 2929);

    let (datagram, target) = reply.expect("a valid request deserves a reply");
    assert_eq!(target, sender);
    assert_eq!(wire_decode(&datagram), Some(Record::Response { port: 2929 }));
}

#[test]
fn server_targets_the_exact_sender() {
    let request = wire_encode(&Record::Request);
    for (ip, port) in [(0x7F00_0001u32, 1u16), (0xC0A8_0107, 60000), (1, 2)] {
        let sender = peer(ip, port);
        let (_, target) = server_step(&request, sender, 4001).unwrap();
        assert_eq!(target, sender);
    }
}

#[test]
fn server_discards_everything_but_a_request() {
    let sender = peer(0x0A00_0001, 54321);
    // Unframed garbage.
    assert_eq!(server_step(&vec![1, 2, 3], sender, 2929), None);
    // A well-formed frame around a garbled record.
    assert_eq!(server_step(&encode_frame(&vec![9, 9, 9]), sender, 2929), None);
    // A well-formed response: structurally fine, but not the request marker.
    let response = wire_encode(&Record::Response { port: 2929 });
    assert_eq!(server_step(&response, sender, 2929), None);
    // The bare request marker without a frame around it.
    assert_eq!(server_step(&encode_record(&Record::Request), sender, 2929), None);
}

#[test]
fn client_step_accepts_only_responses() {
    assert_eq!(client_step(&wire_encode(&Record::Response { port: 4001 })), Some(4001));
    // Its own multicast request, echoed back by loopback, is discarded.
    assert_eq!(client_step(&wire_encode(&Record::Request)), None);
    assert_eq!(client_step(&vec![0, 1, 2]), None);
}

#[test]
fn query_aggregates_one_result_per_responding_server() {
    let mut query = Query::new();
    let servers = [(peer(1, 50000), 4001u16), (peer(2, 50001), 4002), (peer(3, 50002), 4003)];
    for (addr, port) in servers {
        query.absorb(&wire_encode(&Record::Response { port }), addr);
    }
    query.on_deadline();

    let results = query.results();
    assert_eq!(results.len(), 3);
    for (i, (addr, port)) in servers.into_iter().enumerate() {
        assert_eq!(results[i], Discovery { addr, port });
    }
}

#[test]
fn query_is_unaffected_by_a_malformed_datagram() {
    let mut with_junk = Query::new();
    let mut without_junk = Query::new();
    let a = peer(1, 50000);
    let b = peer(2, 50001);

    with_junk.absorb(&wire_encode(&Record::Response { port: 4001 }), a);
    with_junk.absorb(&vec![0xDE, 0xAD, 0xBE, 0xEF], peer(9, 9));
    with_junk.absorb(&wire_encode(&Record::Response { port: 4002 }), b);

    without_junk.absorb(&wire_encode(&Record::Response { port: 4001 }), a);
    without_junk.absorb(&wire_encode(&Record::Response { port: 4002 }), b);

    assert_eq!(with_junk.results(), without_junk.results());
    assert_eq!(with_junk.results().len(), 2);
}

#[test]
fn repeated_queries_find_the_same_port_set() {
    let servers = [(peer(1, 50000), 4001u16), (peer(2, 50001), 4002), (peer(3, 50002), 4003)];

    let mut ports_seen: Vec<Vec<u16>> = Vec::new();
    for round in 0..3 {
        let mut query = Query::new();
        // Replies arrive in a different order each round.
        for k in 0..servers.len() {
            let (addr, port) = servers[(k + round) % servers.len()];
            query.absorb(&wire_encode(&Record::Response { port }), addr);
        }
        query.on_deadline();
        let mut ports: Vec<u16> = query.results().iter().map(|d| d.port).collect();
        ports.sort();
        ports_seen.push(ports);
    }
    assert_eq!(ports_seen[0], vec![4001, 4002, 4003]);
    assert_eq!(ports_seen[0], ports_seen[1]);
    assert_eq!(ports_seen[1], ports_seen[2]);
}

#[test]
fn deadline_completes_the_query_with_what_it_has() {
    let mut query = Query::new();
    query.absorb(&wire_encode(&Record::Response { port: 4001 }), peer(1, 50000));
    query.on_deadline();
    assert_eq!(query.results().len(), 1);
    assert_eq!(query.results()[0], Discovery { addr: peer(1, 50000), port: 4001 });
}

#[test]
fn query_may_end_empty_handed() {
    let mut query = Query::new();
    query.on_deadline();
    assert!(query.results().is_empty());
}

#[test]
fn the_group_identity_is_fixed() {
    let group = multicast_group();
    assert_eq!(group.ip, MULTICAST_IP);
    assert_eq!(group.ip, u32::from_be_bytes([229, 29, 29, 29]));
    assert_eq!(group.port, ADVERT_PORT);
    assert_eq!(group.port, 29999);
}

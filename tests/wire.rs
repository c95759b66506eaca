use bevy_prototype_networked_event::{EnvelopeError, EventId, NetworkedEvent};

#[test]
fn encode_lays_out_tag_length_payload() {
    let e = NetworkedEvent::new(EventId::new(0x0102), vec![7, 8]);
    let b = e.encode();
    assert_eq!(
        b,
        vec![0x02, 0x01, 0, 0, 0, 0, 0, 0, 2, 0, 0, 0, 0, 0, 0, 0, 7, 8]
    );
}

#[test]
fn decode_of_encode_gives_the_event_back() {
    for (tag, data) in [
        (0u64, vec![]),
        (1, vec![1u8]),
        (u64::MAX, vec![0, 255, 3, 4, 5]),
        (0xdead_beef_0000_0001, (0..40).collect::<Vec<u8>>()),
    ] {
        let e = NetworkedEvent::new(EventId::new(tag), data.clone());
        let d = NetworkedEvent::decode(&e.encode()).unwrap();
        assert_eq!(d.id, EventId::new(tag));
        assert_eq!(d.data, data);
    }
}

#[test]
fn decode_rejects_short_header() {
    assert_eq!(NetworkedEvent::decode(&[]).unwrap_err(), EnvelopeError::Malformed);
    assert_eq!(NetworkedEvent::decode(&[1; 15]).unwrap_err(), EnvelopeError::Malformed);
}

#[test]
fn decode_rejects_truncated_payload() {
    let e = NetworkedEvent::new(EventId::new(5), vec![1, 2, 3, 4]);
    let b = e.encode();
    assert_eq!(
        NetworkedEvent::decode(&b[..b.len() - 1]).unwrap_err(),
        EnvelopeError::Malformed
    );
}

#[test]
fn decode_rejects_trailing_bytes() {
    let e = NetworkedEvent::new(EventId::new(5), vec![1, 2]);
    let mut b = e.encode();
    b.push(9);
    assert_eq!(NetworkedEvent::decode(&b).unwrap_err(), EnvelopeError::Malformed);
}

#[test]
fn decode_accepts_empty_payload() {
    let mut b = vec![9, 0, 0, 0, 0, 0, 0, 0];
    b.extend_from_slice(&[0; 8]);
    let d = NetworkedEvent::decode(&b).unwrap();
    assert_eq!(d.id.t, 9);
    assert!(d.data.is_empty());
}

use bouncer::{classify, decide, decode_reply, BouncerError, BouncerStats, Decision, Mismatch, RawReply, StatsPayload, WaitTime};

fn payload(allowed: bool, wait: Option<WaitTime>) -> StatsPayload {
    StatsPayload { allowed, old: 0, current: 0, since: 0, wait }
}

fn json(text: &str) -> RawReply {
    RawReply::Bytes(text.as_bytes().to_vec())
}

#[test]
fn other_wire_type_is_a_type_mismatch() {
    assert_eq!(
        decode_reply(&RawReply::Other, Some(payload(true, None)), false),
        Err(BouncerError::TypeMismatch(Mismatch::IncompatibleReply))
    );
    assert_eq!(
        decide(Ok(RawReply::Other), None, false),
        Decision::Errored(BouncerError::TypeMismatch(Mismatch::IncompatibleReply))
    );
}

#[test]
fn invalid_utf8_is_a_type_mismatch() {
    let reply = RawReply::Bytes(vec![0xff, 0xfe, 0x7b]);
    assert_eq!(
        decode_reply(&reply, Some(payload(true, None)), false),
        Err(BouncerError::TypeMismatch(Mismatch::InvalidText))
    );
}

#[test]
fn valid_text_is_read_through() {
    let reply = json("{\"allowed\":true}");
    let got = decode_reply(&reply, Some(payload(true, Some(WaitTime::zero()))), false);
    assert_eq!(got.unwrap().allowed, true);
    assert_eq!(decode_reply(&RawReply::Bytes(vec![]), None, false), Ok(BouncerStats::zero()));
}

#[test]
fn unparseable_text_falls_back_to_zero() {
    let reply = json("not json");
    assert_eq!(decode_reply(&reply, None, false), Ok(BouncerStats::zero()));
    assert_eq!(decide(Ok(reply), None, false), Decision::Allowed(BouncerStats::zero()));
}

#[test]
fn unparseable_text_is_an_error_when_strict() {
    let reply = json("not json");
    assert_eq!(
        decode_reply(&reply, None, true),
        Err(BouncerError::TypeMismatch(Mismatch::InvalidPayload))
    );
}

#[test]
fn absent_wait_gets_the_default() {
    let reply = json("{\"allowed\":false,\"old\":1,\"current\":2,\"since\":3}");
    let p = StatsPayload { allowed: false, old: 1, current: 2, since: 3, wait: None };
    let s = decode_reply(&reply, Some(p), false).unwrap();
    assert_eq!(s.wait, WaitTime::from_millis(100));
    assert_eq!(s.old, 1);
    assert_eq!(s.current, 2);
    assert_eq!(s.since, 3);
}

#[test]
fn zero_payload_round_trips() {
    let zero = BouncerStats::zero();
    let encoded = StatsPayload::from_stats(&zero);
    assert_eq!(encoded.wait, Some(WaitTime::zero()));
    assert_eq!(encoded.to_stats(), BouncerStats::default());
    let reply = json("{\"allowed\":false,\"old\":0,\"current\":0,\"since\":0,\"wait\":{\"secs\":0,\"nanos\":0}}");
    assert_eq!(decode_reply(&reply, Some(encoded), false), Ok(BouncerStats::default()));
}

#[test]
fn protocol_error_is_errored() {
    let e = BouncerError::Protocol("connection refused".to_string());
    assert_eq!(decide(Err(e.clone()), None, false), Decision::Errored(e));
}

#[test]
fn classification_follows_the_allow_rule() {
    let waiting = BouncerStats { allowed: false, old: 1, current: 1, since: 0, wait: WaitTime::from_millis(50) };
    assert_eq!(classify(waiting), Decision::Wait(waiting));
    assert_eq!(classify(BouncerStats::zero()), Decision::Allowed(BouncerStats::zero()));
}

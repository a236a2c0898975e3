use zenoh_jni::qos::{
    congestion_control_ordinal, decode_congestion_control, decode_consolidation, decode_priority,
    decode_query_target, decode_reliability, decode_reply_key_expr, priority_ordinal,
    reply_key_expr_code, sample_kind_ordinal, CongestionControl, ConsolidationMode, Priority,
    QueryTarget, Reliability, ReplyKeyExpr, SampleKind,
};

#[test]
fn priorities_travel_as_zenoh_discriminants() {
    assert_eq!(priority_ordinal(Priority::RealTime), 1);
    assert_eq!(priority_ordinal(Priority::Data), 5);
    assert_eq!(priority_ordinal(Priority::Background), 7);
    assert_eq!(decode_priority(4), Ok(Priority::DataHigh));
}

#[test]
fn unknown_priorities_are_refused() {
    assert_eq!(
        decode_priority(0),
        Err("Unknown priority ordinal: admitted values are 1 to 7.".to_string())
    );
    assert!(decode_priority(8).is_err());
    assert!(decode_priority(-1).is_err());
}

#[test]
fn every_sent_ordinal_reads_back() {
    for p in [
        Priority::RealTime,
        Priority::InteractiveHigh,
        Priority::InteractiveLow,
        Priority::DataHigh,
        Priority::Data,
        Priority::DataLow,
        Priority::Background,
    ] {
        assert_eq!(decode_priority(priority_ordinal(p)), Ok(p));
    }
    for c in [CongestionControl::Drop, CongestionControl::Block, CongestionControl::BlockFirst] {
        assert_eq!(decode_congestion_control(congestion_control_ordinal(c)), Ok(c));
    }
    for r in [ReplyKeyExpr::Any, ReplyKeyExpr::MatchingQuery] {
        assert_eq!(decode_reply_key_expr(reply_key_expr_code(r)), Ok(r));
    }
}

#[test]
fn other_ordinals_decode_in_zenoh_order() {
    assert_eq!(decode_congestion_control(0), Ok(CongestionControl::Drop));
    assert_eq!(decode_congestion_control(1), Ok(CongestionControl::Block));
    assert!(decode_congestion_control(3).is_err());
    assert_eq!(decode_reliability(0), Ok(Reliability::BestEffort));
    assert_eq!(decode_reliability(1), Ok(Reliability::Reliable));
    assert_eq!(decode_reliability(2), Err("Unknown reliability ordinal.".to_string()));
    assert_eq!(decode_query_target(2), Ok(QueryTarget::AllComplete));
    assert_eq!(decode_query_target(3), Err("Unknown query target ordinal.".to_string()));
    assert_eq!(decode_consolidation(1), Ok(ConsolidationMode::NoConsolidation));
    assert_eq!(decode_consolidation(3), Ok(ConsolidationMode::Latest));
    assert_eq!(decode_consolidation(4), Err("Unknown consolidation ordinal.".to_string()));
    assert_eq!(decode_reply_key_expr(0), Ok(ReplyKeyExpr::MatchingQuery));
    assert_eq!(decode_reply_key_expr(2), Err("Unknown reply key expression code.".to_string()));
}

#[test]
fn sample_kinds_and_reply_codes() {
    assert_eq!(sample_kind_ordinal(SampleKind::Put), 0);
    assert_eq!(sample_kind_ordinal(SampleKind::Delete), 1);
    assert_eq!(reply_key_expr_code(ReplyKeyExpr::MatchingQuery), 0);
    assert_eq!(reply_key_expr_code(ReplyKeyExpr::Any), 1);
}

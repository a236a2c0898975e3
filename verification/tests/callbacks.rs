use zenoh_jni::qos::{CongestionControl, Priority, ReplyKeyExpr, SampleKind};
use zenoh_jni::query::{query_callback_args, reply_options, QueryFields};
use zenoh_jni::reply::{reply_error_args, reply_success_args, ReplierId, ReplyErrorFields, SampleFields};

fn sample() -> SampleFields {
    SampleFields {
        key_expr: "demo/a".to_string(),
        payload: vec![1, 2, 3],
        encoding_id: 7,
        encoding_schema: Some(b"utf-8".to_vec()),
        kind: SampleKind::Delete,
        timestamp: Some(u64::MAX),
        attachment: None,
        express: true,
        priority: Priority::DataLow,
        congestion_control: CongestionControl::Block,
    }
}

#[test]
fn success_reply_carries_the_sample() {
    let args = reply_success_args(Some(ReplierId { zid: vec![9; 16], eid: 3 }), sample());
    assert_eq!(args.replier_zid, Some(vec![9; 16]));
    assert_eq!(args.replier_eid, 3);
    assert!(args.is_success);
    assert_eq!(args.key_expr, Some("demo/a".to_string()));
    assert_eq!(args.payload, vec![1, 2, 3]);
    assert_eq!(args.encoding_id, 7);
    assert_eq!(args.encoding_schema, Some(b"utf-8".to_vec()));
    assert_eq!(args.kind, 1);
    assert_eq!(args.timestamp, -1);
    assert!(args.timestamp_is_valid);
    assert_eq!(args.attachment, None);
    assert!(args.express);
    assert_eq!(args.priority, 6);
    assert_eq!(args.congestion_control, 1);
}

#[test]
fn success_reply_without_timestamp_or_replier() {
    let mut s = sample();
    s.timestamp = None;
    let args = reply_success_args(None, s);
    assert_eq!(args.replier_zid, None);
    assert_eq!(args.replier_eid, 0);
    assert_eq!(args.timestamp, 0);
    assert!(!args.timestamp_is_valid);
}

#[test]
fn entity_ids_wrap_into_java_ints() {
    let args = reply_success_args(Some(ReplierId { zid: vec![1], eid: u32::MAX }), sample());
    assert_eq!(args.replier_eid, -1);
}

#[test]
fn error_reply_carries_defaults() {
    let args = reply_error_args(
        Some(ReplierId { zid: vec![5; 16], eid: 2 }),
        ReplyErrorFields { payload: b"oops".to_vec(), encoding_id: 4, encoding_schema: None },
    );
    assert_eq!(args.replier_zid, Some(vec![5; 16]));
    assert_eq!(args.replier_eid, 2);
    assert!(!args.is_success);
    assert_eq!(args.key_expr, None);
    assert_eq!(args.payload, b"oops".to_vec());
    assert_eq!(args.encoding_id, 4);
    assert_eq!(args.encoding_schema, None);
    assert_eq!(args.kind, 0);
    assert_eq!(args.timestamp, 0);
    assert!(!args.timestamp_is_valid);
    assert_eq!(args.attachment, None);
    assert!(!args.express);
    assert_eq!(args.priority, 0);
    assert_eq!(args.congestion_control, 0);
}

#[test]
fn query_with_payload() {
    let args = query_callback_args(QueryFields {
        key_expr: "demo/q".to_string(),
        parameters: "a=1".to_string(),
        payload: Some(vec![4]),
        encoding: Some((12, Some(b"s".to_vec()))),
        attachment: Some(vec![8]),
        accepts_replies: ReplyKeyExpr::Any,
    });
    assert_eq!(args.key_expr, "demo/q");
    assert_eq!(args.parameters, "a=1");
    assert_eq!(args.payload, Some(vec![4]));
    assert_eq!(args.encoding_id, 12);
    assert_eq!(args.encoding_schema, Some(b"s".to_vec()));
    assert_eq!(args.attachment, Some(vec![8]));
    assert_eq!(args.accepts_replies, 1);
}

#[test]
fn query_without_payload() {
    let args = query_callback_args(QueryFields {
        key_expr: "demo/q".to_string(),
        parameters: String::new(),
        payload: None,
        encoding: Some((12, Some(b"s".to_vec()))),
        attachment: None,
        accepts_replies: ReplyKeyExpr::MatchingQuery,
    });
    assert_eq!(args.payload, None);
    assert_eq!(args.encoding_id, 0);
    assert_eq!(args.encoding_schema, None);
    assert_eq!(args.accepts_replies, 0);
}

#[test]
fn reply_options_follow_the_flags() {
    let on = reply_options(1, -2, 0);
    assert_eq!(on.timestamp, Some(u64::MAX - 1));
    assert!(!on.express);
    let off = reply_options(0, 42, 1);
    assert_eq!(off.timestamp, None);
    assert!(off.express);
}

use zenoh_jni::advanced::{
    advanced_publisher_plan, advanced_subscriber_plan, AdvancedPublisherRequest, HeartbeatPlan,
    RecoveryPlan,
};
use zenoh_jni::qos::{CongestionControl, ConsolidationMode, Priority, QueryTarget, Reliability, ReplyKeyExpr};
use zenoh_jni::session::{decode_encoding, decode_publisher_qos, decode_query_options, selector_parameters, timeout_millis};

#[test]
fn publisher_settings_decode() {
    let qos = decode_publisher_qos(1, 2, 1, 0).unwrap();
    assert_eq!(qos.congestion_control, CongestionControl::Block);
    assert_eq!(qos.priority, Priority::InteractiveHigh);
    assert!(qos.express);
    assert_eq!(qos.reliability, Reliability::BestEffort);
}

#[test]
fn publisher_settings_report_the_first_unknown_ordinal() {
    assert_eq!(
        decode_publisher_qos(9, 0, 0, 9).err(),
        Some("Unknown congestion control ordinal.".to_string())
    );
    assert_eq!(
        decode_publisher_qos(0, 0, 0, 9).err(),
        Some("Unknown priority ordinal: admitted values are 1 to 7.".to_string())
    );
    assert_eq!(decode_publisher_qos(0, 5, 0, 9).err(), Some("Unknown reliability ordinal.".to_string()));
}

#[test]
fn query_settings_decode() {
    let o = decode_query_options(1, 3, 0, 1500, 7, 1).unwrap();
    assert_eq!(o.target, QueryTarget::All);
    assert_eq!(o.consolidation, ConsolidationMode::Latest);
    assert_eq!(o.congestion_control, CongestionControl::Drop);
    assert_eq!(o.timeout_ms, 1500);
    assert_eq!(o.priority, Priority::Background);
    assert_eq!(o.accept_replies, ReplyKeyExpr::Any);
}

#[test]
fn query_settings_report_the_first_unknown_ordinal() {
    assert_eq!(decode_query_options(5, 9, 0, 0, 1, 0).err(), Some("Unknown query target ordinal.".to_string()));
    assert_eq!(decode_query_options(0, 9, 9, 0, 1, 0).err(), Some("Unknown consolidation ordinal.".to_string()));
    assert_eq!(decode_query_options(0, 0, 0, 0, 1, 7).err(), Some("Unknown reply key expression code.".to_string()));
}

#[test]
fn negative_timeouts_keep_their_bits() {
    assert_eq!(timeout_millis(-1), u64::MAX);
    assert_eq!(timeout_millis(250), 250);
}

#[test]
fn missing_selector_parameters_are_empty() {
    assert_eq!(selector_parameters(None), "");
    assert_eq!(selector_parameters(Some("x=1".to_string())), "x=1");
}

#[test]
fn subscriber_plan_with_everything_enabled() {
    let plan = advanced_subscriber_plan(1, 1, 10, 1, 0, 500, 1).unwrap();
    let history = plan.history.unwrap();
    assert!(history.detect_late_publishers);
    assert_eq!(history.max_samples, Some(10));
    assert!(matches!(plan.recovery, Some(RecoveryPlan::PeriodicQueries { period_ms: 500 })));
    assert!(plan.subscriber_detection);
}

#[test]
fn subscriber_plan_with_everything_disabled() {
    let plan = advanced_subscriber_plan(0, 1, 10, 0, 1, -5, 0).unwrap();
    assert!(plan.history.is_none());
    assert!(plan.recovery.is_none());
    assert!(!plan.subscriber_detection);
}

#[test]
fn subscriber_history_ignores_non_positive_sample_counts() {
    let plan = advanced_subscriber_plan(1, 0, -3, 1, 1, -5, 0).unwrap();
    let history = plan.history.unwrap();
    assert!(!history.detect_late_publishers);
    assert_eq!(history.max_samples, None);
    assert!(matches!(plan.recovery, Some(RecoveryPlan::Heartbeat)));
}

#[test]
fn subscriber_periodic_queries_refuse_a_negative_period() {
    assert!(advanced_subscriber_plan(0, 0, 0, 1, 0, -1, 0).is_err());
}

fn request() -> AdvancedPublisherRequest {
    AdvancedPublisherRequest {
        congestion_control: 0,
        priority: 5,
        is_express: 0,
        reliability: 1,
        cache_enabled: 1,
        cache_max_samples: 4,
        cache_replies_priority: 3,
        cache_replies_congestion_control: 1,
        cache_replies_is_express: 1,
        miss_detection_enabled: 1,
        heartbeat_enabled: 1,
        heartbeat_ms: 100,
        heartbeat_is_sporadic: 1,
        publisher_detection: 1,
    }
}

#[test]
fn publisher_plan_with_everything_enabled() {
    let plan = advanced_publisher_plan(request()).unwrap();
    assert_eq!(plan.qos.priority, Priority::Data);
    assert_eq!(plan.qos.reliability, Reliability::Reliable);
    assert!(!plan.qos.express);
    let cache = plan.cache.unwrap();
    assert_eq!(cache.max_samples, 4);
    assert_eq!(cache.replies.priority, Priority::InteractiveLow);
    assert_eq!(cache.replies.congestion_control, CongestionControl::Block);
    assert!(cache.replies.express);
    assert!(matches!(
        plan.miss_detection.unwrap().heartbeat,
        Some(HeartbeatPlan::Sporadic { period_ms: 100 })
    ));
    assert!(plan.publisher_detection);
}

#[test]
fn publisher_plan_periodic_heartbeat_and_no_cache() {
    let mut q = request();
    q.cache_enabled = 0;
    q.cache_max_samples = -1;
    q.cache_replies_priority = 0;
    q.heartbeat_is_sporadic = 0;
    let plan = advanced_publisher_plan(q).unwrap();
    assert!(plan.cache.is_none());
    assert!(matches!(
        plan.miss_detection.unwrap().heartbeat,
        Some(HeartbeatPlan::Periodic { period_ms: 100 })
    ));
}

#[test]
fn publisher_plan_errors_in_order() {
    let mut q = request();
    q.cache_replies_congestion_control = 7;
    q.cache_replies_priority = 0;
    assert_eq!(
        advanced_publisher_plan(q).err(),
        Some("Unknown congestion control ordinal.".to_string())
    );
    let mut q = request();
    q.cache_replies_priority = 0;
    q.cache_max_samples = -1;
    assert_eq!(
        advanced_publisher_plan(q).err(),
        Some("Unknown priority ordinal: admitted values are 1 to 7.".to_string())
    );
    let mut q = request();
    q.cache_max_samples = -1;
    assert!(advanced_publisher_plan(q).is_err());
    let mut q = request();
    q.heartbeat_ms = -1;
    assert!(advanced_publisher_plan(q).is_err());
    let mut q = request();
    q.heartbeat_enabled = 0;
    q.heartbeat_ms = -1;
    assert!(advanced_publisher_plan(q).unwrap().miss_detection.unwrap().heartbeat.is_none());
}

#[test]
fn encodings_keep_their_id_and_schema() {
    let plain = decode_encoding(7, None).ok().unwrap();
    assert_eq!(plain.id, 7);
    assert_eq!(plain.schema, None);
    let largest = decode_encoding(65535, Some("utf-8".to_string())).ok().unwrap();
    assert_eq!(largest.id, 65535);
    assert_eq!(largest.schema, Some("utf-8".to_string()));
}

#[test]
fn encodings_outside_u16_are_refused() {
    for id in [-1, 65536, i32::MIN, i32::MAX] {
        let err = decode_encoding(id, None).err().unwrap();
        assert!(err.starts_with("Failed to decode encoding: "), "{err}");
    }
}

fn std_conversion_message() -> String {
    u16::try_from(-1i32).unwrap_err().to_string()
}

#[test]
fn conversion_failures_carry_the_std_message() {
    assert_eq!(
        advanced_subscriber_plan(0, 0, 0, 1, 0, -1, 0).err(),
        Some(std_conversion_message())
    );
    let mut q = request();
    q.heartbeat_ms = -1;
    assert_eq!(advanced_publisher_plan(q).err(), Some(std_conversion_message()));
    assert_eq!(
        decode_encoding(-1, None).err(),
        Some(format!("Failed to decode encoding: {}", std_conversion_message()))
    );
}

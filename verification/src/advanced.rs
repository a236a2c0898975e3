//! The configuration of advanced subscribers and advanced publishers, as
//! derived from the flags and numbers that Java passes.
//!
//! The maximal age of a subscriber's history is a floating-point number; it
//! is applied by `app/`, after the plan below.
use vstd::prelude::*;
use vstd::string::StringExecFns;

use crate::qos::{
    congestion_control_ordinal_spec, priority_ordinal_spec, reliability_ordinal_spec,
    decode_congestion_control, decode_congestion_control_spec, decode_priority,
    decode_priority_spec, unknown_congestion_control, unknown_priority, CongestionControl,
    Priority,
};
use crate::query::is_set;
use crate::session::{
    decode_publisher_qos, publisher_qos_failure, publisher_qos_spec, PublisherQos,
};

verus! {

// ---------------------------------------------------------------------------
// Integer conversions (std's `try_from`).
// ---------------------------------------------------------------------------

/// The message of a failed integer conversion, the text std gives its
/// `TryFromIntError`.
pub open spec fn conversion_refusal() -> Seq<char> {
    "out of range integral type conversion attempted"@
}

/// The message of a failed integer conversion, as a `String`.
pub fn conversion_refusal_message() -> (r: String)
    ensures
        r@ == conversion_refusal(),
{
    <String as StringExecFns>::from_str("out of range integral type conversion attempted")
}

fn to_usize(v: i64) -> (r: Result<usize, String>)
    ensures
        match r {
            Ok(n) => fits_usize(v) && n == v,
            Err(e) => !fits_usize(v) && e@ == conversion_refusal(),
        },
{
    match usize::try_from(v) {
        Ok(n) => Ok(n),
        Err(_) => Err(conversion_refusal_message()),
    }
}

fn to_u64(v: i64) -> (r: Result<u64, String>)
    ensures
        match r {
            Ok(n) => 0 <= v && n == v,
            Err(e) => v < 0 && e@ == conversion_refusal(),
        },
{
    match u64::try_from(v) {
        Ok(n) => Ok(n),
        Err(_) => Err(conversion_refusal_message()),
    }
}

pub open spec fn fits_usize(v: i64) -> bool {
    0 <= v <= usize::MAX
}

// ---------------------------------------------------------------------------
// Advanced subscriber.
// ---------------------------------------------------------------------------

/// zenoh-ext's `HistoryConfig`, but for the maximal age.
pub struct HistoryPlan {
    pub detect_late_publishers: bool,
    pub max_samples: Option<usize>,
}

/// zenoh-ext's `RecoveryConfig`.
pub enum RecoveryPlan {
    Heartbeat,
    PeriodicQueries { period_ms: u64 },
}

pub struct AdvancedSubscriberPlan {
    pub history: Option<HistoryPlan>,
    pub recovery: Option<RecoveryPlan>,
    pub subscriber_detection: bool,
}

/// The history setting fails when a positive maximal sample count does not
/// fit a `usize`.
pub open spec fn history_fails(history_enabled: u8, max_samples: i64) -> bool {
    history_enabled != 0 && max_samples > 0 && !fits_usize(max_samples)
}

/// The recovery setting fails when periodic queries get a negative period.
pub open spec fn recovery_fails(recovery_enabled: u8, is_heartbeat: u8, period_ms: i64) -> bool {
    recovery_enabled != 0 && is_heartbeat == 0 && period_ms < 0
}

pub open spec fn history_spec(history_enabled: u8, detect_late_publishers: u8, max_samples: i64) -> Option<HistoryPlan> {
    if history_enabled != 0 {
        Some(
            HistoryPlan {
                detect_late_publishers: detect_late_publishers != 0,
                max_samples: if max_samples > 0 {
                    Some(max_samples as usize)
                } else {
                    None
                },
            },
        )
    } else {
        None
    }
}

pub open spec fn recovery_spec(recovery_enabled: u8, is_heartbeat: u8, period_ms: i64) -> Option<RecoveryPlan> {
    if recovery_enabled != 0 {
        if is_heartbeat != 0 {
            Some(RecoveryPlan::Heartbeat)
        } else {
            Some(RecoveryPlan::PeriodicQueries { period_ms: period_ms as u64 })
        }
    } else {
        None
    }
}

/// The configuration of an advanced subscriber
/// (`declareAdvancedSubscriber`): history (with late publisher detection and
/// a maximal sample count when it is positive), recovery (heartbeat or
/// periodic queries) and subscriber detection, each only when enabled.
///
/// It fails, with `conversion_refusal()` (the text of std's
/// `TryFromIntError`), when an enabled
/// history's positive sample count does not fit a `usize` or, otherwise,
/// when enabled periodic queries get a negative period.
pub fn advanced_subscriber_plan(
    history_enabled: u8,
    detect_late_publishers: u8,
    max_samples: i64,
    recovery_enabled: u8,
    is_heartbeat: u8,
    query_period_ms: i64,
    subscriber_detection: u8,
) -> (r: Result<AdvancedSubscriberPlan, String>)
    ensures
        r is Err <==> history_fails(history_enabled, max_samples) || recovery_fails(
            recovery_enabled,
            is_heartbeat,
            query_period_ms,
        ),
        r matches Err(e) ==> e@ == conversion_refusal(),
        r matches Ok(plan) ==> {
            &&& plan.history == history_spec(history_enabled, detect_late_publishers, max_samples)
            &&& plan.recovery == recovery_spec(recovery_enabled, is_heartbeat, query_period_ms)
            &&& plan.subscriber_detection == (subscriber_detection != 0)
        },
        r matches Ok(plan) ==> {
            &&& (plan.history is Some <==> history_enabled != 0)
            &&& (plan.history matches Some(h) ==> {
                &&& h.detect_late_publishers == (detect_late_publishers != 0)
                &&& (h.max_samples is Some <==> max_samples > 0)
                &&& (h.max_samples matches Some(n) ==> n == max_samples)
            })
            &&& (plan.recovery is Some <==> recovery_enabled != 0)
            &&& (plan.recovery matches Some(rc) ==> {
                &&& (rc is Heartbeat <==> is_heartbeat != 0)
                &&& (rc matches RecoveryPlan::PeriodicQueries { period_ms } ==> period_ms
                    == query_period_ms)
            })
        },
{
    let history = if history_enabled != 0 {
        let max = if max_samples > 0 {
            Some(to_usize(max_samples)?)
        } else {
            None
        };
        Some(HistoryPlan { detect_late_publishers: is_set(detect_late_publishers), max_samples: max })
    } else {
        None
    };
    let recovery = if recovery_enabled != 0 {
        if is_heartbeat != 0 {
            Some(RecoveryPlan::Heartbeat)
        } else {
            Some(RecoveryPlan::PeriodicQueries { period_ms: to_u64(query_period_ms)? })
        }
    } else {
        None
    };
    Ok(AdvancedSubscriberPlan { history, recovery, subscriber_detection: is_set(subscriber_detection) })
}

// ---------------------------------------------------------------------------
// Advanced publisher.
// ---------------------------------------------------------------------------

/// zenoh-ext's `RepliesConfig`: how the cache answers late joiners.
pub struct RepliesPlan {
    pub priority: Priority,
    pub congestion_control: CongestionControl,
    pub express: bool,
}

/// zenoh-ext's `CacheConfig`.
pub struct CachePlan {
    pub max_samples: usize,
    pub replies: RepliesPlan,
}

/// The heartbeat of zenoh-ext's `MissDetectionConfig`.
pub enum HeartbeatPlan {
    Periodic { period_ms: u64 },
    Sporadic { period_ms: u64 },
}

/// zenoh-ext's `MissDetectionConfig`.
pub struct MissDetectionPlan {
    pub heartbeat: Option<HeartbeatPlan>,
}

pub struct AdvancedPublisherPlan {
    pub qos: PublisherQos,
    pub cache: Option<CachePlan>,
    pub miss_detection: Option<MissDetectionPlan>,
    pub publisher_detection: bool,
}

/// The settings of an advanced publisher as Java passes them.
pub struct AdvancedPublisherRequest {
    pub congestion_control: i32,
    pub priority: i32,
    pub is_express: u8,
    pub reliability: i32,
    pub cache_enabled: u8,
    pub cache_max_samples: i64,
    pub cache_replies_priority: i32,
    pub cache_replies_congestion_control: i32,
    pub cache_replies_is_express: u8,
    pub miss_detection_enabled: u8,
    pub heartbeat_enabled: u8,
    pub heartbeat_ms: i64,
    pub heartbeat_is_sporadic: u8,
    pub publisher_detection: u8,
}

/// How a request fails: `Some(m)` with the message `m` (of an unknown
/// ordinal, or `conversion_refusal()` for a number out of range), `None`
/// when it does not fail. The checks run in this order: the publisher's
/// ordinals, then (when the cache is enabled) the cache's congestion control,
/// priority and sample count, then (when miss detection with heartbeat is
/// enabled) the heartbeat period.
pub open spec fn publisher_request_failure(q: AdvancedPublisherRequest) -> Option<Seq<char>> {
    match publisher_qos_failure(q.congestion_control, q.priority, q.reliability) {
        Some(m) => Some(m),
        None => if q.cache_enabled != 0 && decode_congestion_control_spec(
            q.cache_replies_congestion_control,
        ) is None {
            Some(unknown_congestion_control())
        } else if q.cache_enabled != 0 && decode_priority_spec(q.cache_replies_priority) is None {
            Some(unknown_priority())
        } else if q.cache_enabled != 0 && !fits_usize(q.cache_max_samples) {
            Some(conversion_refusal())
        } else if q.miss_detection_enabled != 0 && q.heartbeat_enabled != 0 && q.heartbeat_ms < 0 {
            Some(conversion_refusal())
        } else {
            None
        },
    }
}

pub open spec fn cache_spec(q: AdvancedPublisherRequest) -> Option<CachePlan> {
    if q.cache_enabled != 0 {
        Some(
            CachePlan {
                max_samples: q.cache_max_samples as usize,
                replies: RepliesPlan {
                    priority: decode_priority_spec(q.cache_replies_priority).unwrap(),
                    congestion_control: decode_congestion_control_spec(
                        q.cache_replies_congestion_control,
                    ).unwrap(),
                    express: q.cache_replies_is_express != 0,
                },
            },
        )
    } else {
        None
    }
}

pub open spec fn miss_detection_spec(q: AdvancedPublisherRequest) -> Option<MissDetectionPlan> {
    if q.miss_detection_enabled != 0 {
        Some(
            MissDetectionPlan {
                heartbeat: if q.heartbeat_enabled != 0 {
                    if q.heartbeat_is_sporadic != 0 {
                        Some(HeartbeatPlan::Sporadic { period_ms: q.heartbeat_ms as u64 })
                    } else {
                        Some(HeartbeatPlan::Periodic { period_ms: q.heartbeat_ms as u64 })
                    }
                } else {
                    None
                },
            },
        )
    } else {
        None
    }
}

pub open spec fn advanced_publisher_plan_spec(q: AdvancedPublisherRequest) -> AdvancedPublisherPlan {
    AdvancedPublisherPlan {
        qos: publisher_qos_spec(q.congestion_control, q.priority, q.is_express, q.reliability),
        cache: cache_spec(q),
        miss_detection: miss_detection_spec(q),
        publisher_detection: q.publisher_detection != 0,
    }
}

/// Each part of `plan` is the one `q` asks for: the publication settings
/// whose ordinals and flag Java sent, a cache exactly when enabled (with the
/// requested sample count and reply settings), miss detection exactly when
/// enabled (with a heartbeat exactly when enabled, sporadic exactly when
/// asked, at the requested period), and publisher detection as asked.
pub open spec fn publisher_plan_follows_request(plan: AdvancedPublisherPlan, q: AdvancedPublisherRequest) -> bool {
    &&& congestion_control_ordinal_spec(plan.qos.congestion_control) == q.congestion_control
    &&& priority_ordinal_spec(plan.qos.priority) == q.priority
    &&& plan.qos.express == (q.is_express != 0)
    &&& reliability_ordinal_spec(plan.qos.reliability) == q.reliability
    &&& (plan.cache is Some <==> q.cache_enabled != 0)
    &&& (plan.cache matches Some(c) ==> {
        &&& c.max_samples == q.cache_max_samples
        &&& priority_ordinal_spec(c.replies.priority) == q.cache_replies_priority
        &&& congestion_control_ordinal_spec(c.replies.congestion_control)
            == q.cache_replies_congestion_control
        &&& c.replies.express == (q.cache_replies_is_express != 0)
    })
    &&& (plan.miss_detection is Some <==> q.miss_detection_enabled != 0)
    &&& (plan.miss_detection matches Some(m) ==> {
        &&& (m.heartbeat is Some <==> q.heartbeat_enabled != 0)
        &&& (m.heartbeat matches Some(h) ==> {
            &&& (h is Sporadic <==> q.heartbeat_is_sporadic != 0)
            &&& (h matches HeartbeatPlan::Periodic { period_ms } ==> period_ms == q.heartbeat_ms)
            &&& (h matches HeartbeatPlan::Sporadic { period_ms } ==> period_ms == q.heartbeat_ms)
        })
    })
    &&& plan.publisher_detection == (q.publisher_detection != 0)
}

/// The configuration of an advanced publisher (`declareAdvancedPublisher`):
/// its publication settings, a cache (with the settings of its replies) when
/// enabled, sample miss detection (with a periodic or sporadic heartbeat when
/// enabled) when enabled, and publisher detection.
pub fn advanced_publisher_plan(q: AdvancedPublisherRequest) -> (r: Result<AdvancedPublisherPlan, String>)
    ensures
        match publisher_request_failure(q) {
            None => r matches Ok(plan) && plan == advanced_publisher_plan_spec(q),
            Some(m) => r matches Err(e) && e@ == m,
        },
        r matches Ok(plan) ==> publisher_plan_follows_request(plan, q),
{
    let qos = decode_publisher_qos(q.congestion_control, q.priority, q.is_express, q.reliability)?;
    let cache = if q.cache_enabled != 0 {
        let congestion_control = decode_congestion_control(q.cache_replies_congestion_control)?;
        let priority = decode_priority(q.cache_replies_priority)?;
        let replies = RepliesPlan {
            priority,
            congestion_control,
            express: is_set(q.cache_replies_is_express),
        };
        let max_samples = to_usize(q.cache_max_samples)?;
        Some(CachePlan { max_samples, replies })
    } else {
        None
    };
    let miss_detection = if q.miss_detection_enabled != 0 {
        let heartbeat = if q.heartbeat_enabled != 0 {
            let period_ms = to_u64(q.heartbeat_ms)?;
            if q.heartbeat_is_sporadic != 0 {
                Some(HeartbeatPlan::Sporadic { period_ms })
            } else {
                Some(HeartbeatPlan::Periodic { period_ms })
            }
        } else {
            None
        };
        Some(MissDetectionPlan { heartbeat })
    } else {
        None
    };
    Ok(
        AdvancedPublisherPlan {
            qos,
            cache,
            miss_detection,
            publisher_detection: is_set(q.publisher_detection),
        },
    )
}

// ---------------------------------------------------------------------------
// Laws.
// ---------------------------------------------------------------------------

/// For settings that do not fail, an enabled history detects late publishers
/// exactly when Java asks for it, whatever the sample count, and keeps a sample count exactly when Java
/// gives a positive one, that count.
pub proof fn lemma_history_plan_follows_flags(history_enabled: u8, detect_late_publishers: u8, max_samples: i64)
    requires
        !history_fails(history_enabled, max_samples),
    ensures
        history_spec(history_enabled, detect_late_publishers, max_samples) is Some <==> history_enabled != 0,
        history_spec(history_enabled, detect_late_publishers, max_samples) matches Some(h) ==> {
            &&& h.detect_late_publishers == (detect_late_publishers != 0)
            &&& (h.max_samples is Some <==> max_samples > 0)
            &&& (h.max_samples matches Some(n) ==> n == max_samples)
        },
{
}

/// For settings that do not fail, enabled recovery is a heartbeat exactly
/// when Java asks for one, else periodic queries at Java's period.
pub proof fn lemma_recovery_plan_follows_flags(recovery_enabled: u8, is_heartbeat: u8, period_ms: i64)
    requires
        !recovery_fails(recovery_enabled, is_heartbeat, period_ms),
    ensures
        recovery_spec(recovery_enabled, is_heartbeat, period_ms) is Some <==> recovery_enabled != 0,
        recovery_spec(recovery_enabled, is_heartbeat, period_ms) matches Some(rc) ==> {
            &&& (rc is Heartbeat <==> is_heartbeat != 0)
            &&& (rc matches RecoveryPlan::PeriodicQueries { period_ms: p } ==> p == period_ms)
        },
{
}

/// The publisher plan of every request that does not fail follows the
/// request part by part.
pub proof fn lemma_publisher_plan_follows_request(q: AdvancedPublisherRequest)
    requires
        publisher_request_failure(q) is None,
    ensures
        publisher_plan_follows_request(advanced_publisher_plan_spec(q), q),
{
}

} // verus!

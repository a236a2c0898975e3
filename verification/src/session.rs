//! The settings that the session's entry points derive from what Java passes:
//! publisher and query settings, and the configuration of advanced
//! publishers and subscribers.
use vstd::prelude::*;

use crate::qos::{
    congestion_control_ordinal_spec, consolidation_ordinal_spec, priority_ordinal_spec,
    query_target_ordinal_spec, reliability_ordinal_spec, reply_key_expr_code_spec,
    decode_congestion_control, decode_congestion_control_spec, decode_consolidation,
    decode_consolidation_spec, decode_priority, decode_priority_spec, decode_query_target,
    decode_query_target_spec, decode_reliability, decode_reliability_spec,
    decode_reply_key_expr, decode_reply_key_expr_spec, unknown_congestion_control,
    unknown_consolidation, unknown_priority, unknown_query_target, unknown_reliability,
    unknown_reply_key_expr, CongestionControl, ConsolidationMode, Priority, QueryTarget,
    Reliability, ReplyKeyExpr,
};
use crate::advanced::{conversion_refusal, conversion_refusal_message};
use crate::query::is_set;
use crate::text::framed;

verus! {

/// A timeout in milliseconds as zenoh receives it: the bits of Java's `long`
/// (`timeout_ms as u64`), so that a negative timeout is a very long one.
pub fn timeout_millis(timeout_ms: i64) -> (r: u64)
    ensures
        r == timeout_ms as u64,
{
    timeout_ms as u64
}

/// An encoding as zenoh builds it (`Encoding::new`): its numeric id and its
/// optional schema.
pub struct EncodingFields {
    pub id: u16,
    pub schema: Option<String>,
}

/// Reads the encoding that Java sends as an `int` id and an optional schema:
/// the id must fit zenoh's `u16`, else `Failed to decode encoding: ` and the
/// text of std's `TryFromIntError`.
pub fn decode_encoding(encoding: i32, schema: Option<String>) -> (r: Result<EncodingFields, String>)
    ensures
        match r {
            Ok(e) => 0 <= encoding <= u16::MAX && e.id == encoding && e.schema == schema,
            Err(m) => !(0 <= encoding <= u16::MAX) && m@ == "Failed to decode encoding: "@
                + conversion_refusal(),
        },
{
    match u16::try_from(encoding) {
        Ok(id) => Ok(EncodingFields { id, schema }),
        Err(_) => {
            let detail = conversion_refusal_message();
            let message = framed("Failed to decode encoding: ", detail.as_str(), "");
            proof {
                reveal_strlit("");
                assert(message@ == "Failed to decode encoding: "@ + detail@);
            }
            Err(message)
        },
    }
}

/// The parameters of a GET's selector: none (Java's `null`) is the empty string.
pub fn selector_parameters(parameters: Option<String>) -> (r: String)
    ensures
        r@ == (match parameters {
            Some(p) => p@,
            None => Seq::<char>::empty(),
        }),
{
    match parameters {
        Some(p) => p,
        None => String::new(),
    }
}

// ---------------------------------------------------------------------------
// Publisher settings (declarePublisher, put, delete, advanced publisher).
// ---------------------------------------------------------------------------

pub struct PublisherQos {
    pub congestion_control: CongestionControl,
    pub priority: Priority,
    pub express: bool,
    pub reliability: Reliability,
}

/// The message of the first ordinal that does not decode, in the order
/// congestion control, priority, reliability.
pub open spec fn publisher_qos_failure(cc: i32, priority: i32, reliability: i32) -> Option<Seq<char>> {
    if decode_congestion_control_spec(cc) is None {
        Some(unknown_congestion_control())
    } else if decode_priority_spec(priority) is None {
        Some(unknown_priority())
    } else if decode_reliability_spec(reliability) is None {
        Some(unknown_reliability())
    } else {
        None
    }
}

pub open spec fn publisher_qos_spec(cc: i32, priority: i32, express: u8, reliability: i32) -> PublisherQos {
    PublisherQos {
        congestion_control: decode_congestion_control_spec(cc).unwrap(),
        priority: decode_priority_spec(priority).unwrap(),
        express: express != 0,
        reliability: decode_reliability_spec(reliability).unwrap(),
    }
}

/// Reads the publication settings that Java passes as ordinals.
pub fn decode_publisher_qos(cc: i32, priority: i32, express: u8, reliability: i32) -> (r: Result<PublisherQos, String>)
    ensures
        match publisher_qos_failure(cc, priority, reliability) {
            Some(m) => r matches Err(e) && e@ == m,
            None => r == Ok::<PublisherQos, String>(publisher_qos_spec(cc, priority, express, reliability)),
        },
        r is Ok <==> 0 <= cc <= 2 && 1 <= priority <= 7 && 0 <= reliability <= 1,
        r matches Ok(q) ==> {
            &&& congestion_control_ordinal_spec(q.congestion_control) == cc
            &&& priority_ordinal_spec(q.priority) == priority
            &&& q.express == (express != 0)
            &&& reliability_ordinal_spec(q.reliability) == reliability
        },
{
    let congestion_control = decode_congestion_control(cc)?;
    let priority = decode_priority(priority)?;
    let reliability = decode_reliability(reliability)?;
    Ok(PublisherQos { congestion_control, priority, express: is_set(express), reliability })
}

// ---------------------------------------------------------------------------
// Query settings (get, declareQuerier).
// ---------------------------------------------------------------------------

pub struct QueryOptions {
    pub target: QueryTarget,
    pub consolidation: ConsolidationMode,
    pub congestion_control: CongestionControl,
    pub timeout_ms: u64,
    pub priority: Priority,
    pub accept_replies: ReplyKeyExpr,
}

/// The message of the first ordinal that does not decode, in the order
/// target, consolidation, congestion control, priority, accepted replies.
pub open spec fn query_options_failure(target: i32, consolidation: i32, cc: i32, priority: i32, accept_replies: i32) -> Option<Seq<char>> {
    if decode_query_target_spec(target) is None {
        Some(unknown_query_target())
    } else if decode_consolidation_spec(consolidation) is None {
        Some(unknown_consolidation())
    } else if decode_congestion_control_spec(cc) is None {
        Some(unknown_congestion_control())
    } else if decode_priority_spec(priority) is None {
        Some(unknown_priority())
    } else if decode_reply_key_expr_spec(accept_replies) is None {
        Some(unknown_reply_key_expr())
    } else {
        None
    }
}

pub open spec fn query_options_spec(target: i32, consolidation: i32, cc: i32, timeout_ms: i64, priority: i32, accept_replies: i32) -> QueryOptions {
    QueryOptions {
        target: decode_query_target_spec(target).unwrap(),
        consolidation: decode_consolidation_spec(consolidation).unwrap(),
        congestion_control: decode_congestion_control_spec(cc).unwrap(),
        timeout_ms: timeout_ms as u64,
        priority: decode_priority_spec(priority).unwrap(),
        accept_replies: decode_reply_key_expr_spec(accept_replies).unwrap(),
    }
}

/// Reads the settings of a GET or of a querier that Java passes as ordinals.
pub fn decode_query_options(
    target: i32,
    consolidation: i32,
    cc: i32,
    timeout_ms: i64,
    priority: i32,
    accept_replies: i32,
) -> (r: Result<QueryOptions, String>)
    ensures
        match query_options_failure(target, consolidation, cc, priority, accept_replies) {
            Some(m) => r matches Err(e) && e@ == m,
            None => r == Ok::<QueryOptions, String>(
                query_options_spec(target, consolidation, cc, timeout_ms, priority, accept_replies),
            ),
        },
        r is Ok <==> 0 <= target <= 2 && 0 <= consolidation <= 3 && 0 <= cc <= 2 && 1 <= priority
            <= 7 && 0 <= accept_replies <= 1,
        r matches Ok(o) ==> {
            &&& query_target_ordinal_spec(o.target) == target
            &&& consolidation_ordinal_spec(o.consolidation) == consolidation
            &&& congestion_control_ordinal_spec(o.congestion_control) == cc
            &&& o.timeout_ms == timeout_ms as u64
            &&& priority_ordinal_spec(o.priority) == priority
            &&& reply_key_expr_code_spec(o.accept_replies) == accept_replies
        },
{
    let target = decode_query_target(target)?;
    let consolidation = decode_consolidation(consolidation)?;
    let congestion_control = decode_congestion_control(cc)?;
    let timeout_ms = timeout_millis(timeout_ms);
    let priority = decode_priority(priority)?;
    let accept_replies = decode_reply_key_expr(accept_replies)?;
    Ok(QueryOptions { target, consolidation, congestion_control, timeout_ms, priority, accept_replies })
}

// ---------------------------------------------------------------------------
// Laws.
// ---------------------------------------------------------------------------

/// Publication settings decode field by field: each setting is the one whose
/// ordinal Java sent, and the express flag is Java's flag whatever the
/// other settings are.
pub proof fn lemma_publisher_qos_fields(cc: i32, priority: i32, express: u8, reliability: i32)
    requires
        publisher_qos_failure(cc, priority, reliability) is None,
    ensures
        congestion_control_ordinal_spec(publisher_qos_spec(cc, priority, express, reliability).congestion_control) == cc,
        priority_ordinal_spec(publisher_qos_spec(cc, priority, express, reliability).priority) == priority,
        publisher_qos_spec(cc, priority, express, reliability).express == (express != 0),
        reliability_ordinal_spec(publisher_qos_spec(cc, priority, express, reliability).reliability) == reliability,
{
}

/// Publication settings fail exactly when one of their ordinals is out of
/// range.
pub proof fn lemma_publisher_qos_failure_range(cc: i32, priority: i32, reliability: i32)
    ensures
        publisher_qos_failure(cc, priority, reliability) is None <==> 0 <= cc <= 2 && 1 <= priority
            <= 7 && 0 <= reliability <= 1,
{
}

/// Query settings decode field by field: each setting is the one whose
/// ordinal Java sent, and the timeout keeps the bits of Java's `long`.
pub proof fn lemma_query_options_fields(
    target: i32,
    consolidation: i32,
    cc: i32,
    timeout_ms: i64,
    priority: i32,
    accept_replies: i32,
)
    requires
        query_options_failure(target, consolidation, cc, priority, accept_replies) is None,
    ensures
        ({
            let o = query_options_spec(target, consolidation, cc, timeout_ms, priority, accept_replies);
            &&& query_target_ordinal_spec(o.target) == target
            &&& consolidation_ordinal_spec(o.consolidation) == consolidation
            &&& congestion_control_ordinal_spec(o.congestion_control) == cc
            &&& o.timeout_ms == timeout_ms as u64
            &&& priority_ordinal_spec(o.priority) == priority
            &&& reply_key_expr_code_spec(o.accept_replies) == accept_replies
        }),
{
}

} // verus!

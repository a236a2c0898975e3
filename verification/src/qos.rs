//! Quality-of-service settings and query settings as Java exchanges them:
//! each setting travels as an ordinal (`int`).
//!
//! The ordinals that this library sends to Java are zenoh's discriminants
//! (`priority as jint`, `congestion_control as jint`, `kind as jint`) and the
//! reply key expression code of incoming queries; the decoders read back
//! exactly those ordinals.
use vstd::prelude::*;

verus! {

/// zenoh's `CongestionControl`.
#[derive(PartialEq, Eq, Structural, Clone, Copy, Debug)]
pub enum CongestionControl {
    Drop,
    Block,
    BlockFirst,
}

/// zenoh's `Priority` (`RealTime` is the highest).
#[derive(PartialEq, Eq, Structural, Clone, Copy, Debug)]
pub enum Priority {
    RealTime,
    InteractiveHigh,
    InteractiveLow,
    DataHigh,
    Data,
    DataLow,
    Background,
}

/// zenoh's `Reliability`.
#[derive(PartialEq, Eq, Structural, Clone, Copy, Debug)]
pub enum Reliability {
    BestEffort,
    Reliable,
}

/// zenoh's `QueryTarget`.
#[derive(PartialEq, Eq, Structural, Clone, Copy, Debug)]
pub enum QueryTarget {
    BestMatching,
    All,
    AllComplete,
}

/// zenoh's `ConsolidationMode` (`NoConsolidation` is zenoh's `None`).
#[derive(PartialEq, Eq, Structural, Clone, Copy, Debug)]
pub enum ConsolidationMode {
    Auto,
    NoConsolidation,
    Monotonic,
    Latest,
}

/// zenoh's `ReplyKeyExpr`: which replies a query accepts.
#[derive(PartialEq, Eq, Structural, Clone, Copy, Debug)]
pub enum ReplyKeyExpr {
    Any,
    MatchingQuery,
}

/// zenoh's `SampleKind`.
#[derive(PartialEq, Eq, Structural, Clone, Copy, Debug)]
pub enum SampleKind {
    Put,
    Delete,
}

// ---------------------------------------------------------------------------
// Ordinals sent to Java.
// ---------------------------------------------------------------------------

pub open spec fn congestion_control_ordinal_spec(c: CongestionControl) -> i32 {
    match c {
        CongestionControl::Drop => 0,
        CongestionControl::Block => 1,
        CongestionControl::BlockFirst => 2,
    }
}

pub open spec fn priority_ordinal_spec(p: Priority) -> i32 {
    match p {
        Priority::RealTime => 1,
        Priority::InteractiveHigh => 2,
        Priority::InteractiveLow => 3,
        Priority::DataHigh => 4,
        Priority::Data => 5,
        Priority::DataLow => 6,
        Priority::Background => 7,
    }
}

pub open spec fn sample_kind_ordinal_spec(k: SampleKind) -> i32 {
    match k {
        SampleKind::Put => 0,
        SampleKind::Delete => 1,
    }
}

/// The ordinal of a reliability as Java sends it (its place in zenoh's
/// `Reliability`: `BestEffort`, `Reliable`).
pub open spec fn reliability_ordinal_spec(r: Reliability) -> i32 {
    match r {
        Reliability::BestEffort => 0,
        Reliability::Reliable => 1,
    }
}

/// The ordinal of a query target as Java sends it (its place in zenoh's
/// `QueryTarget`: `BestMatching`, `All`, `AllComplete`).
pub open spec fn query_target_ordinal_spec(t: QueryTarget) -> i32 {
    match t {
        QueryTarget::BestMatching => 0,
        QueryTarget::All => 1,
        QueryTarget::AllComplete => 2,
    }
}

/// The ordinal of a consolidation mode as Java sends it (its place in
/// zenoh's `ConsolidationMode`: `Auto`, `None`, `Monotonic`, `Latest`).
pub open spec fn consolidation_ordinal_spec(c: ConsolidationMode) -> i32 {
    match c {
        ConsolidationMode::Auto => 0,
        ConsolidationMode::NoConsolidation => 1,
        ConsolidationMode::Monotonic => 2,
        ConsolidationMode::Latest => 3,
    }
}

/// The code of the replies a query accepts, as the queryable callback
/// receives it: 0 for `MatchingQuery`, 1 for `Any`.
pub open spec fn reply_key_expr_code_spec(r: ReplyKeyExpr) -> i32 {
    match r {
        ReplyKeyExpr::MatchingQuery => 0,
        ReplyKeyExpr::Any => 1,
    }
}

/// zenoh's discriminant of a congestion control (`congestion_control as jint`).
pub fn congestion_control_ordinal(c: CongestionControl) -> (r: i32)
    ensures
        r == congestion_control_ordinal_spec(c),
{
    match c {
        CongestionControl::Drop => 0,
        CongestionControl::Block => 1,
        CongestionControl::BlockFirst => 2,
    }
}

/// zenoh's discriminant of a priority (`priority as jint`).
pub fn priority_ordinal(p: Priority) -> (r: i32)
    ensures
        r == priority_ordinal_spec(p),
{
    match p {
        Priority::RealTime => 1,
        Priority::InteractiveHigh => 2,
        Priority::InteractiveLow => 3,
        Priority::DataHigh => 4,
        Priority::Data => 5,
        Priority::DataLow => 6,
        Priority::Background => 7,
    }
}

/// zenoh's discriminant of a sample kind (`kind as jint`).
pub fn sample_kind_ordinal(k: SampleKind) -> (r: i32)
    ensures
        r == sample_kind_ordinal_spec(k),
{
    match k {
        SampleKind::Put => 0,
        SampleKind::Delete => 1,
    }
}

/// The code of the replies a query accepts (0 `MatchingQuery`, 1 `Any`).
pub fn reply_key_expr_code(r: ReplyKeyExpr) -> (c: i32)
    ensures
        c == reply_key_expr_code_spec(r),
{
    match r {
        ReplyKeyExpr::MatchingQuery => 0,
        ReplyKeyExpr::Any => 1,
    }
}

// ---------------------------------------------------------------------------
// Ordinals received from Java.
// ---------------------------------------------------------------------------

pub open spec fn decode_congestion_control_spec(v: i32) -> Option<CongestionControl> {
    if v == 0 {
        Some(CongestionControl::Drop)
    } else if v == 1 {
        Some(CongestionControl::Block)
    } else if v == 2 {
        Some(CongestionControl::BlockFirst)
    } else {
        None
    }
}

pub open spec fn decode_priority_spec(v: i32) -> Option<Priority> {
    if v == 1 {
        Some(Priority::RealTime)
    } else if v == 2 {
        Some(Priority::InteractiveHigh)
    } else if v == 3 {
        Some(Priority::InteractiveLow)
    } else if v == 4 {
        Some(Priority::DataHigh)
    } else if v == 5 {
        Some(Priority::Data)
    } else if v == 6 {
        Some(Priority::DataLow)
    } else if v == 7 {
        Some(Priority::Background)
    } else {
        None
    }
}

pub open spec fn decode_reliability_spec(v: i32) -> Option<Reliability> {
    if v == 0 {
        Some(Reliability::BestEffort)
    } else if v == 1 {
        Some(Reliability::Reliable)
    } else {
        None
    }
}

pub open spec fn decode_query_target_spec(v: i32) -> Option<QueryTarget> {
    if v == 0 {
        Some(QueryTarget::BestMatching)
    } else if v == 1 {
        Some(QueryTarget::All)
    } else if v == 2 {
        Some(QueryTarget::AllComplete)
    } else {
        None
    }
}

pub open spec fn decode_consolidation_spec(v: i32) -> Option<ConsolidationMode> {
    if v == 0 {
        Some(ConsolidationMode::Auto)
    } else if v == 1 {
        Some(ConsolidationMode::NoConsolidation)
    } else if v == 2 {
        Some(ConsolidationMode::Monotonic)
    } else if v == 3 {
        Some(ConsolidationMode::Latest)
    } else {
        None
    }
}

pub open spec fn decode_reply_key_expr_spec(v: i32) -> Option<ReplyKeyExpr> {
    if v == 0 {
        Some(ReplyKeyExpr::MatchingQuery)
    } else if v == 1 {
        Some(ReplyKeyExpr::Any)
    } else {
        None
    }
}

// The messages for unknown ordinals.

pub open spec fn unknown_congestion_control() -> Seq<char> {
    "Unknown congestion control ordinal."@
}

pub open spec fn unknown_priority() -> Seq<char> {
    "Unknown priority ordinal: admitted values are 1 to 7."@
}

pub open spec fn unknown_reliability() -> Seq<char> {
    "Unknown reliability ordinal."@
}

pub open spec fn unknown_query_target() -> Seq<char> {
    "Unknown query target ordinal."@
}

pub open spec fn unknown_consolidation() -> Seq<char> {
    "Unknown consolidation ordinal."@
}

pub open spec fn unknown_reply_key_expr() -> Seq<char> {
    "Unknown reply key expression code."@
}

/// The result of a decoder: the setting, or the message for an unknown ordinal.
pub open spec fn decoded<T>(d: Option<T>, message: Seq<char>, r: Result<T, String>) -> bool {
    match d {
        Some(v) => r == Ok::<T, String>(v),
        None => r matches Err(e) && e@ == message,
    }
}

/// Reads a congestion control ordinal.
pub fn decode_congestion_control(v: i32) -> (r: Result<CongestionControl, String>)
    ensures
        decoded(decode_congestion_control_spec(v), unknown_congestion_control(), r),
        r is Ok <==> 0 <= v <= 2,
        r matches Ok(x) ==> congestion_control_ordinal_spec(x) == v,
{
    if v == 0 {
        Ok(CongestionControl::Drop)
    } else if v == 1 {
        Ok(CongestionControl::Block)
    } else if v == 2 {
        Ok(CongestionControl::BlockFirst)
    } else {
        Err("Unknown congestion control ordinal.".to_string())
    }
}

/// Reads a priority ordinal; zenoh admits 1 (highest) to 7 (lowest).
pub fn decode_priority(v: i32) -> (r: Result<Priority, String>)
    ensures
        decoded(decode_priority_spec(v), unknown_priority(), r),
        r is Ok <==> 1 <= v <= 7,
        r matches Ok(x) ==> priority_ordinal_spec(x) == v,
{
    if v == 1 {
        Ok(Priority::RealTime)
    } else if v == 2 {
        Ok(Priority::InteractiveHigh)
    } else if v == 3 {
        Ok(Priority::InteractiveLow)
    } else if v == 4 {
        Ok(Priority::DataHigh)
    } else if v == 5 {
        Ok(Priority::Data)
    } else if v == 6 {
        Ok(Priority::DataLow)
    } else if v == 7 {
        Ok(Priority::Background)
    } else {
        Err("Unknown priority ordinal: admitted values are 1 to 7.".to_string())
    }
}

/// Reads a reliability ordinal.
pub fn decode_reliability(v: i32) -> (r: Result<Reliability, String>)
    ensures
        decoded(decode_reliability_spec(v), unknown_reliability(), r),
        r is Ok <==> 0 <= v <= 1,
        r matches Ok(x) ==> reliability_ordinal_spec(x) == v,
{
    if v == 0 {
        Ok(Reliability::BestEffort)
    } else if v == 1 {
        Ok(Reliability::Reliable)
    } else {
        Err("Unknown reliability ordinal.".to_string())
    }
}

/// Reads a query target ordinal.
pub fn decode_query_target(v: i32) -> (r: Result<QueryTarget, String>)
    ensures
        decoded(decode_query_target_spec(v), unknown_query_target(), r),
        r is Ok <==> 0 <= v <= 2,
        r matches Ok(x) ==> query_target_ordinal_spec(x) == v,
{
    if v == 0 {
        Ok(QueryTarget::BestMatching)
    } else if v == 1 {
        Ok(QueryTarget::All)
    } else if v == 2 {
        Ok(QueryTarget::AllComplete)
    } else {
        Err("Unknown query target ordinal.".to_string())
    }
}

/// Reads a consolidation mode ordinal.
pub fn decode_consolidation(v: i32) -> (r: Result<ConsolidationMode, String>)
    ensures
        decoded(decode_consolidation_spec(v), unknown_consolidation(), r),
        r is Ok <==> 0 <= v <= 3,
        r matches Ok(x) ==> consolidation_ordinal_spec(x) == v,
{
    if v == 0 {
        Ok(ConsolidationMode::Auto)
    } else if v == 1 {
        Ok(ConsolidationMode::NoConsolidation)
    } else if v == 2 {
        Ok(ConsolidationMode::Monotonic)
    } else if v == 3 {
        Ok(ConsolidationMode::Latest)
    } else {
        Err("Unknown consolidation ordinal.".to_string())
    }
}

/// Reads the code of the replies a query accepts (0 `MatchingQuery`, 1 `Any`).
pub fn decode_reply_key_expr(v: i32) -> (r: Result<ReplyKeyExpr, String>)
    ensures
        decoded(decode_reply_key_expr_spec(v), unknown_reply_key_expr(), r),
        r is Ok <==> 0 <= v <= 1,
        r matches Ok(x) ==> reply_key_expr_code_spec(x) == v,
{
    if v == 0 {
        Ok(ReplyKeyExpr::MatchingQuery)
    } else if v == 1 {
        Ok(ReplyKeyExpr::Any)
    } else {
        Err("Unknown reply key expression code.".to_string())
    }
}

// ---------------------------------------------------------------------------
// Laws.
// ---------------------------------------------------------------------------

/// Every ordinal this library sends to Java reads back as the same setting.
pub proof fn lemma_ordinals_round_trip(
    c: CongestionControl,
    p: Priority,
    r: ReplyKeyExpr,
)
    ensures
        decode_congestion_control_spec(congestion_control_ordinal_spec(c)) == Some(c),
        decode_priority_spec(priority_ordinal_spec(p)) == Some(p),
        decode_reply_key_expr_spec(reply_key_expr_code_spec(r)) == Some(r),
{
}

/// Every reliability, query target and consolidation mode, sent by Java as
/// its ordinal (its place in zenoh's enum), reads back as itself.
pub proof fn lemma_query_setting_ordinals_round_trip(
    l: Reliability,
    t: QueryTarget,
    m: ConsolidationMode,
)
    ensures
        decode_reliability_spec(reliability_ordinal_spec(l)) == Some(l),
        decode_query_target_spec(query_target_ordinal_spec(t)) == Some(t),
        decode_consolidation_spec(consolidation_ordinal_spec(m)) == Some(m),
{
}

/// Every ordinal a decoder accepts is the ordinal of the setting it reads
/// as, so no two ordinals read as the same setting; and each decoder accepts
/// exactly the ordinals of its settings.
pub proof fn lemma_decoded_ordinals_round_trip(v: i32)
    ensures
        decode_congestion_control_spec(v) matches Some(c) ==> congestion_control_ordinal_spec(c) == v,
        decode_priority_spec(v) matches Some(p) ==> priority_ordinal_spec(p) == v,
        decode_reliability_spec(v) matches Some(l) ==> reliability_ordinal_spec(l) == v,
        decode_query_target_spec(v) matches Some(t) ==> query_target_ordinal_spec(t) == v,
        decode_consolidation_spec(v) matches Some(m) ==> consolidation_ordinal_spec(m) == v,
        decode_reply_key_expr_spec(v) matches Some(r) ==> reply_key_expr_code_spec(r) == v,
        decode_congestion_control_spec(v) is Some <==> 0 <= v <= 2,
        decode_priority_spec(v) is Some <==> 1 <= v <= 7,
        decode_reliability_spec(v) is Some <==> 0 <= v <= 1,
        decode_query_target_spec(v) is Some <==> 0 <= v <= 2,
        decode_consolidation_spec(v) is Some <==> 0 <= v <= 3,
        decode_reply_key_expr_spec(v) is Some <==> 0 <= v <= 1,
{
}

/// Two ordinals that read as the same setting are the same ordinal.
pub proof fn lemma_decoders_are_injective(v: i32, w: i32)
    ensures
        decode_congestion_control_spec(v) is Some && decode_congestion_control_spec(v)
            == decode_congestion_control_spec(w) ==> v == w,
        decode_priority_spec(v) is Some && decode_priority_spec(v) == decode_priority_spec(w) ==> v
            == w,
        decode_reliability_spec(v) is Some && decode_reliability_spec(v) == decode_reliability_spec(
            w,
        ) ==> v == w,
        decode_query_target_spec(v) is Some && decode_query_target_spec(v)
            == decode_query_target_spec(w) ==> v == w,
        decode_consolidation_spec(v) is Some && decode_consolidation_spec(v)
            == decode_consolidation_spec(w) ==> v == w,
        decode_reply_key_expr_spec(v) is Some && decode_reply_key_expr_spec(v)
            == decode_reply_key_expr_spec(w) ==> v == w,
{
    lemma_decoded_ordinals_round_trip(v);
    lemma_decoded_ordinals_round_trip(w);
}

} // verus!

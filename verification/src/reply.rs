//! The arguments that the reply callback of a GET receives, for a successful
//! reply (a sample) and for an error reply.
use vstd::prelude::*;

use crate::qos::{
    congestion_control_ordinal, congestion_control_ordinal_spec, priority_ordinal,
    priority_ordinal_spec, sample_kind_ordinal, sample_kind_ordinal_spec, CongestionControl,
    Priority, SampleKind,
};

verus! {

/// The entity that sent a reply: its zenoh id (little-endian bytes) and its
/// entity id.
pub struct ReplierId {
    pub zid: Vec<u8>,
    pub eid: u32,
}

/// The fields of a sample that the callback reads.
pub struct SampleFields {
    pub key_expr: String,
    pub payload: Vec<u8>,
    pub encoding_id: u16,
    pub encoding_schema: Option<Vec<u8>>,
    pub kind: SampleKind,
    /// The NTP64 time of the sample's timestamp, if it has one.
    pub timestamp: Option<u64>,
    pub attachment: Option<Vec<u8>>,
    pub express: bool,
    pub priority: Priority,
    pub congestion_control: CongestionControl,
}

/// The fields of an error reply that the callback reads.
pub struct ReplyErrorFields {
    pub payload: Vec<u8>,
    pub encoding_id: u16,
    pub encoding_schema: Option<Vec<u8>>,
}

/// The arguments of the Java reply callback
/// (`([BIZLjava/lang/String;[BILjava/lang/String;IJZ[BZII)V`); `None`
/// stands for Java's `null`.
pub struct ReplyCallbackArgs {
    pub replier_zid: Option<Vec<u8>>,
    pub replier_eid: i32,
    pub is_success: bool,
    pub key_expr: Option<String>,
    pub payload: Vec<u8>,
    pub encoding_id: i32,
    pub encoding_schema: Option<Vec<u8>>,
    pub kind: i32,
    pub timestamp: i64,
    pub timestamp_is_valid: bool,
    pub attachment: Option<Vec<u8>>,
    pub express: bool,
    pub priority: i32,
    pub congestion_control: i32,
}

pub open spec fn replier_zid_spec(replier: Option<ReplierId>) -> Option<Vec<u8>> {
    match replier {
        Some(id) => Some(id.zid),
        None => None,
    }
}

/// The entity id as Java's `int` (`eid as jint`, which wraps), or 0.
pub open spec fn replier_eid_spec(replier: Option<ReplierId>) -> i32 {
    match replier {
        Some(id) => id.eid as i32,
        None => 0,
    }
}

fn replier_parts(replier: Option<ReplierId>) -> (r: (Option<Vec<u8>>, i32))
    ensures
        r.0 == replier_zid_spec(replier),
        r.1 == replier_eid_spec(replier),
{
    match replier {
        Some(id) => (Some(id.zid), id.eid as i32),
        None => (None, 0),
    }
}

/// The callback arguments for a successful reply carrying `sample`.
///
/// The timestamp is sent as `as_u64() as i64` (wrapping) with its validity
/// flag; without a timestamp Java receives 0 and `false`.
pub fn reply_success_args(replier: Option<ReplierId>, sample: SampleFields) -> (r: ReplyCallbackArgs)
    ensures
        r.replier_zid == replier_zid_spec(replier),
        r.replier_eid == replier_eid_spec(replier),
        r.is_success,
        r.key_expr == Some(sample.key_expr),
        r.payload == sample.payload,
        r.encoding_id == sample.encoding_id as i32,
        r.encoding_schema == sample.encoding_schema,
        r.kind == sample_kind_ordinal_spec(sample.kind),
        r.timestamp == (match sample.timestamp {
            Some(t) => t as i64,
            None => 0i64,
        }),
        r.timestamp_is_valid == sample.timestamp is Some,
        r.attachment == sample.attachment,
        r.express == sample.express,
        r.priority == priority_ordinal_spec(sample.priority),
        r.congestion_control == congestion_control_ordinal_spec(sample.congestion_control),
{
    let (replier_zid, replier_eid) = replier_parts(replier);
    let (timestamp, timestamp_is_valid) = match sample.timestamp {
        Some(t) => (t as i64, true),
        None => (0i64, false),
    };
    ReplyCallbackArgs {
        replier_zid,
        replier_eid,
        is_success: true,
        key_expr: Some(sample.key_expr),
        payload: sample.payload,
        encoding_id: sample.encoding_id as i32,
        encoding_schema: sample.encoding_schema,
        kind: sample_kind_ordinal(sample.kind),
        timestamp,
        timestamp_is_valid,
        attachment: sample.attachment,
        express: sample.express,
        priority: priority_ordinal(sample.priority),
        congestion_control: congestion_control_ordinal(sample.congestion_control),
    }
}

/// The callback arguments for an error reply: the error's payload and
/// encoding; every argument that only a sample has is null, 0 or `false`.
pub fn reply_error_args(replier: Option<ReplierId>, error: ReplyErrorFields) -> (r: ReplyCallbackArgs)
    ensures
        r.replier_zid == replier_zid_spec(replier),
        r.replier_eid == replier_eid_spec(replier),
        !r.is_success,
        r.key_expr is None,
        r.payload == error.payload,
        r.encoding_id == error.encoding_id as i32,
        r.encoding_schema == error.encoding_schema,
        r.kind == 0,
        r.timestamp == 0,
        !r.timestamp_is_valid,
        r.attachment is None,
        !r.express,
        r.priority == 0,
        r.congestion_control == 0,
{
    let (replier_zid, replier_eid) = replier_parts(replier);
    ReplyCallbackArgs {
        replier_zid,
        replier_eid,
        is_success: false,
        key_expr: None,
        payload: error.payload,
        encoding_id: error.encoding_id as i32,
        encoding_schema: error.encoding_schema,
        kind: 0,
        timestamp: 0,
        timestamp_is_valid: false,
        attachment: None,
        express: false,
        priority: 0,
        congestion_control: 0,
    }
}

} // verus!

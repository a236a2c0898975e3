//! Queries received by a queryable, and the replies sent to them.
use vstd::prelude::*;

use crate::qos::{reply_key_expr_code, reply_key_expr_code_spec, ReplyKeyExpr};

verus! {

/// The fields of an incoming query that the queryable callback reads.
pub struct QueryFields {
    pub key_expr: String,
    pub parameters: String,
    pub payload: Option<Vec<u8>>,
    /// The encoding id and schema; zenoh gives a query with a payload an encoding.
    pub encoding: Option<(u16, Option<Vec<u8>>)>,
    pub attachment: Option<Vec<u8>>,
    pub accepts_replies: ReplyKeyExpr,
}

/// The arguments of the Java queryable callback
/// (`(Ljava/lang/String;Ljava/lang/String;[BILjava/lang/String;[BJI)V`),
/// but for the query handle, which `app/` adds; `None` stands for `null`.
pub struct QueryCallbackArgs {
    pub key_expr: String,
    pub parameters: String,
    pub payload: Option<Vec<u8>>,
    pub encoding_id: i32,
    pub encoding_schema: Option<Vec<u8>>,
    pub attachment: Option<Vec<u8>>,
    pub accepts_replies: i32,
}

/// The callback arguments for `query`: without a payload, the payload and the
/// schema are null and the encoding id is 0.
pub fn query_callback_args(query: QueryFields) -> (r: QueryCallbackArgs)
    requires
        query.payload is Some ==> query.encoding is Some,
    ensures
        r.key_expr == query.key_expr,
        r.parameters == query.parameters,
        r.payload == query.payload,
        r.encoding_id == (match (query.payload, query.encoding) {
            (Some(_), Some((id, _))) => id as i32,
            _ => 0i32,
        }),
        r.encoding_schema == (match (query.payload, query.encoding) {
            (Some(_), Some((_, schema))) => schema,
            _ => None,
        }),
        r.attachment == query.attachment,
        r.accepts_replies == reply_key_expr_code_spec(query.accepts_replies),
{
    let (encoding_id, encoding_schema) = match query.payload {
        Some(_) => match query.encoding {
            Some((id, schema)) => (id as i32, schema),
            None => vstd::pervasive::unreached(),
        },
        None => (0i32, None),
    };
    QueryCallbackArgs {
        key_expr: query.key_expr,
        parameters: query.parameters,
        payload: query.payload,
        encoding_id,
        encoding_schema,
        attachment: query.attachment,
        accepts_replies: reply_key_expr_code(query.accepts_replies),
    }
}

/// Whether a Java `boolean` (a `jboolean`) is true: any value but 0.
pub fn is_set(flag: u8) -> (r: bool)
    ensures
        r == (flag != 0),
{
    flag != 0
}

/// The NTP64 time of the timestamp a reply carries: the bits of `ntp64`
/// (`ntp64 as u64`) when timestamps are enabled, none otherwise.
pub fn reply_timestamp(enabled: u8, ntp64: i64) -> (r: Option<u64>)
    ensures
        r == (if enabled != 0 {
            Some(ntp64 as u64)
        } else {
            None::<u64>
        }),
{
    if enabled != 0 {
        Some(ntp64 as u64)
    } else {
        None
    }
}

/// The options of a reply (`replySuccess`, `replyDelete`): its timestamp
/// and whether it is sent express.
pub struct ReplyOptions {
    pub timestamp: Option<u64>,
    pub express: bool,
}

pub fn reply_options(timestamp_enabled: u8, ntp64: i64, express: u8) -> (r: ReplyOptions)
    ensures
        r.timestamp == (if timestamp_enabled != 0 {
            Some(ntp64 as u64)
        } else {
            None::<u64>
        }),
        r.express == (express != 0),
{
    ReplyOptions { timestamp: reply_timestamp(timestamp_enabled, ntp64), express: is_set(express) }
}

} // verus!

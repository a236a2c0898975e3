//! Zenoh ids: the text form of the bytes that Java holds.
use vstd::prelude::*;
use zenoh::session::ZenohId;

verus! {

/// The number that `bytes` encode, least significant byte first.
pub open spec fn le_value(bytes: Seq<u8>) -> nat
    decreases bytes.len(),
{
    if bytes.len() == 0 {
        0
    } else {
        bytes[0] as nat + 256 * le_value(bytes.drop_first())
    }
}

pub open spec fn digit_char(d: nat) -> char {
    seq!['0', '1', '2', '3', '4', '5', '6', '7', '8', '9', 'a', 'b', 'c', 'd', 'e', 'f'][d as int]
}

/// `n` in lower-case hexadecimal, without leading zeros (Rust's `{:x}`).
pub open spec fn lower_hex(n: nat) -> Seq<char>
    decreases n,
{
    if n < 16 {
        seq![digit_char(n)]
    } else {
        lower_hex(n / 16) + seq![digit_char(n % 16)]
    }
}

/// `n` in decimal, without leading zeros (Rust's `{}`).
pub open spec fn decimal(n: nat) -> Seq<char>
    decreases n,
{
    if n < 10 {
        seq![digit_char(n)]
    } else {
        decimal(n / 10) + seq![digit_char(n % 10)]
    }
}

/// Whether zenoh accepts `bytes` as a zenoh id: at most 16 bytes, encoding a
/// number other than 0.
pub open spec fn is_zenoh_id(bytes: Seq<u8>) -> bool {
    bytes.len() <= 16 && le_value(bytes) != 0
}

/// The size that zenoh's refusal reports: the length when it exceeds 16, else 0.
pub open spec fn refused_size(bytes: Seq<u8>) -> nat {
    if bytes.len() > 16 {
        bytes.len()
    } else {
        0
    }
}

/// What `JNIZenohId.toString` answers for `bytes`.
pub open spec fn zenoh_id_text_spec(bytes: Seq<u8>) -> Result<Seq<char>, Seq<char>> {
    if is_zenoh_id(bytes) {
        Ok(lower_hex(le_value(bytes)))
    } else {
        Err("Maximum ID size (16 bytes) exceeded: "@ + decimal(refused_size(bytes)))
    }
}

/// Calls `ZenohId::try_from(&[u8])` and formats the id with its `Display`.
///
/// From the source: `uhlc::ID::try_from` refuses more than 16 bytes with
/// `SizeError(len)` and a zero value with `SizeError(0)`, whose message is
/// `Maximum ID size (16 bytes) exceeded: <n>`; the id is displayed as
/// `{:x}` of `u128::from_le_bytes` of the zero-padded bytes.
#[verifier::external_body]
fn zenoh_id_display(bytes: &[u8]) -> (r: Result<String, String>)
    ensures
        match r {
            Ok(s) => is_zenoh_id(bytes@) && s@ == lower_hex(le_value(bytes@)),
            Err(e) => !is_zenoh_id(bytes@) && e@ == "Maximum ID size (16 bytes) exceeded: "@
                + decimal(refused_size(bytes@)),
        },
{
    match ZenohId::try_from(bytes) {
        Ok(id) => Ok(id.to_string()),
        Err(err) => Err(err.to_string()),
    }
}

/// The text form of a zenoh id given as bytes (`JNIZenohId.toString`).
///
/// It succeeds exactly on 1 to 16 bytes that are not all zero.
pub fn zenoh_id_to_string(bytes: &[u8]) -> (r: Result<String, String>)
    ensures
        match r {
            Ok(s) => zenoh_id_text_spec(bytes@) == Ok::<Seq<char>, Seq<char>>(s@),
            Err(e) => zenoh_id_text_spec(bytes@) == Err::<Seq<char>, Seq<char>>(e@),
        },
        r is Ok <==> is_zenoh_id(bytes@),
        r matches Ok(t) ==> t@ == lower_hex(le_value(bytes@)),
{
    zenoh_id_display(bytes)
}

// ---------------------------------------------------------------------------
// Laws.
// ---------------------------------------------------------------------------

/// `16^k`.
pub open spec fn hex_bound(k: nat) -> nat
    decreases k,
{
    if k == 0 {
        1
    } else {
        16 * hex_bound((k - 1) as nat)
    }
}

/// `bytes` encode a number below `256^len = 16^(2 len)`.
pub proof fn lemma_le_value_bound(bytes: Seq<u8>)
    ensures
        le_value(bytes) < hex_bound(2 * bytes.len()),
    decreases bytes.len(),
{
    if bytes.len() > 0 {
        lemma_le_value_bound(bytes.drop_first());
        let k = 2 * bytes.drop_first().len();
        assert(hex_bound(k + 2) == 16 * hex_bound(k + 1));
        assert(hex_bound(k + 1) == 16 * hex_bound(k));
        assert(2 * bytes.len() == k + 2);
    }
}

/// A number below `16^k` has at most `k` hexadecimal digits (and at least one).
pub proof fn lemma_lower_hex_length(n: nat, k: nat)
    requires
        k >= 1,
        n < hex_bound(k),
    ensures
        1 <= lower_hex(n).len() <= k,
    decreases n,
{
    if n >= 16 {
        assert(hex_bound(k) == 16 * hex_bound((k - 1) as nat));
        assert(k >= 2) by {
            if k == 1 {
                assert(hex_bound(0) == 1);
            }
        }
        assert(n / 16 < hex_bound((k - 1) as nat));
        lemma_lower_hex_length(n / 16, (k - 1) as nat);
    }
}

/// The text of every zenoh id is 1 to 32 hexadecimal digits: zenoh ids are
/// "an hex string of 1-16 bytes".
pub proof fn lemma_zenoh_id_text_length(bytes: Seq<u8>)
    requires
        is_zenoh_id(bytes),
    ensures
        zenoh_id_text_spec(bytes) matches Ok(text) && 1 <= text.len() <= 32,
{
    lemma_le_value_bound(bytes);
    lemma_hex_bound_monotonic(2 * bytes.len(), 32);
    lemma_lower_hex_length(le_value(bytes), 32);
}

proof fn lemma_hex_bound_monotonic(i: nat, j: nat)
    requires
        i <= j,
    ensures
        hex_bound(i) <= hex_bound(j),
    decreases j,
{
    if i < j {
        lemma_hex_bound_monotonic(i, (j - 1) as nat);
    }
}

} // verus!

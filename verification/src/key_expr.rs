//! Key expressions: validation, canonization, set relations, join and concat.
//!
//! Every operation on key expressions is zenoh's own; this module fixes what
//! is handed to zenoh, what comes back to Java, and the error messages.
use vstd::prelude::*;
use zenoh::key_expr::{KeyExpr, SetIntersectionLevel};

use crate::text::framed;

verus! {

#[verifier::external_type_specification]
#[verifier::external_body]
pub struct ExKeyExpr<'a>(KeyExpr<'a>);

// ---------------------------------------------------------------------------
// Names for what zenoh computes on key expression strings.
// ---------------------------------------------------------------------------

/// The message with which zenoh's key expression constructor refuses `text`,
/// or `None` when `text` is a valid (canon) key expression.
pub uninterp spec fn key_expr_rejection(text: Seq<char>) -> Option<Seq<char>>;

/// The string that zenoh's `Canonize::canonize` leaves of `text`.
pub uninterp spec fn canonized(text: Seq<char>) -> Seq<char>;

/// Whether zenoh finds that the key expressions `a` and `b` intersect.
pub uninterp spec fn key_expr_intersects(a: Seq<char>, b: Seq<char>) -> bool;

/// Whether zenoh finds that the key expression `a` includes `b`.
pub uninterp spec fn key_expr_includes(a: Seq<char>, b: Seq<char>) -> bool;

/// The message with which zenoh's `KeyExpr::concat` refuses to glue `a`
/// (ending with `*`) to `b` (starting with `*`).
pub uninterp spec fn concat_refusal(a: Seq<char>, b: Seq<char>) -> Seq<char>;

/// What zenoh's constructor gives for `text`: the text itself when it is a
/// valid key expression, the refusal message otherwise.
pub open spec fn key_expr_outcome(text: Seq<char>) -> Result<Seq<char>, Seq<char>> {
    match key_expr_rejection(text) {
        None => Ok(text),
        Some(m) => Err(m),
    }
}

pub open spec fn is_valid_key_expr(text: Seq<char>) -> bool {
    key_expr_rejection(text) is None
}

/// The relation between two key expressions, from the first one's point of
/// view; the variants are in zenoh's order.
#[derive(PartialEq, Eq, Structural, Clone, Copy, Debug)]
pub enum IntersectionLevel {
    Disjoint,
    Intersects,
    Includes,
    Equals,
}

/// How zenoh's `keyexpr::relation_to` derives the relation from
/// `intersects`, string equality and `includes`.
pub open spec fn relation_spec(a: Seq<char>, b: Seq<char>) -> IntersectionLevel {
    if key_expr_intersects(a, b) {
        if a == b {
            IntersectionLevel::Equals
        } else if key_expr_includes(a, b) {
            IntersectionLevel::Includes
        } else {
            IntersectionLevel::Intersects
        }
    } else {
        IntersectionLevel::Disjoint
    }
}

/// The ordinal of a relation as Java receives it.
pub open spec fn level_ordinal_spec(level: IntersectionLevel) -> i32 {
    match level {
        IntersectionLevel::Disjoint => 0,
        IntersectionLevel::Intersects => 1,
        IntersectionLevel::Includes => 2,
        IntersectionLevel::Equals => 3,
    }
}

/// A key expression that zenoh accepted, kept together with its text.
///
/// Its view is `text`; `key_expr` is zenoh's opaque value. The two always
/// hold the same key expression: the fields are private, and only the calls
/// into zenoh below build values of this type, each from the very string
/// zenoh accepted or gave back (`as_str` of the new key expression). The
/// contracts of the calls that read `key_expr` speak of `text` and rest on
/// this; any new constructor must keep it so.
pub struct ValidKeyExpr {
    key_expr: KeyExpr<'static>,
    text: String,
}

impl View for ValidKeyExpr {
    type V = Seq<char>;

    closed spec fn view(&self) -> Seq<char> {
        self.text@
    }
}

pub open spec fn outcome_view(r: Result<ValidKeyExpr, String>) -> Result<Seq<char>, Seq<char>> {
    match r {
        Ok(k) => Ok(k@),
        Err(e) => Err(e@),
    }
}

pub open spec fn string_outcome_view(r: Result<String, String>) -> Result<Seq<char>, Seq<char>> {
    match r {
        Ok(s) => Ok(s@),
        Err(e) => Err(e@),
    }
}

/// `$*$*` stands at position `p` of `s`.
pub open spec fn double_dollar_star_at(s: Seq<char>, p: int) -> bool {
    &&& 0 <= p
    &&& p + 4 <= s.len()
    &&& s[p] == '$'
    &&& s[p + 1] == '*'
    &&& s[p + 2] == '$'
    &&& s[p + 3] == '*'
}

/// The character at offset `k` of a run `$*$*...`.
pub open spec fn pair_char(k: int) -> char {
    if k % 2 == 0 {
        '$'
    } else {
        '*'
    }
}

/// Where the last chunk of `s` starts: just after its last `/`, or at 0.
pub open spec fn last_chunk_start(s: Seq<char>) -> int
    decreases s.len(),
{
    if s.len() == 0 {
        0
    } else if s.last() == '/' {
        s.len() as int
    } else {
        last_chunk_start(s.drop_last())
    }
}

/// `s[from..to]` is a run `$*$*...$*`.
pub open spec fn dollar_star_pairs(s: Seq<char>, from: int, to: int) -> bool {
    &&& (to - from) % 2 == 0
    &&& forall|j: int| from <= j < to ==> s[j] == pair_char(j - from)
}

/// The `$*$*` at `p` belongs to the run of `$*` that opens the last chunk,
/// and no `$*$*`, one character and a `/` come just before that chunk. The
/// canonizer then meets the chunk at its start and strips the run down to
/// one `$*` before scanning the rest, so it never scans this `$*$*`.
pub open spec fn opens_stripped_run(s: Seq<char>, p: int) -> bool {
    let c = last_chunk_start(s);
    &&& c <= p
    &&& dollar_star_pairs(s, c, p)
    &&& !double_dollar_star_at(s, c - 6)
}

/// A `$*$*` at `p` that the canonizer's scan may meet.
pub open spec fn scanned_double_dollar_star(s: Seq<char>, p: int) -> bool {
    double_dollar_star_at(s, p) && !opens_stripped_run(s, p)
}

/// zenoh's canonizer (`canon.rs`) slices past the end of the string when its
/// scan of a chunk meets a `$*$*` followed by fewer than two bytes: the text
/// ends with `$*$*`, or with `$*$*` and one ASCII character. This names
/// every string where that can happen; a few of them it canonizes all the
/// same, because an earlier `$*$*` made its scan jump over the last one
/// (such as `ab$*$*$*`).
pub open spec fn canonize_overrun_risk(s: Seq<char>) -> bool {
    ||| scanned_double_dollar_star(s, s.len() - 4)
    ||| (scanned_double_dollar_star(s, s.len() - 5) && (s[s.len() - 1] as u32) < 128)
}

/// The refusal of a string that zenoh's canonizer cannot be trusted with.
pub open spec fn canonize_refusal(text: Seq<char>) -> Seq<char> {
    "Unable to canonize key expression: '"@ + text + "'"@
}

// ---------------------------------------------------------------------------
// Calls into zenoh.
// ---------------------------------------------------------------------------

/// Calls `KeyExpr::try_from(String)`. zenoh keeps the string as it is when it
/// accepts it (`OwnedKeyExpr(value.into())`), so the text of the result is
/// the argument; on refusal the error's message is returned.
#[verifier::external_body]
fn key_expr_try_from(text: String) -> (r: Result<ValidKeyExpr, String>)
    ensures
        match r {
            Ok(k) => k@ == text@ && key_expr_rejection(text@) is None,
            Err(e) => key_expr_rejection(text@) == Some(e@),
        },
{
    let copy = text.clone();
    match KeyExpr::try_from(text) {
        Ok(key_expr) => Ok(ValidKeyExpr { key_expr, text: copy }),
        Err(err) => Err(err.to_string()),
    }
}

/// Calls `KeyExpr::autocanonize(String)`, which canonizes the string in place
/// and then hands it to the same constructor as `key_expr_try_from`. The
/// canonizer cannot overrun the string on the texts that `requires` admits.
#[verifier::external_body]
fn key_expr_autocanonize(text: String) -> (r: Result<ValidKeyExpr, String>)
    requires
        !canonize_overrun_risk(text@),
    ensures
        outcome_view(r) == key_expr_outcome(canonized(text@)),
{
    match KeyExpr::autocanonize(text) {
        Ok(key_expr) => {
            let text = key_expr.as_str().to_string();
            Ok(ValidKeyExpr { key_expr, text })
        },
        Err(err) => Err(err.to_string()),
    }
}

/// Calls `keyexpr::intersects` (through `KeyExpr`'s `Deref`). Its
/// documentation defines it as "there exists at least one key which is
/// contained in both of the sets", which does not depend on the order of the
/// two; its source answers `true` at once on equal strings.
#[verifier::external_body]
fn key_expr_intersects_call(a: &ValidKeyExpr, b: &ValidKeyExpr) -> (r: bool)
    ensures
        r == key_expr_intersects(a@, b@),
        r == key_expr_intersects(b@, a@),
        a@ == b@ ==> r,
{
    a.key_expr.intersects(&b.key_expr)
}

/// Calls `keyexpr::includes`. Its source answers `true` at once when both
/// strings are equal.
#[verifier::external_body]
fn key_expr_includes_call(a: &ValidKeyExpr, b: &ValidKeyExpr) -> (r: bool)
    ensures
        r == key_expr_includes(a@, b@),
        a@ == b@ ==> r,
{
    a.key_expr.includes(&b.key_expr)
}

/// Calls `keyexpr::relation_to`. Its source is the nested test of
/// `relation_spec`; `includes` answers `true` on equal strings; and the
/// documentation of `SetIntersectionLevel` promises that `Includes` or above
/// means inclusion; with `includes` answering `true` on equal strings, equal
/// strings are therefore `Equals`.
#[verifier::external_body]
fn key_expr_relation_call(a: &ValidKeyExpr, b: &ValidKeyExpr) -> (r: IntersectionLevel)
    ensures
        r == relation_spec(a@, b@),
        (level_ordinal_spec(r) >= 2) == key_expr_includes(a@, b@),
        a@ == b@ ==> r == IntersectionLevel::Equals,
{
    match a.key_expr.relation_to(&b.key_expr) {
        SetIntersectionLevel::Disjoint => IntersectionLevel::Disjoint,
        SetIntersectionLevel::Intersects => IntersectionLevel::Intersects,
        SetIntersectionLevel::Includes => IntersectionLevel::Includes,
        SetIntersectionLevel::Equals => IntersectionLevel::Equals,
    }
}

/// Calls `KeyExpr::join`, whose source is
/// `OwnedKeyExpr::autocanonize(format!("{}/{}", self, other))`; the
/// canonizer cannot overrun that path on what `requires` admits.
#[verifier::external_body]
fn key_expr_join_call(a: &ValidKeyExpr, b: &str) -> (r: Result<ValidKeyExpr, String>)
    requires
        !canonize_overrun_risk(a@ + seq!['/'] + b@),
    ensures
        outcome_view(r) == key_expr_outcome(canonized(a@ + seq!['/'] + b@)),
{
    match a.key_expr.join(b) {
        Ok(key_expr) => {
            let text = key_expr.as_str().to_string();
            Ok(ValidKeyExpr { key_expr, text })
        },
        Err(err) => Err(err.to_string()),
    }
}

/// Calls `KeyExpr::concat`: it refuses a left side ending with `*` glued to a
/// right side starting with `*`; otherwise it hands `a + b`, not canonized,
/// to the constructor of `key_expr_try_from`.
#[verifier::external_body]
fn key_expr_concat_call(a: &ValidKeyExpr, b: &str) -> (r: Result<ValidKeyExpr, String>)
    ensures
        outcome_view(r) == (if stars_meet(a@, b@) {
            Err(concat_refusal(a@, b@))
        } else {
            key_expr_outcome(a@ + b@)
        }),
{
    match a.key_expr.concat(b) {
        Ok(key_expr) => {
            let text = key_expr.as_str().to_string();
            Ok(ValidKeyExpr { key_expr, text })
        },
        Err(err) => Err(err.to_string()),
    }
}

/// `a` ends with `*` and `b` starts with `*`.
pub open spec fn stars_meet(a: Seq<char>, b: Seq<char>) -> bool {
    &&& a.len() > 0
    &&& a.last() == '*'
    &&& b.len() > 0
    &&& b[0] == '*'
}

// ---------------------------------------------------------------------------
// What each JNI entry point computes.
// ---------------------------------------------------------------------------

pub open spec fn int_outcome_view(r: Result<i32, String>) -> Result<i32, Seq<char>> {
    match r {
        Ok(v) => Ok(v),
        Err(e) => Err(e@),
    }
}

/// The answer of `tryFrom`: the string itself when zenoh accepts it, else
/// `Unable to create key expression: '<zenoh's message>'.`
pub open spec fn try_from_spec(text: Seq<char>) -> Result<Seq<char>, Seq<char>> {
    match key_expr_rejection(text) {
        None => Ok(text),
        Some(m) => Err("Unable to create key expression: '"@ + m + "'."@),
    }
}

/// The answer of `autocanonize`: the canonized string when zenoh accepts it,
/// else `Unable to create key expression: '<zenoh's message>'`; a string that
/// the canonizer could overrun is refused before it is handed over.
pub open spec fn autocanonize_spec(text: Seq<char>) -> Result<Seq<char>, Seq<char>> {
    if canonize_overrun_risk(text) {
        Err(canonize_refusal(text))
    } else {
        match key_expr_rejection(canonized(text)) {
            None => Ok(canonized(text)),
            Some(m) => Err("Unable to create key expression: '"@ + m + "'"@),
        }
    }
}

/// The refusal of the first of `a`, `b` that zenoh refuses, if any.
pub open spec fn pair_rejection(a: Seq<char>, b: Seq<char>) -> Option<Seq<char>> {
    match key_expr_rejection(a) {
        Some(m) => Some(m),
        None => key_expr_rejection(b),
    }
}

pub open spec fn flag(b: bool) -> i32 {
    if b {
        1
    } else {
        0
    }
}

/// The answer of `intersects`: 1 or 0.
pub open spec fn intersects_spec(a: Seq<char>, b: Seq<char>) -> Result<i32, Seq<char>> {
    match pair_rejection(a, b) {
        Some(m) => Err(m),
        None => Ok(flag(key_expr_intersects(a, b))),
    }
}

/// The answer of `includes`: 1 or 0.
pub open spec fn includes_spec(a: Seq<char>, b: Seq<char>) -> Result<i32, Seq<char>> {
    match pair_rejection(a, b) {
        Some(m) => Err(m),
        None => Ok(flag(key_expr_includes(a, b))),
    }
}

/// The answer of `relationTo`: the ordinal of the relation.
pub open spec fn relation_to_spec(a: Seq<char>, b: Seq<char>) -> Result<i32, Seq<char>> {
    match pair_rejection(a, b) {
        Some(m) => Err(m),
        None => Ok(level_ordinal_spec(relation_spec(a, b))),
    }
}

/// The answer of `join`: zenoh's autocanonization of `a/b`.
pub open spec fn join_spec(a: Seq<char>, b: Seq<char>) -> Result<Seq<char>, Seq<char>> {
    match key_expr_rejection(a) {
        Some(m) => Err(m),
        None => if canonize_overrun_risk(a + seq!['/'] + b) {
            Err(canonize_refusal(a + seq!['/'] + b))
        } else {
            key_expr_outcome(canonized(a + seq!['/'] + b))
        },
    }
}

/// The answer of `concat`: `a + b` when zenoh accepts it as it stands.
pub open spec fn concat_spec(a: Seq<char>, b: Seq<char>) -> Result<Seq<char>, Seq<char>> {
    match key_expr_rejection(a) {
        Some(m) => Err(m),
        None => if stars_meet(a, b) {
            Err(concat_refusal(a, b))
        } else {
            key_expr_outcome(a + b)
        },
    }
}

/// The message of a failure to read the key expression string out of Java.
pub fn key_expr_decoding_error(err: &str) -> (r: String)
    ensures
        r@ == "Unable to get key expression string value: '"@ + err@ + "'."@,
{
    framed("Unable to get key expression string value: '", err, "'.")
}

/// Checks a key expression string with zenoh's constructor
/// (`JNIKeyExpr.tryFrom`). On success Java receives the very string it sent.
pub fn try_from(text: String) -> (r: Result<String, String>)
    ensures
        string_outcome_view(r) == try_from_spec(text@),
        r is Ok <==> key_expr_rejection(text@) is None,
        r matches Ok(t) ==> t@ == text@,
{
    match key_expr_try_from(text) {
        Ok(k) => Ok(k.text),
        Err(e) => Err(framed("Unable to create key expression: '", e.as_str(), "'.")),
    }
}

/// Whether `$*$*` stands at position `p` of `text`.
fn double_dollar_star(text: &str, p: usize) -> (r: bool)
    requires
        p + 4 <= text@.len() <= usize::MAX,
    ensures
        r == double_dollar_star_at(text@, p as int),
{
    text.get_char(p) == '$' && text.get_char(p + 1) == '*' && text.get_char(p + 2) == '$'
        && text.get_char(p + 3) == '*'
}

/// Where the last chunk of `text` starts.
fn last_chunk_start_of(text: &str, n: usize) -> (c: usize)
    requires
        n == text@.len(),
    ensures
        c == last_chunk_start(text@),
        c <= n,
{
    let mut i: usize = n;
    proof {
        assert(text@.subrange(0, n as int) =~= text@);
    }
    while i > 0 && text.get_char(i - 1) != '/'
        invariant
            i <= n,
            n == text@.len(),
            last_chunk_start(text@) == last_chunk_start(text@.subrange(0, i as int)),
        decreases i,
    {
        proof {
            let t = text@.subrange(0, i as int);
            assert(t.drop_last() =~= text@.subrange(0, i - 1));
        }
        i = i - 1;
    }
    proof {
        let t = text@.subrange(0, i as int);
        if i == 0 {
            assert(t.len() == 0);
        } else {
            assert(t.last() == '/');
        }
    }
    i
}

/// Whether `text[from..to]` is a run `$*$*...$*`.
fn dollar_star_run(text: &str, from: usize, to: usize) -> (r: bool)
    requires
        from <= to <= text@.len() <= usize::MAX,
    ensures
        r == dollar_star_pairs(text@, from as int, to as int),
{
    if (to - from) % 2 != 0 {
        return false;
    }
    let mut j: usize = from;
    while j < to
        invariant
            from <= j <= to,
            to <= text@.len(),
            (to - from) % 2 == 0,
            forall|k: int| from <= k < j ==> text@[k] == pair_char(k - from),
        decreases to - j,
    {
        let expected = if (j - from) % 2 == 0 {
            '$'
        } else {
            '*'
        };
        if text.get_char(j) != expected {
            assert(text@[j as int] != pair_char(j - from));
            return false;
        }
        j = j + 1;
    }
    true
}

/// Whether the canonizer's scan may meet the `$*$*` at `p`.
fn scanned_at(text: &str, n: usize, c: usize, p: usize) -> (r: bool)
    requires
        n == text@.len(),
        c == last_chunk_start(text@),
        c <= n,
        p + 4 <= n,
    ensures
        r == scanned_double_dollar_star(text@, p as int),
{
    if !double_dollar_star(text, p) {
        return false;
    }
    if c > p || !dollar_star_run(text, c, p) {
        return true;
    }
    c >= 6 && double_dollar_star(text, c - 6)
}

/// Whether zenoh's canonizer could overrun `text` (see
/// `canonize_overrun_risk`); such a string is refused instead of canonized.
pub fn canonize_may_overrun(text: &str) -> (r: bool)
    ensures
        r == canonize_overrun_risk(text@),
{
    let n = text.unicode_len();
    let c = last_chunk_start_of(text, n);
    if n >= 4 && scanned_at(text, n, c, n - 4) {
        return true;
    }
    n >= 5 && scanned_at(text, n, c, n - 5) && (text.get_char(n - 1) as u32) < 128
}

/// Canonizes a key expression string and checks the result with zenoh
/// (`JNIKeyExpr.autocanonize`).
pub fn autocanonize(text: String) -> (r: Result<String, String>)
    ensures
        string_outcome_view(r) == autocanonize_spec(text@),
        r is Ok <==> !canonize_overrun_risk(text@) && key_expr_rejection(canonized(text@)) is None,
        r matches Ok(t) ==> t@ == canonized(text@),
{
    if canonize_may_overrun(text.as_str()) {
        return Err(framed("Unable to canonize key expression: '", text.as_str(), "'"));
    }
    match key_expr_autocanonize(text) {
        Ok(k) => Ok(k.text),
        Err(e) => Err(framed("Unable to create key expression: '", e.as_str(), "'")),
    }
}

/// Turns the two key expression strings of a binary operation into zenoh
/// key expressions, reporting the first one zenoh refuses.
fn kotlin_key_expr_pair(a: String, b: String) -> (r: Result<(ValidKeyExpr, ValidKeyExpr), String>)
    ensures
        match r {
            Ok((x, y)) => x@ == a@ && y@ == b@ && pair_rejection(a@, b@) is None,
            Err(e) => pair_rejection(a@, b@) == Some(e@),
        },
{
    let x = key_expr_try_from(a)?;
    let y = key_expr_try_from(b)?;
    Ok((x, y))
}

/// The ordinal of a relation, as Java receives it.
pub fn level_ordinal(level: IntersectionLevel) -> (r: i32)
    ensures
        r == level_ordinal_spec(level),
{
    match level {
        IntersectionLevel::Disjoint => 0,
        IntersectionLevel::Intersects => 1,
        IntersectionLevel::Includes => 2,
        IntersectionLevel::Equals => 3,
    }
}

/// Whether two key expressions intersect (`JNIKeyExpr.intersects`): 1 or 0.
///
/// Intersection is symmetric: on two valid key expressions the answer does
/// not depend on their order.
pub fn intersects(a: String, b: String) -> (r: Result<i32, String>)
    ensures
        int_outcome_view(r) == intersects_spec(a@, b@),
        pair_rejection(a@, b@) is None ==> int_outcome_view(r) == intersects_spec(b@, a@),
        pair_rejection(a@, b@) is None ==> (r == Ok::<i32, String>(1) <==> key_expr_intersects(
            a@,
            b@,
        )) && (r == Ok::<i32, String>(0) <==> !key_expr_intersects(a@, b@)),
{
    let (x, y) = kotlin_key_expr_pair(a, b)?;
    if key_expr_intersects_call(&x, &y) {
        Ok(1)
    } else {
        Ok(0)
    }
}

/// Whether the first key expression includes the second
/// (`JNIKeyExpr.includes`): 1 or 0. Every key expression includes itself.
pub fn includes(a: String, b: String) -> (r: Result<i32, String>)
    ensures
        int_outcome_view(r) == includes_spec(a@, b@),
        pair_rejection(a@, b@) is None ==> (r == Ok::<i32, String>(1) <==> key_expr_includes(
            a@,
            b@,
        )) && (r == Ok::<i32, String>(0) <==> !key_expr_includes(a@, b@)),
        is_valid_key_expr(a@) && a@ == b@ ==> r == Ok::<i32, String>(1),
{
    let (x, y) = kotlin_key_expr_pair(a, b)?;
    if key_expr_includes_call(&x, &y) {
        Ok(1)
    } else {
        Ok(0)
    }
}

/// The relation of the first key expression to the second
/// (`JNIKeyExpr.relationTo`), as the ordinal of `IntersectionLevel`.
///
/// The ordinal is at least 1 exactly when the expressions intersect, at least
/// 2 exactly when the first includes the second, and 3 for equal strings.
pub fn relation_to(a: String, b: String) -> (r: Result<i32, String>)
    ensures
        int_outcome_view(r) == relation_to_spec(a@, b@),
        r matches Ok(k) ==> {
            &&& 0 <= k <= 3
            &&& (k >= 1) == key_expr_intersects(a@, b@)
            &&& (k >= 2) == key_expr_includes(a@, b@)
            &&& (k == 3) == (a@ == b@)
        },
{
    let (x, y) = kotlin_key_expr_pair(a, b)?;
    let level = key_expr_relation_call(&x, &y);
    Ok(level_ordinal(level))
}

/// Joins two key expressions with a `/` in between (`JNIKeyExpr.join`).
pub fn join(a: String, b: &str) -> (r: Result<String, String>)
    ensures
        string_outcome_view(r) == join_spec(a@, b@),
        r is Ok <==> key_expr_rejection(a@) is None && !canonize_overrun_risk(a@ + seq!['/'] + b@)
            && key_expr_rejection(canonized(a@ + seq!['/'] + b@)) is None,
        r matches Ok(t) ==> t@ == canonized(a@ + seq!['/'] + b@),
{
    let x = key_expr_try_from(a)?;
    let path = framed(x.text.as_str(), "/", b);
    proof {
        assert(path@ == x@ + seq!['/'] + b@) by {
            reveal_strlit("/");
        }
    }
    if canonize_may_overrun(path.as_str()) {
        return Err(framed("Unable to canonize key expression: '", path.as_str(), "'"));
    }
    let joined = key_expr_join_call(&x, b)?;
    Ok(joined.text)
}

/// Glues two key expressions without a separator (`JNIKeyExpr.concat`).
pub fn concat_key_expr(a: String, b: &str) -> (r: Result<String, String>)
    ensures
        string_outcome_view(r) == concat_spec(a@, b@),
        r is Ok <==> key_expr_rejection(a@) is None && !stars_meet(a@, b@) && key_expr_rejection(
            a@ + b@,
        ) is None,
        r matches Ok(t) ==> t@ == a@ + b@,
{
    let x = key_expr_try_from(a)?;
    let glued = key_expr_concat_call(&x, b)?;
    Ok(glued.text)
}

// ---------------------------------------------------------------------------
// Laws.
// ---------------------------------------------------------------------------

/// Joining a key expression `a` with `b` succeeds exactly when autocanonizing
/// the path `a/b` succeeds, and then both give the same key expression.
pub proof fn lemma_join_is_autocanonized_path(a: Seq<char>, b: Seq<char>)
    requires
        is_valid_key_expr(a),
    ensures
        join_spec(a, b) is Ok <==> autocanonize_spec(a + seq!['/'] + b) is Ok,
        join_spec(a, b) is Ok ==> join_spec(a, b) == autocanonize_spec(a + seq!['/'] + b),
{
}

/// What `autocanonize` hands back, `tryFrom` accepts and hands back unchanged.
pub proof fn lemma_autocanonized_is_accepted(text: Seq<char>, canon: Seq<char>)
    requires
        autocanonize_spec(text) == Ok::<Seq<char>, Seq<char>>(canon),
    ensures
        try_from_spec(canon) == Ok::<Seq<char>, Seq<char>>(canon),
{
}

/// What `tryFrom` accepts, it hands back unchanged.
pub proof fn lemma_try_from_keeps_text(text: Seq<char>)
    ensures
        try_from_spec(text) is Ok ==> try_from_spec(text) == Ok::<Seq<char>, Seq<char>>(text),
{
}

/// The answers of `relationTo` and `intersects` agree: the relation is
/// `Disjoint` (ordinal 0) exactly when `intersects` answers 0, and both
/// refuse the same inputs with the same message.
pub proof fn lemma_relation_agrees_with_intersects(a: Seq<char>, b: Seq<char>)
    ensures
        (relation_to_spec(a, b) == Ok::<i32, Seq<char>>(0)) == (intersects_spec(a, b) == Ok::<i32, Seq<char>>(0)),
        relation_to_spec(a, b) is Err ==> relation_to_spec(a, b) == intersects_spec(a, b),
        (relation_to_spec(a, b) is Err) == (intersects_spec(a, b) is Err),
{
}

/// On two valid key expressions, `intersects` answers 1 exactly when zenoh
/// finds that they intersect and 0 exactly when it does not, and `includes`
/// answers 1 exactly when zenoh finds that the first includes the second and
/// 0 exactly when it does not.
pub proof fn lemma_answers_are_zenoh_relations(a: Seq<char>, b: Seq<char>)
    requires
        pair_rejection(a, b) is None,
    ensures
        intersects_spec(a, b) == Ok::<i32, Seq<char>>(1) <==> key_expr_intersects(a, b),
        intersects_spec(a, b) == Ok::<i32, Seq<char>>(0) <==> !key_expr_intersects(a, b),
        includes_spec(a, b) == Ok::<i32, Seq<char>>(1) <==> key_expr_includes(a, b),
        includes_spec(a, b) == Ok::<i32, Seq<char>>(0) <==> !key_expr_includes(a, b),
{
}

/// On two valid key expressions, the relation's ordinal is at least 2
/// exactly when zenoh finds that the first includes the second or they are
/// the same string, and it is 0 exactly when they do not intersect.
pub proof fn lemma_relation_ordinal_meaning(a: Seq<char>, b: Seq<char>)
    requires
        pair_rejection(a, b) is None,
    ensures
        relation_to_spec(a, b) matches Ok(k) && 0 <= k <= 3,
        relation_to_spec(a, b) == Ok::<i32, Seq<char>>(0) <==> !key_expr_intersects(a, b),
        relation_to_spec(a, b) == Ok::<i32, Seq<char>>(3) <==> key_expr_intersects(a, b) && a
            == b,
        (relation_to_spec(a, b) matches Ok(k) && k >= 2) <==> (key_expr_intersects(a, b) && (a
            == b || key_expr_includes(a, b))),
{
}

/// Only a string ending with `$*$*`, or with `$*$*` and one character, is
/// kept from the canonizer.
pub proof fn lemma_overrun_risk_needs_a_late_double_dollar_star(s: Seq<char>)
    ensures
        canonize_overrun_risk(s) ==> double_dollar_star_at(s, s.len() - 4) || double_dollar_star_at(
            s,
            s.len() - 5,
        ),
{
}

/// `concat` never glues a `*` at the end of the first key expression to a
/// `*` at the start of the second.
pub proof fn lemma_concat_refuses_meeting_stars(a: Seq<char>, b: Seq<char>)
    requires
        stars_meet(a, b),
    ensures
        concat_spec(a, b) is Err,
{
}

} // verus!

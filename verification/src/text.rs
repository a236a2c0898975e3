use vstd::prelude::*;
use vstd::string::StringExecFns;

verus! {

/// Builds `prefix + body + suffix`, the shape of every error message that
/// wraps the message of another error.
pub fn framed(prefix: &str, body: &str, suffix: &str) -> (r: String)
    ensures
        r@ == prefix@ + body@ + suffix@,
{
    let mut s = <String as StringExecFns>::from_str(prefix);
    s.append(body);
    s.append(suffix);
    s
}

} // verus!

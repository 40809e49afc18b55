//! Quoting of values for a shell.

use vstd::prelude::*;
use vstd::string::*;

verus! {

/// What `snailquote::escape` makes of a string: the string itself where no
/// character needs protection, else the string in single quotes, or in
/// double quotes with escapes where single quotes cannot hold it.
pub uninterp spec fn escaped(value: Seq<char>) -> Seq<char>;

/// A value as it stands in an argument: escaped for the shell, and `''`
/// where that leaves nothing.
pub open spec fn quoted(value: Seq<char>) -> Seq<char> {
    marked_if_empty(escaped(value))
}

/// An escaped value, with `''` in place of the empty string.
pub open spec fn marked_if_empty(escaped: Seq<char>) -> Seq<char> {
    if escaped.len() == 0 {
        "''"@
    } else {
        escaped
    }
}

/// Calls `snailquote::escape` and copies the result into a `String`. The
/// result is determined by the argument alone; it is known here only by
/// its name, `escaped`, and by this: the empty string comes back
/// unchanged, and any other comes back as it is or with quotes around
/// it, so never empty.
#[verifier::external_body]
pub(crate) fn shell_escape(value: &str) -> (r: String)
    ensures
        r@ == escaped(value@),
        r@.len() == 0 <==> value@.len() == 0,
{
    snailquote::escape(value).to_string()
}

/// Puts the explicit empty argument `''` in place of an empty escaped
/// value, and returns any other unchanged.
pub fn mark_if_empty(escaped: String) -> (r: String)
    ensures
        r@ == marked_if_empty(escaped@),
        r@.len() > 0,
{
    if escaped.as_str().is_empty() {
        proof {
            reveal_strlit("''");
        }
        String::from_str("''")
    } else {
        escaped
    }
}

} // verus!

//! Small text helpers: decimal numbers and durations.
use vstd::prelude::*;

verus! {

/// The decimal digit for `d` (0 to 9).
pub open spec fn digit_char(d: nat) -> char {
    if d == 0 { '0' } else if d == 1 { '1' } else if d == 2 { '2' } else if d == 3 { '3' }
    else if d == 4 { '4' } else if d == 5 { '5' } else if d == 6 { '6' } else if d == 7 { '7' }
    else if d == 8 { '8' } else { '9' }
}

/// The decimal representation of `n`, without leading zeros ("0" for zero).
pub open spec fn decimal(n: nat) -> Seq<char>
    decreases n,
{
    if n < 10 {
        seq![digit_char(n)]
    } else {
        decimal(n / 10).push(digit_char(n % 10))
    }
}

/// `u64`'s `Display` (via `to_string`): the number in decimal, without
/// leading zeros.
#[verifier::external_body]
pub(crate) fn u64_to_string(n: u64) -> (s: String)
    ensures
        s@ == decimal(n as nat),
{
    n.to_string()
}

/// A duration in seconds, as "Hh Mm Ss", "Mm Ss" or "Ss", leaving out
/// leading zero units.
pub open spec fn spec_humantime(secs: u64) -> Seq<char> {
    let h = secs as nat / 3600;
    let m = (secs as nat % 3600) / 60;
    let s = secs as nat % 60;
    if h > 0 {
        decimal(h) + seq!['h', ' '] + decimal(m) + seq!['m', ' '] + decimal(s) + seq!['s']
    } else if m > 0 {
        decimal(m) + seq!['m', ' '] + decimal(s) + seq!['s']
    } else {
        decimal(s) + seq!['s']
    }
}

/// Format a duration in seconds for display, e.g. "1h 2m 3s", "2m 0s",
/// "7s".
pub fn humantime(secs: u64) -> (r: String)
    ensures
        r@ == spec_humantime(secs),
{
    let h = secs / 3600;
    let m = (secs % 3600) / 60;
    let s = secs % 60;
    proof {
        reveal_strlit("h ");
        reveal_strlit("m ");
        reveal_strlit("s");
    }
    if h > 0 {
        let mut out = u64_to_string(h);
        out.append("h ");
        out.append(u64_to_string(m).as_str());
        out.append("m ");
        out.append(u64_to_string(s).as_str());
        out.append("s");
        out
    } else if m > 0 {
        let mut out = u64_to_string(m);
        out.append("m ");
        out.append(u64_to_string(s).as_str());
        out.append("s");
        out
    } else {
        let mut out = u64_to_string(s);
        out.append("s");
        out
    }
}

/// The text of `name` joined onto `base` as the target's paths join. On
/// Unix an absolute `name` replaces `base`, and otherwise a `/` goes between
/// them unless `base` is empty or already ends with one; on Windows the
/// separator is `\\` and drive and UNC prefixes have rules of their own. It
/// depends on the two texts alone for a given target.
pub uninterp spec fn joined_path(base: Seq<char>, name: Seq<char>) -> Seq<char>;

/// `std::path::Path::join`, read back as text. What it gives differs between
/// Unix and Windows, so the result is named, not written out.
#[verifier::external_body]
pub(crate) fn path_join(base: &str, name: &str) -> (r: String)
    ensures
        r@ == joined_path(base@, name@),
{
    std::path::Path::new(base).join(name).to_string_lossy().into_owned()
}

} // verus!

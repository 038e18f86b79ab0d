//! How the installation path is shown: without the extended-length prefix
//! that canonical Windows paths carry, and as a terminal hyperlink.
use vstd::prelude::*;
use crate::text::{occurs_at, occurs_at_exec};

verus! {

/// The prefix of extended-length Windows paths: `\\?\`.
pub const VERBATIM_PREFIX: &'static str = "\\\\?\\";

/// `s` with every occurrence of `pat` removed, scanning from the left; a
/// removed occurrence is not searched again.
pub open spec fn without_occurrences(s: Seq<char>, pat: Seq<char>) -> Seq<char>
    decreases s.len(),
{
    if s.len() == 0 {
        s
    } else if pat.len() > 0 && occurs_at(s, pat, 0) {
        without_occurrences(s.subrange(pat.len() as int, s.len() as int), pat)
    } else {
        seq![s[0]] + without_occurrences(s.drop_first(), pat)
    }
}

/// A path as shown to the user: with every `\\?\` removed.
pub fn display_path(path: &str) -> (r: String)
    ensures
        r@ == without_occurrences(path@, VERBATIM_PREFIX@),
{
    let ghost pat = VERBATIM_PREFIX@;
    proof {
        reveal_strlit("\\\\?\\");
    }
    let n = path.unicode_len();
    let m = VERBATIM_PREFIX.unicode_len();
    let mut out = String::new();
    let mut i: usize = 0;
    assert(path@.subrange(0, n as int) =~= path@);
    assert(out@ + without_occurrences(path@, pat) =~= without_occurrences(path@, pat));
    while i < n
        invariant
            n == path@.len(),
            m == pat.len(),
            m == 4,
            pat == VERBATIM_PREFIX@,
            i <= n,
            without_occurrences(path@, pat) == out@ + without_occurrences(
                path@.subrange(i as int, n as int),
                pat,
            ),
        decreases n - i,
    {
        let ghost rest = path@.subrange(i as int, n as int);
        if occurs_at_exec(path, VERBATIM_PREFIX, i) {
            assert(rest.subrange(0, m as int) =~= path@.subrange(i as int, i + m));
            assert(rest.subrange(m as int, rest.len() as int) =~= path@.subrange(
                i + m,
                n as int,
            ));
            i = i + m;
        } else {
            assert(!occurs_at(rest, pat, 0)) by {
                if occurs_at(rest, pat, 0) {
                    assert(rest.subrange(0, m as int) =~= path@.subrange(i as int, i + m));
                }
            }
            let c = path.substring_char(i, i + 1);
            out.append(c);
            assert(rest.drop_first() =~= path@.subrange(i + 1, n as int));
            assert(c@ =~= seq![rest[0]]);
            assert(without_occurrences(path@, pat) =~= out@ + without_occurrences(
                path@.subrange(i + 1, n as int),
                pat,
            ));
            i = i + 1;
        }
    }
    assert(path@.subrange(n as int, n as int) =~= Seq::<char>::empty());
    assert(out@ + Seq::<char>::empty() =~= out@);
    out
}

/// A terminal hyperlink (OSC 8) whose target is the file URL of `path` and
/// whose text is `path`.
pub open spec fn hyperlink_of(path: Seq<char>) -> Seq<char> {
    "\x1B]8;;file://"@ + path + "\x07"@ + path + "\x1B]8;;\x07"@
}

/// The installation path as a clickable terminal hyperlink, shown without
/// the extended-length prefix.
pub fn clickable_path(path: &str) -> (r: String)
    ensures
        r@ == hyperlink_of(without_occurrences(path@, VERBATIM_PREFIX@)),
{
    let clean = display_path(path);
    let mut link = String::from_str("\x1B]8;;file://");
    link.append(clean.as_str());
    link.append("\x07");
    link.append(clean.as_str());
    link.append("\x1B]8;;\x07");
    link
}

} // verus!

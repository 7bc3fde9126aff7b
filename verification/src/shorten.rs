//! Shortening long debug text so that large values stay readable in output.

use vstd::prelude::*;
use vstd::string::*;

verus! {

/// How many leading characters of a text are kept.
pub const KEPT: usize = 20;

/// The shortened form of `text`: its first `KEPT` characters (all of them if
/// it has fewer), then three dots, then its last character if it has any.
pub open spec fn shortened(text: Seq<char>) -> Seq<char> {
    let head = if text.len() > KEPT {
        text.take(KEPT as int)
    } else {
        text
    };
    let tail = if text.len() > 0 {
        seq![text.last()]
    } else {
        Seq::empty()
    };
    head + seq!['.', '.', '.'] + tail
}

/// Shortens `text` for display: the beginning is kept, the rest is replaced
/// by three dots, and the last character follows so that a closing bracket
/// stays visible.
pub fn truncated(text: &str) -> (short: String)
    ensures
        short@ == shortened(text@),
{
    let count = text.unicode_len();
    let kept = if count > KEPT {
        KEPT
    } else {
        count
    };
    let mut short = String::from_str(text.substring_char(0, kept));
    proof {
        reveal_strlit("...");
        assert("..."@ == seq!['.', '.', '.']);
        assert(text@.subrange(0, count as int) == text@);
    }
    short.append("...");
    if count > 0 {
        let last = text.substring_char(count - 1, count);
        assert(last@ == seq![text@.last()]);
        short.append(last);
    }
    assert(short@ == shortened(text@));
    short
}

} // verus!

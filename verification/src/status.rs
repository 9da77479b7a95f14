//! Derivations shown in the status bar: line and character counts.

use vstd::prelude::*;
use vstd::string::StrSliceExecFns;
use vstd::string::StringSliceAdditionalSpecFns;

verus! {

/// How many newline characters a text holds.
pub open spec fn newline_count(s: Seq<char>) -> nat
    decreases s.len(),
{
    if s.len() == 0 {
        0
    } else {
        newline_count(s.drop_last()) + (if s.last() == '\n' {
            1nat
        } else {
            0nat
        })
    }
}

/// How many lines a text has: the newline-delimited segments, where a final
/// newline closes the last line rather than opening an empty one, and an
/// empty text has no lines at all.
pub open spec fn spec_line_count(s: Seq<char>) -> nat {
    if s.len() == 0 {
        0
    } else if s.last() == '\n' {
        newline_count(s)
    } else {
        newline_count(s) + 1
    }
}

/// A text never holds more newlines than characters.
pub proof fn lemma_newline_count_le_len(s: Seq<char>)
    ensures
        newline_count(s) <= s.len(),
    decreases s.len(),
{
    if s.len() > 0 {
        lemma_newline_count_le_len(s.drop_last());
    }
}

/// Count the lines of a text, as the status bar reports them.
pub fn line_count(s: &str) -> (r: usize)
    ensures
        r == spec_line_count(s@),
{
    let n = s.unicode_len();
    let mut i: usize = 0;
    let mut newlines: usize = 0;
    while i < n
        invariant
            i <= n,
            n == s@.len(),
            newlines == newline_count(s@.subrange(0, i as int)),
            newlines <= i,
        decreases n - i,
    {
        let c = s.get_char(i);
        proof {
            assert(s@.subrange(0, i + 1).drop_last() =~= s@.subrange(0, i as int));
            assert(s@.subrange(0, i + 1).last() == s@[i as int]);
        }
        if c == '\n' {
            newlines = newlines + 1;
        }
        i = i + 1;
    }
    proof {
        assert(s@.subrange(0, n as int) =~= s@);
    }
    if n == 0 {
        0
    } else {
        let last = s.get_char(n - 1);
        if last == '\n' {
            newlines
        } else {
            proof {
                lemma_newline_count_le_len(s@.drop_last());
                assert(s@.drop_last() =~= s@.subrange(0, n - 1));
                assert(newline_count(s@) <= s@.len() - 1);
            }
            newlines + 1
        }
    }
}

/// The count shown under the status bar's character label: the byte length
/// of the text's UTF-8 form.
pub fn char_count(s: &str) -> (r: usize)
    ensures
        r == s.spec_bytes().len() as usize,
{
    s.len()
}

} // verus!

//! Lexicographic order on character sequences, used to sort feed items by
//! their publication-date strings. The comparison is textual, not
//! calendar-aware: that is the published behaviour of the feed.

use vstd::prelude::*;
use vstd::string::StrSliceExecFns;

verus! {

/// The scalar value a character is compared by.
pub open spec fn char_val(c: char) -> u32 {
    c as u32
}

/// `a` is lexicographically at most `b`, comparing characters by their
/// scalar values. A proper prefix sorts before every extension of it.
pub open spec fn lex_le(a: Seq<char>, b: Seq<char>) -> bool
    decreases a.len(),
{
    if a.len() == 0 {
        true
    } else if b.len() == 0 {
        false
    } else if char_val(a[0]) == char_val(b[0]) {
        lex_le(a.skip(1), b.skip(1))
    } else {
        char_val(a[0]) < char_val(b[0])
    }
}

pub proof fn lemma_lex_refl(a: Seq<char>)
    ensures
        lex_le(a, a),
    decreases a.len(),
{
    if a.len() > 0 {
        lemma_lex_refl(a.skip(1));
    }
}

pub proof fn lemma_lex_total(a: Seq<char>, b: Seq<char>)
    ensures
        lex_le(a, b) || lex_le(b, a),
    decreases a.len(),
{
    if a.len() > 0 && b.len() > 0 && char_val(a[0]) == char_val(b[0]) {
        lemma_lex_total(a.skip(1), b.skip(1));
    }
}

pub proof fn lemma_lex_trans(a: Seq<char>, b: Seq<char>, c: Seq<char>)
    requires
        lex_le(a, b),
        lex_le(b, c),
    ensures
        lex_le(a, c),
    decreases a.len(),
{
    if a.len() > 0 && b.len() > 0 && c.len() > 0 && char_val(a[0]) == char_val(b[0])
        && char_val(b[0]) == char_val(c[0]) {
        lemma_lex_trans(a.skip(1), b.skip(1), c.skip(1));
    }
}

/// Agreement on a common prefix reduces the comparison to the remainders.
proof fn lemma_lex_skip(a: Seq<char>, b: Seq<char>, i: int)
    requires
        0 <= i <= a.len(),
        i <= b.len(),
        forall|k: int| 0 <= k < i ==> char_val(a[k]) == char_val(b[k]),
    ensures
        lex_le(a, b) == lex_le(a.skip(i), b.skip(i)),
    decreases i,
{
    if i > 0 {
        assert(char_val(a[0]) == char_val(b[0]));
        assert forall|k: int| 0 <= k < i - 1 implies char_val(a.skip(1)[k]) == char_val(
            b.skip(1)[k],
        ) by {
            assert(a.skip(1)[k] == a[k + 1]);
            assert(b.skip(1)[k] == b[k + 1]);
        }
        lemma_lex_skip(a.skip(1), b.skip(1), i - 1);
        assert(a.skip(1).skip(i - 1) =~= a.skip(i));
        assert(b.skip(1).skip(i - 1) =~= b.skip(i));
    } else {
        assert(a.skip(0) =~= a);
        assert(b.skip(0) =~= b);
    }
}

/// Decides the lexicographic order on two strings, character by character.
pub fn str_le(a: &str, b: &str) -> (r: bool)
    ensures
        r == lex_le(a@, b@),
{
    let alen = a.unicode_len();
    let blen = b.unicode_len();
    let mut i: usize = 0;
    loop
        invariant
            i <= alen,
            i <= blen,
            alen == a@.len(),
            blen == b@.len(),
            forall|k: int| 0 <= k < i ==> char_val(a@[k]) == char_val(b@[k]),
        decreases alen - i,
    {
        proof {
            lemma_lex_skip(a@, b@, i as int);
        }
        if i == alen {
            return true;
        }
        if i == blen {
            return false;
        }
        let ca = a.get_char(i) as u32;
        let cb = b.get_char(i) as u32;
        if ca != cb {
            assert(a@.skip(i as int)[0] == a@[i as int]);
            assert(b@.skip(i as int)[0] == b@[i as int]);
            return ca < cb;
        }
        i = i + 1;
    }
}

} // verus!

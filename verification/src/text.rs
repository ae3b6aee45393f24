//! Whitespace trimming for submitted code snippets.
//!
//! A code snippet is trimmed of surrounding whitespace before it is written
//! to the working directory's code file; a dependency manifest is written
//! verbatim.  The trimming function is specified over character sequences
//! and proved idempotent.

use vstd::prelude::*;
use vstd::string::*;

verus! {

/// The whitespace characters stripped from the ends of a code snippet:
/// the Unicode white-space set, as `str::trim` strips it — the control
/// whitespace U+0009..U+000D, space, next line, no-break space, ogham
/// space mark, the U+2000..U+200A spaces, line and paragraph separator,
/// narrow no-break space, medium mathematical space and ideographic space.
pub open spec fn is_space(c: char) -> bool {
    let n = c as u32;
    ||| n == 0x20
    ||| (0x09 <= n && n <= 0x0d)
    ||| n == 0x85
    ||| n == 0xa0
    ||| n == 0x1680
    ||| (0x2000 <= n && n <= 0x200a)
    ||| n == 0x2028
    ||| n == 0x2029
    ||| n == 0x202f
    ||| n == 0x205f
    ||| n == 0x3000
}

/// The sequence with every leading whitespace character removed.
pub open spec fn trim_front(s: Seq<char>) -> Seq<char>
    decreases s.len(),
{
    if s.len() > 0 && is_space(s[0]) {
        trim_front(s.drop_first())
    } else {
        s
    }
}

/// The sequence with every trailing whitespace character removed.
pub open spec fn trim_back(s: Seq<char>) -> Seq<char>
    decreases s.len(),
{
    if s.len() > 0 && is_space(s.last()) {
        trim_back(s.drop_last())
    } else {
        s
    }
}

/// The sequence with surrounding whitespace removed from both ends.
pub open spec fn trimmed(s: Seq<char>) -> Seq<char> {
    trim_back(trim_front(s))
}

proof fn lemma_trim_front_no_leading_space(s: Seq<char>)
    ensures
        trim_front(s).len() > 0 ==> !is_space(trim_front(s)[0]),
    decreases s.len(),
{
    if s.len() > 0 && is_space(s[0]) {
        lemma_trim_front_no_leading_space(s.drop_first());
    }
}

proof fn lemma_trim_back_no_trailing_space(s: Seq<char>)
    ensures
        trim_back(s).len() > 0 ==> !is_space(trim_back(s).last()),
    decreases s.len(),
{
    if s.len() > 0 && is_space(s.last()) {
        lemma_trim_back_no_trailing_space(s.drop_last());
    }
}

proof fn lemma_trim_back_keeps_first(s: Seq<char>)
    ensures
        trim_back(s).len() > 0 ==> trim_back(s)[0] == s[0],
    decreases s.len(),
{
    if s.len() > 0 && is_space(s.last()) {
        lemma_trim_back_keeps_first(s.drop_last());
    }
}

/// A trimmed sequence is either empty or starts and ends with a
/// non-whitespace character.
proof fn lemma_trimmed_ends(s: Seq<char>)
    ensures
        trimmed(s).len() > 0 ==> !is_space(trimmed(s)[0]) && !is_space(trimmed(s).last()),
{
    lemma_trim_front_no_leading_space(s);
    lemma_trim_back_keeps_first(trim_front(s));
    lemma_trim_back_no_trailing_space(trim_front(s));
}

/// Trimming is idempotent: trimming an already trimmed snippet changes
/// nothing, so a request carrying `trimmed(s)` leads to exactly the same
/// code-file contents as one carrying `s`.
pub proof fn lemma_trimmed_idempotent(s: Seq<char>)
    ensures
        trimmed(trimmed(s)) == trimmed(s),
{
    lemma_trimmed_ends(s);
    let t = trimmed(s);
    if t.len() > 0 {
        assert(trim_front(t) == t);
        assert(trim_back(t) == t);
    } else {
        assert(t == Seq::<char>::empty());
        assert(trim_front(t) == t);
        assert(trim_back(t) == t);
    }
}

/// Whether `c` is one of the whitespace characters stripped by trimming.
pub fn is_space_char(c: char) -> (b: bool)
    ensures
        b == is_space(c),
{
    let n: u32 = c as u32;
    n == 0x20 || (0x09 <= n && n <= 0x0d) || n == 0x85 || n == 0xa0 || n == 0x1680 || (0x2000 <= n
        && n <= 0x200a) || n == 0x2028 || n == 0x2029 || n == 0x202f || n == 0x205f || n == 0x3000
}

/// The snippet with surrounding whitespace removed: exactly what is written
/// to the working directory's code file.
pub fn trim_snippet(s: &str) -> (r: String)
    ensures
        r@ == trimmed(s@),
{
    let n = s.unicode_len();
    proof {
        assert(s@.subrange(0, n as int) =~= s@);
    }
    let mut i: usize = 0;
    while i < n && is_space_char(s.get_char(i))
        invariant
            i <= n,
            n == s@.len(),
            trim_front(s@) == trim_front(s@.subrange(i as int, n as int)),
        decreases n - i,
    {
        proof {
            let t = s@.subrange(i as int, n as int);
            assert(t.drop_first() =~= s@.subrange(i as int + 1, n as int));
        }
        i = i + 1;
    }
    proof {
        let t = s@.subrange(i as int, n as int);
        if i < n {
            assert(trim_front(t) == t);
        } else {
            assert(t =~= Seq::<char>::empty());
        }
    }
    let mut j: usize = n;
    while j > i && is_space_char(s.get_char(j - 1))
        invariant
            i <= j <= n,
            n == s@.len(),
            trim_back(s@.subrange(i as int, n as int)) == trim_back(
                s@.subrange(i as int, j as int),
            ),
        decreases j,
    {
        proof {
            let u = s@.subrange(i as int, j as int);
            assert(u.last() == s@[j - 1]);
            assert(u.drop_last() =~= s@.subrange(i as int, j as int - 1));
        }
        j = j - 1;
    }
    proof {
        let u = s@.subrange(i as int, j as int);
        if j > i {
            assert(trim_back(u) == u);
        } else {
            assert(u =~= Seq::<char>::empty());
        }
    }
    let piece = s.substring_char(i, j);
    String::from_str(piece)
}

} // verus!

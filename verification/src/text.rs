//! Verified comparison of strings, character by character.

use vstd::prelude::*;
use vstd::string::StrSliceExecFns;

verus! {

/// The lexicographic order of two character sequences, by unicode code point.
/// This agrees with the order `str` values have in Rust, since UTF-8 byte
/// order coincides with code-point order.
pub open spec fn str_cmp_spec(a: Seq<char>, b: Seq<char>) -> core::cmp::Ordering
    decreases a.len(),
{
    if a.len() == 0 && b.len() == 0 {
        core::cmp::Ordering::Equal
    } else if a.len() == 0 {
        core::cmp::Ordering::Less
    } else if b.len() == 0 {
        core::cmp::Ordering::Greater
    } else if (a[0] as u32) < (b[0] as u32) {
        core::cmp::Ordering::Less
    } else if (b[0] as u32) < (a[0] as u32) {
        core::cmp::Ordering::Greater
    } else {
        str_cmp_spec(a.subrange(1, a.len() as int), b.subrange(1, b.len() as int))
    }
}

/// Casting a `char` to its code point loses nothing: two characters with the
/// same code point are the same character.
pub proof fn lemma_char_cast_injective(x: char, y: char)
    requires
        x as u32 == y as u32,
    ensures
        x == y,
{
    vstd::utf8::char_u32_cast(x, x as u32);
    vstd::utf8::char_u32_cast(y, y as u32);
}

/// Two character sequences compare `Equal` exactly when they are the same
/// sequence.
pub proof fn lemma_str_cmp_equal(a: Seq<char>, b: Seq<char>)
    ensures
        (str_cmp_spec(a, b) == core::cmp::Ordering::Equal) <==> a == b,
    decreases a.len(),
{
    if a.len() == 0 && b.len() == 0 {
        assert(a =~= b);
    } else if a.len() == 0 || b.len() == 0 {
        assert(a.len() != b.len());
    } else if (a[0] as u32) == (b[0] as u32) {
        lemma_char_cast_injective(a[0], b[0]);
        let ta = a.subrange(1, a.len() as int);
        let tb = b.subrange(1, b.len() as int);
        lemma_str_cmp_equal(ta, tb);
        if ta == tb {
            assert(a =~= b) by {
                assert(forall|i: int| 1 <= i < a.len() ==> a[i] == ta[i - 1] && b[i] == tb[i - 1]);
            }
        }
        if a == b {
            assert(ta =~= tb);
        }
    } else {
        assert(a[0] != b[0]);
    }
}

/// Comparing two sequences with equal prefixes of length `i` is the same as
/// comparing what remains after that prefix.
pub proof fn lemma_str_cmp_skip(a: Seq<char>, b: Seq<char>, i: int)
    requires
        0 <= i <= a.len(),
        i <= b.len(),
        forall|j: int| 0 <= j < i ==> a[j] == b[j],
    ensures
        str_cmp_spec(a, b) == str_cmp_spec(a.skip(i), b.skip(i)),
    decreases i,
{
    if i == 0 {
        assert(a.skip(0) =~= a);
        assert(b.skip(0) =~= b);
    } else {
        let ta = a.subrange(1, a.len() as int);
        let tb = b.subrange(1, b.len() as int);
        lemma_str_cmp_skip(ta, tb, i - 1);
        assert(ta.skip(i - 1) =~= a.skip(i));
        assert(tb.skip(i - 1) =~= b.skip(i));
    }
}

/// Compare two strings lexicographically by unicode code point.
pub fn str_compare(a: &str, b: &str) -> (o: core::cmp::Ordering)
    ensures
        o == str_cmp_spec(a@, b@),
{
    let la = a.unicode_len();
    let lb = b.unicode_len();
    let n = if la < lb {
        la
    } else {
        lb
    };
    let mut i: usize = 0;
    while i < n
        invariant
            0 <= i <= n,
            n == if la < lb {
                la
            } else {
                lb
            },
            la == a@.len(),
            lb == b@.len(),
            forall|j: int| 0 <= j < i ==> a@[j] == b@[j],
        decreases n - i,
    {
        let ca = a.get_char(i);
        let cb = b.get_char(i);
        if (ca as u32) < (cb as u32) {
            proof {
                lemma_str_cmp_skip(a@, b@, i as int);
                assert(a@.skip(i as int)[0] == a@[i as int]);
                assert(b@.skip(i as int)[0] == b@[i as int]);
            }
            return core::cmp::Ordering::Less;
        } else if (cb as u32) < (ca as u32) {
            proof {
                lemma_str_cmp_skip(a@, b@, i as int);
                assert(a@.skip(i as int)[0] == a@[i as int]);
                assert(b@.skip(i as int)[0] == b@[i as int]);
            }
            return core::cmp::Ordering::Greater;
        }
        proof {
            lemma_char_cast_injective(a@[i as int], b@[i as int]);
        }
        i += 1;
    }
    proof {
        lemma_str_cmp_skip(a@, b@, n as int);
        if la == lb {
            assert(a@.skip(n as int) =~= b@.skip(n as int));
        } else {
            assert(a@.skip(n as int)[0] == a@[n as int] || b@.skip(n as int)[0] == b@[n as int]);
        }
    }
    if la < lb {
        core::cmp::Ordering::Less
    } else if lb < la {
        core::cmp::Ordering::Greater
    } else {
        core::cmp::Ordering::Equal
    }
}

/// Whether two strings hold the same characters.
pub fn str_eq(a: &str, b: &str) -> (r: bool)
    ensures
        r == (a@ == b@),
{
    proof {
        lemma_str_cmp_equal(a@, b@);
    }
    match str_compare(a, b) {
        core::cmp::Ordering::Equal => true,
        _ => false,
    }
}

} // verus!

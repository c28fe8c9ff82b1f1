//! Verified string helpers: decimal rendering, prefix and substring tests,
//! and a small trusted shim for pushing a single character.

use vstd::prelude::*;
use vstd::string::StrSliceExecFns;

verus! {

/// The character for a single decimal digit.
pub open spec fn digit_char(d: nat) -> char {
    if d == 0 {
        '0'
    } else if d == 1 {
        '1'
    } else if d == 2 {
        '2'
    } else if d == 3 {
        '3'
    } else if d == 4 {
        '4'
    } else if d == 5 {
        '5'
    } else if d == 6 {
        '6'
    } else if d == 7 {
        '7'
    } else if d == 8 {
        '8'
    } else {
        '9'
    }
}

/// The usual decimal rendering of a natural number, most significant digit
/// first, with no leading zeros (a lone `0` for zero).
pub open spec fn dec_of(n: nat) -> Seq<char>
    decreases n,
{
    if n < 10 {
        seq![digit_char(n)]
    } else {
        dec_of(n / 10).push(digit_char(n % 10))
    }
}

/// Relies on `String::push`: appends exactly one character.
#[verifier::external_body]
pub(crate) fn push_char(s: &mut String, c: char)
    ensures
        final(s)@ == old(s)@.push(c),
{
    s.push(c);
}

/// Renders `n` in decimal.
pub fn u64_to_string(n: u64) -> (r: String)
    ensures
        r@ == dec_of(n as nat),
    decreases n,
{
    if n < 10 {
        let mut s = String::new();
        push_char(&mut s, digit_char_exec((n % 10) as u8));
        proof {
            assert(Seq::<char>::empty().push(digit_char(n as nat)) =~= seq![digit_char(n as nat)]);
        }
        s
    } else {
        let mut s = u64_to_string(n / 10);
        push_char(&mut s, digit_char_exec((n % 10) as u8));
        s
    }
}

/// `n` occurs in `h` starting at index `i`.
pub open spec fn is_sub_at(h: Seq<char>, n: Seq<char>, i: int) -> bool {
    0 <= i && i + n.len() <= h.len() && h.subrange(i, i + n.len() as int) == n
}

/// `n` occurs somewhere in `h`.
pub open spec fn contains_sub(h: Seq<char>, n: Seq<char>) -> bool {
    exists|i: int| is_sub_at(h, n, i)
}

/// Whether `n` occurs in `h` starting at character index `i`.
pub fn match_at(h: &str, n: &str, i: usize) -> (r: bool)
    requires
        i + n@.len() <= h@.len(),
        h@.len() <= usize::MAX,
    ensures
        r == (h@.subrange(i as int, i + n@.len() as int) == n@),
{
    let nl = n.unicode_len();
    let mut j: usize = 0;
    while j < nl
        invariant
            nl == n@.len(),
            i + nl <= h@.len(),
            h@.len() <= usize::MAX,
            j <= nl,
            forall|k: int| 0 <= k < j ==> h@[i + k] == n@[k],
        decreases nl - j,
    {
        if h.get_char(i + j) != n.get_char(j) {
            proof {
                assert(h@.subrange(i as int, i + n@.len() as int)[j as int] == h@[i + j]);
            }
            return false;
        }
        j += 1;
    }
    proof {
        assert(h@.subrange(i as int, i + n@.len() as int) =~= n@);
    }
    true
}

/// Whether `n` occurs anywhere in `h`.
pub fn contains_str(h: &str, n: &str) -> (r: bool)
    ensures
        r == contains_sub(h@, n@),
{
    let hl = h.unicode_len();
    let nl = n.unicode_len();
    if nl > hl {
        proof {
            assert(forall|i: int| #[trigger] is_sub_at(h@, n@, i) ==> i + n@.len() <= h@.len());
        }
        return false;
    }
    if nl == 0 {
        proof {
            assert(h@.subrange(0, 0) =~= n@);
            assert(is_sub_at(h@, n@, 0));
        }
        return true;
    }
    let count: usize = hl - nl;
    let mut i: usize = 0;
    while i <= count
        invariant
            hl == h@.len(),
            nl == n@.len(),
            0 < nl <= hl,
            count == hl - nl,
            i <= count + 1,
            forall|k: int| 0 <= k < i ==> !is_sub_at(h@, n@, k),
        decreases count + 1 - i,
    {
        if match_at(h, n, i) {
            proof {
                assert(is_sub_at(h@, n@, i as int));
            }
            return true;
        }
        i += 1;
    }
    proof {
        assert(forall|k: int| #[trigger] is_sub_at(h@, n@, k) ==> 0 <= k <= hl - nl);
    }
    false
}

/// Whether `p` is a prefix of `h`.
pub fn starts_with_str(h: &str, p: &str) -> (r: bool)
    ensures
        r == (p@.len() <= h@.len() && h@.subrange(0, p@.len() as int) == p@),
{
    let hl = h.unicode_len();
    let pl = p.unicode_len();
    if pl > hl {
        return false;
    }
    match_at(h, p, 0)
}

/// Drops the first `p` characters of `h`.
pub fn drop_prefix(h: &str, p: usize) -> (r: String)
    requires
        p <= h@.len(),
    ensures
        r@ == h@.subrange(p as int, h@.len() as int),
{
    let hl = h.unicode_len();
    h.substring_char(p, hl).to_owned()
}

/// Executable form of [`digit_char`].
pub fn digit_char_exec(d: u8) -> (c: char)
    requires
        d < 10,
    ensures
        c == digit_char(d as nat),
{
    if d == 0 {
        '0'
    } else if d == 1 {
        '1'
    } else if d == 2 {
        '2'
    } else if d == 3 {
        '3'
    } else if d == 4 {
        '4'
    } else if d == 5 {
        '5'
    } else if d == 6 {
        '6'
    } else if d == 7 {
        '7'
    } else if d == 8 {
        '8'
    } else {
        '9'
    }
}

} // verus!

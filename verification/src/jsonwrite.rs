//! Verified JSON framing: the library renders its request payloads itself,
//! character by character, against an exact specification of the escaping.

use vstd::prelude::*;
use vstd::string::StrSliceExecFns;
use vstd::string::StringExecFns;

use crate::strutil::push_char;

verus! {

/// The character for a single lower-case hexadecimal digit.
pub open spec fn hex_char(d: nat) -> char {
    if d == 0 {
        '0'
    } else if d == 1 {
        '1'
    } else if d == 2 {
        '2'
    } else if d == 3 {
        '3'
    } else if d == 4 {
        '4'
    } else if d == 5 {
        '5'
    } else if d == 6 {
        '6'
    } else if d == 7 {
        '7'
    } else if d == 8 {
        '8'
    } else if d == 9 {
        '9'
    } else if d == 10 {
        'a'
    } else if d == 11 {
        'b'
    } else if d == 12 {
        'c'
    } else if d == 13 {
        'd'
    } else if d == 14 {
        'e'
    } else {
        'f'
    }
}

/// How one character is written inside a JSON string literal: quotes and
/// backslashes get a backslash escape, the common control characters get
/// their short escapes, the remaining control characters a `\u00..` escape,
/// and everything else stands as itself.
pub open spec fn esc_char(c: char) -> Seq<char> {
    if c == '"' {
        seq!['\\', '"']
    } else if c == '\\' {
        seq!['\\', '\\']
    } else if c == '\n' {
        seq!['\\', 'n']
    } else if c == '\r' {
        seq!['\\', 'r']
    } else if c == '\t' {
        seq!['\\', 't']
    } else if (c as u32) < 32 {
        seq!['\\', 'u', '0', '0', hex_char((c as u32 / 16) as nat), hex_char((c as u32 % 16) as nat)]
    } else {
        seq![c]
    }
}

/// The escaped body of a JSON string literal.
pub open spec fn json_escape(s: Seq<char>) -> Seq<char>
    decreases s.len(),
{
    if s.len() == 0 {
        Seq::empty()
    } else {
        esc_char(s[0]) + json_escape(s.drop_first())
    }
}

/// A whole JSON string literal, quotes included.
pub open spec fn json_str_lit(s: Seq<char>) -> Seq<char> {
    seq!['"'] + json_escape(s) + seq!['"']
}

/// Escaping a string one character longer appends that character's escape.
pub proof fn lemma_json_escape_push(s: Seq<char>, c: char)
    ensures
        json_escape(s.push(c)) == json_escape(s) + esc_char(c),
    decreases s.len(),
{
    if s.len() == 0 {
        let t = s.push(c);
        assert(t[0] == c);
        assert(t.drop_first() =~= Seq::<char>::empty());
        assert(json_escape(Seq::<char>::empty()) == Seq::<char>::empty());
        assert(json_escape(t) == esc_char(c) + Seq::<char>::empty());
        assert(esc_char(c) + Seq::<char>::empty() =~= esc_char(c));
        assert(json_escape(s) + esc_char(c) =~= esc_char(c));
    } else {
        assert(s.push(c).drop_first() =~= s.drop_first().push(c));
        lemma_json_escape_push(s.drop_first(), c);
        assert(json_escape(s.push(c)) =~= json_escape(s) + esc_char(c));
    }
}

/// Executable form of [`hex_char`].
pub fn hex_char_exec(d: u8) -> (c: char)
    requires
        d < 16,
    ensures
        c == hex_char(d as nat),
{
    if d == 0 {
        '0'
    } else if d == 1 {
        '1'
    } else if d == 2 {
        '2'
    } else if d == 3 {
        '3'
    } else if d == 4 {
        '4'
    } else if d == 5 {
        '5'
    } else if d == 6 {
        '6'
    } else if d == 7 {
        '7'
    } else if d == 8 {
        '8'
    } else if d == 9 {
        '9'
    } else if d == 10 {
        'a'
    } else if d == 11 {
        'b'
    } else if d == 12 {
        'c'
    } else if d == 13 {
        'd'
    } else if d == 14 {
        'e'
    } else {
        'f'
    }
}

/// Appends the escaped body of `s` to `out`.
pub fn append_json_escaped(out: &mut String, s: &str)
    ensures
        final(out)@ == old(out)@ + json_escape(s@),
{
    let n = s.unicode_len();
    let mut i: usize = 0;
    while i < n
        invariant
            i <= n,
            n == s@.len(),
            out@ == old(out)@ + json_escape(s@.subrange(0, i as int)),
        decreases n - i,
    {
        let c = s.get_char(i);
        let ghost pre = out@;
        proof {
            assert(s@.subrange(0, i + 1) =~= s@.subrange(0, i as int).push(s@[i as int]));
            lemma_json_escape_push(s@.subrange(0, i as int), c);
        }
        if c == '"' {
            push_char(out, '\\');
            push_char(out, '"');
            proof {
                assert(pre.push('\\').push('"') =~= pre + esc_char(c));
            }
        } else if c == '\\' {
            push_char(out, '\\');
            push_char(out, '\\');
            proof {
                assert(pre.push('\\').push('\\') =~= pre + esc_char(c));
            }
        } else if c == '\n' {
            push_char(out, '\\');
            push_char(out, 'n');
            proof {
                assert(pre.push('\\').push('n') =~= pre + esc_char(c));
            }
        } else if c == '\r' {
            push_char(out, '\\');
            push_char(out, 'r');
            proof {
                assert(pre.push('\\').push('r') =~= pre + esc_char(c));
            }
        } else if c == '\t' {
            push_char(out, '\\');
            push_char(out, 't');
            proof {
                assert(pre.push('\\').push('t') =~= pre + esc_char(c));
            }
        } else if (c as u32) < 32 {
            let code = c as u32;
            push_char(out, '\\');
            push_char(out, 'u');
            push_char(out, '0');
            push_char(out, '0');
            push_char(out, hex_char_exec((code / 16) as u8));
            push_char(out, hex_char_exec((code % 16) as u8));
            proof {
                assert(pre.push('\\').push('u').push('0').push('0').push(
                    hex_char((c as u32 / 16) as nat),
                ).push(hex_char((c as u32 % 16) as nat)) =~= pre + esc_char(c));
            }
        } else {
            push_char(out, c);
            proof {
                assert(pre.push(c) =~= pre + esc_char(c));
            }
        }
        proof {
            assert(out@ =~= old(out)@ + json_escape(s@.subrange(0, i + 1)));
        }
        i += 1;
    }
    proof {
        assert(s@.subrange(0, n as int) =~= s@);
    }
}

/// Appends the JSON string literal for `s` to `out`, quotes included.
pub fn append_json_string(out: &mut String, s: &str)
    ensures
        final(out)@ == old(out)@ + json_str_lit(s@),
{
    let ghost pre = out@;
    push_char(out, '"');
    append_json_escaped(out, s);
    push_char(out, '"');
    proof {
        assert(out@ =~= pre + json_str_lit(s@));
    }
}

/// The body of a JSON array of string literals, commas included.
pub open spec fn json_str_elems(elems: Seq<Seq<char>>) -> Seq<char>
    decreases elems.len(),
{
    if elems.len() == 0 {
        Seq::empty()
    } else if elems.len() == 1 {
        json_str_lit(elems[0])
    } else {
        json_str_lit(elems[0]) + seq![','] + json_str_elems(elems.drop_first())
    }
}

/// A whole JSON array of string literals.
pub open spec fn json_str_array(elems: Seq<Seq<char>>) -> Seq<char> {
    seq!['['] + json_str_elems(elems) + seq![']']
}

/// Extending the element list appends one more literal, with a comma when it
/// is not the first.
pub proof fn lemma_json_str_elems_push(elems: Seq<Seq<char>>, e: Seq<char>)
    ensures
        elems.len() == 0 ==> json_str_elems(elems.push(e)) == json_str_lit(e),
        elems.len() > 0 ==> json_str_elems(elems.push(e)) == json_str_elems(elems) + seq![',']
            + json_str_lit(e),
    decreases elems.len(),
{
    if elems.len() == 0 {
        assert(json_str_elems(elems.push(e)) =~= json_str_lit(e));
    } else {
        assert(elems.push(e).drop_first() =~= elems.drop_first().push(e));
        lemma_json_str_elems_push(elems.drop_first(), e);
        if elems.len() == 1 {
            assert(json_str_elems(elems.push(e)) =~= json_str_elems(elems) + seq![',']
                + json_str_lit(e));
        } else {
            assert(json_str_elems(elems.push(e)) =~= json_str_elems(elems) + seq![',']
                + json_str_lit(e));
        }
    }
}

/// Appends the JSON array of string literals for `elems` to `out`.
pub fn append_json_str_array(out: &mut String, elems: &Vec<String>)
    ensures
        final(out)@ == old(out)@ + json_str_array(elems.deep_view()),
{
    let ghost pre = out@;
    push_char(out, '[');
    let n = elems.len();
    let mut i: usize = 0;
    while i < n
        invariant
            i <= n,
            n == elems.len(),
            out@ == pre.push('[') + json_str_elems(elems.deep_view().subrange(0, i as int)),
        decreases n - i,
    {
        let ghost before = out@;
        proof {
            assert(elems.deep_view().subrange(0, i + 1) =~= elems.deep_view().subrange(
                0,
                i as int,
            ).push(elems.deep_view()[i as int]));
            lemma_json_str_elems_push(
                elems.deep_view().subrange(0, i as int),
                elems.deep_view()[i as int],
            );
        }
        if i > 0 {
            push_char(out, ',');
        }
        append_json_string(out, elems[i].as_str());
        proof {
            assert(elems.deep_view()[i as int] == elems[i as int]@);
            if i > 0 {
                assert(out@ =~= pre.push('[') + json_str_elems(
                    elems.deep_view().subrange(0, i + 1),
                ));
            } else {
                assert(elems.deep_view().subrange(0, 0) =~= Seq::<Seq<char>>::empty());
                assert(out@ =~= pre.push('[') + json_str_elems(
                    elems.deep_view().subrange(0, i + 1),
                ));
            }
        }
        i += 1;
    }
    push_char(out, ']');
    proof {
        assert(elems.deep_view().subrange(0, n as int) =~= elems.deep_view());
        assert(out@ =~= pre + json_str_array(elems.deep_view()));
    }
}

/// The decimal JSON rendering of a signed 64-bit number.
pub open spec fn dec_int_of(n: int) -> Seq<char> {
    if n >= 0 {
        crate::strutil::dec_of(n as nat)
    } else {
        seq!['-'] + crate::strutil::dec_of((-n) as nat)
    }
}

/// Appends the decimal rendering of `n` to `out`.
pub fn append_i64(out: &mut String, n: i64)
    ensures
        final(out)@ == old(out)@ + dec_int_of(n as int),
{
    if n >= 0 {
        let s = crate::strutil::u64_to_string(n as u64);
        out.append(s.as_str());
    } else {
        let magnitude: u64 = ((-(n + 1)) as u64) + 1;
        proof {
            assert(magnitude == -(n as int));
        }
        push_char(out, '-');
        let s = crate::strutil::u64_to_string(magnitude);
        out.append(s.as_str());
        proof {
            assert(old(out)@.push('-') + crate::strutil::dec_of(magnitude as nat) =~= old(out)@
                + dec_int_of(n as int));
        }
    }
}

/// The JSON rendering of a boolean.
pub open spec fn json_bool(b: bool) -> Seq<char> {
    if b {
        "true"@
    } else {
        "false"@
    }
}

/// Appends `true` or `false` to `out`.
pub fn append_bool(out: &mut String, b: bool)
    ensures
        final(out)@ == old(out)@ + json_bool(b),
{
    if b {
        out.append("true");
    } else {
        out.append("false");
    }
}

} // verus!

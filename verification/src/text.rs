//! Verified building blocks for the JSON documents this crate emits:
//! decimal rendering of counters and JSON string escaping.

use vstd::prelude::*;

verus! {

/// Relies on `alloc::string::String::push`: appends exactly one character.
pub assume_specification[ String::push ](s: &mut String, c: char)
    ensures
        final(s)@ == old(s)@.push(c),
;

pub const DEC_DIGITS: [char; 10] = ['0', '1', '2', '3', '4', '5', '6', '7', '8', '9'];

pub const HEX_DIGITS: [char; 16] = [
    '0',
    '1',
    '2',
    '3',
    '4',
    '5',
    '6',
    '7',
    '8',
    '9',
    'a',
    'b',
    'c',
    'd',
    'e',
    'f',
];

/// The decimal rendering of a natural number, most significant digit first.
pub open spec fn spec_dec(n: nat) -> Seq<char>
    decreases n,
{
    if n < 10 {
        seq![DEC_DIGITS@[n as int]]
    } else {
        spec_dec(n / 10) + seq![DEC_DIGITS@[(n % 10) as int]]
    }
}

pub proof fn lemma_dec_len(n: nat)
    ensures
        spec_dec(n).len() >= 1,
    decreases n,
{
    if n >= 10 {
        lemma_dec_len(n / 10);
    }
}

/// Appends the decimal rendering of `n` to `out`.
pub fn push_dec_u64(out: &mut String, n: u64)
    ensures
        final(out)@ == old(out)@ + spec_dec(n as nat),
    decreases n,
{
    if n < 10 {
        out.push(DEC_DIGITS[n as usize]);
        proof {
            assert(final(out)@ =~= old(out)@ + spec_dec(n as nat));
        }
    } else {
        push_dec_u64(out, n / 10);
        out.push(DEC_DIGITS[(n % 10) as usize]);
        proof {
            assert(final(out)@ =~= old(out)@ + spec_dec(n as nat));
        }
    }
}

/// How one character is written inside a JSON string literal: quotes and
/// backslashes get a backslash escape, control characters a `\u00XX` escape,
/// and every other character stands for itself.
pub open spec fn spec_esc_char(c: char) -> Seq<char> {
    if c == '"' {
        seq!['\\', '"']
    } else if c == '\\' {
        seq!['\\', '\\']
    } else if (c as u32) < 32 {
        seq!['\\', 'u', '0', '0', HEX_DIGITS@[(c as u32 / 16) as int], HEX_DIGITS@[(c as u32 % 16) as int]]
    } else {
        seq![c]
    }
}

/// The JSON escaping of a whole character sequence.
pub open spec fn spec_esc(s: Seq<char>) -> Seq<char>
    decreases s.len(),
{
    if s.len() == 0 {
        Seq::empty()
    } else {
        spec_esc_char(s[0]) + spec_esc(s.skip(1))
    }
}

proof fn lemma_esc_snoc(s: Seq<char>, c: char)
    ensures
        spec_esc(s.push(c)) == spec_esc(s) + spec_esc_char(c),
    decreases s.len(),
{
    if s.len() == 0 {
        assert(s.push(c).skip(1) =~= Seq::<char>::empty());
        assert(s.push(c)[0] == c);
        assert(spec_esc(s.push(c)) == spec_esc_char(c) + spec_esc(Seq::<char>::empty()));
        assert(spec_esc(Seq::<char>::empty()) == Seq::<char>::empty());
        assert(spec_esc(s) == Seq::<char>::empty());
        assert(spec_esc(s.push(c)) =~= spec_esc(s) + spec_esc_char(c));
    } else {
        assert(s.push(c).skip(1) =~= s.skip(1).push(c));
        lemma_esc_snoc(s.skip(1), c);
        assert(spec_esc(s.push(c)) =~= spec_esc(s) + spec_esc_char(c));
    }
}

/// Appends the JSON escaping of `s` to `out`.
pub fn push_escaped(out: &mut String, s: &str)
    ensures
        final(out)@ == old(out)@ + spec_esc(s@),
{
    let n = s.unicode_len();
    let mut i: usize = 0;
    while i < n
        invariant
            i <= n,
            n == s@.len(),
            out@ == old(out)@ + spec_esc(s@.take(i as int)),
        decreases n - i,
    {
        let c = s.get_char(i);
        if c == '"' {
            out.push('\\');
            out.push('"');
        } else if c == '\\' {
            out.push('\\');
            out.push('\\');
        } else if (c as u32) < 32 {
            let x = c as u32;
            out.push('\\');
            out.push('u');
            out.push('0');
            out.push('0');
            out.push(HEX_DIGITS[(x / 16) as usize]);
            out.push(HEX_DIGITS[(x % 16) as usize]);
        } else {
            out.push(c);
        }
        proof {
            lemma_esc_snoc(s@.take(i as int), s@[i as int]);
            assert(s@.take(i + 1 as int) =~= s@.take(i as int).push(s@[i as int]));
            assert(out@ =~= old(out)@ + spec_esc(s@.take(i + 1 as int)));
        }
        i += 1;
    }
    proof {
        assert(s@.take(n as int) =~= s@);
    }
}

/// A JSON string literal: the escaped characters between double quotes.
pub open spec fn spec_json_str(s: Seq<char>) -> Seq<char> {
    seq!['"'] + spec_esc(s) + seq!['"']
}

/// Appends the JSON string literal for `s` to `out`.
pub fn push_json_str(out: &mut String, s: &str)
    ensures
        final(out)@ == old(out)@ + spec_json_str(s@),
{
    out.push('"');
    push_escaped(out, s);
    out.push('"');
    proof {
        assert(final(out)@ =~= old(out)@ + spec_json_str(s@));
    }
}

/// An optional JSON string: `null` when absent.
pub open spec fn spec_json_opt_str(o: Option<Seq<char>>) -> Seq<char> {
    match o {
        Option::None => ("null")@,
        Option::Some(s) => spec_json_str(s),
    }
}

/// Appends the optional JSON string for `o` to `out`.
pub fn push_json_opt_str(out: &mut String, o: &Option<String>)
    ensures
        final(out)@ == old(out)@ + spec_json_opt_str(o.deep_view()),
{
    match o {
        Option::None => {
            out.append("null");
        },
        Option::Some(s) => {
            push_json_str(out, s.as_str());
        },
    }
}

} // verus!

use vstd::prelude::*;

verus! {

/// A literal given as the value of an attribute argument.
#[derive(Clone, Debug)]
pub enum Lit {
    /// `true` or `false`.
    Bool(bool),
    /// A quoted string, by its contents.
    Str(String),
    /// An integer literal, by its digits.
    Int(String),
}

pub open spec fn is_digit(c: char) -> bool {
    '0' <= c <= '9'
}

pub open spec fn digit_value(c: char) -> nat {
    if is_digit(c) { (c as int - '0' as int) as nat } else { 0 }
}

/// The number that a sequence of decimal digits stands for.
pub open spec fn digits_value(s: Seq<char>) -> nat
    decreases s.len(),
{
    if s.len() == 0 { 0 } else { digits_value(s.drop_last()) * 10 + digit_value(s.last()) }
}

pub open spec fn all_digits(s: Seq<char>) -> bool {
    forall|i: int| 0 <= i < s.len() ==> is_digit(#[trigger] s[i])
}

/// The value of one or more decimal digits that fit in a `u64`.
pub open spec fn digits_u64(s: Seq<char>) -> Option<u64> {
    if s.len() > 0 && all_digits(s) && digits_value(s) <= u64::MAX {
        Some(digits_value(s) as u64)
    } else {
        None
    }
}

/// The value of a decimal string that fits in a `u64`, with an optional leading `+`.
pub open spec fn string_u64(s: Seq<char>) -> Option<u64> {
    if s.len() > 0 && s[0] == '+' { digits_u64(s.drop_first()) } else { digits_u64(s) }
}

/// The boolean that a literal stands for, if any.
pub open spec fn bool_of_lit(lit: Lit) -> Option<bool> {
    match lit {
        Lit::Bool(b) => Some(b),
        Lit::Str(s) => if s@ == "true"@ { Some(true) } else if s@ == "false"@ { Some(false) } else { None },
        Lit::Int(s) => if s@ == "1"@ { Some(true) } else if s@ == "0"@ { Some(false) } else { None },
    }
}

/// The unsigned integer that a literal stands for, if any.
pub open spec fn integer_of_lit(lit: Lit) -> Option<u64> {
    match lit {
        Lit::Bool(_) => None,
        Lit::Str(s) => string_u64(s@),
        Lit::Int(s) => digits_u64(s@),
    }
}

proof fn lemma_digits_value_grows(s: Seq<char>, i: int)
    requires
        0 <= i <= s.len(),
    ensures
        digits_value(s.subrange(0, i)) <= digits_value(s),
    decreases s.len() - i,
{
    if i < s.len() {
        lemma_digits_value_grows(s, i + 1);
        assert(s.subrange(0, i + 1).drop_last() =~= s.subrange(0, i));
    } else {
        assert(s.subrange(0, i) =~= s);
    }
}

/// Reads the characters of `s` from `start` on as decimal digits.
fn parse_digits(s: &str, start: usize) -> (r: Option<u64>)
    requires
        start <= s@.len(),
    ensures
        r == digits_u64(s@.subrange(start as int, s@.len() as int)),
{
    let ghost t = s@.subrange(start as int, s@.len() as int);
    let n = s.unicode_len();
    if n == start {
        return None;
    }
    let mut acc: u64 = 0;
    let mut i: usize = start;
    while i < n
        invariant
            start <= i <= n,
            n == s@.len(),
            t == s@.subrange(start as int, s@.len() as int),
            all_digits(t.subrange(0, i - start)),
            acc as nat == digits_value(t.subrange(0, i - start)),
        decreases n - i,
    {
        let c = s.get_char(i);
        if !('0' <= c && c <= '9') {
            assert(t[i - start] == c);
            return None;
        }
        let d: u64 = (c as u32 - '0' as u32) as u64;
        assert(t.subrange(0, i + 1 - start).drop_last() =~= t.subrange(0, i - start));
        assert(t.subrange(0, i + 1 - start).last() == c);
        match acc.checked_mul(10) {
            None => {
                proof { lemma_digits_value_grows(t, i + 1 - start); }
                return None;
            },
            Some(m) => match m.checked_add(d) {
                None => {
                    proof { lemma_digits_value_grows(t, i + 1 - start); }
                    return None;
                },
                Some(v) => {
                    acc = v;
                },
            },
        }
        i = i + 1;
        assert(all_digits(t.subrange(0, i - start)));
    }
    assert(t.subrange(0, i - start) =~= t);
    Some(acc)
}

/// Reads a literal as a boolean: `true`, `false`, `"true"`, `"false"`, `1` or `0`.
pub fn parse_bool_lit(lit: &Lit) -> (r: Option<bool>)
    ensures
        r == bool_of_lit(*lit),
{
    match lit {
        Lit::Bool(b) => Some(*b),
        Lit::Str(s) => {
            if crate::sql_type::is_word(s, "true") {
                Some(true)
            } else if crate::sql_type::is_word(s, "false") {
                Some(false)
            } else {
                None
            }
        },
        Lit::Int(s) => {
            if crate::sql_type::is_word(s, "1") {
                Some(true)
            } else if crate::sql_type::is_word(s, "0") {
                Some(false)
            } else {
                None
            }
        },
    }
}

/// Reads a literal as an unsigned integer: digits, or a string of digits with an optional `+`.
pub fn parse_integer_lit(lit: &Lit) -> (r: Option<u64>)
    ensures
        r == integer_of_lit(*lit),
{
    match lit {
        Lit::Bool(_) => None,
        Lit::Str(s) => {
            let t = s.as_str();
            if t.unicode_len() > 0 && t.get_char(0) == '+' {
                let r = parse_digits(t, 1);
                assert(t@.subrange(1, t@.len() as int) =~= t@.drop_first());
                r
            } else {
                let r = parse_digits(t, 0);
                assert(t@.subrange(0, t@.len() as int) =~= t@);
                r
            }
        },
        Lit::Int(s) => {
            let t = s.as_str();
            let r = parse_digits(t, 0);
            assert(t@.subrange(0, t@.len() as int) =~= t@);
            r
        },
    }
}

} // verus!

//! Splitting and reading the parameter text of a control sequence.

use vstd::prelude::*;

verus! {

/// The pieces of `s` between semicolons, as `str::split(';')` gives them:
/// never empty, and empty pieces are kept.
pub open spec fn split_params(s: Seq<char>) -> Seq<Seq<char>>
    decreases s.len(),
{
    if s.len() == 0 {
        seq![Seq::<char>::empty()]
    } else {
        let p = split_params(s.drop_last());
        if s.last() == ';' {
            p.push(Seq::<char>::empty())
        } else {
            p.update(p.len() - 1, p.last().push(s.last()))
        }
    }
}

pub open spec fn is_digit(c: char) -> bool {
    '0' <= c && c <= '9'
}

pub open spec fn all_digits(d: Seq<char>) -> bool {
    forall|i: int| 0 <= i < d.len() ==> is_digit(#[trigger] d[i])
}

/// The number that a string of decimal digits spells.
pub open spec fn digits_value(d: Seq<char>) -> nat
    decreases d.len(),
{
    if d.len() == 0 {
        0
    } else {
        digits_value(d.drop_last()) * 10 + (d.last() as nat - '0' as nat) as nat
    }
}

/// The digits of `s` once an optional leading `+` is taken off.
pub open spec fn unsigned_digits(s: Seq<char>) -> Seq<char> {
    if s.len() > 0 && s[0] == '+' {
        s.drop_first()
    } else {
        s
    }
}

/// Reads `s` as an unsigned decimal number no larger than `max`, with the
/// rules of `str::parse` for unsigned integers: an optional `+`, then at
/// least one digit and nothing else.
pub open spec fn parse_unsigned(s: Seq<char>, max: nat) -> Option<nat> {
    let d = unsigned_digits(s);
    if d.len() > 0 && all_digits(d) && digits_value(d) <= max {
        Some(digits_value(d))
    } else {
        None
    }
}

proof fn lemma_capped_step(a: nat, d: nat, cap: nat)
    requires
        d < 10,
    ensures
        ({
            let m = if a < cap { a } else { cap };
            let n = m * 10 + d;
            let full = a * 10 + d;
            (if n < cap { n } else { cap }) == (if full < cap { full } else { cap })
        }),
{
    if a >= cap {
        assert(cap * 10 + d >= cap) by (nonlinear_arith);
        assert(a * 10 + d >= cap) by (nonlinear_arith)
            requires a >= cap;
    }
}

/// Splits `s` at each semicolon.
pub fn split_semicolons(s: &[char]) -> (parts: Vec<Vec<char>>)
    ensures
        parts@.map_values(|p: Vec<char>| p@) == split_params(s@),
{
    let mut parts: Vec<Vec<char>> = Vec::new();
    let mut current: Vec<char> = Vec::new();
    let mut i: usize = 0;
    while i < s.len()
        invariant
            i <= s@.len(),
            parts@.map_values(|p: Vec<char>| p@).push(current@) == split_params(s@.subrange(0, i as int)),
        decreases s@.len() - i,
    {
        let ghost prefix = s@.subrange(0, i as int);
        assert(s@.subrange(0, i + 1).drop_last() =~= prefix);
        let c = s[i];
        if c == ';' {
            let ghost before = parts@.map_values(|p: Vec<char>| p@);
            parts.push(current);
            current = Vec::new();
            assert(parts@.map_values(|p: Vec<char>| p@).push(current@) =~= before.push(
                parts@.last()@,
            ).push(Seq::<char>::empty()));
        } else {
            let ghost before = parts@.map_values(|p: Vec<char>| p@);
            current.push(c);
            assert(parts@.map_values(|p: Vec<char>| p@).push(current@) =~= before.push(
                current@.drop_last(),
            ).update(before.len() as int, current@));
        }
        i = i + 1;
    }
    assert(s@.subrange(0, s@.len() as int) =~= s@);
    parts.push(current);
    parts
}

/// Reads `s` as an unsigned decimal number no larger than `max`; `None`
/// where `str::parse` would fail.
pub fn parse_decimal(s: &[char], max: usize) -> (r: Option<usize>)
    ensures
        r == (match parse_unsigned(s@, max as nat) {
            Some(v) => Some(v as usize),
            None => None::<usize>,
        }),
{
    let start: usize = if s.len() > 0 && s[0] == '+' {
        1
    } else {
        0
    };
    let ghost d = unsigned_digits(s@);
    assert(d =~= s@.subrange(start as int, s@.len() as int));
    if start >= s.len() {
        return None;
    }
    let cap: u128 = max as u128 + 1;
    let mut value: u128 = 0;
    let mut i: usize = start;
    while i < s.len()
        invariant
            start <= i <= s@.len(),
            d == unsigned_digits(s@),
            d =~= s@.subrange(start as int, s@.len() as int),
            cap == max + 1,
            all_digits(s@.subrange(start as int, i as int)),
            value as nat == (if digits_value(s@.subrange(start as int, i as int)) < cap {
                digits_value(s@.subrange(start as int, i as int))
            } else {
                cap as nat
            }),
        decreases s@.len() - i,
    {
        let c = s[i];
        if !('0' <= c && c <= '9') {
            assert(d[i - start] == c);
            assert(!is_digit(d[i - start]));
            return None;
        }
        let digit = (c as u32 - '0' as u32) as u128;
        let ghost pre = s@.subrange(start as int, i as int);
        let ghost next = s@.subrange(start as int, i + 1);
        assert(next.drop_last() =~= pre);
        proof {
            lemma_capped_step(digits_value(pre), digit as nat, cap as nat);
        }
        let n = value * 10 + digit;
        value = if n < cap {
            n
        } else {
            cap
        };
        i = i + 1;
    }
    if value < cap {
        Some(value as usize)
    } else {
        None
    }
}

} // verus!

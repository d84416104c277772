//! Unsigned integers in text: reading them in a given radix, and writing
//! them in decimal.
use vstd::prelude::*;

verus! {

/// The value of `c` as a digit, as `char::to_digit` reads digits and
/// letters (for any radix up to 36); `36` for any other character.
pub open spec fn digit_of(c: char) -> nat {
    let u = c as u32;
    if 0x30 <= u <= 0x39 {
        (u - 0x30) as nat
    } else if 0x61 <= u <= 0x7A {
        (u - 0x61 + 10) as nat
    } else if 0x41 <= u <= 0x5A {
        (u - 0x41 + 10) as nat
    } else {
        36
    }
}

/// The number that the digits `s` denote in `radix`, most significant first.
pub open spec fn digits_value(s: Seq<char>, radix: nat) -> nat
    decreases s.len(),
{
    if s.len() == 0 {
        0
    } else {
        digits_value(s.drop_last(), radix) * radix + digit_of(s.last())
    }
}

/// Whether every character of `s` is a digit in `radix`.
pub open spec fn all_digits(s: Seq<char>, radix: nat) -> bool {
    forall|i: int| 0 <= i < s.len() ==> digit_of(#[trigger] s[i]) < radix
}

/// What `from_str_radix` of an unsigned integer type whose largest value is
/// `max` gives for `s`: an optional `+`, then at least one digit of `radix`,
/// and a value that fits.
pub open spec fn parse_unsigned(s: Seq<char>, radix: nat, max: nat) -> Option<nat> {
    let d = if s.len() > 0 && s[0] == '+' {
        s.drop_first()
    } else {
        s
    };
    if d.len() > 0 && all_digits(d, radix) && digits_value(d, radix) <= max {
        Some(digits_value(d, radix))
    } else {
        None
    }
}

/// A longer run of digits is worth at least as much as its prefix.
proof fn lemma_digits_value_prefix(s: Seq<char>, radix: nat, i: int)
    requires
        radix >= 1,
        0 <= i <= s.len(),
    ensures
        digits_value(s.take(i), radix) <= digits_value(s, radix),
    decreases s.len(),
{
    if i < s.len() {
        assert(s.drop_last().take(i) =~= s.take(i));
        lemma_digits_value_prefix(s.drop_last(), radix, i);
        let p = digits_value(s.drop_last(), radix);
        assert(p * radix >= p) by (nonlinear_arith)
            requires
                radix >= 1,
        ;
    } else {
        assert(s.take(i) =~= s);
    }
}

/// The digit value of one character, as in [`digit_of`].
fn digit_value(c: char) -> (r: u64)
    ensures
        r == digit_of(c),
{
    let u = c as u32;
    if 0x30 <= u && u <= 0x39 {
        (u - 0x30) as u64
    } else if 0x61 <= u && u <= 0x7A {
        (u - 0x61 + 10) as u64
    } else if 0x41 <= u && u <= 0x5A {
        (u - 0x41 + 10) as u64
    } else {
        36
    }
}

/// Reads `v[lo..hi]` as an unsigned integer in `radix` that is at most `max`,
/// as [`parse_unsigned`] says.
pub fn parse_unsigned_chars(v: &[char], lo: usize, hi: usize, radix: u64, max: u64) -> (r: Option<
    u64,
>)
    requires
        lo <= hi <= v@.len(),
        2 <= radix <= 36,
    ensures
        match r {
            Some(n) => parse_unsigned(v@.subrange(lo as int, hi as int), radix as nat, max as nat)
                == Some(n as nat),
            None => parse_unsigned(v@.subrange(lo as int, hi as int), radix as nat, max as nat)
                is None,
        },
{
    let ghost s = v@.subrange(lo as int, hi as int);
    let mut start = lo;
    if lo < hi && v[lo] == '+' {
        start = lo + 1;
    }
    let ghost d = v@.subrange(start as int, hi as int);
    assert(d =~= (if s.len() > 0 && s[0] == '+' { s.drop_first() } else { s }));
    if start == hi {
        return None;
    }
    let mut acc: u64 = 0;
    let mut i = start;
    while i < hi
        invariant
            lo <= start <= i <= hi <= v@.len(),
            2 <= radix <= 36,
            d == v@.subrange(start as int, hi as int),
            s == v@.subrange(lo as int, hi as int),
            d == (if s.len() > 0 && s[0] == '+' { s.drop_first() } else { s }),
            acc as nat == digits_value(d.take(i - start), radix as nat),
            acc <= max,
            forall|j: int| 0 <= j < i - start ==> digit_of(#[trigger] d[j]) < radix,
        decreases hi - i,
    {
        let dv = digit_value(v[i]);
        let ghost k = i - start;
        assert(d.take(k + 1).drop_last() =~= d.take(k));
        assert(d[k] == v@[i as int]);
        if dv >= radix {
            assert(!all_digits(d, radix as nat));
            return None;
        }
        let next = match acc.checked_mul(radix) {
            Some(m) => m.checked_add(dv),
            None => None,
        };
        match next {
            Some(n) if n <= max => {
                acc = n;
            },
            _ => {
                proof {
                    lemma_digits_value_prefix(d, radix as nat, k + 1);
                    assert(digits_value(d.take(k + 1), radix as nat) == acc * radix + dv);
                }
                return None;
            },
        }
        i = i + 1;
    }
    assert(d.take(d.len() as int) =~= d);
    Some(acc)
}

/// The character of a decimal digit.
pub open spec fn digit_char(d: nat) -> char {
    if d == 0 {
        '0'
    } else if d == 1 {
        '1'
    } else if d == 2 {
        '2'
    } else if d == 3 {
        '3'
    } else if d == 4 {
        '4'
    } else if d == 5 {
        '5'
    } else if d == 6 {
        '6'
    } else if d == 7 {
        '7'
    } else if d == 8 {
        '8'
    } else {
        '9'
    }
}

/// `n` written in decimal, without leading zeros.
pub open spec fn decimal(n: nat) -> Seq<char>
    decreases n,
{
    if n < 10 {
        seq![digit_char(n)]
    } else {
        decimal(n / 10).push(digit_char(n % 10))
    }
}

/// Appends `n` in decimal to `out`.
pub fn push_decimal(out: &mut String, n: usize)
    ensures
        final(out)@ == old(out)@ + decimal(n as nat),
    decreases n,
{
    if n >= 10 {
        push_decimal(out, n / 10);
    }
    let d = n % 10;
    let c = if d == 0 {
        '0'
    } else if d == 1 {
        '1'
    } else if d == 2 {
        '2'
    } else if d == 3 {
        '3'
    } else if d == 4 {
        '4'
    } else if d == 5 {
        '5'
    } else if d == 6 {
        '6'
    } else if d == 7 {
        '7'
    } else if d == 8 {
        '8'
    } else {
        '9'
    };
    crate::text::push_char(out, c);
}

/// Each digit character is worth its digit.
proof fn lemma_digit_char(d: nat)
    requires
        d < 10,
    ensures
        digit_of(digit_char(d)) == d,
        digit_char(d) != '+' && digit_char(d) != 'x' && digit_char(d) != 'X',
        0x30 <= digit_char(d) as u32 <= 0x39,
{
}

/// A number written in decimal reads back, in radix 10, as the number: the
/// text is all digits, at least one, and what the digits denote is `n`.
pub proof fn lemma_decimal_reads_back(n: nat, max: nat)
    requires
        n <= max,
    ensures
        parse_unsigned(decimal(n), 10, max) == Some(n),
        decimal(n).len() > 0,
        forall|i: int| 0 <= i < decimal(n).len() ==> 0x30 <= #[trigger] decimal(n)[i] as u32 <= 0x39,
    decreases n,
{
    if n < 10 {
        lemma_digit_char(n);
        let t = seq![digit_char(n)];
        assert(decimal(n) == t);
        assert(t.drop_last() =~= Seq::<char>::empty());
        assert(digits_value(Seq::<char>::empty(), 10) == 0);
        assert(digits_value(t, 10) == n);
        assert(t[0] != '+');
        assert(all_digits(t, 10));
    } else {
        lemma_decimal_reads_back(n / 10, max);
        let p = decimal(n / 10);
        let d = n % 10;
        lemma_digit_char(d);
        let t = p.push(digit_char(d));
        assert(decimal(n) == t);
        assert(t.drop_last() =~= p);
        vstd::arithmetic::div_mod::lemma_fundamental_div_mod(n as int, 10);
        assert(n == (n / 10) * 10 + d);
        assert(digits_value(t, 10) == digits_value(p, 10) * 10 + d);
        assert forall|i: int| 0 <= i < t.len() implies 0x30 <= #[trigger] t[i] as u32 <= 0x39 by {
            if i < p.len() {
                assert(t[i] == p[i]);
            }
        }
        assert(p[0] != '+');
        assert(t[0] == p[0]);
        assert(all_digits(p, 10));
        assert forall|i: int| 0 <= i < t.len() implies digit_of(#[trigger] t[i]) < 10 by {
            if i < p.len() {
                assert(t[i] == p[i]);
            }
        }
    }
}

/// Appending a digit to text that reads as `v` in `radix` gives text that
/// reads as `v * radix` plus the digit, where that fits.
pub proof fn lemma_digit_appended(s: Seq<char>, c: char, radix: nat, max: nat)
    requires
        parse_unsigned(s, radix, max) is Some,
        digit_of(c) < radix,
        parse_unsigned(s, radix, max)->0 * radix + digit_of(c) <= max,
    ensures
        parse_unsigned(s.push(c), radix, max) == Some(
            parse_unsigned(s, radix, max)->0 * radix + digit_of(c),
        ),
{
    let d = if s.len() > 0 && s[0] == '+' {
        s.drop_first()
    } else {
        s
    };
    let t = s.push(c);
    assert(t[0] == s[0]);
    let e = if t.len() > 0 && t[0] == '+' {
        t.drop_first()
    } else {
        t
    };
    assert(e =~= d.push(c));
    assert(e.drop_last() =~= d);
    assert forall|i: int| 0 <= i < e.len() implies digit_of(#[trigger] e[i]) < radix by {
        if i < d.len() {
            assert(e[i] == d[i]);
        }
    }
}

} // verus!

//! Decimal numerals on the wire.
//!
//! The device protocol carries every number as a canonical decimal numeral
//! (most significant digit first, no leading zero). This module gives the
//! numeral its mathematical meaning, renders one into a string, and parses
//! one back, each direction pinned to the same specification.
use vstd::prelude::*;
use vstd::string::StrSliceExecFns;

verus! {

/// True of the ten ASCII digit characters.
pub open spec fn is_ascii_digit(c: char) -> bool {
    48 <= c as int <= 57
}

/// The numeric value of an ASCII digit character.
pub open spec fn digit_val(c: char) -> nat {
    (c as int - 48) as nat
}

/// The digit character for `n < 10`.
pub open spec fn digit_char(n: nat) -> char {
    if n == 0 {
        '0'
    } else if n == 1 {
        '1'
    } else if n == 2 {
        '2'
    } else if n == 3 {
        '3'
    } else if n == 4 {
        '4'
    } else if n == 5 {
        '5'
    } else if n == 6 {
        '6'
    } else if n == 7 {
        '7'
    } else if n == 8 {
        '8'
    } else {
        '9'
    }
}

/// The canonical decimal numeral of `n`: most significant digit first,
/// no leading zero.
pub open spec fn dec_rep(n: nat) -> Seq<char>
    decreases n,
{
    if n < 10 {
        seq![digit_char(n)]
    } else {
        dec_rep(n / 10).push(digit_char(n % 10))
    }
}

/// Every character of a canonical numeral is a digit, the numeral is
/// nonempty, and it starts with `'0'` exactly for zero itself.
pub proof fn lemma_dec_rep_shape(n: nat)
    ensures
        dec_rep(n).len() >= 1,
        forall|k: int| 0 <= k < dec_rep(n).len() ==> is_ascii_digit(#[trigger] dec_rep(n)[k]),
        (dec_rep(n)[0] == '0') <==> (n == 0),
    decreases n,
{
    if n >= 10 {
        lemma_dec_rep_shape(n / 10);
    }
}

/// Index just past the run of digit characters that starts at `i`.
pub open spec fn digits_end(s: Seq<char>, i: int) -> int
    decreases s.len() - i,
{
    if i < 0 || i >= s.len() {
        i
    } else if is_ascii_digit(s[i]) {
        digits_end(s, i + 1)
    } else {
        i
    }
}

/// `digits_end` names exactly the end of the maximal digit run.
pub proof fn lemma_digits_end_exact(s: Seq<char>, i: int, j: int)
    requires
        0 <= i <= j <= s.len(),
        forall|k: int| i <= k < j ==> is_ascii_digit(#[trigger] s[k]),
        j == s.len() || !is_ascii_digit(s[j]),
    ensures
        digits_end(s, i) == j,
    decreases j - i,
{
    if i < j {
        lemma_digits_end_exact(s, i + 1, j);
    }
}

/// The bounds of the digit run, and that it really is one.
pub proof fn lemma_digits_end_bounds(s: Seq<char>, i: int)
    requires
        0 <= i <= s.len(),
    ensures
        i <= digits_end(s, i) <= s.len(),
        forall|k: int| i <= k < digits_end(s, i) ==> is_ascii_digit(#[trigger] s[k]),
        digits_end(s, i) == s.len() || !is_ascii_digit(s[digits_end(s, i)]),
    decreases s.len() - i,
{
    if i < s.len() && is_ascii_digit(s[i]) {
        lemma_digits_end_bounds(s, i + 1);
    }
}

/// The value of the digit characters `s[i..j]`, read in base ten.
pub open spec fn digits_value(s: Seq<char>, i: int, j: int) -> nat
    decreases j - i,
{
    if i >= j {
        0
    } else {
        digits_value(s, i, j - 1) * 10 + digit_val(s[j - 1])
    }
}

/// Parse a canonical decimal numeral starting at `i`: the value and the
/// index just past it, or nothing when no digit starts there or the run
/// has a leading zero.
pub open spec fn spec_parse_number(s: Seq<char>, i: int) -> Option<(nat, int)> {
    let j = digits_end(s, i);
    if j == i {
        Option::None
    } else if s[i] == '0' && j > i + 1 {
        Option::None
    } else {
        Option::Some((digits_value(s, i, j), j))
    }
}

/// Reading the canonical numeral of `n` back in base ten gives `n`.
pub proof fn lemma_digits_value_of_dec_rep(s: Seq<char>, i: int, n: nat)
    requires
        0 <= i,
        i + dec_rep(n).len() <= s.len(),
        s.subrange(i, i + dec_rep(n).len() as int) == dec_rep(n),
    ensures
        digits_value(s, i, i + dec_rep(n).len() as int) == n,
    decreases n,
{
    let l = dec_rep(n).len() as int;
    if n < 10 {
        assert(s[i] == dec_rep(n)[0]);
        assert(digits_value(s, i, i + 1) == digit_val(digit_char(n)));
    } else {
        assert(dec_rep(n) == dec_rep(n / 10).push(digit_char(n % 10)));
        let lp = dec_rep(n / 10).len() as int;
        assert(s.subrange(i, i + lp) =~= dec_rep(n / 10)) by {
            assert forall|k: int| 0 <= k < lp implies #[trigger] s.subrange(i, i + lp)[k]
                == dec_rep(n / 10)[k] by {
                assert(s[i + k] == s.subrange(i, i + l)[k]);
            }
        }
        lemma_digits_value_of_dec_rep(s, i, n / 10);
        assert(s[i + l - 1] == s.subrange(i, i + l)[l - 1]);
        assert(digit_val(s[i + l - 1]) == n % 10);
        assert(digits_value(s, i, i + l) == digits_value(s, i, i + l - 1) * 10 + digit_val(
            s[i + l - 1],
        ));
    }
}

/// Reading a canonical numeral on its own gives back its number; in
/// particular distinct numbers have distinct numerals.
pub proof fn lemma_dec_rep_value(n: nat)
    ensures
        digits_value(dec_rep(n), 0, dec_rep(n).len() as int) == n,
{
    let s = dec_rep(n);
    assert(s.subrange(0, s.len() as int) =~= s);
    lemma_digits_value_of_dec_rep(s, 0, n);
}

/// Parsing at a position that holds the canonical numeral of `n`, followed
/// by a non-digit or the end, yields exactly `n`.
pub proof fn lemma_parse_dec_rep(s: Seq<char>, i: int, n: nat)
    requires
        0 <= i,
        i + dec_rep(n).len() <= s.len(),
        s.subrange(i, i + dec_rep(n).len() as int) == dec_rep(n),
        i + dec_rep(n).len() == s.len() || !is_ascii_digit(s[i + dec_rep(n).len()]),
    ensures
        spec_parse_number(s, i) == Option::Some((n, i + dec_rep(n).len() as int)),
{
    let l = dec_rep(n).len() as int;
    lemma_dec_rep_shape(n);
    assert forall|k: int| i <= k < i + l implies is_ascii_digit(#[trigger] s[k]) by {
        assert(s[k] == s.subrange(i, i + l)[k - i]);
    }
    lemma_digits_end_exact(s, i, i + l);
    lemma_digits_value_of_dec_rep(s, i, n);
    assert(s[i] == s.subrange(i, i + l)[0]);
}

/// A nonempty digit run that does not start with `'0'` has value at least
/// one, and at least ten when it is longer than one digit.
pub proof fn lemma_digits_value_lower(s: Seq<char>, i: int, j: int)
    requires
        0 <= i < j <= s.len(),
        forall|k: int| i <= k < j ==> is_ascii_digit(#[trigger] s[k]),
        s[i] != '0',
    ensures
        digits_value(s, i, j) >= 1,
        j > i + 1 ==> digits_value(s, i, j) >= 10,
    decreases j - i,
{
    if j == i + 1 {
        assert(digit_val(s[i]) >= 1);
    } else {
        lemma_digits_value_lower(s, i, j - 1);
    }
}

/// A parsed value of at most nine came from a single digit character.
pub proof fn lemma_parse_single_digit(s: Seq<char>, i: int, v: nat, j: int)
    requires
        0 <= i <= s.len(),
        spec_parse_number(s, i) == Option::Some((v, j)),
        v <= 9,
    ensures
        j == i + 1,
        is_ascii_digit(s[i]),
        digit_val(s[i]) == v,
    decreases s.len() - i,
{
    lemma_digits_end_bounds(s, i);
    if j > i + 1 {
        lemma_digits_value_lower(s, i, j);
    }
}

/// Parsing at the seam of a concatenation: at offset `o` the input carries
/// the canonical numeral of `n` and then `t`, whose first character is not
/// a digit.
pub proof fn lemma_parse_at_concat(s: Seq<char>, o: int, n: nat, t: Seq<char>)
    requires
        0 <= o <= s.len(),
        s.skip(o) == dec_rep(n) + t,
        t.len() == 0 || !is_ascii_digit(t[0]),
    ensures
        spec_parse_number(s, o) == Option::Some((n, o + dec_rep(n).len() as int)),
        s.skip(o + dec_rep(n).len() as int) =~= t,
{
    let l = dec_rep(n).len() as int;
    assert(s.skip(o).len() == s.len() - o);
    assert(s.subrange(o, o + l) =~= dec_rep(n)) by {
        assert forall|k: int| 0 <= k < l implies s.subrange(o, o + l)[k] == dec_rep(n)[k] by {
            assert(s[o + k] == s.skip(o)[k]);
            assert(s.skip(o)[k] == (dec_rep(n) + t)[k]);
        }
    }
    if t.len() > 0 {
        assert(s[o + l] == s.skip(o)[l]);
    }
    lemma_parse_dec_rep(s, o, n);
    assert forall|k: int| 0 <= k < t.len() implies s.skip(o + l)[k] == t[k] by {
        assert(s.skip(o + l)[k] == s[o + l + k]);
        assert(s[o + l + k] == s.skip(o)[l + k]);
    }
}

/// A run of digits with no leading zero is the canonical numeral of its
/// value.
proof fn lemma_digits_canonical(s: Seq<char>, i: int, j: int)
    requires
        0 <= i < j <= s.len(),
        forall|k: int| i <= k < j ==> is_ascii_digit(#[trigger] s[k]),
        s[i] == '0' ==> j == i + 1,
    ensures
        s.subrange(i, j) == dec_rep(digits_value(s, i, j)),
    decreases j - i,
{
    let v = digits_value(s, i, j);
    if j == i + 1 {
        assert(v == digit_val(s[i]) && v < 10);
        assert(digit_char(v) as int == 48 + v);
        assert(s.subrange(i, j) =~= dec_rep(v));
    } else {
        lemma_digits_value_lower(s, i, j - 1);
        let vp = digits_value(s, i, j - 1);
        let d = digit_val(s[j - 1]);
        assert(v == vp * 10 + d && d < 10 && vp >= 1);
        vstd::arithmetic::div_mod::lemma_fundamental_div_mod_converse(
            v as int,
            10,
            vp as int,
            d as int,
        );
        assert(v / 10 == vp && v % 10 == d && v >= 10);
        lemma_digits_canonical(s, i, j - 1);
        assert(dec_rep(v) == dec_rep(vp).push(digit_char(d)));
        assert(digit_char(d) as int == 48 + d);
        assert(digit_char(d) == s[j - 1]);
        assert(s.subrange(i, j) =~= s.subrange(i, j - 1).push(s[j - 1]));
    }
}

/// A parsed numeral is canonical: the characters it covered are exactly
/// the canonical numeral of its value.
pub proof fn lemma_parse_canonical(s: Seq<char>, i: int, v: nat, j: int)
    requires
        0 <= i <= s.len(),
        spec_parse_number(s, i) == Option::Some((v, j)),
    ensures
        i < j <= s.len(),
        s.subrange(i, j) == dec_rep(v),
{
    lemma_digits_end_bounds(s, i);
    lemma_digits_canonical(s, i, j);
}

/// Saturation bound used by the executable parser: values above the
/// largest 32-bit integer are all reported as one past it, which leaves
/// every comparison against a 32-bit bound intact.
pub open spec fn sat_u32(v: nat) -> nat {
    if v <= 4294967295 {
        v
    } else {
        4294967296
    }
}

/// A single-character string slice for the digit `d`.
fn digit_str(d: u64) -> (s: &'static str)
    requires
        d < 10,
    ensures
        s@ == seq![digit_char(d as nat)],
{
    if d == 0 {
        proof {
            reveal_strlit("0");
            assert("0"@ =~= seq![digit_char(0nat)]);
        }
        "0"
    } else if d == 1 {
        proof {
            reveal_strlit("1");
            assert("1"@ =~= seq![digit_char(1nat)]);
        }
        "1"
    } else if d == 2 {
        proof {
            reveal_strlit("2");
            assert("2"@ =~= seq![digit_char(2nat)]);
        }
        "2"
    } else if d == 3 {
        proof {
            reveal_strlit("3");
            assert("3"@ =~= seq![digit_char(3nat)]);
        }
        "3"
    } else if d == 4 {
        proof {
            reveal_strlit("4");
            assert("4"@ =~= seq![digit_char(4nat)]);
        }
        "4"
    } else if d == 5 {
        proof {
            reveal_strlit("5");
            assert("5"@ =~= seq![digit_char(5nat)]);
        }
        "5"
    } else if d == 6 {
        proof {
            reveal_strlit("6");
            assert("6"@ =~= seq![digit_char(6nat)]);
        }
        "6"
    } else if d == 7 {
        proof {
            reveal_strlit("7");
            assert("7"@ =~= seq![digit_char(7nat)]);
        }
        "7"
    } else if d == 8 {
        proof {
            reveal_strlit("8");
            assert("8"@ =~= seq![digit_char(8nat)]);
        }
        "8"
    } else {
        proof {
            reveal_strlit("9");
            assert("9"@ =~= seq![digit_char(9nat)]);
        }
        "9"
    }
}

/// Append the canonical decimal numeral of `n` to `out`.
pub fn push_dec_u64(out: &mut String, n: u64)
    ensures
        final(out)@ == old(out)@ + dec_rep(n as nat),
    decreases n,
{
    if n < 10 {
        out.append(digit_str(n));
        proof {
            assert(out@ =~= old(out)@ + dec_rep(n as nat));
        }
    } else {
        push_dec_u64(out, n / 10);
        out.append(digit_str(n % 10));
        proof {
            assert(dec_rep(n as nat) == dec_rep(n as nat / 10).push(digit_char(n as nat % 10)));
            assert(out@ =~= old(out)@ + dec_rep(n as nat));
        }
    }
}

/// The canonical decimal numeral of `n` as an owned string.
pub fn u64_to_string(n: u64) -> (s: String)
    ensures
        s@ == dec_rep(n as nat),
{
    let mut s = String::new();
    push_dec_u64(&mut s, n);
    proof {
        assert(s@ =~= dec_rep(n as nat));
    }
    s
}

/// Parse a canonical decimal numeral at position `i` of `s`, exactly as
/// [`spec_parse_number`] describes, with the value saturated just past the
/// 32-bit range.
pub fn parse_number(s: &str, i: usize) -> (r: Option<(u64, usize)>)
    ensures
        (match spec_parse_number(s@, i as int) {
            Option::None => r is None,
            Option::Some(p) => r matches Option::Some(q) && q.0 == sat_u32(p.0) as u64 && q.1
                as int == p.1,
        }),
{
    let n = s.unicode_len();
    if i >= n {
        return Option::None;
    }
    let mut j = i;
    loop
        invariant
            i <= j <= n,
            n == s@.len(),
            forall|k: int| i <= k < j ==> is_ascii_digit(#[trigger] s@[k]),
            digits_end(s@, i as int) == digits_end(s@, j as int),
        ensures
            i <= j <= n,
            n == s@.len(),
            forall|k: int| i <= k < j ==> is_ascii_digit(#[trigger] s@[k]),
            digits_end(s@, i as int) == j as int,
        decreases n - j,
    {
        if j >= n {
            break ;
        }
        let c = s.get_char(j);
        let cv = c as u32;
        if !(48 <= cv && cv <= 57) {
            break ;
        }
        j = j + 1;
    }
    if j == i {
        return Option::None;
    }
    let c0 = s.get_char(i);
    if c0 == '0' && j > i + 1 {
        return Option::None;
    }
    let ghost gi = i as int;
    let ghost gj = j as int;
    let mut acc: u64 = 0;
    let mut k = i;
    while k < j
        invariant
            i <= k <= j <= n,
            n == s@.len(),
            gi == i as int,
            gj == j as int,
            forall|k2: int| gi <= k2 < gj ==> is_ascii_digit(#[trigger] s@[k2]),
            acc == sat_u32(digits_value(s@, gi, k as int)),
        decreases j - k,
    {
        let c = s.get_char(k);
        let d = (c as u32) - 48;
        proof {
            assert(is_ascii_digit(s@[k as int]));
        }
        let mut next = acc * 10 + (d as u64);
        if next > 4294967296 {
            next = 4294967296;
        }
        proof {
            let v = digits_value(s@, gi, k as int);
            assert(digits_value(s@, gi, k as int + 1) == v * 10 + digit_val(s@[k as int]));
        }
        acc = next;
        k = k + 1;
    }
    Option::Some((acc, j))
}

} // verus!

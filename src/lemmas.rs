//! What holds of reading texts as integers, proved over the model that the
//! contract of `Multiparse::multiparse` states.
use crate::digits::{
    all_digits, digit_of, is_digit, is_negated, leading_digits, radix_outcome, unsigned_part,
    value_of, ParseError,
};
use crate::parse::{multiparse_outcome, normalize, radix_and_digits};
use crate::radix_int::RadixInt;
use crate::text::{is_white_space, lower_ascii, lower_text, trim_end, trim_start, trim_white_space};
use vstd::math::abs;
use vstd::prelude::*;

verus! {

/// A digit of any base is no white space, and lowering it keeps its value.
proof fn lemma_digit_facts(c: char, radix: nat)
    requires
        radix <= 36,
        is_digit(c, radix),
    ensures
        !is_white_space(c),
        is_digit(lower_ascii(c), radix),
        digit_of(lower_ascii(c)) == digit_of(c),
{
}

/// Lowering a character keeps it white space or not.
proof fn lemma_lower_white_space(c: char)
    ensures
        is_white_space(lower_ascii(c)) == is_white_space(c),
{
}

/// A sequence of digits reads to the whole of its length.
proof fn lemma_leading_all(d: Seq<char>, radix: nat)
    requires
        all_digits(d, radix),
    ensures
        leading_digits(d, radix) == d.len(),
    decreases d.len(),
{
    if d.len() > 0 {
        assert(is_digit(d[0], radix));
        lemma_leading_all(d.drop_first(), radix);
    }
}

/// Lowering the letters of a digit sequence keeps it one, with its value.
proof fn lemma_lower_digits(d: Seq<char>, radix: nat)
    requires
        radix <= 36,
        all_digits(d, radix),
    ensures
        all_digits(lower_text(d), radix),
        value_of(lower_text(d), radix) == value_of(d, radix),
    decreases d.len(),
{
    assert forall|i: int| 0 <= i < d.len() implies is_digit(#[trigger] lower_text(d)[i], radix) by {
        lemma_digit_facts(d[i], radix);
    }
    if d.len() > 0 {
        assert(lower_text(d).drop_last() == lower_text(d.drop_last()));
        lemma_lower_digits(d.drop_last(), radix);
        lemma_digit_facts(d.last(), radix);
    }
}

/// Lowering distributes over concatenation.
proof fn lemma_lower_concat(a: Seq<char>, b: Seq<char>)
    ensures
        lower_text(a + b) == lower_text(a) + lower_text(b),
{
    assert(lower_text(a + b) =~= lower_text(a) + lower_text(b));
}

/// Trimming and lowering can be done in either order.
proof fn lemma_trim_lower(s: Seq<char>)
    ensures
        trim_white_space(lower_text(s)) == lower_text(trim_white_space(s)),
{
    lemma_trim_start_lower(s);
    lemma_trim_end_lower(trim_start(s));
}

proof fn lemma_trim_start_lower(s: Seq<char>)
    ensures
        trim_start(lower_text(s)) == lower_text(trim_start(s)),
    decreases s.len(),
{
    if s.len() > 0 {
        lemma_lower_white_space(s[0]);
        assert(lower_text(s).drop_first() == lower_text(s.drop_first()));
        lemma_trim_start_lower(s.drop_first());
    }
}

proof fn lemma_trim_end_lower(s: Seq<char>)
    ensures
        trim_end(lower_text(s)) == lower_text(trim_end(s)),
    decreases s.len(),
{
    if s.len() > 0 {
        lemma_lower_white_space(s.last());
        assert(lower_text(s).drop_last() == lower_text(s.drop_last()));
        lemma_trim_end_lower(s.drop_last());
    }
}

/// A text that neither starts nor ends with white space is its own trim.
proof fn lemma_trim_none(s: Seq<char>)
    requires
        s.len() > 0,
        !is_white_space(s[0]),
        !is_white_space(s.last()),
    ensures
        trim_white_space(s) == s,
{
}

/// A text of white space alone trims to nothing.
proof fn lemma_trim_all(s: Seq<char>)
    requires
        forall|i: int| 0 <= i < s.len() ==> is_white_space(#[trigger] s[i]),
    ensures
        trim_white_space(s).len() == 0,
    decreases s.len(),
{
    if s.len() > 0 {
        assert(is_white_space(s[0]));
        let t = s.drop_first();
        assert forall|i: int| 0 <= i < t.len() implies is_white_space(#[trigger] t[i]) by {
            assert(t[i] == s[i + 1]);
        }
        lemma_trim_all(t);
    }
}

/// The prefix that selects base `radix`: `0b`, `0o` or `0x`, and none for decimal.
pub open spec fn prefix_of(radix: nat) -> Seq<char> {
    if radix == 2 {
        seq!['0', 'b']
    } else if radix == 8 {
        seq!['0', 'o']
    } else if radix == 16 {
        seq!['0', 'x']
    } else {
        Seq::empty()
    }
}

/// A minus sign if `negative`, else nothing.
pub open spec fn sign_of(negative: bool) -> Seq<char> {
    if negative {
        seq!['-']
    } else {
        Seq::empty()
    }
}

/// The value of the digits `d` in base `radix`, negated if `negative`.
pub open spec fn signed_value(negative: bool, d: Seq<char>, radix: nat) -> int {
    if negative {
        -value_of(d, radix)
    } else {
        value_of(d, radix) as int
    }
}

/// What reading gives for a number `v` that was written correctly: `v` itself
/// if the type holds it, and `Overflow` if `v` is above the type's maximum or
/// below its minimum.
pub open spec fn in_range_or_overflow<T: RadixInt>(v: int) -> Result<int, ParseError> {
    if T::min_int() <= v <= T::max_int() {
        Ok(v)
    } else {
        Err(ParseError::Overflow)
    }
}

/// Digits of base 2, 8, 10 or 16 (letters of either case), after the prefix
/// of that base and an optional minus sign, read as their value in that base,
/// negated after a minus, if the type holds it, and fail with `Overflow` if it
/// does not. A minus sign needs a type with negative values.
pub proof fn lemma_digits_in_base<T: RadixInt>(radix: nat, negative: bool, d: Seq<char>)
    requires
        radix == 2 || radix == 8 || radix == 10 || radix == 16,
        d.len() > 0,
        all_digits(d, radix),
        negative ==> T::min_int() < 0,
    ensures
        multiparse_outcome(prefix_of(radix) + sign_of(negative) + d, T::min_int(), T::max_int())
            == in_range_or_overflow::<T>(signed_value(negative, d, radix)),
{
    T::lemma_range();
    let pre = prefix_of(radix);
    let sg = sign_of(negative);
    let text = pre + sg + d;
    let ld = lower_text(d);
    lemma_digit_facts(d[0], radix);
    lemma_digit_facts(d.last(), radix);
    assert(text.last() == d.last());
    if pre.len() > 0 {
        assert(text[0] == '0');
    } else if negative {
        assert(text[0] == '-');
    } else {
        assert(text[0] == d[0]);
    }
    lemma_trim_none(text);
    lemma_lower_concat(pre + sg, d);
    lemma_lower_concat(pre, sg);
    assert(lower_text(pre) == pre) by {
        assert(lower_text(pre) =~= pre);
    }
    assert(lower_text(sg) == sg) by {
        assert(lower_text(sg) =~= sg);
    }
    lemma_lower_digits(d, radix);
    let n = pre + sg + ld;
    assert(normalize(text) == n);
    let s = sg + ld;
    if radix == 10 {
        assert(n =~= s);
        assert(is_digit(ld[0], 10));
        if ld.len() > 1 {
            assert(is_digit(ld[1], 10));
        }
        if !negative {
            assert(n[0] == ld[0]);
            if n.len() > 1 {
                assert(n[1] == ld[1]);
            }
        }
        assert(!seq!['0', 'b'].is_prefix_of(n));
        assert(!seq!['0', 'o'].is_prefix_of(n));
        assert(!seq!['0', 'x'].is_prefix_of(n));
    } else {
        assert(n[0] == '0');
        assert(n[1] == pre[1]);
        assert(n.take(2) =~= pre);
        assert(n.skip(2) =~= s);
    }
    assert(radix_and_digits(n) == (radix, s));
    lemma_leading_all(ld, radix);
    if negative {
        assert(s[0] == '-');
        assert(is_negated(s, T::min_int()));
        assert(unsigned_part(s, T::min_int()) =~= ld);
    } else {
        assert(s =~= ld);
        assert(s[0] == ld[0]);
        assert(unsigned_part(s, T::min_int()) == ld);
    }
    assert(ld.take(ld.len() as int) =~= ld);
}


/// The character that writes the digit value `k`, for `k` below 36: `0`-`9`,
/// then `a`-`z`.
pub open spec fn digit_char(k: nat) -> char {
    if k < 10 {
        ((48 + k) as u32) as char
    } else {
        ((87 + k) as u32) as char
    }
}

/// The digits of `n` in base `radix`, most significant first, with no leading
/// zero (zero itself is a single `0`).
pub open spec fn digits_of(n: nat, radix: nat) -> Seq<char>
    decreases n,
{
    if radix < 2 || n < radix {
        seq![digit_char(n)]
    } else {
        proof {
            assert(n / radix < n) by (nonlinear_arith)
                requires
                    n >= radix,
                    radix >= 2,
            ;
        }
        digits_of(n / radix, radix).push(digit_char(n % radix))
    }
}

/// `v` written in base `radix`: the prefix of the base, a minus sign if `v`
/// is negative, then the digits of its magnitude.
pub open spec fn radix_text(v: int, radix: nat) -> Seq<char> {
    prefix_of(radix) + sign_of(v < 0) + digits_of(abs(v) as nat, radix)
}

proof fn lemma_digit_char(k: nat, radix: nat)
    requires
        k < radix <= 36,
    ensures
        is_digit(digit_char(k), radix),
        digit_of(digit_char(k)) == k,
{
}

/// The digits of `n` are digits of the base, and their value is `n`.
proof fn lemma_digits_of(n: nat, radix: nat)
    requires
        2 <= radix <= 36,
    ensures
        digits_of(n, radix).len() > 0,
        all_digits(digits_of(n, radix), radix),
        value_of(digits_of(n, radix), radix) == n,
    decreases n,
{
    if n < radix {
        lemma_digit_char(n, radix);
        assert(digits_of(n, radix).drop_last() =~= Seq::<char>::empty());
        assert(value_of(Seq::<char>::empty(), radix) == 0);
        assert(0 * radix == 0);
    } else {
        let q = n / radix;
        let r = n % radix;
        assert(q < n) by (nonlinear_arith)
            requires
                n >= radix,
                radix >= 2,
                q == n / radix,
        ;
        lemma_digits_of(q, radix);
        lemma_digit_char(r, radix);
        let d = digits_of(n, radix);
        assert(d.drop_last() =~= digits_of(q, radix));
        assert(d.last() == digit_char(r));
        assert forall|i: int| 0 <= i < d.len() implies is_digit(#[trigger] d[i], radix) by {
            if i < d.len() - 1 {
                assert(d[i] == digits_of(q, radix)[i]);
            }
        }
        assert(q * radix + r == n) by (nonlinear_arith)
            requires
                radix > 0,
                q == n / radix,
                r == n % radix,
        ;
        assert(value_of(d, radix) == value_of(digits_of(q, radix), radix) * radix + r);
        assert(value_of(digits_of(q, radix), radix) * radix == q * radix);
    }
}

/// Writing a value of the type in base 2, 8, 10 or 16, with the prefix of the
/// base, and reading the text back gives that value.
pub proof fn lemma_round_trip<T: RadixInt>(v: int, radix: nat)
    requires
        radix == 2 || radix == 8 || radix == 10 || radix == 16,
        T::min_int() <= v <= T::max_int(),
    ensures
        multiparse_outcome(radix_text(v, radix), T::min_int(), T::max_int()) == Ok::<
            int,
            ParseError,
        >(v),
{
    let m = abs(v) as nat;
    lemma_digits_of(m, radix);
    lemma_digits_in_base::<T>(radix, v < 0, digits_of(m, radix));
}

/// A text of white space alone, and a base prefix with nothing after it, read
/// as `Empty`.
pub proof fn lemma_no_digits<T: RadixInt>(s: Seq<char>)
    requires
        (forall|i: int| 0 <= i < s.len() ==> is_white_space(#[trigger] s[i])) || s == prefix_of(2)
            || s == prefix_of(8) || s == prefix_of(16),
    ensures
        multiparse_outcome(s, T::min_int(), T::max_int()) == Err::<int, ParseError>(
            ParseError::Empty,
        ),
{
    if forall|i: int| 0 <= i < s.len() ==> is_white_space(#[trigger] s[i]) {
        lemma_trim_all(s);
        assert(normalize(s) =~= Seq::<char>::empty());
    } else {
        lemma_trim_none(s);
        assert(lower_text(s) =~= s);
        assert(s.take(2) =~= s);
        assert(s.skip(2) =~= Seq::<char>::empty());
    }
}

/// Texts that differ only in the case of their ASCII letters read the same.
pub proof fn lemma_case_insensitive<T: RadixInt>(s: Seq<char>, t: Seq<char>)
    requires
        lower_text(s) == lower_text(t),
    ensures
        multiparse_outcome(s, T::min_int(), T::max_int()) == multiparse_outcome(
            t,
            T::min_int(),
            T::max_int(),
        ),
{
    lemma_trim_lower(s);
    lemma_trim_lower(t);
}

} // verus!

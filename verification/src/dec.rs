//! The native form of the foreign runtime's fractional quantities (point
//! sizes, margins, opacities, transform coefficients): a fixed-point decimal
//! with six fractional digits. The foreign call surface takes such a
//! quantity as its decimal text, which the foreign runtime itself turns into
//! its own floating-point representation; no floating-point value ever
//! exists on the native side.

use vstd::prelude::*;
use crate::error::ForeignCallError;

verus! {

/// The decimal digit character for a value below ten.
pub open spec fn digit_char(d: int) -> char {
    if d == 0 {
        '0'
    } else if d == 1 {
        '1'
    } else if d == 2 {
        '2'
    } else if d == 3 {
        '3'
    } else if d == 4 {
        '4'
    } else if d == 5 {
        '5'
    } else if d == 6 {
        '6'
    } else if d == 7 {
        '7'
    } else if d == 8 {
        '8'
    } else {
        '9'
    }
}

/// The decimal digits of a natural number, most significant first, with no
/// leading zero except for the number zero itself.
pub open spec fn spec_digits(n: nat) -> Seq<char>
    decreases n,
{
    if n < 10 {
        seq![digit_char(n as int)]
    } else {
        spec_digits(n / 10).push(digit_char((n % 10) as int))
    }
}

/// The last `width` decimal digits of a natural number, zero-padded on the
/// left to exactly `width` characters.
pub open spec fn spec_padded_digits(n: nat, width: nat) -> Seq<char>
    decreases width,
{
    if width == 0 {
        Seq::empty()
    } else {
        spec_padded_digits(n / 10, (width - 1) as nat).push(digit_char((n % 10) as int))
    }
}

/// The canonical decimal text of a quantity of `m` millionths: an optional
/// minus sign, the whole part, a point, and exactly six fractional digits.
pub open spec fn spec_dec_chars(m: int) -> Seq<char> {
    if m < 0 {
        seq!['-'] + spec_unsigned_dec_chars((-m) as nat)
    } else {
        spec_unsigned_dec_chars(m as nat)
    }
}

/// The canonical decimal text of a non-negative quantity of `u` millionths.
pub open spec fn spec_unsigned_dec_chars(u: nat) -> Seq<char> {
    spec_digits(u / 1000000) + seq!['.'] + spec_padded_digits(u % 1000000, 6)
}

/// A fractional quantity in the foreign library's point units, held as a
/// count of millionths. This is the native stand-in for every fractional
/// argument and result of the foreign call surface.
#[derive(Clone, Copy, Debug, PartialEq, Eq, Structural)]
pub struct Dec {
    /// The quantity, in millionths of a unit.
    pub micros: i64,
}

impl Dec {
    /// The quantity holding a whole number of units.
    pub fn from_units(units: i32) -> (r: Dec)
        ensures
            r.micros == units * 1000000,
    {
        Dec { micros: (units as i64) * 1000000 }
    }

    /// The quantity holding the given count of millionths of a unit.
    pub fn from_micros(micros: i64) -> (r: Dec)
        ensures
            r.micros == micros,
    {
        Dec { micros }
    }

    /// The canonical decimal text of this quantity.
    pub open spec fn chars(self) -> Seq<char> {
        spec_dec_chars(self.micros as int)
    }
}

/// The one-character text of a decimal digit.
fn digit_text(d: u64) -> (r: &'static str)
    requires
        d < 10,
    ensures
        r@ =~= seq![digit_char(d as int)],
{
    proof {
        reveal_strlit("0");
        reveal_strlit("1");
        reveal_strlit("2");
        reveal_strlit("3");
        reveal_strlit("4");
        reveal_strlit("5");
        reveal_strlit("6");
        reveal_strlit("7");
        reveal_strlit("8");
        reveal_strlit("9");
    }
    if d == 0 {
        "0"
    } else if d == 1 {
        "1"
    } else if d == 2 {
        "2"
    } else if d == 3 {
        "3"
    } else if d == 4 {
        "4"
    } else if d == 5 {
        "5"
    } else if d == 6 {
        "6"
    } else if d == 7 {
        "7"
    } else if d == 8 {
        "8"
    } else {
        "9"
    }
}

/// Appends the decimal digits of `n`, most significant first.
fn append_digits(n: u64, out: &mut String)
    ensures
        final(out)@ == old(out)@ + spec_digits(n as nat),
    decreases n,
{
    if n < 10 {
        out.append(digit_text(n));
        assert(final(out)@ =~= old(out)@ + spec_digits(n as nat));
    } else {
        append_digits(n / 10, out);
        out.append(digit_text(n % 10));
        assert(spec_digits(n as nat) =~= spec_digits((n as nat) / 10) + seq![
            digit_char(((n as nat) % 10) as int),
        ]);
        assert(final(out)@ =~= old(out)@ + spec_digits(n as nat));
    }
}

/// Appends the last `width` decimal digits of `n`, zero-padded to exactly
/// `width` characters.
fn append_padded_digits(n: u64, width: u32, out: &mut String)
    ensures
        final(out)@ == old(out)@ + spec_padded_digits(n as nat, width as nat),
    decreases width,
{
    if width == 0 {
        assert(final(out)@ =~= old(out)@ + spec_padded_digits(n as nat, 0));
    } else {
        append_padded_digits(n / 10, width - 1, out);
        out.append(digit_text(n % 10));
        assert(spec_padded_digits(n as nat, width as nat) =~= spec_padded_digits(
            (n as nat) / 10,
            (width - 1) as nat,
        ) + seq![digit_char(((n as nat) % 10) as int)]);
        assert(final(out)@ =~= old(out)@ + spec_padded_digits(n as nat, width as nat));
    }
}

/// Whether a character is a decimal digit.
pub open spec fn is_digit(c: char) -> bool {
    '0' <= c && c <= '9'
}

/// The value of a decimal digit character.
pub open spec fn digit_value(c: char) -> int {
    c as int - '0' as int
}

/// Whether every character of a text is a decimal digit.
pub open spec fn all_digits(s: Seq<char>) -> bool {
    forall|i: int| 0 <= i < s.len() ==> is_digit(#[trigger] s[i])
}

/// The natural number a run of decimal digits denotes, most significant
/// digit first.
pub open spec fn digits_value(s: Seq<char>) -> int
    decreases s.len(),
{
    if s.len() == 0 {
        0
    } else {
        digits_value(s.drop_last()) * 10 + digit_value(s.last())
    }
}

/// Ten to the given power.
pub open spec fn pow10(k: nat) -> int
    decreases k,
{
    if k == 0 {
        1
    } else {
        10 * pow10((k - 1) as nat)
    }
}

/// Whether position `i` splits an unsigned decimal text into a non-empty
/// digit run, a decimal point, and a non-empty fractional digit run.
pub open spec fn valid_point_split(s: Seq<char>, i: int) -> bool {
    &&& 1 <= i
    &&& i + 2 <= s.len()
    &&& s[i] == '.'
    &&& all_digits(s.subrange(0, i))
    &&& all_digits(s.subrange(i + 1, s.len() as int))
}

/// The count of millionths a fractional digit run denotes: the run is
/// zero-extended to six digits, and digits beyond the sixth are cut off.
pub open spec fn fraction_micros(f: Seq<char>) -> int {
    if f.len() >= 6 {
        digits_value(f.subrange(0, 6))
    } else {
        digits_value(f) * pow10((6 - f.len()) as nat)
    }
}

/// The count of millionths an unsigned decimal text denotes: either a plain
/// digit run, or a digit run, a point and a fractional digit run. Any other
/// shape denotes nothing.
pub open spec fn unsigned_micros(s: Seq<char>) -> Option<int> {
    if s.len() > 0 && all_digits(s) {
        Some(1000000 * digits_value(s))
    } else if exists|i: int| valid_point_split(s, i) {
        let i = choose|i: int| valid_point_split(s, i);
        Some(1000000 * digits_value(s.subrange(0, i)) + fraction_micros(
            s.subrange(i + 1, s.len() as int),
        ))
    } else {
        None
    }
}

/// The count of millionths a decimal text denotes, with an optional leading
/// minus sign.
pub open spec fn decimal_micros(s: Seq<char>) -> Option<int> {
    if s.len() > 0 && s[0] == '-' {
        match unsigned_micros(s.subrange(1, s.len() as int)) {
            Some(u) => Some(-u),
            None => None,
        }
    } else {
        unsigned_micros(s)
    }
}

/// A decimal text with any leading minus sign taken off.
pub open spec fn sign_stripped(s: Seq<char>) -> Seq<char> {
    if s.len() > 0 && s[0] == '-' {
        s.subrange(1, s.len() as int)
    } else {
        s
    }
}

/// The length of the whole-part digit run of a decimal text (past any minus
/// sign), where the text denotes a value.
pub open spec fn whole_digit_count(s: Seq<char>) -> int {
    let t = sign_stripped(s);
    if all_digits(t) {
        t.len() as int
    } else {
        choose|i: int| valid_point_split(t, i)
    }
}

/// Whether a decimal text is accepted by the native reader: it denotes a
/// value, and its whole part has at most twelve digits, so the value is sure
/// to fit the native millionths range.
pub open spec fn parse_accepted(s: Seq<char>) -> bool {
    decimal_micros(s) is Some && whole_digit_count(s) <= 12
}

/// Ten to a power never shrinks as the power grows.
pub proof fn lemma_pow10_increases(a: nat, b: nat)
    requires
        a <= b,
    ensures
        pow10(a) <= pow10(b),
    decreases b,
{
    if a < b {
        lemma_pow10_increases(a, (b - 1) as nat);
        assert(pow10((b - 1) as nat) >= 1) by {
            lemma_pow10_increases(0, (b - 1) as nat);
        }
    }
}

/// Ten to a sum of powers is the product of the powers.
pub proof fn lemma_pow10_adds(a: nat, b: nat)
    ensures
        pow10(a + b) == pow10(a) * pow10(b),
    decreases a,
{
    if a == 0 {
    } else {
        lemma_pow10_adds((a - 1) as nat, b);
        assert(10 * (pow10((a - 1) as nat) * pow10(b)) == (10 * pow10((a - 1) as nat)) * pow10(
            b,
        )) by (nonlinear_arith);
    }
}

/// A decimal point splits a text in at most one valid place.
pub proof fn lemma_point_split_unique(s: Seq<char>, i: int, j: int)
    requires
        valid_point_split(s, i),
        valid_point_split(s, j),
    ensures
        i == j,
{
    if i < j {
        assert(is_digit(s.subrange(0, j)[i]));
        assert(!is_digit('.'));
    }
    if j < i {
        assert(is_digit(s.subrange(0, i)[j]));
        assert(!is_digit('.'));
    }
}

/// A text whose leading digit run (past any sign) is longer than twelve
/// digits is not accepted: any value it denotes has too long a whole part.
proof fn lemma_whole_part_long(s: Seq<char>, t: Seq<char>, count: int)
    requires
        t == sign_stripped(s),
        12 < count <= t.len(),
        forall|j: int| 0 <= j < count ==> is_digit(#[trigger] t[j]),
        count == t.len() || !is_digit(t[count]),
    ensures
        !parse_accepted(s),
{
    if all_digits(t) {
        assert(whole_digit_count(s) >= count);
    } else {
        if decimal_micros(s) is Some {
            assert(unsigned_micros(t) is Some);
            assert(exists|i: int| valid_point_split(t, i));
            let ci = choose|i: int| valid_point_split(t, i);
            assert(valid_point_split(t, ci));
            if ci < count {
                assert(is_digit(t[ci]));
                assert(!is_digit('.'));
            }
            if ci > count {
                if count == t.len() {
                    assert(all_digits(t));
                } else {
                    assert(is_digit(t.subrange(0, ci)[count]));
                }
            }
            assert(ci == count);
            assert(whole_digit_count(s) == count);
        }
    }
}

/// A text whose digit run (past any sign) ends at a character that is
/// neither a digit nor a decimal point denotes nothing.
proof fn lemma_no_point(s: Seq<char>, t: Seq<char>, count: int)
    requires
        t == sign_stripped(s),
        1 <= count < t.len(),
        forall|j: int| 0 <= j < count ==> is_digit(#[trigger] t[j]),
        !is_digit(t[count]),
        t[count] != '.',
    ensures
        !parse_accepted(s),
        decimal_micros(s) is None,
{
    assert(!all_digits(t));
    assert forall|i: int| !valid_point_split(t, i) by {
        if valid_point_split(t, i) {
            if i < count {
                assert(is_digit(t[i]));
                assert(!is_digit('.'));
            } else if i == count {
                assert(t[count] == '.');
            } else {
                assert(is_digit(t.subrange(0, i)[count]));
            }
        }
    }
    assert(unsigned_micros(t) is None);
}

/// A text that ends right after its decimal point denotes nothing.
proof fn lemma_empty_fraction(s: Seq<char>, t: Seq<char>, count: int)
    requires
        t == sign_stripped(s),
        1 <= count,
        t.len() == count + 1,
        forall|j: int| 0 <= j < count ==> is_digit(#[trigger] t[j]),
        t[count] == '.',
    ensures
        !parse_accepted(s),
        decimal_micros(s) is None,
{
    assert(!is_digit('.'));
    assert(!all_digits(t));
    assert forall|i: int| !valid_point_split(t, i) by {
        if valid_point_split(t, i) {
            if i < count {
                assert(is_digit(t[i]));
            } else {
                assert(i + 2 <= count + 1);
            }
        }
    }
    assert(unsigned_micros(t) is None);
}

/// A text with a non-digit inside its fraction denotes nothing.
proof fn lemma_fraction_junk(s: Seq<char>, t: Seq<char>, count: int, bad: int)
    requires
        t == sign_stripped(s),
        1 <= count,
        forall|j: int| 0 <= j < count ==> is_digit(#[trigger] t[j]),
        count < t.len(),
        t[count] == '.',
        count + 1 <= bad < t.len(),
        !is_digit(t[bad]),
    ensures
        !parse_accepted(s),
        decimal_micros(s) is None,
{
    assert(!is_digit('.'));
    assert(!all_digits(t));
    assert forall|i: int| !valid_point_split(t, i) by {
        if valid_point_split(t, i) {
            if i < count {
                assert(is_digit(t[i]));
            } else if i == count {
                assert(is_digit(t.subrange(count + 1, t.len() as int)[bad - count - 1]));
            } else {
                assert(is_digit(t.subrange(0, i)[count]));
            }
        }
    }
    assert(unsigned_micros(t) is None);
}

/// Every digit character is a digit, and reads back as its value.
proof fn lemma_digit_char_value(d: int)
    requires
        0 <= d < 10,
    ensures
        is_digit(digit_char(d)),
        digit_value(digit_char(d)) == d,
{
}

/// The digits of a natural number are digits and read back as the number.
proof fn lemma_spec_digits_value(n: nat)
    ensures
        all_digits(spec_digits(n)),
        digits_value(spec_digits(n)) == n,
        spec_digits(n).len() >= 1,
    decreases n,
{
    if n < 10 {
        lemma_digit_char_value(n as int);
        let s = spec_digits(n);
        assert(s.len() == 1);
        assert(s.last() == digit_char(n as int));
        assert(s.drop_last() =~= Seq::<char>::empty());
        assert(digits_value(Seq::<char>::empty()) == 0);
        assert(digits_value(s) == digits_value(s.drop_last()) * 10 + digit_value(s.last()));
        assert(digits_value(s) == n);
    } else {
        lemma_spec_digits_value(n / 10);
        lemma_digit_char_value((n % 10) as int);
        let s = spec_digits(n);
        assert(s.drop_last() =~= spec_digits(n / 10));
        assert(s.last() == digit_char((n % 10) as int));
        assert(digits_value(s) == digits_value(spec_digits(n / 10)) * 10 + digit_value(
            digit_char((n % 10) as int),
        ));
        vstd::arithmetic::div_mod::lemma_fundamental_div_mod(n as int, 10);
        assert(digits_value(s) == ((n / 10) as int) * 10 + (n % 10) as int);
        assert forall|i: int| 0 <= i < s.len() implies is_digit(#[trigger] s[i]) by {
            if i < s.len() - 1 {
                assert(s[i] == spec_digits(n / 10)[i]);
            }
        }
    }
}

/// A number below ten to the `k` has at most `k` digits.
proof fn lemma_spec_digits_len(n: nat, k: nat)
    requires
        1 <= k,
        n < pow10(k),
    ensures
        spec_digits(n).len() <= k,
    decreases n,
{
    if n < 10 {
    } else {
        assert(pow10(k) == 10 * pow10((k - 1) as nat));
        if k == 1 {
            assert(pow10(1) == 10) by {
                reveal_with_fuel(pow10, 2);
            }
        }
        assert(k >= 2);
        assert(n / 10 < pow10((k - 1) as nat)) by {
            vstd::arithmetic::div_mod::lemma_fundamental_div_mod(n as int, 10);
        }
        lemma_spec_digits_len(n / 10, (k - 1) as nat);
    }
}

/// The zero-padded digits of a number below ten to the `width` are digits,
/// have exactly that width, and read back as the number.
proof fn lemma_spec_padded_digits_value(n: nat, width: nat)
    requires
        n < pow10(width),
    ensures
        all_digits(spec_padded_digits(n, width)),
        spec_padded_digits(n, width).len() == width,
        digits_value(spec_padded_digits(n, width)) == n,
    decreases width,
{
    if width == 0 {
        assert(n == 0);
    } else {
        assert(pow10(width) == 10 * pow10((width - 1) as nat));
        vstd::arithmetic::div_mod::lemma_fundamental_div_mod(n as int, 10);
        assert(n / 10 < pow10((width - 1) as nat));
        lemma_spec_padded_digits_value(n / 10, (width - 1) as nat);
        lemma_digit_char_value((n % 10) as int);
        let s = spec_padded_digits(n, width);
        assert(s.drop_last() =~= spec_padded_digits(n / 10, (width - 1) as nat));
        assert forall|i: int| 0 <= i < s.len() implies is_digit(#[trigger] s[i]) by {
            if i < s.len() - 1 {
                assert(s[i] == spec_padded_digits(n / 10, (width - 1) as nat)[i]);
            }
        }
    }
}

/// Law: a quantity's canonical decimal text is accepted by the native
/// reader, and reads back as exactly the same quantity, for every quantity
/// whose whole part has at most twelve digits.
pub proof fn lemma_decimal_round_trip(d: Dec)
    requires
        -1000000000000000000 < d.micros < 1000000000000000000,
    ensures
        parse_accepted(d.chars()),
        decimal_micros(d.chars()) == Some(d.micros as int),
{
    let m = d.micros as int;
    let u: nat = if m < 0 {
        (-m) as nat
    } else {
        m as nat
    };
    let whole = u / 1000000;
    let frac = u % 1000000;
    vstd::arithmetic::div_mod::lemma_fundamental_div_mod(u as int, 1000000);
    assert(pow10(6) == 1000000) by {
        reveal_with_fuel(pow10, 7);
    }
    assert(pow10(12) == 1000000000000) by {
        reveal_with_fuel(pow10, 13);
    }
    lemma_spec_digits_value(whole);
    lemma_spec_digits_len(whole, 12);
    lemma_spec_padded_digits_value(frac, 6);
    let a = spec_digits(whole);
    let f = spec_padded_digits(frac, 6);
    let t = spec_unsigned_dec_chars(u);
    let i = a.len() as int;
    assert(t.subrange(0, i) =~= a);
    assert(t[i] == '.');
    assert(t.subrange(i + 1, t.len() as int) =~= f);
    assert(valid_point_split(t, i));
    assert(!all_digits(t)) by {
        assert(!is_digit(t[i]));
    }
    let ci = choose|j: int| valid_point_split(t, j);
    lemma_point_split_unique(t, ci, i);
    assert(fraction_micros(f) == frac) by {
        assert(f.subrange(0, 6) =~= f);
    }
    assert(unsigned_micros(t) == Some(1000000 * (whole as int) + (frac as int)));
    assert(1000000 * (whole as int) + (frac as int) == u as int);
    if m < 0 {
        assert(d.chars() == seq!['-'] + t);
        assert(d.chars()[0] == '-');
        assert(sign_stripped(d.chars()) =~= t);
        assert(decimal_micros(d.chars()) == Some(-(u as int)));
        assert(whole_digit_count(d.chars()) == i);
    } else {
        assert(d.chars() == t);
        assert(t.len() > 0);
        assert(t[0] != '-') by {
            assert(is_digit(t.subrange(0, i)[0]));
        }
        assert(sign_stripped(d.chars()) == t);
        assert(decimal_micros(d.chars()) == Some(u as int));
        assert(whole_digit_count(d.chars()) == i);
    }
}

/// Reads one character as a decimal digit.
fn digit_of(c: char) -> (r: Option<u64>)
    ensures
        r is Some <==> is_digit(c),
        r matches Some(v) ==> v == digit_value(c) && v < 10,
{
    if c >= '0' && c <= '9' {
        Some(((c as u32) - ('0' as u32)) as u64)
    } else {
        None
    }
}

/// Ten to a small power, natively.
fn pow10_u64(k: usize) -> (r: u64)
    requires
        k <= 6,
    ensures
        r as int == pow10(k as nat),
{
    proof {
        reveal_with_fuel(pow10, 8);
    }
    if k == 0 {
        1
    } else if k == 1 {
        10
    } else if k == 2 {
        100
    } else if k == 3 {
        1000
    } else if k == 4 {
        10000
    } else if k == 5 {
        100000
    } else {
        1000000
    }
}

impl Dec {
    /// Reads a quantity back from decimal text, in the form the foreign
    /// runtime prints fractional values: an optional minus sign, a whole
    /// part, and optionally a point and a fraction. Fractional digits beyond
    /// the sixth are cut off. A text of any other shape, or one whose whole
    /// part runs past twelve digits, is a number-format fault; exponent
    /// notation in particular is not accepted.
    #[verifier::rlimit(100)]
    pub fn parse_decimal_text(s: &str) -> (r: Result<Dec, ForeignCallError>)
        ensures
            r matches Ok(d) ==> decimal_micros(s@) == Some(d.micros as int),
            r is Ok <==> parse_accepted(s@),
    {
        let n = s.unicode_len();
        let neg = if n > 0 {
            s.get_char(0) == '-'
        } else {
            false
        };
        let start: usize = if neg {
            1
        } else {
            0
        };
        let ghost t: Seq<char> = s@.subrange(start as int, n as int);
        proof {
            if !neg {
                assert(t =~= s@);
            }
            assert(t == sign_stripped(s@));
        }
        // Scan the whole-part digit run.
        let mut end: usize = start;
        loop
            invariant
                start <= end <= n,
                n == s@.len(),
                start == (if neg { 1int } else { 0int }),
                neg ==> n > 0 && s@[0] == '-',
                !neg ==> (n == 0 || s@[0] != '-'),
                t == s@.subrange(start as int, n as int),
                forall|j: int| start <= j < end ==> is_digit(#[trigger] s@[j]),
            ensures
                start <= end <= n,
                forall|j: int| start <= j < end ==> is_digit(#[trigger] s@[j]),
                end == n || !is_digit(s@[end as int]),
            decreases n - end,
        {
            if end == n {
                break ;
            }
            let c = s.get_char(end);
            if digit_of(c).is_none() {
                break ;
            }
            end = end + 1;
        }
        let count = end - start;
        proof {
            assert(forall|j: int| 0 <= j < count ==> is_digit(#[trigger] t[j]));
        }
        if count == 0 {
            proof {
                if start < n {
                    assert(!is_digit(t[0]));
                    assert(!all_digits(t));
                    assert forall|i: int| !valid_point_split(t, i) by {
                        if valid_point_split(t, i) {
                            assert(is_digit(t.subrange(0, i)[0]));
                            assert(t.subrange(0, i)[0] == t[0]);
                        }
                    }
                } else {
                    assert(t.len() == 0);
                    assert(forall|i: int| !valid_point_split(t, i));
                }
                assert(unsigned_micros(t) is None);
                assert(decimal_micros(s@) is None);
            }
            return Err(ForeignCallError::NumberFormat);
        }
        if count > 12 {
            proof {
                lemma_whole_part_long(s@, t, count as int);
            }
            return Err(ForeignCallError::NumberFormat);
        }
        // Fold the whole-part digits into a value.
        let mut whole: u64 = 0;
        let mut k: usize = start;
        while k < end
            invariant
                start <= k <= end <= n,
                n == s@.len(),
                end - start <= 12,
                forall|j: int| start <= j < end ==> is_digit(#[trigger] s@[j]),
                whole as int == digits_value(s@.subrange(start as int, k as int)),
                (whole as int) < pow10((k - start) as nat),
            decreases end - k,
        {
            let c = s.get_char(k);
            let d = digit_of(c);
            proof {
                assert(is_digit(s@[k as int]));
                lemma_pow10_increases((k - start) as nat, 11);
                reveal_with_fuel(pow10, 13);
            }
            let dv = d.unwrap();
            let ghost before: Seq<char> = s@.subrange(start as int, k as int);
            whole = whole * 10 + dv;
            k = k + 1;
            proof {
                let now = s@.subrange(start as int, k as int);
                assert(now.drop_last() =~= before);
                assert(now.last() == s@[k - 1]);
            }
        }
        proof {
            lemma_pow10_increases(count as nat, 12);
            reveal_with_fuel(pow10, 13);
            assert(whole as int <= 999999999999);
        }
        if end == n {
            // A plain digit run: a whole number of units.
            let micros_u: u64 = whole * 1000000;
            let micros: i64 = if neg {
                -(micros_u as i64)
            } else {
                micros_u as i64
            };
            proof {
                assert(t =~= s@.subrange(start as int, end as int));
                assert(all_digits(t));
                assert(t.len() == count);
                assert(unsigned_micros(t) == Some(1000000 * digits_value(t)));
                assert(whole_digit_count(s@) == count);
            }
            return Ok(Dec { micros });
        }
        // A decimal point and a fraction must follow.
        let c = s.get_char(end);
        if c != '.' {
            proof {
                lemma_no_point(s@, t, count as int);
            }
            return Err(ForeignCallError::NumberFormat);
        }
        let fpos = end + 1;
        if fpos == n {
            // Nothing after the point.
            proof {
                lemma_empty_fraction(s@, t, count as int);
            }
            return Err(ForeignCallError::NumberFormat);
        }
        // Fold the fractional digits into a count of millionths, cutting off
        // past the sixth digit.
        let mut frac: u64 = 0;
        let mut taken: usize = 0;
        let mut k2: usize = fpos;
        loop
            invariant
                fpos <= k2 <= n,
                n == s@.len(),
                fpos == end + 1,
                end < n,
                taken == (if k2 - fpos < 6 { (k2 - fpos) as int } else { 6int }),
                forall|j: int| fpos <= j < k2 ==> is_digit(#[trigger] s@[j]),
                frac as int == digits_value(s@.subrange(fpos as int, fpos + taken as int)),
                (frac as int) < pow10(taken as nat),
            ensures
                fpos <= k2 <= n,
                taken == (if k2 - fpos < 6 { (k2 - fpos) as int } else { 6int }),
                forall|j: int| fpos <= j < k2 ==> is_digit(#[trigger] s@[j]),
                frac as int == digits_value(s@.subrange(fpos as int, fpos + taken as int)),
                (frac as int) < pow10(taken as nat),
                k2 == n || !is_digit(s@[k2 as int]),
            decreases n - k2,
        {
            if k2 == n {
                break ;
            }
            let c2 = s.get_char(k2);
            let d = digit_of(c2);
            if d.is_none() {
                break ;
            }
            let dv = d.unwrap();
            if taken < 6 {
                proof {
                    reveal_with_fuel(pow10, 8);
                    lemma_pow10_increases(taken as nat, 5);
                }
                let ghost before: Seq<char> = s@.subrange(fpos as int, fpos + taken as int);
                frac = frac * 10 + dv;
                taken = taken + 1;
                proof {
                    let now = s@.subrange(fpos as int, fpos + taken as int);
                    assert(now.drop_last() =~= before);
                    assert(now.last() == s@[fpos + taken - 1]);
                }
            }
            k2 = k2 + 1;
        }
        if k2 < n {
            // A non-digit inside the fraction.
            proof {
                lemma_fraction_junk(s@, t, count as int, k2 - start);
            }
            return Err(ForeignCallError::NumberFormat);
        }
        let scale: u64 = if taken < 6 {
            pow10_u64(6 - taken)
        } else {
            1
        };
        proof {
            lemma_pow10_adds(taken as nat, (6 - taken) as nat);
            reveal_with_fuel(pow10, 8);
            assert((frac as int) * (scale as int) < 1000000) by (nonlinear_arith)
                requires
                    (frac as int) < pow10(taken as nat),
                    scale as int == pow10((6 - taken) as nat),
                    pow10(taken as nat) * pow10((6 - taken) as nat) == 1000000,
                    scale as int >= 1,
            ;
        }
        let frac_scaled: u64 = frac * scale;
        let micros_u: u64 = whole * 1000000 + frac_scaled;
        let micros: i64 = if neg {
            -(micros_u as i64)
        } else {
            micros_u as i64
        };
        proof {
            let f = t.subrange(count as int + 1, t.len() as int);
            assert(f =~= s@.subrange(fpos as int, n as int));
            assert(valid_point_split(t, count as int)) by {
                assert(t.subrange(0, count as int) =~= s@.subrange(start as int, end as int));
                assert(t[count as int] == s@[end as int]);
            }
            let ci = choose|i: int| valid_point_split(t, i);
            lemma_point_split_unique(t, ci, count as int);
            assert(!all_digits(t)) by {
                assert(t[count as int] == '.');
                assert(!is_digit('.'));
            }
            if taken < 6 {
                assert(f.len() < 6);
                assert(f =~= s@.subrange(fpos as int, fpos + taken as int));
                assert(fraction_micros(f) == frac as int * scale as int);
            } else {
                assert(f.len() >= 6);
                assert(f.subrange(0, 6) =~= s@.subrange(fpos as int, fpos + 6int));
                assert(fraction_micros(f) == frac as int);
            }
            assert(unsigned_micros(t) == Some(
                1000000 * digits_value(t.subrange(0, count as int)) + fraction_micros(f),
            ));
            assert(t.subrange(0, count as int) =~= s@.subrange(start as int, end as int));
            assert(whole_digit_count(s@) == count);
        }
        Ok(Dec { micros })
    }

    /// Renders this quantity as its canonical decimal text, the form in which
    /// it crosses the foreign boundary.
    pub fn to_decimal_text(&self) -> (r: String)
        ensures
            r@ == self.chars(),
    {
        let mut out = String::new();
        let magnitude: u64 = if self.micros >= 0 {
            self.micros as u64
        } else {
            (-(self.micros as i128)) as u64
        };
        if self.micros < 0 {
            proof {
                reveal_strlit("-");
            }
            out.append("-");
            assert(out@ =~= seq!['-']);
        }
        let ghost prefix: Seq<char> = out@;
        append_digits(magnitude / 1000000, &mut out);
        proof {
            reveal_strlit(".");
        }
        out.append(".");
        append_padded_digits(magnitude % 1000000, 6, &mut out);
        proof {
            assert(out@ =~= prefix + spec_unsigned_dec_chars(magnitude as nat));
            if self.micros < 0 {
                assert(out@ =~= spec_dec_chars(self.micros as int));
            } else {
                assert(prefix =~= Seq::<char>::empty());
                assert(out@ =~= spec_dec_chars(self.micros as int));
            }
        }
        out
    }
}

} // verus!

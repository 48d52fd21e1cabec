//! Decimal text of the 128-bit identifiers the engine hands out: memory ids
//! and list cursors travel to and from callers as decimal strings.
use vstd::prelude::*;
use crate::text::string_push;

verus! {

/// An ASCII decimal digit.
pub open spec fn is_digit(c: char) -> bool {
    '0' <= c && c <= '9'
}

/// The value of a decimal digit character.
pub open spec fn digit_value(c: char) -> int {
    (c as int) - ('0' as int)
}

/// The digit character of a value below ten.
pub open spec fn digit_char(d: int) -> char {
    (d + ('0' as int)) as char
}

/// Every character of `s` is a decimal digit.
pub open spec fn all_digits(s: Seq<char>) -> bool {
    forall|i: int| 0 <= i < s.len() ==> is_digit(#[trigger] s[i])
}

/// The number that the digits `s` denote (most significant first).
pub open spec fn digits_value(s: Seq<char>) -> int
    decreases s.len(),
{
    if s.len() == 0 {
        0
    } else {
        10 * digits_value(s.drop_last()) + digit_value(s.last())
    }
}

/// The characters of `s` after one optional leading `+` sign.
pub open spec fn unsigned_part(s: Seq<char>) -> Seq<char> {
    if s.len() > 0 && s[0] == '+' {
        s.drop_first()
    } else {
        s
    }
}

/// What reading `s` as an unsigned 128-bit decimal gives: one optional `+`,
/// then at least one decimal digit and nothing else, denoting a number that
/// fits in a `u128`.  Leading zeros are allowed.  Anything else is `None`.
pub open spec fn decimal_u128(s: Seq<char>) -> Option<u128> {
    let d = unsigned_part(s);
    if d.len() > 0 && all_digits(d) && digits_value(d) <= u128::MAX {
        Some(digits_value(d) as u128)
    } else {
        None
    }
}

/// The canonical decimal text of `n`: no sign, no leading zero (but for zero
/// itself).
pub open spec fn decimal_text(n: nat) -> Seq<char>
    decreases n,
{
    if n < 10 {
        seq![digit_char(n as int)]
    } else {
        decimal_text(n / 10).push(digit_char((n % 10) as int))
    }
}

proof fn lemma_digits_value_nonneg(s: Seq<char>)
    requires
        all_digits(s),
    ensures
        digits_value(s) >= 0,
    decreases s.len(),
{
    if s.len() > 0 {
        assert(is_digit(s[s.len() - 1]));
        lemma_digits_value_nonneg(s.drop_last());
    }
}

/// A prefix of a string of digits never denotes more than the whole string.
proof fn lemma_prefix_value_le(s: Seq<char>, k: int)
    requires
        all_digits(s),
        0 <= k <= s.len(),
    ensures
        digits_value(s.subrange(0, k)) <= digits_value(s),
    decreases s.len(),
{
    if k < s.len() {
        let t = s.drop_last();
        assert(all_digits(t)) by {
            assert forall|i: int| 0 <= i < t.len() implies is_digit(#[trigger] t[i]) by {
                assert(t[i] == s[i]);
            }
        }
        assert(is_digit(s[s.len() - 1]));
        lemma_prefix_value_le(t, k);
        assert(t.subrange(0, k) =~= s.subrange(0, k));
        lemma_digits_value_nonneg(t);
    } else {
        assert(s.subrange(0, k) =~= s);
    }
}

proof fn lemma_digit_char_value(d: int)
    requires
        0 <= d < 10,
    ensures
        is_digit(digit_char(d)),
        digit_value(digit_char(d)) == d,
{
}

/// The canonical text is a non-empty string of digits, without a sign, that
/// denotes `n`.
proof fn lemma_decimal_text(n: nat)
    ensures
        decimal_text(n).len() > 0,
        all_digits(decimal_text(n)),
        decimal_text(n)[0] != '+',
        digits_value(decimal_text(n)) == n,
    decreases n,
{
    if n < 10 {
        lemma_digit_char_value(n as int);
        let t = decimal_text(n);
        assert(t.drop_last() =~= Seq::<char>::empty());
        assert(digits_value(t.drop_last()) == 0);
        assert(t.last() == digit_char(n as int));
    } else {
        let q = n / 10;
        let r = (n % 10) as int;
        lemma_decimal_text(q);
        lemma_digit_char_value(r);
        let t = decimal_text(n);
        assert(t.drop_last() =~= decimal_text(q));
        assert(t.last() == digit_char(r));
        assert(n == 10 * q + r) by (nonlinear_arith)
            requires q == n / 10, r == n % 10;
        assert(t[0] == decimal_text(q)[0]);
        assert forall|i: int| 0 <= i < t.len() implies is_digit(#[trigger] t[i]) by {
            if i < t.len() - 1 {
                assert(t[i] == decimal_text(q)[i]);
            }
        }
    }
}

/// Reading back the canonical text of any `u128` gives that number.
pub proof fn lemma_decimal_round_trip(n: u128)
    ensures
        decimal_u128(decimal_text(n as nat)) == Some(n),
{
    lemma_decimal_text(n as nat);
    assert(unsigned_part(decimal_text(n as nat)) == decimal_text(n as nat));
}

/// Reading decimal text character by character: the empty text and a lone
/// `+` read as nothing; a single digit reads as its value; and appending a
/// digit to text that reads as `v` gives `10 * v` plus the digit when that
/// fits in a `u128`, and nothing when it does not.
pub proof fn lemma_decimal_reading(s: Seq<char>, c: char)
    ensures
        decimal_u128(Seq::<char>::empty()) is None,
        decimal_u128(seq!['+']) is None,
        '0' <= c && c <= '9' ==> decimal_u128(seq![c]) == Some(((c as u32) - 48) as u128),
        '0' <= c && c <= '9' ==> (decimal_u128(s) matches Some(v) ==> decimal_u128(s.push(c)) == (
        if v * 10 + ((c as u32) - 48) <= u128::MAX {
            Some((v * 10 + ((c as u32) - 48)) as u128)
        } else {
            None
        })),
{
    assert(seq!['+'].drop_first() =~= Seq::<char>::empty());
    if '0' <= c && c <= '9' {
        let one = seq![c];
        assert(one.drop_last() =~= Seq::<char>::empty());
        assert(unsigned_part(one) == one);
        assert(all_digits(one));
        if let Some(v) = decimal_u128(s) {
            let d = unsigned_part(s);
            let t = s.push(c);
            let e = unsigned_part(t);
            if s[0] == '+' {
                assert(t[0] == '+');
                assert(e =~= d.push(c));
            } else {
                assert(t[0] == s[0]);
                assert(e =~= d.push(c));
            }
            assert(e.drop_last() =~= d);
            assert(e.last() == c);
            assert(all_digits(e)) by {
                assert forall|k: int| 0 <= k < e.len() implies is_digit(#[trigger] e[k]) by {
                    if k < d.len() {
                        assert(e[k] == d[k]);
                    }
                }
            }
            lemma_digits_value_nonneg(d);
            assert(v == digits_value(d));
            assert(digit_value(c) == (c as u32) - 48);
            assert(digits_value(e) == 10 * digits_value(d) + digit_value(c));
        }
    }
}

/// Text that reads as nothing (other than the empty text and a lone `+`)
/// still reads as nothing with a digit appended: once a value is too large
/// or a character is not a digit, no further digit mends it.
pub proof fn lemma_decimal_stays_unread(s: Seq<char>, c: char)
    requires
        decimal_u128(s) is None,
        s.len() > 0,
        s != seq!['+'],
        '0' <= c && c <= '9',
    ensures
        decimal_u128(s.push(c)) is None,
{
    let d = unsigned_part(s);
    let t = s.push(c);
    let e = unsigned_part(t);
    if s[0] == '+' {
        assert(t[0] == '+');
        if s.len() == 1 {
            assert(s =~= seq!['+']);
        }
    } else {
        assert(t[0] == s[0]);
    }
    assert(e =~= d.push(c));
    assert(e.drop_last() =~= d);
    if !all_digits(d) {
        let k = choose|k: int| 0 <= k < d.len() && !is_digit(#[trigger] d[k]);
        assert(e[k] == d[k]);
    } else {
        lemma_digits_value_nonneg(d);
    }
}

/// Text holding any character other than a decimal digit, beyond one
/// leading `+`, reads as nothing.
pub proof fn lemma_decimal_rejects(s: Seq<char>, i: int)
    requires
        0 <= i < s.len(),
        !('0' <= s[i] && s[i] <= '9'),
        !(i == 0 && s[i] == '+'),
    ensures
        decimal_u128(s) is None,
{
    let d = unsigned_part(s);
    if s[0] == '+' {
        assert(d[i - 1] == s[i]);
    } else {
        assert(d[i] == s[i]);
    }
}

/// One leading `+` changes nothing: `+t` reads as `t` does, for any `t` that
/// does not itself start with `+`.
pub proof fn lemma_decimal_plus(t: Seq<char>)
    requires
        t.len() > 0,
        t[0] != '+',
    ensures
        decimal_u128(seq!['+'] + t) == decimal_u128(t),
{
    let s = seq!['+'] + t;
    assert(s[0] == '+');
    assert(s.drop_first() =~= t);
}

proof fn lemma_decimal_text_first(n: nat)
    ensures
        n > 0 ==> decimal_text(n)[0] != '0',
    decreases n,
{
    if n >= 10 {
        lemma_decimal_text_first(n / 10);
        assert(decimal_text(n)[0] == decimal_text(n / 10)[0]);
    }
}

/// The text written for an id is its canonical decimal form: decimal digits
/// only, `0` for zero, and no leading zero otherwise.
pub proof fn lemma_decimal_text_canonical(n: u128)
    ensures
        decimal_text(n as nat).len() > 0,
        forall|i: int|
            0 <= i < decimal_text(n as nat).len() ==> '0' <= #[trigger] decimal_text(n as nat)[i]
                && decimal_text(n as nat)[i] <= '9',
        n == 0 ==> decimal_text(n as nat) == seq!['0'],
        n > 0 ==> decimal_text(n as nat)[0] != '0',
{
    lemma_decimal_text(n as nat);
    lemma_decimal_text_first(n as nat);
    if n == 0 {
        assert(decimal_text(0) =~= seq!['0']);
    }
    assert forall|i: int| 0 <= i < decimal_text(n as nat).len() implies '0'
        <= #[trigger] decimal_text(n as nat)[i] && decimal_text(n as nat)[i] <= '9' by {
        assert(is_digit(decimal_text(n as nat)[i]));
    }
}

/// Two different `u128` values never share their canonical text.
pub proof fn lemma_decimal_text_injective(a: u128, b: u128)
    requires
        a != b,
    ensures
        decimal_text(a as nat) != decimal_text(b as nat),
{
    lemma_decimal_round_trip(a);
    lemma_decimal_round_trip(b);
}

/// The characters of `s`, in order.
pub(crate) fn chars_of(s: &str) -> (v: Vec<char>)
    ensures
        v@ == s@,
{
    let mut v: Vec<char> = Vec::new();
    for c in it: s.chars()
        invariant
            v@ == it.seq().subrange(0, it.index() as int),
    {
        v.push(c);
    }
    proof {
        broadcast use vstd::string::group_string_axioms;
    }
    v
}

/// Reads `s` as an unsigned 128-bit decimal number, accepting what `u128`'s
/// `FromStr` accepts: an optional `+`, then one or more ASCII digits whose
/// value fits in a `u128`.
pub fn parse_u128(s: &str) -> (r: Option<u128>)
    ensures
        r == decimal_u128(s@),
{
    let v = chars_of(s);
    let n = v.len();
    let mut start: usize = 0;
    if n > 0 && v[0] == '+' {
        start = 1;
    }
    let ghost d = unsigned_part(s@);
    assert(d =~= v@.subrange(start as int, n as int));
    if start >= n {
        return None;
    }
    let mut i: usize = start;
    let mut acc: u128 = 0;
    while i < n
        invariant
            start <= i <= n,
            n == v@.len(),
            v@ == s@,
            d == unsigned_part(s@),
            d == v@.subrange(start as int, n as int),
            all_digits(v@.subrange(start as int, i as int)),
            acc as int == digits_value(v@.subrange(start as int, i as int)),
        decreases n - i,
    {
        let c = v[i];
        assert(d[i - start] == c);
        assert(d.subrange(0, i - start) =~= v@.subrange(start as int, i as int));
        if !('0' <= c && c <= '9') {
            assert(!is_digit(d[i - start]));
            return None;
        }
        let ghost prefix = v@.subrange(start as int, i + 1);
        assert(prefix.drop_last() =~= v@.subrange(start as int, i as int));
        assert(prefix.last() == c);
        let dv: u128 = ((c as u32) - 48) as u128;
        match acc.checked_mul(10) {
            None => {
                proof {
                    lemma_overflow_is_none(d, (i - start + 1) as int);
                }
                return None;
            },
            Some(m) => match m.checked_add(dv) {
                None => {
                    proof {
                        lemma_overflow_is_none(d, (i - start + 1) as int);
                    }
                    return None;
                },
                Some(next) => {
                    acc = next;
                },
            },
        }
        proof {
            assert forall|j: int| 0 <= j < prefix.len() implies is_digit(#[trigger] prefix[j]) by {
                if j < prefix.len() - 1 {
                    assert(prefix[j] == v@.subrange(start as int, i as int)[j]);
                }
            }
        }
        i = i + 1;
    }
    assert(v@.subrange(start as int, n as int) == d);
    Some(acc)
}

/// When some prefix of the digit part denotes more than `u128::MAX`, the
/// whole text reads as `None`.
proof fn lemma_overflow_is_none(d: Seq<char>, k: int)
    requires
        0 < k <= d.len(),
        all_digits(d.subrange(0, k - 1)),
        is_digit(d[k - 1]),
        10 * digits_value(d.subrange(0, k - 1)) + digit_value(d[k - 1]) > u128::MAX,
    ensures
        !(d.len() > 0 && all_digits(d) && digits_value(d) <= u128::MAX),
{
    if all_digits(d) {
        let p = d.subrange(0, k);
        assert(p.drop_last() =~= d.subrange(0, k - 1));
        lemma_prefix_value_le(d, k);
    }
}

/// One decimal digit character.
fn digit_to_char(d: u128) -> (c: char)
    requires
        d < 10,
    ensures
        c == digit_char(d as int),
{
    let b: u8 = (d as u8) + 48;
    b as char
}

/// The canonical decimal text of `n`, as `u128`'s `Display` writes it.
pub fn format_u128(n: u128) -> (r: String)
    ensures
        r@ == decimal_text(n as nat),
    decreases n,
{
    if n < 10 {
        let mut s = String::new();
        string_push(&mut s, digit_to_char(n));
        assert(s@ =~= decimal_text(n as nat));
        s
    } else {
        let mut s = format_u128(n / 10);
        string_push(&mut s, digit_to_char(n % 10));
        s
    }
}

} // verus!

//! Decimal text: rendering unsigned integers and parsing them back, the way
//! `Display` and `FromStr` of the unsigned integer types do, and splitting
//! text at a separator.

use vstd::prelude::*;

verus! {

/// The ASCII digit for a value below ten.
pub open spec fn digit_char(d: nat) -> char {
    if d == 0 {
        '0'
    } else if d == 1 {
        '1'
    } else if d == 2 {
        '2'
    } else if d == 3 {
        '3'
    } else if d == 4 {
        '4'
    } else if d == 5 {
        '5'
    } else if d == 6 {
        '6'
    } else if d == 7 {
        '7'
    } else if d == 8 {
        '8'
    } else {
        '9'
    }
}

/// Decimal rendering of `n`: no sign, no leading zeros (`0` renders as "0").
pub open spec fn decimal(n: nat) -> Seq<char>
    decreases n,
{
    if n < 10 {
        seq![digit_char(n)]
    } else {
        decimal(n / 10).push(digit_char(n % 10))
    }
}

fn digit_str(d: u64) -> (s: &'static str)
    requires
        d < 10,
    ensures
        s@ == seq![digit_char(d as nat)],
{
    proof {
        reveal_strlit("0");
        reveal_strlit("1");
        reveal_strlit("2");
        reveal_strlit("3");
        reveal_strlit("4");
        reveal_strlit("5");
        reveal_strlit("6");
        reveal_strlit("7");
        reveal_strlit("8");
        reveal_strlit("9");
    }
    if d == 0 {
        "0"
    } else if d == 1 {
        "1"
    } else if d == 2 {
        "2"
    } else if d == 3 {
        "3"
    } else if d == 4 {
        "4"
    } else if d == 5 {
        "5"
    } else if d == 6 {
        "6"
    } else if d == 7 {
        "7"
    } else if d == 8 {
        "8"
    } else {
        "9"
    }
}

/// Renders `n` in decimal.
pub fn decimal_string(n: u64) -> (s: String)
    ensures
        s@ == decimal(n as nat),
    decreases n,
{
    if n < 10 {
        String::from_str(digit_str(n))
    } else {
        let head = decimal_string(n / 10);
        head.concat(digit_str(n % 10))
    }
}

/// Whether `c` is an ASCII decimal digit.
pub open spec fn is_digit(c: char) -> bool {
    '0' <= c && c <= '9'
}

/// The value of an ASCII decimal digit.
pub open spec fn digit_value(c: char) -> nat {
    (c as int - '0' as int) as nat
}

/// Whether every character of `s` is an ASCII decimal digit.
pub open spec fn all_digits(s: Seq<char>) -> bool {
    forall|i: int| 0 <= i < s.len() ==> #[trigger] is_digit(s[i])
}

/// The number that the digits `s` denote, most significant first.
pub open spec fn digits_value(s: Seq<char>) -> nat
    decreases s.len(),
{
    if s.len() == 0 {
        0
    } else {
        digits_value(s.drop_last()) * 10 + digit_value(s.last())
    }
}

/// The digits of an unsigned number's text: the text without one leading
/// `+`, if it has one.
pub open spec fn unsigned_digits(s: Seq<char>) -> Seq<char> {
    if s.len() > 0 && s[0] == '+' {
        s.drop_first()
    } else {
        s
    }
}

/// The value of `s` read as an unsigned decimal number no greater than
/// `max`, as `FromStr` of the unsigned integer types reads it: an optional
/// `+`, then one or more ASCII digits, and nothing else; `None` when the
/// text is malformed or the value exceeds `max`.
pub open spec fn parse_unsigned(s: Seq<char>, max: nat) -> Option<nat> {
    let d = unsigned_digits(s);
    if d.len() > 0 && all_digits(d) && digits_value(d) <= max {
        Some(digits_value(d))
    } else {
        None
    }
}

proof fn lemma_digits_prefix_le(s: Seq<char>, k: int)
    requires
        all_digits(s),
        0 <= k <= s.len(),
    ensures
        digits_value(s.take(k)) <= digits_value(s),
    decreases s.len(),
{
    if k < s.len() {
        let t = s.drop_last();
        assert(all_digits(t)) by {
            assert forall|i: int| 0 <= i < t.len() implies #[trigger] is_digit(t[i]) by {
                assert(is_digit(s[i]));
            }
        }
        lemma_digits_prefix_le(t, k);
        assert(t.take(k) =~= s.take(k));
    } else {
        assert(s.take(k) =~= s);
    }
}

proof fn lemma_digit_char(d: nat)
    requires
        d < 10,
    ensures
        is_digit(digit_char(d)),
        digit_value(digit_char(d)) == d,
        digit_char(d) != '+',
{
}

/// The decimal rendering of `n` reads back as `n`: it is a non-empty run of
/// ASCII digits, without a sign, whose value is `n`.
pub proof fn lemma_decimal_parses_back(n: nat, max: nat)
    requires
        n <= max,
    ensures
        decimal(n).len() > 0,
        all_digits(decimal(n)),
        digits_value(decimal(n)) == n,
        parse_unsigned(decimal(n), max) == Some(n),
    decreases n,
{
    lemma_digit_char(n % 10);
    if n < 10 {
        let d = decimal(n);
        assert(d.drop_last() =~= Seq::<char>::empty());
        assert(digits_value(d.drop_last()) == 0);
        assert(n % 10 == n);
    } else {
        lemma_decimal_parses_back(n / 10, max);
        let d = decimal(n);
        let h = decimal(n / 10);
        assert(d.drop_last() =~= h);
        assert(digits_value(d) == (n / 10) * 10 + n % 10);
        assert(all_digits(d)) by {
            assert forall|i: int| 0 <= i < d.len() implies #[trigger] is_digit(d[i]) by {
                if i < h.len() {
                    assert(d[i] == h[i]);
                }
            }
        }
    }
    assert(decimal(n)[0] != '+') by {
        assert(is_digit(decimal(n)[0]));
    }
}

/// Reads `s` as an unsigned decimal number no greater than `max`.
pub fn parse_decimal(s: &str, max: u64) -> (r: Option<u64>)
    ensures
        match parse_unsigned(s@, max as nat) {
            Some(v) => r == Some(v as u64),
            None => r is None,
        },
{
    let len = s.unicode_len();
    let start: usize = if len > 0 && s.get_char(0) == '+' {
        1
    } else {
        0
    };
    let ghost d = unsigned_digits(s@);
    assert(d =~= s@.subrange(start as int, len as int));
    if start == len {
        return None;
    }
    let mut acc: u64 = 0;
    let mut i: usize = start;
    while i < len
        invariant
            start <= i <= len,
            len == s@.len(),
            d == unsigned_digits(s@),
            d =~= s@.subrange(start as int, len as int),
            all_digits(d.take(i - start)),
            acc as nat == digits_value(d.take(i - start)),
            acc <= max,
        decreases len - i,
    {
        let c = s.get_char(i);
        let ghost k: int = i - start;
        assert(d[k] == c);
        if !('0' <= c && c <= '9') {
            assert(!all_digits(d)) by {
                assert(!is_digit(d[k]));
            }
            return None;
        }
        let digit: u64 = (c as u64) - ('0' as u64);
        assert(d.take(k + 1).drop_last() =~= d.take(k));
        assert(all_digits(d.take(k + 1))) by {
            assert forall|j: int| 0 <= j < k + 1 implies #[trigger] is_digit(d.take(k + 1)[j]) by {
                if j < k {
                    assert(d.take(k + 1)[j] == d.take(k)[j]);
                }
            }
        }
        if digit > max || acc > (max - digit) / 10 {
            proof {
                assert(digits_value(d.take(k + 1)) > max) by (nonlinear_arith)
                    requires
                        digits_value(d.take(k + 1)) == acc * 10 + digit,
                        digit > max || acc > (max - digit) / 10,
                        digit <= 9,
                {
                }
                if all_digits(d) {
                    lemma_digits_prefix_le(d, k + 1);
                }
            }
            return None;
        }
        assert(acc * 10 + digit <= max) by (nonlinear_arith)
            requires
                acc <= (max - digit) / 10,
                digit <= max,
        {
        }
        acc = acc * 10 + digit;
        i = i + 1;
    }
    assert(d.take(len - start) =~= d);
    Some(acc)
}

/// Where `s` has exactly one `sep`: at index `k`, and nowhere else.
pub open spec fn only_separator_at(s: Seq<char>, sep: char, k: int) -> bool {
    &&& 0 <= k < s.len()
    &&& s[k] == sep
    &&& forall|j: int| 0 <= j < s.len() && j != k ==> s[j] != sep
}

/// The two parts of `s` around its only `sep`, which is what splitting `s`
/// at `sep` yields when it yields exactly two parts; `None` when `s` holds
/// no `sep` or more than one.
pub open spec fn split_in_two(s: Seq<char>, sep: char) -> Option<(Seq<char>, Seq<char>)> {
    if exists|k: int| only_separator_at(s, sep, k) {
        let k = choose|k: int| only_separator_at(s, sep, k);
        Some((s.take(k), s.skip(k + 1)))
    } else {
        None
    }
}

/// Splitting at the only separator gives the text before it and the text
/// after it, neither holding the separator; and two parts without the
/// separator, joined by it, split back into those parts.
pub proof fn lemma_split_in_two_parts(s: Seq<char>, sep: char, a: Seq<char>, b: Seq<char>)
    ensures
        split_in_two(s, sep) matches Some((x, y)) ==> s =~= x + seq![sep] + y && (forall|i: int|
            0 <= i < x.len() ==> x[i] != sep) && (forall|i: int| 0 <= i < y.len() ==> y[i] != sep),
        (forall|i: int| 0 <= i < a.len() ==> a[i] != sep) && (forall|i: int|
            0 <= i < b.len() ==> b[i] != sep) ==> split_in_two(a + seq![sep] + b, sep) == Some((a, b)),
{
    if split_in_two(s, sep) is Some {
        let k = choose|k: int| only_separator_at(s, sep, k);
        let x = s.take(k);
        let y = s.skip(k + 1);
        assert(s =~= x + seq![sep] + y);
        assert forall|i: int| 0 <= i < x.len() implies x[i] != sep by {
            assert(x[i] == s[i]);
        }
        assert forall|i: int| 0 <= i < y.len() implies y[i] != sep by {
            assert(y[i] == s[i + k + 1]);
        }
    }
    if (forall|i: int| 0 <= i < a.len() ==> a[i] != sep) && (forall|i: int|
        0 <= i < b.len() ==> b[i] != sep) {
        let t = a + seq![sep] + b;
        let k = a.len() as int;
        assert forall|j: int| 0 <= j < t.len() && j != k implies t[j] != sep by {
            if j > k {
                assert(t[j] == b[j - k - 1]);
            } else {
                assert(t[j] == a[j]);
            }
        }
        assert(only_separator_at(t, sep, k));
        let c = choose|m: int| only_separator_at(t, sep, m);
        assert(c == k);
        assert(t.take(k) =~= a);
        assert(t.skip(k + 1) =~= b);
    }
}

/// Splits `s` at `sep` when it holds exactly one `sep`.
pub fn split_once_only<'a>(s: &'a str, sep: char) -> (r: Option<(&'a str, &'a str)>)
    ensures
        match split_in_two(s@, sep) {
            Some((a, b)) => r matches Some((x, y)) && x@ == a && y@ == b,
            None => r is None,
        },
{
    let len = s.unicode_len();
    let mut first: Option<usize> = None;
    let mut i: usize = 0;
    while i < len
        invariant
            0 <= i <= len,
            len == s@.len(),
            match first {
                None => forall|j: int| 0 <= j < i ==> s@[j] != sep,
                Some(k) => k < i && s@[k as int] == sep && forall|j: int|
                    0 <= j < i && j != k ==> s@[j] != sep,
            },
        decreases len - i,
    {
        if s.get_char(i) == sep {
            match first {
                None => {
                    first = Some(i);
                },
                Some(k) => {
                    proof {
                        assert forall|m: int| !only_separator_at(s@, sep, m) by {
                            if only_separator_at(s@, sep, m) {
                                assert(m == k as int || s@[k as int] != sep);
                                assert(m == i as int || s@[i as int] != sep);
                            }
                        }
                    }
                    return None;
                },
            }
        }
        i = i + 1;
    }
    match first {
        None => {
            proof {
                assert forall|m: int| !only_separator_at(s@, sep, m) by {
                    if 0 <= m < s@.len() {
                        assert(s@[m] != sep);
                    }
                }
            }
            None
        },
        Some(k) => {
            proof {
                assert(only_separator_at(s@, sep, k as int));
                let c = choose|m: int| only_separator_at(s@, sep, m);
                assert(c == k as int || s@[k as int] != sep);
            }
            let a = s.substring_char(0, k);
            let b = s.substring_char(k + 1, len);
            assert(a@ =~= s@.take(k as int));
            assert(b@ =~= s@.skip(k + 1));
            Some((a, b))
        },
    }
}

} // verus!

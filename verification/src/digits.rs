//! Decimal text: rendering unsigned numbers as digit strings and
//! parsing optionally signed decimal numerals, both against spec-level
//! definitions of the decimal notation.

use vstd::prelude::*;

verus! {

/// The digit character for a value below ten.
pub open spec fn digit_char(d: int) -> char {
    if d == 0 {
        '0'
    } else if d == 1 {
        '1'
    } else if d == 2 {
        '2'
    } else if d == 3 {
        '3'
    } else if d == 4 {
        '4'
    } else if d == 5 {
        '5'
    } else if d == 6 {
        '6'
    } else if d == 7 {
        '7'
    } else if d == 8 {
        '8'
    } else {
        '9'
    }
}

/// The usual decimal notation of `n`, most significant digit first,
/// with no sign and no leading zero except for `n == 0` itself.
pub open spec fn spec_digits(n: nat) -> Seq<char>
    decreases n,
{
    if n < 10 {
        seq![digit_char(n as int)]
    } else {
        spec_digits(n / 10) + seq![digit_char((n % 10) as int)]
    }
}

/// Whether `c` is a decimal digit.
pub open spec fn is_digit(c: char) -> bool {
    '0' as int <= c as int <= '9' as int
}

/// The numeric value of a digit character.
pub open spec fn digit_val(c: char) -> int {
    c as int - '0' as int
}

/// Whether every character of `s` is a decimal digit.
pub open spec fn all_digits(s: Seq<char>) -> bool {
    forall|i: int| 0 <= i < s.len() ==> is_digit(s[i])
}

/// The value of a digit string read in base ten, most significant
/// digit first; the empty string reads as zero.
pub open spec fn digits_val(s: Seq<char>) -> int
    decreases s.len(),
{
    if s.len() == 0 {
        0
    } else {
        digits_val(s.drop_last()) * 10 + digit_val(s.last())
    }
}

/// A digit string never reads as a negative value.
pub proof fn lemma_digits_val_nonneg(s: Seq<char>)
    requires
        all_digits(s),
    ensures
        digits_val(s) >= 0,
    decreases s.len(),
{
    if s.len() > 0 {
        assert(all_digits(s.drop_last()));
        lemma_digits_val_nonneg(s.drop_last());
    }
}

/// Reading one more digit never shrinks the value: the value of a
/// prefix is at most the value of the whole digit string.
pub proof fn lemma_digits_val_prefix(s: Seq<char>, i: int)
    requires
        all_digits(s),
        0 <= i <= s.len(),
    ensures
        digits_val(s.subrange(0, i)) <= digits_val(s),
    decreases s.len() - i,
{
    if i < s.len() {
        let p = s.subrange(0, i);
        let q = s.subrange(0, i + 1);
        assert(q.drop_last() =~= p);
        assert(all_digits(p)) by {
            assert(forall|k: int| 0 <= k < p.len() ==> p[k] == s[k]);
        }
        lemma_digits_val_nonneg(p);
        assert(digits_val(q) == digits_val(p) * 10 + digit_val(q.last()));
        assert(digits_val(p) * 10 >= digits_val(p)) by {
            assert(digits_val(p) * 10 == digits_val(p) + digits_val(p) * 9);
            assert(digits_val(p) * 9 >= 0);
        }
        assert(is_digit(s[i]));
        lemma_digits_val_prefix(s, i + 1);
    } else {
        assert(s.subrange(0, i) =~= s);
    }
}

/// The one-character string for a digit value.
fn digit_str(d: u64) -> (r: &'static str)
    requires
        d < 10,
    ensures
        r@ =~= seq![digit_char(d as int)],
{
    proof {
        reveal_strlit("0");
        reveal_strlit("1");
        reveal_strlit("2");
        reveal_strlit("3");
        reveal_strlit("4");
        reveal_strlit("5");
        reveal_strlit("6");
        reveal_strlit("7");
        reveal_strlit("8");
        reveal_strlit("9");
    }
    match d {
        0 => "0",
        1 => "1",
        2 => "2",
        3 => "3",
        4 => "4",
        5 => "5",
        6 => "6",
        7 => "7",
        8 => "8",
        _ => "9",
    }
}

/// A numeral with the optional leading plus sign removed.
pub open spec fn strip_plus(s: Seq<char>) -> Seq<char> {
    if s.len() > 0 && s[0] == '+' {
        s.subrange(1, s.len() as int)
    } else {
        s
    }
}

/// What parsing a decimal `u64` numeral yields: the digits after an
/// optional `+`, rejected when empty, non-numeric or above `u64::MAX`.
pub open spec fn spec_parse_u64(s: Seq<char>) -> Option<u64> {
    let t = strip_plus(s);
    if t.len() > 0 && all_digits(t) && digits_val(t) <= u64::MAX {
        Some(digits_val(t) as u64)
    } else {
        None
    }
}

/// What parsing a decimal `i64` numeral yields: the digits after an
/// optional `+` or `-`, rejected when empty, non-numeric or out of the
/// `i64` range.
pub open spec fn spec_parse_i64(s: Seq<char>) -> Option<i64> {
    if s.len() > 0 && s[0] == '-' {
        let t = s.subrange(1, s.len() as int);
        if t.len() > 0 && all_digits(t) && -digits_val(t) >= i64::MIN {
            Some((-digits_val(t)) as i64)
        } else {
            None
        }
    } else {
        let t = strip_plus(s);
        if t.len() > 0 && all_digits(t) && digits_val(t) <= i64::MAX {
            Some(digits_val(t) as i64)
        } else {
            None
        }
    }
}

/// Reads the digits of `s` from position `from` on, accepting exactly
/// a non-empty all-digit tail whose value is at most `bound`.
fn parse_digits_bounded(s: &str, from: usize, bound: u64) -> (r: Option<u64>)
    requires
        from <= s@.len(),
    ensures
        ({
            let t = s@.subrange(from as int, s@.len() as int);
            match r {
                Some(v) => t.len() > 0 && all_digits(t) && digits_val(t) == v && v <= bound,
                None => !(t.len() > 0 && all_digits(t) && digits_val(t) <= bound),
            }
        }),
{
    let ghost t = s@.subrange(from as int, s@.len() as int);
    let n = s.unicode_len();
    if from >= n {
        return None;
    }
    let mut i = from;
    let mut acc: u64 = 0;
    while i < n
        invariant
            from <= i <= n,
            n == s@.len(),
            from < n,
            t == s@.subrange(from as int, s@.len() as int),
            forall|k: int| from <= k < i ==> is_digit(s@[k]),
            acc == digits_val(s@.subrange(from as int, i as int)),
            acc <= bound,
        decreases n - i,
    {
        let c = s.get_char(i);
        let cv = c as u32;
        let ghost pre = s@.subrange(from as int, i as int);
        let ghost cur = s@.subrange(from as int, i as int + 1);
        proof {
            assert(cur.drop_last() =~= pre);
            assert(forall|k: int| 0 <= k < pre.len() ==> pre[k] == s@[from + k]);
        }
        if cv < 48 || cv > 57 {
            proof {
                assert(t[i - from] == s@[i as int]);
                assert(!is_digit(t[i - from]));
            }
            return None;
        }
        let d = (cv - 48) as u64;
        assert(is_digit(s@[i as int]) && digit_val(s@[i as int]) == d);
        let wide: u128 = (acc as u128) * 10 + (d as u128);
        if wide > bound as u128 {
            proof {
                assert(digits_val(cur) == digits_val(pre) * 10 + digit_val(cur.last()));
                if all_digits(t) {
                    assert(cur =~= t.subrange(0, i - from + 1));
                    assert(all_digits(cur)) by {
                        assert(forall|k: int| 0 <= k < cur.len() ==> cur[k] == t[k]);
                    }
                    lemma_digits_val_prefix(t, i - from + 1);
                }
            }
            return None;
        }
        acc = wide as u64;
        proof {
            assert(digits_val(cur) == digits_val(pre) * 10 + digit_val(cur.last()));
        }
        i = i + 1;
    }
    proof {
        assert(s@.subrange(from as int, i as int) =~= t);
        assert(forall|k: int| 0 <= k < t.len() ==> t[k] == s@[from + k]);
    }
    Some(acc)
}

/// Parses a decimal `u64` numeral, exactly as `spec_parse_u64`
/// describes.
pub fn parse_u64(s: &str) -> (r: Option<u64>)
    ensures
        r == spec_parse_u64(s@),
{
    let n = s.unicode_len();
    if n > 0 && s.get_char(0) == '+' {
        let r = parse_digits_bounded(s, 1, u64::MAX);
        assert(strip_plus(s@) =~= s@.subrange(1, s@.len() as int));
        r
    } else {
        let r = parse_digits_bounded(s, 0, u64::MAX);
        assert(strip_plus(s@) =~= s@.subrange(0, s@.len() as int));
        r
    }
}

/// Parses a decimal `i64` numeral, exactly as `spec_parse_i64`
/// describes.
pub fn parse_i64(s: &str) -> (r: Option<i64>)
    ensures
        r == spec_parse_i64(s@),
{
    let n = s.unicode_len();
    if n > 0 && s.get_char(0) == '-' {
        let neg_bound: u64 = 9223372036854775808;
        match parse_digits_bounded(s, 1, neg_bound) {
            Some(v) => {
                if v == neg_bound {
                    Some(i64::MIN)
                } else {
                    Some(-(v as i64))
                }
            },
            None => None,
        }
    } else if n > 0 && s.get_char(0) == '+' {
        let r = match parse_digits_bounded(s, 1, i64::MAX as u64) {
            Some(v) => Some(v as i64),
            None => None,
        };
        assert(strip_plus(s@) =~= s@.subrange(1, s@.len() as int));
        r
    } else {
        let r = match parse_digits_bounded(s, 0, i64::MAX as u64) {
            Some(v) => Some(v as i64),
            None => None,
        };
        assert(strip_plus(s@) =~= s@.subrange(0, s@.len() as int));
        r
    }
}

/// Renders `n` in decimal, exactly as `spec_digits` describes.
pub fn u64_to_string(n: u64) -> (s: String)
    ensures
        s@ == spec_digits(n as nat),
    decreases n,
{
    if n < 10 {
        let s = digit_str(n).to_owned();
        assert(s@ =~= spec_digits(n as nat));
        s
    } else {
        let mut s = u64_to_string(n / 10);
        s.append(digit_str(n % 10));
        assert(s@ =~= spec_digits(n as nat));
        s
    }
}

} // verus!

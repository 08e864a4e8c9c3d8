//! Scalar attribute text: decimal integers and the numeric literals that
//! carry money amounts. An amount is kept as its validated raw text, so the
//! exact broker-reported figure is preserved.

use vstd::prelude::*;

verus! {

/// `c` is an ASCII decimal digit.
pub open spec fn is_digit(c: char) -> bool {
    48 <= (c as u32) && (c as u32) <= 57
}

/// The numeric value of a digit.
pub open spec fn digit_val(c: char) -> int {
    (c as u32) - 48
}

/// Every character of `s` is a decimal digit.
pub open spec fn all_digits(s: Seq<char>) -> bool {
    forall|i: int| 0 <= i < s.len() ==> is_digit(#[trigger] s[i])
}

/// The value of a string of decimal digits, most significant first.
pub open spec fn digits_val(s: Seq<char>) -> int
    decreases s.len(),
{
    if s.len() == 0 {
        0
    } else {
        digits_val(s.subrange(0, s.len() - 1)) * 10 + digit_val(s[s.len() - 1])
    }
}

pub proof fn lemma_digits_val_nonneg(s: Seq<char>)
    requires
        all_digits(s),
    ensures
        digits_val(s) >= 0,
    decreases s.len(),
{
    if s.len() > 0 {
        assert(all_digits(s.subrange(0, s.len() - 1)));
        lemma_digits_val_nonneg(s.subrange(0, s.len() - 1));
    }
}

/// A digit string is worth at least any of its prefixes.
pub proof fn lemma_digits_val_prefix(s: Seq<char>, k: int)
    requires
        all_digits(s),
        0 <= k <= s.len(),
    ensures
        digits_val(s.subrange(0, k)) <= digits_val(s),
    decreases s.len(),
{
    if k < s.len() {
        let front = s.subrange(0, s.len() - 1);
        assert(all_digits(front));
        assert(front.subrange(0, k) =~= s.subrange(0, k));
        lemma_digits_val_prefix(front, k);
        lemma_digits_val_nonneg(front);
    } else {
        assert(s.subrange(0, k) =~= s);
    }
}

/// Integer text with an optional leading `+` sign stripped.
pub open spec fn sign_stripped(s: Seq<char>) -> Seq<char> {
    if s.len() > 0 && s[0] == '+' {
        s.subrange(1, s.len() as int)
    } else {
        s
    }
}

/// What `u32` text denotes: an optional `+` sign, then at least one digit,
/// in range. `None` where the text is not such a literal.
pub open spec fn spec_parse_u32(s: Seq<char>) -> Option<int> {
    let body = sign_stripped(s);
    if body.len() > 0 && all_digits(body) && digits_val(body) <= u32::MAX {
        Some(digits_val(body))
    } else {
        None
    }
}

/// Parses decimal `u32` text: an optional `+` sign, then digits.
pub fn parse_u32(s: &str) -> (r: Option<u32>)
    ensures
        match r {
            Some(v) => spec_parse_u32(s@) == Some(v as int),
            None => spec_parse_u32(s@) is None,
        },
{
    let n = s.unicode_len();
    let start: usize = if n > 0 && s.get_char(0) == '+' {
        1
    } else {
        0
    };
    let ghost body = sign_stripped(s@);
    proof {
        assert(body =~= s@.subrange(start as int, n as int));
    }
    if start == n {
        return None;
    }
    let mut acc: u64 = 0;
    let mut i: usize = start;
    while i < n
        invariant
            start <= i <= n,
            n == s@.len(),
            body == sign_stripped(s@),
            body =~= s@.subrange(start as int, n as int),
            all_digits(s@.subrange(start as int, i as int)),
            acc == digits_val(s@.subrange(start as int, i as int)),
            acc <= u32::MAX,
        decreases n - i,
    {
        let c = s.get_char(i);
        let cu = c as u32;
        let ghost pre = s@.subrange(start as int, i as int);
        let ghost cur = s@.subrange(start as int, (i as int) + 1);
        assert(cur.subrange(0, cur.len() - 1) =~= pre);
        assert(cur[cur.len() - 1] == s@[i as int]);
        if cu < 48 || cu > 57 {
            assert(body[(i - start) as int] == s@[i as int]);
            assert(!all_digits(body));
            return None;
        }
        proof {
            assert(all_digits(cur)) by {
                assert(forall|j: int| 0 <= j < cur.len() - 1 ==> cur[j] == pre[j]);
            }
        }
        acc = acc * 10 + ((cu - 48) as u64);
        assert(acc == digits_val(cur));
        if acc > 0xffff_ffff {
            proof {
                if all_digits(body) {
                    assert(cur =~= body.subrange(0, (i as int) + 1 - start));
                    lemma_digits_val_prefix(body, (i as int) + 1 - start);
                }
            }
            return None;
        }
        i = i + 1;
    }
    assert(s@.subrange(start as int, n as int) =~= body);
    Some(acc as u32)
}

/// First index at or after `i` that does not hold a digit.
pub open spec fn skip_digits(s: Seq<char>, i: int) -> int
    decreases s.len() - i,
{
    if i < 0 || i >= s.len() {
        i
    } else if is_digit(s[i]) {
        skip_digits(s, i + 1)
    } else {
        i
    }
}

/// A valid exponent suffix begins at `k`: `e` or `E`, an optional sign, then
/// digits running to the end of the text.
pub open spec fn is_exponent(s: Seq<char>, k: int) -> bool {
    &&& 0 <= k < s.len()
    &&& (s[k] == 'e' || s[k] == 'E')
    &&& {
        let j = if k + 1 < s.len() && (s[k + 1] == '+' || s[k + 1] == '-') {
            k + 2
        } else {
            k + 1
        };
        j < s.len() && skip_digits(s, j) == s.len()
    }
}

/// Where a mantissa (digits, with at most one point, holding at least one
/// digit) beginning at `p` ends; `None` where none begins there.
pub open spec fn mantissa_end(s: Seq<char>, p: int) -> Option<int> {
    let d1 = skip_digits(s, p);
    if d1 > p {
        if d1 < s.len() && s[d1] == '.' {
            Some(skip_digits(s, d1 + 1))
        } else {
            Some(d1)
        }
    } else if 0 <= p < s.len() && s[p] == '.' && skip_digits(s, p + 1) > p + 1 {
        Some(skip_digits(s, p + 1))
    } else {
        None
    }
}

/// The text from `p` on is a decimal number: a mantissa, then optionally an
/// exponent, with nothing trailing.
pub open spec fn is_number(s: Seq<char>, p: int) -> bool {
    match mantissa_end(s, p) {
        Some(m) => m == s.len() || is_exponent(s, m),
        None => false,
    }
}

/// `a` is `b` (a lower-case letter) up to ASCII case.
pub open spec fn ci_eq(a: char, b: char) -> bool {
    a == b || (a as u32) + 32 == (b as u32)
}

/// The text from `p` on reads `inf`, `infinity` or `nan`, in any case.
pub open spec fn is_special(s: Seq<char>, p: int) -> bool {
    ||| (s.len() - p == 3 && ci_eq(s[p], 'i') && ci_eq(s[p + 1], 'n') && ci_eq(s[p + 2], 'f'))
    ||| (s.len() - p == 8 && ci_eq(s[p], 'i') && ci_eq(s[p + 1], 'n') && ci_eq(s[p + 2], 'f')
        && ci_eq(s[p + 3], 'i') && ci_eq(s[p + 4], 'n') && ci_eq(s[p + 5], 'i')
        && ci_eq(s[p + 6], 't') && ci_eq(s[p + 7], 'y'))
    ||| (s.len() - p == 3 && ci_eq(s[p], 'n') && ci_eq(s[p + 1], 'a') && ci_eq(s[p + 2], 'n'))
}

/// The numeric-literal grammar of amount text: an optional sign, then either
/// a special value (`inf`, `infinity`, `nan`) or a decimal number.
pub open spec fn is_float_literal(s: Seq<char>) -> bool {
    let p: int = if s.len() > 0 && (s[0] == '+' || s[0] == '-') {
        1
    } else {
        0
    };
    p < s.len() && (is_special(s, p) || is_number(s, p))
}

fn ci_eq_exec(a: char, b: char) -> (r: bool)
    ensures
        r == ci_eq(a, b),
{
    a == b || (a as u32) + 32 == (b as u32)
}

fn skip_digits_exec(s: &str, n: usize, i: usize) -> (r: usize)
    requires
        n == s@.len(),
        i <= n,
    ensures
        r == skip_digits(s@, i as int),
        i <= r <= n,
{
    let mut j: usize = i;
    while j < n
        invariant
            i <= j <= n,
            n == s@.len(),
            skip_digits(s@, i as int) == skip_digits(s@, j as int),
        decreases n - j,
    {
        let c = s.get_char(j);
        let cu = c as u32;
        if cu < 48 || cu > 57 {
            return j;
        }
        j = j + 1;
    }
    j
}

fn check_special(s: &str, n: usize, p: usize) -> (r: bool)
    requires
        n == s@.len(),
        p < n,
    ensures
        r == is_special(s@, p as int),
{
    if n - p == 3 {
        let c0 = s.get_char(p);
        let c1 = s.get_char(p + 1);
        let c2 = s.get_char(p + 2);
        (ci_eq_exec(c0, 'i') && ci_eq_exec(c1, 'n') && ci_eq_exec(c2, 'f')) || (ci_eq_exec(c0, 'n')
            && ci_eq_exec(c1, 'a') && ci_eq_exec(c2, 'n'))
    } else if n - p == 8 {
        let c0 = s.get_char(p);
        let c1 = s.get_char(p + 1);
        let c2 = s.get_char(p + 2);
        let c3 = s.get_char(p + 3);
        let c4 = s.get_char(p + 4);
        let c5 = s.get_char(p + 5);
        let c6 = s.get_char(p + 6);
        let c7 = s.get_char(p + 7);
        ci_eq_exec(c0, 'i') && ci_eq_exec(c1, 'n') && ci_eq_exec(c2, 'f') && ci_eq_exec(c3, 'i')
            && ci_eq_exec(c4, 'n') && ci_eq_exec(c5, 'i') && ci_eq_exec(c6, 't') && ci_eq_exec(
            c7,
            'y',
        )
    } else {
        false
    }
}

/// Decides the numeric-literal grammar on a string.
pub fn check_float(s: &str) -> (r: bool)
    ensures
        r == is_float_literal(s@),
{
    let n = s.unicode_len();
    let p: usize = if n > 0 && {
        let c = s.get_char(0);
        c == '+' || c == '-'
    } {
        1
    } else {
        0
    };
    if p >= n {
        return false;
    }
    if check_special(s, n, p) {
        return true;
    }
    let d1 = skip_digits_exec(s, n, p);
    let m: usize;
    if d1 > p {
        if d1 < n && s.get_char(d1) == '.' {
            m = skip_digits_exec(s, n, d1 + 1);
        } else {
            m = d1;
        }
    } else if s.get_char(p) == '.' {
        let q = skip_digits_exec(s, n, p + 1);
        if q > p + 1 {
            m = q;
        } else {
            return false;
        }
    } else {
        return false;
    }
    if m == n {
        return true;
    }
    let c = s.get_char(m);
    if !(c == 'e' || c == 'E') {
        return false;
    }
    let j: usize = if m + 1 < n && {
        let c2 = s.get_char(m + 1);
        c2 == '+' || c2 == '-'
    } {
        m + 2
    } else {
        m + 1
    };
    j < n && skip_digits_exec(s, n, j) == n
}

/// A money amount, kept as the exact numeric text the broker reported.
#[derive(Debug, PartialEq, Eq, Clone)]
pub struct Amount {
    text: String,
}

impl View for Amount {
    type V = Seq<char>;

    closed spec fn view(&self) -> Seq<char> {
        self.text@
    }
}

impl DeepView for Amount {
    type V = Seq<char>;

    open spec fn deep_view(&self) -> Seq<char> {
        self.view()
    }
}

impl Amount {
    /// Wraps `text` where it is numeric-literal text; rejects anything else.
    pub fn new(text: String) -> (r: Option<Amount>)
        ensures
            match r {
                Some(a) => is_float_literal(text@) && a@ == text@,
                None => !is_float_literal(text@),
            },
    {
        if check_float(text.as_str()) {
            Some(Amount { text })
        } else {
            None
        }
    }

    /// The raw numeric text.
    pub fn as_str(&self) -> (r: &str)
        ensures
            r@ == self@,
    {
        self.text.as_str()
    }
}

} // verus!

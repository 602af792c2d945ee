use vstd::prelude::*;

verus! {

// ---------------------------------------------------------------------------
// The textual forms in which console variables are written to and read from
// the configuration file.
// ---------------------------------------------------------------------------

pub open spec fn digit_char(d: int) -> char {
    ((d + 48) as u8) as char
}

pub open spec fn is_digit(c: char) -> bool {
    '0' <= c <= '9'
}

pub open spec fn digit_value(c: char) -> int {
    (c as int) - 48
}

/// The decimal digits of `n`, most significant first, without leading zeros.
pub open spec fn nat_text(n: nat) -> Seq<char>
    decreases n,
{
    if n < 10 {
        seq![digit_char(n as int)]
    } else {
        nat_text(n / 10) + seq![digit_char((n % 10) as int)]
    }
}

/// What `i64::to_string` writes: an optional minus sign, then the decimal digits.
pub open spec fn int_text(i: int) -> Seq<char> {
    if i < 0 {
        seq!['-'] + nat_text((-i) as nat)
    } else {
        nat_text(i as nat)
    }
}

pub open spec fn all_digits(s: Seq<char>) -> bool {
    forall|k: int| 0 <= k < s.len() ==> is_digit(#[trigger] s[k])
}

/// The number written by a string of decimal digits.
pub open spec fn digits_value(s: Seq<char>) -> nat
    decreases s.len(),
{
    if s.len() == 0 {
        0
    } else {
        (digits_value(s.drop_last()) * 10 + digit_value(s.last())) as nat
    }
}

/// What `str::parse::<i64>` accepts: an optional sign, at least one decimal
/// digit, and a value that fits in an `i64`.
pub open spec fn parse_i64_text(s: Seq<char>) -> Option<i64> {
    if s.len() > 0 && (s[0] == '-' || s[0] == '+') {
        let rest = s.skip(1);
        if rest.len() > 0 && all_digits(rest) {
            let v: int = if s[0] == '-' {
                -digits_value(rest)
            } else {
                digits_value(rest) as int
            };
            if i64::MIN <= v <= i64::MAX {
                Some(v as i64)
            } else {
                None
            }
        } else {
            None
        }
    } else if s.len() > 0 && all_digits(s) && digits_value(s) <= i64::MAX {
        Some(digits_value(s) as i64)
    } else {
        None
    }
}

pub open spec fn bool_text(b: bool) -> Seq<char> {
    if b {
        seq!['t', 'r', 'u', 'e']
    } else {
        seq!['f', 'a', 'l', 's', 'e']
    }
}

/// What `str::parse::<bool>` accepts: exactly `true` or `false`.
pub open spec fn parse_bool_text(s: Seq<char>) -> Option<bool> {
    if s == bool_text(true) {
        Some(true)
    } else if s == bool_text(false) {
        Some(false)
    } else {
        None
    }
}

/// A string value is written between double quotes.
pub open spec fn quoted_text(s: Seq<char>) -> Seq<char> {
    seq!['"'] + s + seq!['"']
}

pub open spec fn is_ascii_char(c: char) -> bool {
    (c as int) < 128
}

/// A string value is read back by dropping its first and last characters,
/// which must be one byte each so that the cut falls between characters.
pub open spec fn unquote_ok(s: Seq<char>) -> bool {
    s.len() >= 2 && is_ascii_char(s[0]) && is_ascii_char(s[s.len() - 1])
}

pub open spec fn unquote_text(s: Seq<char>) -> Seq<char> {
    s.subrange(1, s.len() - 1)
}

// ---------------------------------------------------------------------------
// Lemmas.
// ---------------------------------------------------------------------------

proof fn lemma_digit_char(d: int)
    requires
        0 <= d < 10,
    ensures
        is_digit(digit_char(d)),
        digit_value(digit_char(d)) == d,
{
}

pub(crate) proof fn lemma_nat_text(n: nat)
    ensures
        nat_text(n).len() > 0,
        all_digits(nat_text(n)),
        digits_value(nat_text(n)) == n,
        nat_text(n)[0] != '-' && nat_text(n)[0] != '+',
    decreases n,
{
    lemma_digit_char((n % 10) as int);
    if n < 10 {
        let s = nat_text(n);
        assert(s.drop_last() =~= Seq::<char>::empty());
        assert(digits_value(s.drop_last()) == 0);
        assert(s.last() == digit_char(n as int));
    } else {
        lemma_nat_text(n / 10);
        let s = nat_text(n);
        assert(s.drop_last() =~= nat_text(n / 10));
        assert(s.last() == digit_char((n % 10) as int));
        assert forall|k: int| 0 <= k < s.len() implies is_digit(#[trigger] s[k]) by {
            if k < s.len() - 1 {
                assert(s[k] == nat_text(n / 10)[k]);
            }
        }
        assert(s[0] == nat_text(n / 10)[0]);
        assert(digits_value(s) == digits_value(nat_text(n / 10)) * 10 + digit_value(s.last()));
        assert((n / 10) * 10 + n % 10 == n);
    }
}

/// Writing a whole number and reading it back gives the number again.
pub proof fn lemma_int_text_roundtrip(i: i64)
    ensures
        parse_i64_text(int_text(i as int)) == Some(i),
{
    if i < 0 {
        let n = (-(i as int)) as nat;
        lemma_nat_text(n);
        let s = int_text(i as int);
        assert(s.skip(1) =~= nat_text(n));
    } else {
        lemma_nat_text(i as nat);
    }
}

proof fn lemma_digits_value_prefix(s: Seq<char>, k: int)
    requires
        all_digits(s),
        0 <= k <= s.len(),
    ensures
        digits_value(s.take(k)) <= digits_value(s),
    decreases s.len() - k,
{
    if k < s.len() {
        lemma_digits_value_prefix(s, k + 1);
        let t = s.take(k + 1);
        assert(t.drop_last() =~= s.take(k));
        assert(is_digit(s[k]));
        assert(t.last() == s[k]);
    } else {
        assert(s.take(k) =~= s);
    }
}

// ---------------------------------------------------------------------------
// Executable conversions.
// ---------------------------------------------------------------------------

/// Appends one character: `String::push`.
#[verifier::external_body]
pub(crate) fn push_char(s: &mut String, c: char)
    ensures
        final(s)@ == old(s)@.push(c),
{
    s.push(c);
}

/// Writes a whole number in decimal, as `i64::to_string` does.
pub fn int_to_text(i: i64) -> (s: String)
    ensures
        s@ == int_text(i as int),
{
    let mut s = String::new();
    let neg = i < 0;
    let m0: u64 = if neg {
        (0i128 - (i as i128)) as u64
    } else {
        i as u64
    };
    if neg {
        push_char(&mut s, '-');
    }
    let mut rev: Vec<char> = Vec::new();
    let mut m: u64 = m0;
    if m == 0 {
        rev.push('0');
        proof {
            assert(nat_text(0) =~= seq!['0']);
            assert(rev@.reverse() =~= seq!['0']);
        }
    } else {
        while m > 0
            invariant
                m0 > 0,
                nat_text(m0 as nat) == (if m == 0 {
                    Seq::<char>::empty()
                } else {
                    nat_text(m as nat)
                }) + rev@.reverse(),
            decreases m,
        {
            let d = (m % 10) as u8;
            let c = (d + 48) as char;
            let ghost old_rev = rev@;
            rev.push(c);
            proof {
                assert(rev@.reverse() =~= seq![c] + old_rev.reverse());
                assert(c == digit_char((m % 10) as int));
                if m < 10 {
                    assert(m / 10 == 0);
                } else {
                    assert(nat_text(m as nat) == nat_text((m / 10) as nat) + seq![
                        digit_char((m % 10) as int),
                    ]);
                }
            }
            m = m / 10;
        }
    }
    let ghost digits = rev@.reverse();
    proof {
        assert(digits =~= nat_text(m0 as nat));
    }
    let ghost prefix = s@;
    let mut k: usize = rev.len();
    while k > 0
        invariant
            k <= rev@.len(),
            digits == rev@.reverse(),
            s@ == prefix + digits.subrange(0, (rev@.len() - k) as int),
        decreases k,
    {
        k = k - 1;
        push_char(&mut s, rev[k]);
        proof {
            assert(digits[(rev@.len() - 1 - k) as int] == rev@[k as int]);
            assert(digits.subrange(0, (rev@.len() - k) as int) =~= digits.subrange(
                0,
                (rev@.len() - k - 1) as int,
            ).push(rev@[k as int]));
        }
    }
    proof {
        assert(digits.subrange(0, rev@.len() as int) =~= digits);
        if neg {
            assert(prefix =~= seq!['-']);
            assert((-(i as int)) as nat == m0 as nat);
        } else {
            assert(prefix =~= Seq::<char>::empty());
        }
    }
    s
}

/// Reads a whole number as `str::parse::<i64>` does; `None` where that fails.
pub fn text_to_int(s: &str) -> (r: Option<i64>)
    ensures
        r == parse_i64_text(s@),
{
    let n = s.unicode_len();
    if n == 0 {
        return None;
    }
    let first = s.get_char(0);
    let start: usize = if first == '-' || first == '+' {
        1
    } else {
        0
    };
    if start == n {
        proof {
            assert(s@.skip(1).len() == 0);
        }
        return None;
    }
    let ghost body = s@.skip(start as int);
    proof {
        if start == 0 {
            assert(body =~= s@);
        }
    }
    let bound: u128 = 9223372036854775808;
    let mut acc: u128 = 0;
    let mut k: usize = start;
    while k < n
        invariant
            n == s@.len(),
            start <= k <= n,
            start == 0 || start == 1,
            start == 1 <==> (first == '-' || first == '+'),
            first == s@[0],
            bound == 9223372036854775808,
            start == 0 ==> body == s@,
            body == s@.skip(start as int),
            acc <= bound,
            all_digits(body.take(k - start)),
            acc == digits_value(body.take(k - start)),
        decreases n - k,
    {
        let c = s.get_char(k);
        if !('0' <= c && c <= '9') {
            proof {
                assert(body[k - start] == c);
                assert(!is_digit(body[k - start]));
            }
            return None;
        }
        let ghost pre = body.take(k - start);
        assert(48 <= c as int <= 57);
        acc = acc * 10 + (c as u128 - 48);
        proof {
            let t = body.take(k + 1 - start);
            assert(t.drop_last() =~= pre);
            assert(t.last() == c);
            assert forall|j: int| 0 <= j < t.len() implies is_digit(#[trigger] t[j]) by {
                if j < t.len() - 1 {
                    assert(t[j] == pre[j]);
                }
            }
        }
        k = k + 1;
        if acc > bound {
            proof {
                if all_digits(body) {
                    lemma_digits_value_prefix(body, k - start);
                }
            }
            return None;
        }
    }
    proof {
        assert(body.take(n - start) =~= body);
    }
    if first == '-' {
        if acc == bound {
            Some(-9223372036854775807i64 - 1)
        } else {
            Some(0i64 - (acc as i64))
        }
    } else if acc == bound {
        None
    } else {
        Some(acc as i64)
    }
}

pub fn bool_to_text(b: bool) -> (s: String)
    ensures
        s@ == bool_text(b),
{
    if b {
        proof {
            reveal_strlit("true");
        }
        String::from_str("true")
    } else {
        proof {
            reveal_strlit("false");
        }
        String::from_str("false")
    }
}

/// Reads `true` or `false` as `str::parse::<bool>` does; `None` for anything else.
pub fn text_to_bool(s: &str) -> (r: Option<bool>)
    ensures
        r == parse_bool_text(s@),
{
    let n = s.unicode_len();
    if n == 4 && s.get_char(0) == 't' && s.get_char(1) == 'r' && s.get_char(2) == 'u'
        && s.get_char(3) == 'e' {
        proof {
            assert(s@ =~= bool_text(true));
        }
        Some(true)
    } else if n == 5 && s.get_char(0) == 'f' && s.get_char(1) == 'a' && s.get_char(2) == 'l'
        && s.get_char(3) == 's' && s.get_char(4) == 'e' {
        proof {
            assert(s@ =~= bool_text(false));
        }
        Some(false)
    } else {
        proof {
            if s@ == bool_text(true) {
                assert(s@[3] == 'e');
            }
            if s@ == bool_text(false) {
                assert(s@[4] == 'e');
            }
        }
        None
    }
}

/// Writes a string value between double quotes.
pub fn quote(text: &str) -> (s: String)
    ensures
        s@ == quoted_text(text@),
{
    let mut s = String::new();
    push_char(&mut s, '"');
    s.append(text);
    push_char(&mut s, '"');
    proof {
        assert(s@ =~= quoted_text(text@));
    }
    s
}

/// Drops the first and the last character.
pub fn unquote(text: &str) -> (s: String)
    requires
        unquote_ok(text@),
    ensures
        s@ == unquote_text(text@),
{
    let mut s = String::new();
    let n = text.unicode_len();
    s.append(text.substring_char(1, n - 1));
    proof {
        assert(s@ =~= unquote_text(text@));
    }
    s
}

/// Quoting and unquoting give the string back.
pub proof fn lemma_quote_roundtrip(s: Seq<char>)
    ensures
        unquote_ok(quoted_text(s)),
        unquote_text(quoted_text(s)) == s,
{
    let q = quoted_text(s);
    assert(q[0] == '"');
    assert(q[q.len() - 1] == '"');
    assert(unquote_text(q) =~= s);
}

/// Writing a truth value and reading it back gives the value again.
pub proof fn lemma_bool_text_roundtrip(b: bool)
    ensures
        parse_bool_text(bool_text(b)) == Some(b),
{
    if !b {
        assert(bool_text(false) != bool_text(true)) by {
            assert(bool_text(false).len() != bool_text(true).len());
        }
    }
}

/// Whether two texts are equal, character by character.
pub fn text_eq(a: &str, b: &str) -> (r: bool)
    ensures
        r == (a@ == b@),
{
    let n = a.unicode_len();
    if n != b.unicode_len() {
        return false;
    }
    let mut k: usize = 0;
    while k < n
        invariant
            n == a@.len(),
            n == b@.len(),
            k <= n,
            a@.take(k as int) == b@.take(k as int),
        decreases n - k,
    {
        if a.get_char(k) != b.get_char(k) {
            return false;
        }
        proof {
            assert(a@.take(k + 1) =~= a@.take(k as int).push(a@[k as int]));
            assert(b@.take(k + 1) =~= b@.take(k as int).push(b@[k as int]));
        }
        k = k + 1;
    }
    proof {
        assert(a@ =~= a@.take(n as int));
        assert(b@ =~= b@.take(n as int));
    }
    true
}

} // verus!

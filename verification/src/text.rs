use vstd::prelude::*;

verus! {

// ---------------------------------------------------------------------------
// Character classes
// ---------------------------------------------------------------------------

/// The decimal digits `'0'..='9'`.
pub open spec fn is_digit_char(c: char) -> bool {
    48 <= c as u32 && c as u32 <= 57
}

/// Numeric value of a decimal digit character.
pub open spec fn digit_val(c: char) -> int {
    c as u32 - 48
}

/// The digit character for a value in `0..=9`.
pub open spec fn digit_char(d: int) -> char {
    if d == 0 {
        '0'
    } else if d == 1 {
        '1'
    } else if d == 2 {
        '2'
    } else if d == 3 {
        '3'
    } else if d == 4 {
        '4'
    } else if d == 5 {
        '5'
    } else if d == 6 {
        '6'
    } else if d == 7 {
        '7'
    } else if d == 8 {
        '8'
    } else {
        '9'
    }
}

pub proof fn lemma_digit_char_val(d: int)
    requires
        0 <= d < 10,
    ensures
        is_digit_char(digit_char(d)),
        digit_val(digit_char(d)) == d,
{
}

pub proof fn lemma_digit_char_of_val(c: char)
    requires
        is_digit_char(c),
    ensures
        digit_char(digit_val(c)) == c,
{
}

/// The whitespace characters stripped by trimming: space, tab, and the
/// two line-ending characters.
pub open spec fn is_space_char(c: char) -> bool {
    c == ' ' || c == '\t' || c == '\r' || c == '\n'
}

pub open spec fn all_digits(s: Seq<char>) -> bool {
    forall|i: int| 0 <= i < s.len() ==> is_digit_char(#[trigger] s[i])
}

// ---------------------------------------------------------------------------
// Leading digit runs
// ---------------------------------------------------------------------------

/// Length of the longest prefix of `s` made of decimal digits.
pub open spec fn digit_run(s: Seq<char>) -> int
    decreases s.len(),
{
    if s.len() == 0 || !is_digit_char(s[0]) {
        0
    } else {
        1 + digit_run(s.skip(1))
    }
}

pub proof fn lemma_digit_run_bounds(s: Seq<char>)
    ensures
        0 <= digit_run(s) <= s.len(),
        forall|i: int| 0 <= i < digit_run(s) ==> is_digit_char(#[trigger] s[i]),
        digit_run(s) < s.len() ==> !is_digit_char(s[digit_run(s)]),
    decreases s.len(),
{
    if s.len() == 0 || !is_digit_char(s[0]) {
    } else {
        lemma_digit_run_bounds(s.skip(1));
        assert forall|i: int| 0 <= i < digit_run(s) implies is_digit_char(#[trigger] s[i]) by {
            if i > 0 {
                assert(is_digit_char(s.skip(1)[i - 1]));
            }
        }
        if digit_run(s) < s.len() {
            assert(s.skip(1)[digit_run(s) - 1] == s[digit_run(s)]);
        }
    }
}

/// A digit run is determined by any witness: `k` digits followed by the
/// end of the sequence or a non-digit.
pub proof fn lemma_digit_run_determined(s: Seq<char>, k: int)
    requires
        0 <= k <= s.len(),
        forall|i: int| 0 <= i < k ==> is_digit_char(#[trigger] s[i]),
        k == s.len() || !is_digit_char(s[k]),
    ensures
        digit_run(s) == k,
    decreases s.len(),
{
    if k == 0 {
    } else {
        assert(is_digit_char(s[0]));
        assert forall|i: int| 0 <= i < k - 1 implies is_digit_char(#[trigger] s.skip(1)[i]) by {
            assert(is_digit_char(s[i + 1]));
        }
        if k < s.len() {
            assert(s.skip(1)[k - 1] == s[k]);
        }
        lemma_digit_run_determined(s.skip(1), k - 1);
    }
}

// ---------------------------------------------------------------------------
// Decimal representation and parsing
// ---------------------------------------------------------------------------

/// Canonical decimal representation of a natural number.
pub open spec fn dec_rep(n: nat) -> Seq<char>
    decreases n,
{
    if n < 10 {
        seq![digit_char(n as int)]
    } else {
        dec_rep(n / 10).push(digit_char((n % 10) as int))
    }
}

/// Value of a sequence of decimal digits (most significant first).
pub open spec fn dec_parse(s: Seq<char>) -> int
    decreases s.len(),
{
    if s.len() == 0 {
        0
    } else {
        dec_parse(s.drop_last()) * 10 + digit_val(s.last())
    }
}

pub proof fn lemma_dec_parse_nonneg(s: Seq<char>)
    requires
        all_digits(s),
    ensures
        dec_parse(s) >= 0,
    decreases s.len(),
{
    if s.len() > 0 {
        assert(all_digits(s.drop_last()));
        lemma_dec_parse_nonneg(s.drop_last());
    }
}

/// The canonical representation is made of digits, is non-empty, never
/// starts with `'0'` unless it denotes zero, and parses back to its value.
pub proof fn lemma_dec_rep(n: nat)
    ensures
        dec_rep(n).len() >= 1,
        all_digits(dec_rep(n)),
        n > 0 ==> dec_rep(n)[0] != '0',
        dec_parse(dec_rep(n)) == n,
    decreases n,
{
    if n < 10 {
        lemma_digit_char_val(n as int);
        let r = dec_rep(n);
        assert(r.drop_last() =~= Seq::<char>::empty());
        assert(dec_parse(r.drop_last()) == 0);
        assert(r.last() == digit_char(n as int));
        assert(dec_parse(r) == digit_val(digit_char(n as int)));
    } else {
        lemma_dec_rep(n / 10);
        lemma_digit_char_val((n % 10) as int);
        let r = dec_rep(n / 10).push(digit_char((n % 10) as int));
        assert(dec_rep(n) == r);
        assert(r.drop_last() =~= dec_rep(n / 10));
        assert(r.last() == digit_char((n % 10) as int));
        assert(dec_parse(r) == dec_parse(dec_rep(n / 10)) * 10 + digit_val(
            digit_char((n % 10) as int),
        ));
        assert(dec_parse(r) == (n / 10) * 10 + (n % 10));
        assert((n / 10) * 10 + (n % 10) == n) by (nonlinear_arith);
        assert(r[0] == dec_rep(n / 10)[0]);
        assert forall|i: int| 0 <= i < r.len() implies is_digit_char(#[trigger] r[i]) by {
            if i < r.len() - 1 {
                assert(is_digit_char(dec_rep(n / 10)[i]));
            }
        }
    }
}

/// Two numbers with the same canonical representation are equal.
pub proof fn lemma_dec_rep_injective(a: nat, b: nat)
    requires
        dec_rep(a) == dec_rep(b),
    ensures
        a == b,
{
    lemma_dec_rep(a);
    lemma_dec_rep(b);
}

/// The digit string for one decimal digit value.
pub fn digit_str(d: u32) -> (r: &'static str)
    requires
        d < 10,
    ensures
        r@ =~= seq![digit_char(d as int)],
{
    if d == 0 {
        let s = "0";
        proof {
            reveal_strlit("0");
        }
        s
    } else if d == 1 {
        let s = "1";
        proof {
            reveal_strlit("1");
        }
        s
    } else if d == 2 {
        let s = "2";
        proof {
            reveal_strlit("2");
        }
        s
    } else if d == 3 {
        let s = "3";
        proof {
            reveal_strlit("3");
        }
        s
    } else if d == 4 {
        let s = "4";
        proof {
            reveal_strlit("4");
        }
        s
    } else if d == 5 {
        let s = "5";
        proof {
            reveal_strlit("5");
        }
        s
    } else if d == 6 {
        let s = "6";
        proof {
            reveal_strlit("6");
        }
        s
    } else if d == 7 {
        let s = "7";
        proof {
            reveal_strlit("7");
        }
        s
    } else if d == 8 {
        let s = "8";
        proof {
            reveal_strlit("8");
        }
        s
    } else {
        let s = "9";
        proof {
            reveal_strlit("9");
        }
        s
    }
}

/// Renders `n` in canonical decimal notation.
pub fn u64_to_dec(n: u64) -> (r: String)
    ensures
        r@ == dec_rep(n as nat),
    decreases n,
{
    if n < 10 {
        let r = String::from_str(digit_str(n as u32));
        proof {
            assert(r@ =~= dec_rep(n as nat));
        }
        r
    } else {
        let mut r = u64_to_dec(n / 10);
        r.append(digit_str((n % 10) as u32));
        proof {
            assert(r@ =~= dec_rep(n as nat));
        }
        r
    }
}

/// Renders `n` in canonical decimal notation.
pub fn u32_to_dec(n: u32) -> (r: String)
    ensures
        r@ == dec_rep(n as nat),
{
    u64_to_dec(n as u64)
}

// ---------------------------------------------------------------------------
// Trimming and quote stripping
// ---------------------------------------------------------------------------

/// `s` with its leading whitespace removed.
pub open spec fn ltrimmed(s: Seq<char>) -> Seq<char>
    decreases s.len(),
{
    if s.len() > 0 && is_space_char(s[0]) {
        ltrimmed(s.skip(1))
    } else {
        s
    }
}

/// `s` with its trailing whitespace removed.
pub open spec fn rtrimmed(s: Seq<char>) -> Seq<char>
    decreases s.len(),
{
    if s.len() > 0 && is_space_char(s.last()) {
        rtrimmed(s.drop_last())
    } else {
        s
    }
}

/// `s` with whitespace removed from both ends.
pub open spec fn trimmed(s: Seq<char>) -> Seq<char> {
    rtrimmed(ltrimmed(s))
}

pub proof fn lemma_ltrimmed_determined(s: Seq<char>, k: int)
    requires
        0 <= k <= s.len(),
        forall|i: int| 0 <= i < k ==> is_space_char(#[trigger] s[i]),
        k == s.len() || !is_space_char(s[k]),
    ensures
        ltrimmed(s) == s.skip(k),
    decreases s.len(),
{
    if k == 0 {
        if s.len() > 0 {
            assert(s.skip(0) =~= s);
        } else {
            assert(s.skip(0) =~= s);
        }
    } else {
        assert(is_space_char(s[0]));
        assert forall|i: int| 0 <= i < k - 1 implies is_space_char(#[trigger] s.skip(1)[i]) by {
            assert(is_space_char(s[i + 1]));
        }
        if k < s.len() {
            assert(s.skip(1)[k - 1] == s[k]);
        }
        lemma_ltrimmed_determined(s.skip(1), k - 1);
        assert(s.skip(1).skip(k - 1) =~= s.skip(k));
    }
}

pub proof fn lemma_rtrimmed_determined(s: Seq<char>, k: int)
    requires
        0 <= k <= s.len(),
        forall|i: int| k <= i < s.len() ==> is_space_char(#[trigger] s[i]),
        k == 0 || !is_space_char(s[k - 1]),
    ensures
        rtrimmed(s) == s.take(k),
    decreases s.len(),
{
    if k == s.len() {
        if s.len() > 0 && is_space_char(s.last()) {
            assert(false);
        }
        assert(s.take(k) =~= s);
    } else {
        assert(is_space_char(s.last()));
        lemma_rtrimmed_determined(s.drop_last(), k);
        assert(s.drop_last().take(k) =~= s.take(k));
    }
}

/// A sequence with no leading or trailing whitespace is its own trim.
pub proof fn lemma_trim_stable(s: Seq<char>)
    requires
        s.len() == 0 || (!is_space_char(s[0]) && !is_space_char(s.last())),
    ensures
        trimmed(s) == s,
{
    lemma_ltrimmed_determined(s, 0);
    assert(s.skip(0) =~= s);
    lemma_rtrimmed_determined(s, s.len() as int);
    assert(s.take(s.len() as int) =~= s);
}

pub fn is_space(c: char) -> (r: bool)
    ensures
        r == is_space_char(c),
{
    c == ' ' || c == '\t' || c == '\r' || c == '\n'
}

/// Removes whitespace from both ends of `s`.
pub fn trim_str(s: &str) -> (r: String)
    ensures
        r@ == trimmed(s@),
{
    let n = s.unicode_len();
    let mut lo: usize = 0;
    while lo < n && is_space(s.get_char(lo))
        invariant
            0 <= lo <= n,
            n == s@.len(),
            forall|i: int| 0 <= i < lo ==> is_space_char(#[trigger] s@[i]),
        decreases n - lo,
    {
        lo = lo + 1;
    }
    proof {
        lemma_ltrimmed_determined(s@, lo as int);
    }
    let mut hi: usize = n;
    while hi > lo && is_space(s.get_char(hi - 1))
        invariant
            lo <= hi <= n,
            n == s@.len(),
            forall|i: int| hi <= i < n ==> is_space_char(#[trigger] s@[i]),
        decreases hi,
    {
        hi = hi - 1;
    }
    let r = String::from_str(s.substring_char(lo, hi));
    proof {
        let t = s@.skip(lo as int);
        assert forall|i: int| hi - lo <= i < t.len() implies is_space_char(#[trigger] t[i]) by {
            assert(is_space_char(s@[i + lo]));
        }
        if hi > lo {
            assert(t[hi - lo - 1] == s@[hi - 1]);
        }
        lemma_rtrimmed_determined(t, hi - lo);
        assert(t.take(hi - lo) =~= s@.subrange(lo as int, hi as int));
    }
    r
}

/// `s` with one matching pair of surrounding single or double quotes
/// removed, if such a pair is present.
pub open spec fn unquoted(s: Seq<char>) -> Seq<char> {
    if s.len() >= 2 && s[0] == s.last() && (s[0] == '"' || s[0] == '\'') {
        s.subrange(1, s.len() - 1)
    } else {
        s
    }
}

/// Removes one matching pair of surrounding quotes, if present.
pub fn strip_quotes(s: &str) -> (r: String)
    ensures
        r@ == unquoted(s@),
{
    let n = s.unicode_len();
    if n >= 2 {
        let first = s.get_char(0);
        let last = s.get_char(n - 1);
        if first == last && (first == '"' || first == '\'') {
            return String::from_str(s.substring_char(1, n - 1));
        }
    }
    String::from_str(s)
}

// ---------------------------------------------------------------------------
// Prefix test
// ---------------------------------------------------------------------------

/// Returns whether `prefix` is a prefix of `s`.
pub fn str_starts_with(s: &str, prefix: &str) -> (r: bool)
    ensures
        r == prefix@.is_prefix_of(s@),
{
    let n = s.unicode_len();
    let m = prefix.unicode_len();
    if m > n {
        proof {
            assert(!prefix@.is_prefix_of(s@));
        }
        return false;
    }
    let mut i: usize = 0;
    while i < m
        invariant
            0 <= i <= m <= n,
            n == s@.len(),
            m == prefix@.len(),
            forall|j: int| 0 <= j < i ==> s@[j] == prefix@[j],
        decreases m - i,
    {
        if s.get_char(i) != prefix.get_char(i) {
            proof {
                assert(s@.take(m as int)[i as int] != prefix@[i as int]);
            }
            return false;
        }
        i = i + 1;
    }
    proof {
        assert(s@.take(m as int) =~= prefix@);
    }
    true
}

// ---------------------------------------------------------------------------
// Clamped numeric parse
// ---------------------------------------------------------------------------

/// Rounds a parsed decimal to the nearest integer (half away from zero),
/// then clamps the result into `1..=u32::MAX`.  A negative input always
/// clamps to 1.
pub open spec fn clamp_round(m: int, round_up: bool, negative: bool) -> u32 {
    if negative {
        1u32
    } else {
        let r = m + if round_up {
            1int
        } else {
            0int
        };
        if r < 1 {
            1u32
        } else if r > u32::MAX {
            u32::MAX
        } else {
            r as u32
        }
    }
}

/// Result of parsing a plain decimal number, `sign? digits* ('.' digits*)?`
/// with at least one digit: rounded to the nearest integer and clamped
/// into `1..=u32::MAX`.  Anything outside that grammar parses to `None`.
pub open spec fn clamp_parse(s: Seq<char>) -> Option<u32> {
    let has_sign = s.len() > 0 && (s[0] == '+' || s[0] == '-');
    let negative = s.len() > 0 && s[0] == '-';
    let body = if has_sign {
        s.skip(1)
    } else {
        s
    };
    let k = digit_run(body);
    let int_digits = body.take(k);
    if k == body.len() {
        if k == 0 {
            Option::None
        } else {
            Option::Some(clamp_round(dec_parse(int_digits), false, negative))
        }
    } else if body[k] == '.' {
        let frac = body.skip(k + 1);
        if !all_digits(frac) {
            Option::None
        } else if k == 0 && frac.len() == 0 {
            Option::None
        } else {
            let round_up = frac.len() > 0 && digit_val(frac[0]) >= 5;
            Option::Some(clamp_round(dec_parse(int_digits), round_up, negative))
        }
    } else {
        Option::None
    }
}

pub fn is_digit(c: char) -> (r: bool)
    ensures
        r == is_digit_char(c),
{
    let v = c as u32;
    48 <= v && v <= 57
}

/// Parses a plain decimal number, rounding to the nearest integer and
/// clamping into `1..=u32::MAX`; returns `None` on anything else.
pub fn parse_clamped(s: &str) -> (r: Option<u32>)
    ensures
        r == clamp_parse(s@),
{
    let n = s.unicode_len();
    let mut i: usize = 0;
    let mut negative = false;
    if n > 0 {
        let c0 = s.get_char(0);
        if c0 == '+' || c0 == '-' {
            negative = c0 == '-';
            i = 1;
        }
    }
    let ghost body = s@.skip(i as int);
    proof {
        assert(s@.skip(0) =~= s@);
    }
    let body_start = i;
    // Cap the accumulated magnitude at 2^32: anything at or above it
    // clamps to u32::MAX regardless of the exact value.
    let cap: u64 = 4294967296;
    let mut acc: u64 = 0;
    while i < n && is_digit(s.get_char(i))
        invariant
            body_start <= i <= n,
            n == s@.len(),
            body == s@.skip(body_start as int),
            cap == 4294967296,
            forall|j: int| 0 <= j < i - body_start ==> is_digit_char(#[trigger] body[j]),
            all_digits(body.take(i - body_start)),
            acc <= cap,
            dec_parse(body.take(i - body_start)) < cap ==> acc == dec_parse(
                body.take(i - body_start),
            ),
            dec_parse(body.take(i - body_start)) >= cap ==> acc == cap,
        decreases n - i,
    {
        let d = (s.get_char(i) as u32) - 48;
        proof {
            let prev = body.take(i - body_start);
            let cur = body.take(i + 1 - body_start);
            assert(cur.drop_last() =~= prev);
            assert(cur.last() == s@[i as int]);
            lemma_dec_parse_nonneg(prev);
        }
        let t = acc * 10 + d as u64;
        acc = if t > cap {
            cap
        } else {
            t
        };
        i = i + 1;
    }
    let int_len = i - body_start;
    let ghost k = digit_run(body);
    proof {
        if int_len < body.len() {
            assert(body[int_len as int] == s@[i as int]);
        }
        lemma_digit_run_determined(body, int_len as int);
    }
    let mut round_up = false;
    if i < n && s.get_char(i) == '.' {
        i = i + 1;
        let frac_start = i;
        while i < n && is_digit(s.get_char(i))
            invariant
                frac_start <= i <= n,
                n == s@.len(),
                forall|j: int| frac_start <= j < i ==> is_digit_char(#[trigger] s@[j]),
            decreases n - i,
        {
            i = i + 1;
        }
        if i != n {
            // trailing characters after the fraction digits
            proof {
                let frac = body.skip(k + 1);
                assert(frac[i - frac_start] == s@[i as int]);
                assert(!is_digit_char(frac[i - frac_start]));
            }
            return Option::None;
        }
        if int_len == 0 && i == frac_start {
            proof {
                let frac = body.skip(k + 1);
                assert(frac.len() == 0);
            }
            return Option::None;
        }
        if i > frac_start {
            let fd = (s.get_char(frac_start) as u32) - 48;
            round_up = fd >= 5;
            proof {
                let frac = body.skip(k + 1);
                assert(frac[0] == s@[frac_start as int]);
            }
        }
        proof {
            let frac = body.skip(k + 1);
            assert forall|j: int| 0 <= j < frac.len() implies is_digit_char(
                #[trigger] frac[j],
            ) by {
                assert(frac[j] == s@[j + frac_start]);
            }
        }
    } else {
        if i != n {
            // a character that is neither a digit nor a decimal point
            return Option::None;
        }
        if int_len == 0 {
            return Option::None;
        }
    }
    // Clamp and round.
    let ghost int_digits = body.take(k);
    proof {
        lemma_dec_parse_nonneg(int_digits);
    }
    if negative {
        return Option::Some(1);
    }
    if acc >= cap {
        return Option::Some(u32::MAX);
    }
    let rounded = acc + if round_up {
        1
    } else {
        0
    };
    if rounded < 1 {
        Option::Some(1)
    } else if rounded > u32::MAX as u64 {
        Option::Some(u32::MAX)
    } else {
        Option::Some(rounded as u32)
    }
}

} // verus!

//! Text helpers the machine needs: trimming names, comparing menu words
//! without regard to ASCII case, and rendering amounts of money.
use vstd::prelude::*;
use vstd::string::*;

verus! {

broadcast use vstd::string::group_string_axioms;

// ---------------------------------------------------------------------------
// Whitespace and trimming
// ---------------------------------------------------------------------------

/// The Unicode `White_Space` property, the set of characters that Rust's
/// `char::is_whitespace` accepts.
pub open spec fn is_white_space(c: char) -> bool {
    let u = c as u32;
    ||| 0x09 <= u <= 0x0d
    ||| u == 0x20
    ||| u == 0x85
    ||| u == 0xa0
    ||| u == 0x1680
    ||| 0x2000 <= u <= 0x200a
    ||| u == 0x2028
    ||| u == 0x2029
    ||| u == 0x202f
    ||| u == 0x205f
    ||| u == 0x3000
}

/// Whether `c` is Unicode whitespace.
pub fn char_is_white_space(c: char) -> (b: bool)
    ensures
        b == is_white_space(c),
{
    let u = c as u32;
    (0x09 <= u && u <= 0x0d) || u == 0x20 || u == 0x85 || u == 0xa0 || u == 0x1680 || (0x2000
        <= u && u <= 0x200a) || u == 0x2028 || u == 0x2029 || u == 0x202f || u == 0x205f || u
        == 0x3000
}

/// `s` without its leading whitespace.
pub open spec fn trim_start(s: Seq<char>) -> Seq<char>
    decreases s.len(),
{
    if s.len() > 0 && is_white_space(s[0]) {
        trim_start(s.drop_first())
    } else {
        s
    }
}

/// `s` without its trailing whitespace.
pub open spec fn trim_end(s: Seq<char>) -> Seq<char>
    decreases s.len(),
{
    if s.len() > 0 && is_white_space(s.last()) {
        trim_end(s.drop_last())
    } else {
        s
    }
}

/// `s` without leading and trailing whitespace, as `str::trim` gives it.
pub open spec fn trimmed(s: Seq<char>) -> Seq<char> {
    trim_end(trim_start(s))
}

proof fn lemma_trim_start_skip(s: Seq<char>, i: int)
    requires
        0 <= i <= s.len(),
        forall|k: int| 0 <= k < i ==> is_white_space(#[trigger] s[k]),
    ensures
        trim_start(s) == trim_start(s.subrange(i, s.len() as int)),
    decreases i,
{
    if i > 0 {
        let t = s.drop_first();
        assert(t.subrange(i - 1, t.len() as int) =~= s.subrange(i, s.len() as int));
        lemma_trim_start_skip(t, i - 1);
    } else {
        assert(s.subrange(0, s.len() as int) =~= s);
    }
}

proof fn lemma_trim_end_skip(s: Seq<char>, j: int)
    requires
        0 <= j <= s.len(),
        forall|k: int| j <= k < s.len() ==> is_white_space(#[trigger] s[k]),
    ensures
        trim_end(s) == trim_end(s.subrange(0, j)),
    decreases s.len() - j,
{
    if j < s.len() {
        let t = s.drop_last();
        assert(t.subrange(0, j) =~= s.subrange(0, j));
        lemma_trim_end_skip(t, j);
    } else {
        assert(s.subrange(0, j) =~= s);
    }
}

proof fn lemma_trim_start_suffix(s: Seq<char>)
    ensures
        trim_start(s).len() <= s.len(),
        trim_start(s) == s.subrange(s.len() - trim_start(s).len(), s.len() as int),
        trim_start(s).len() == 0 || !is_white_space(trim_start(s)[0]),
    decreases s.len(),
{
    if s.len() > 0 && is_white_space(s[0]) {
        lemma_trim_start_suffix(s.drop_first());
        let r = trim_start(s.drop_first());
        assert(s.drop_first().subrange(s.len() - 1 - r.len(), s.len() - 1) =~= s.subrange(
            s.len() - r.len(),
            s.len() as int,
        ));
    } else {
        assert(s.subrange(0, s.len() as int) =~= s);
    }
}

proof fn lemma_trim_end_prefix(s: Seq<char>)
    ensures
        trim_end(s).len() <= s.len(),
        trim_end(s) == s.subrange(0, trim_end(s).len() as int),
        trim_end(s).len() == 0 || !is_white_space(trim_end(s).last()),
    decreases s.len(),
{
    if s.len() > 0 && is_white_space(s.last()) {
        lemma_trim_end_prefix(s.drop_last());
        let r = trim_end(s.drop_last());
        assert(s.drop_last().subrange(0, r.len() as int) =~= s.subrange(0, r.len() as int));
    } else {
        assert(s.subrange(0, s.len() as int) =~= s);
    }
}

/// Trimming removes exactly the whitespace at both ends: what is left is
/// a stretch of the text that neither starts nor ends with whitespace,
/// and everything cut off before and after it is whitespace.
pub proof fn lemma_trimmed_edges(s: Seq<char>)
    ensures
        exists|i: int, j: int|
            {
                &&& 0 <= i <= j <= s.len()
                &&& trimmed(s) == s.subrange(i, j)
                &&& forall|k: int| 0 <= k < i ==> is_white_space(#[trigger] s[k])
                &&& forall|k: int| j <= k < s.len() ==> is_white_space(#[trigger] s[k])
            },
        trimmed(s).len() > 0 ==> !is_white_space(trimmed(s)[0]) && !is_white_space(
            trimmed(s).last(),
        ),
{
    lemma_trim_start_suffix(s);
    let r = trim_start(s);
    lemma_trim_end_prefix(r);
    let u = trim_end(r);
    let i = s.len() - r.len();
    let j = i + u.len();
    assert(u =~= s.subrange(i, j));
    if u.len() > 0 {
        assert(u[0] == r[0]);
    }
    lemma_trim_start_cut(s);
    lemma_trim_end_cut(r);
    assert forall|k: int| j <= k < s.len() implies is_white_space(#[trigger] s[k]) by {
        assert(s[k] == r[k - i]);
    }
}

proof fn lemma_trim_start_cut(s: Seq<char>)
    ensures
        forall|k: int| 0 <= k < s.len() - trim_start(s).len() ==> is_white_space(#[trigger] s[k]),
    decreases s.len(),
{
    lemma_trim_start_suffix(s);
    if s.len() > 0 && is_white_space(s[0]) {
        lemma_trim_start_cut(s.drop_first());
        assert forall|k: int| 0 <= k < s.len() - trim_start(s).len() implies is_white_space(
            #[trigger] s[k],
        ) by {
            if k > 0 {
                assert(s[k] == s.drop_first()[k - 1]);
            }
        }
    }
}

proof fn lemma_trim_end_cut(s: Seq<char>)
    ensures
        forall|k: int| trim_end(s).len() <= k < s.len() ==> is_white_space(#[trigger] s[k]),
    decreases s.len(),
{
    lemma_trim_end_prefix(s);
    if s.len() > 0 && is_white_space(s.last()) {
        lemma_trim_end_cut(s.drop_last());
        assert forall|k: int| trim_end(s).len() <= k < s.len() implies is_white_space(
            #[trigger] s[k],
        ) by {
            if k < s.len() - 1 {
                assert(s[k] == s.drop_last()[k]);
            }
        }
    }
}

/// `s` without leading and trailing whitespace.
pub fn trim(s: &str) -> (t: &str)
    ensures
        t@ == trimmed(s@),
{
    let n = s.unicode_len();
    let mut i: usize = 0;
    while i < n && char_is_white_space(s.get_char(i))
        invariant
            n == s@.len(),
            i <= n,
            forall|k: int| 0 <= k < i ==> is_white_space(#[trigger] s@[k]),
        decreases n - i,
    {
        i = i + 1;
    }
    let mut j: usize = n;
    while j > i && char_is_white_space(s.get_char(j - 1))
        invariant
            n == s@.len(),
            i <= j <= n,
            forall|k: int| j <= k < n ==> is_white_space(#[trigger] s@[k]),
        decreases j - i,
    {
        j = j - 1;
    }
    proof {
        lemma_trim_start_skip(s@, i as int);
        let rest = s@.subrange(i as int, n as int);
        if i < n {
            assert(rest[0] == s@[i as int]);
            assert(!is_white_space(rest[0]));
        }
        assert(trim_start(rest) == rest);
        assert forall|k: int| j - i <= k < rest.len() implies is_white_space(#[trigger] rest[k]) by {
            assert(rest[k] == s@[i + k]);
        }
        lemma_trim_end_skip(rest, j - i);
        let mid = rest.subrange(0, j - i);
        assert(mid =~= s@.subrange(i as int, j as int));
        if j > i {
            assert(mid.last() == s@[j - 1]);
        }
        assert(trim_end(mid) == mid);
    }
    s.substring_char(i, j)
}

// ---------------------------------------------------------------------------
// ASCII case
// ---------------------------------------------------------------------------

/// `c` with an ASCII upper-case letter turned into lower case.
pub open spec fn ascii_lower(c: char) -> char {
    if 'A' <= c <= 'Z' {
        ((c as u32) + 32) as char
    } else {
        c
    }
}

fn char_ascii_lower(c: char) -> (l: char)
    ensures
        l == ascii_lower(c),
{
    if 'A' <= c && c <= 'Z' {
        ((c as u8) + 32) as char
    } else {
        c
    }
}

/// Whether `a` and `b` are the same text.
pub fn same_text(a: &str, b: &str) -> (r: bool)
    ensures
        r == (a@ == b@),
{
    let n = a.unicode_len();
    if n != b.unicode_len() {
        return false;
    }
    let mut i: usize = 0;
    while i < n
        invariant
            n == a@.len(),
            n == b@.len(),
            i <= n,
            forall|k: int| 0 <= k < i ==> #[trigger] a@[k] == b@[k],
        decreases n - i,
    {
        if a.get_char(i) != b.get_char(i) {
            return false;
        }
        i = i + 1;
    }
    assert(a@ =~= b@);
    true
}

/// Two texts that are equal once ASCII letters are compared without case,
/// as `str::eq_ignore_ascii_case` decides.
pub open spec fn equal_ignoring_ascii_case(a: Seq<char>, b: Seq<char>) -> bool {
    &&& a.len() == b.len()
    &&& forall|i: int| 0 <= i < a.len() ==> ascii_lower(#[trigger] a[i]) == ascii_lower(b[i])
}

/// Whether `a` and `b` match when ASCII letters are compared without case.
pub fn eq_ignore_ascii_case(a: &str, b: &str) -> (r: bool)
    ensures
        r == equal_ignoring_ascii_case(a@, b@),
{
    let n = a.unicode_len();
    if n != b.unicode_len() {
        return false;
    }
    let mut i: usize = 0;
    while i < n
        invariant
            n == a@.len(),
            n == b@.len(),
            i <= n,
            forall|k: int| 0 <= k < i ==> ascii_lower(#[trigger] a@[k]) == ascii_lower(b@[k]),
        decreases n - i,
    {
        if char_ascii_lower(a.get_char(i)) != char_ascii_lower(b.get_char(i)) {
            return false;
        }
        i = i + 1;
    }
    true
}

// ---------------------------------------------------------------------------
// Numbers and money
// ---------------------------------------------------------------------------

/// The decimal digit character for `d < 10`.
pub open spec fn digit_char(d: nat) -> char {
    (48 + d) as char
}

/// The decimal notation of `n`, without sign or leading zeros.
pub open spec fn decimal(n: nat) -> Seq<char>
    decreases n,
{
    if n < 10 {
        seq![digit_char(n)]
    } else {
        decimal(n / 10).push(digit_char(n % 10))
    }
}

/// An amount in cents written in dollars with exactly two decimals, as
/// `{:.2}` writes it: `150` is `1.50`.
pub open spec fn dollars_text(cents: nat) -> Seq<char> {
    decimal(cents / 100) + seq!['.', digit_char((cents % 100) / 10), digit_char(cents % 10)]
}

/// The decimal notation of `n` is a run of digits, with no leading zero
/// unless it is the single digit `0`, and reads back as `n`.
pub proof fn lemma_decimal_reads_back(n: nat)
    ensures
        is_digit_run(decimal(n)),
        digits_value(decimal(n)) == n,
        decimal(n).len() == 1 || decimal(n)[0] != '0',
        n < 10 <==> decimal(n).len() == 1,
    decreases n,
{
    if n < 10 {
        let d = decimal(n);
        assert(d.drop_last() =~= Seq::<char>::empty());
        assert(digit_char(n) as int == 48 + n);
        assert(digits_value(Seq::<char>::empty()) == 0);
        assert(digits_value(d) == 10 * digits_value(d.drop_last()) + n);
    } else {
        lemma_decimal_reads_back(n / 10);
        let r = decimal(n / 10);
        let d = r.push(digit_char(n % 10));
        assert(digit_char(n % 10) as int == 48 + n % 10);
        assert(d.drop_last() =~= r);
        assert(digits_value(d) == 10 * digits_value(r) + n % 10);
        assert forall|i: int| 0 <= i < d.len() implies is_digit(#[trigger] d[i]) by {
            if i < r.len() {
                assert(d[i] == r[i]);
            }
        }
        assert(d[0] == r[0]);
    }
}

proof fn lemma_two_digits(a: nat, b: nat)
    requires
        a < 10,
        b < 10,
    ensures
        is_digit_run(seq![digit_char(a), digit_char(b)]),
        digits_value(seq![digit_char(a), digit_char(b)]) == 10 * a + b,
{
    let x = digit_char(a);
    let y = digit_char(b);
    assert(x as int == 48 + a);
    assert(y as int == 48 + b);
    let f = seq![x, y];
    assert(f.drop_last() =~= seq![x]);
    assert(seq![x].drop_last() =~= Seq::<char>::empty());
    assert(digits_value(Seq::<char>::empty()) == 0);
    assert(digits_value(seq![x]) == 10 * digits_value(seq![x].drop_last()) + a);
    assert(digits_value(f) == 10 * digits_value(f.drop_last()) + b);
    assert forall|i: int| 0 <= i < f.len() implies is_digit(#[trigger] f[i]) by {}
}

/// Money text has the shape `D.CC`: a run of whole-dollar digits with no
/// leading zero (but `0`), a point, and exactly two cent digits; the
/// dollars times one hundred plus the cents give back the amount.
pub proof fn lemma_dollars_text_reads_back(cents: nat)
    ensures
        ({
            let t = dollars_text(cents);
            let whole = t.subrange(0, t.len() - 3);
            let frac = t.subrange(t.len() - 2, t.len() as int);
            &&& t.len() >= 4
            &&& t[t.len() - 3] == '.'
            &&& is_digit_run(whole)
            &&& whole.len() == 1 || whole[0] != '0'
            &&& is_digit_run(frac)
            &&& frac.len() == 2
            &&& 100 * digits_value(whole) + digits_value(frac) == cents
        }),
{
    let q = cents / 100;
    let r = cents % 100;
    let hi = r / 10;
    let lo = cents % 10;
    assert(cents == 100 * q + r && 0 <= r < 100) by (nonlinear_arith)
        requires
            q == cents / 100,
            r == cents % 100,
    ;
    assert(r == 10 * hi + lo && hi < 10 && lo < 10) by (nonlinear_arith)
        requires
            cents == 100 * q + r,
            hi == r / 10,
            lo == cents % 10,
            0 <= r < 100,
    ;
    lemma_decimal_reads_back(q);
    lemma_two_digits(hi, lo);
    let d = decimal(q);
    let t = dollars_text(cents);
    assert(t =~= d + seq!['.', digit_char(hi), digit_char(lo)]);
    assert(t.subrange(0, t.len() - 3) =~= d);
    assert(t.subrange(t.len() - 2, t.len() as int) =~= seq![digit_char(hi), digit_char(lo)]);
}

/// Reading a number back from its decimal notation gives the number.
pub proof fn lemma_parse_decimal(n: nat)
    ensures
        parse_unsigned(decimal(n)) == Some(n),
        parse_signed(decimal(n)) == Some(n as int),
{
    lemma_decimal_reads_back(n);
    assert(is_digit(decimal(n)[0]));
}

fn digit_str(d: u64) -> (s: &'static str)
    requires
        d < 10,
    ensures
        s@ == seq![digit_char(d as nat)],
{
    proof {
        reveal_strlit("0");
        reveal_strlit("1");
        reveal_strlit("2");
        reveal_strlit("3");
        reveal_strlit("4");
        reveal_strlit("5");
        reveal_strlit("6");
        reveal_strlit("7");
        reveal_strlit("8");
        reveal_strlit("9");
    }
    if d == 0 {
        "0"
    } else if d == 1 {
        "1"
    } else if d == 2 {
        "2"
    } else if d == 3 {
        "3"
    } else if d == 4 {
        "4"
    } else if d == 5 {
        "5"
    } else if d == 6 {
        "6"
    } else if d == 7 {
        "7"
    } else if d == 8 {
        "8"
    } else {
        "9"
    }
}

/// Appends the decimal notation of `n` to `out`.
pub fn push_decimal(out: &mut String, n: u64)
    ensures
        final(out)@ == old(out)@ + decimal(n as nat),
    decreases n,
{
    if n >= 10 {
        push_decimal(out, n / 10);
    }
    out.append(digit_str(n % 10));
    assert(out@ =~= old(out)@ + decimal(n as nat));
}

/// Appends `cents` written as dollars with two decimals to `out`.
pub fn push_dollars(out: &mut String, cents: u64)
    ensures
        final(out)@ == old(out)@ + dollars_text(cents as nat),
{
    push_decimal(out, cents / 100);
    proof {
        reveal_strlit(".");
    }
    out.append(".");
    out.append(digit_str((cents % 100) / 10));
    out.append(digit_str(cents % 10));
    assert(out@ =~= old(out)@ + dollars_text(cents as nat));
}

/// `cents` written as dollars with two decimals.
pub fn format_dollars(cents: u64) -> (s: String)
    ensures
        s@ == dollars_text(cents as nat),
{
    let mut s = String::new();
    push_dollars(&mut s, cents);
    assert(s@ =~= dollars_text(cents as nat));
    s
}

// ---------------------------------------------------------------------------
// Reading numbers
// ---------------------------------------------------------------------------

/// Whether `c` is an ASCII decimal digit.
pub open spec fn is_digit(c: char) -> bool {
    '0' <= c <= '9'
}

/// Whether `d` is a non-empty run of ASCII decimal digits.
pub open spec fn is_digit_run(d: Seq<char>) -> bool {
    d.len() > 0 && forall|i: int| 0 <= i < d.len() ==> is_digit(#[trigger] d[i])
}

/// The number that a run of decimal digits denotes.
pub open spec fn digits_value(d: Seq<char>) -> nat
    decreases d.len(),
{
    if d.len() == 0 {
        0
    } else {
        10 * digits_value(d.drop_last()) + ((d.last() as int) - 48) as nat
    }
}

/// The unsigned number that `s` denotes as Rust's `FromStr` for unsigned
/// integers reads it: an optional `+`, then one or more decimal digits
/// and nothing else. The bound of the target type is checked separately.
pub open spec fn parse_unsigned(s: Seq<char>) -> Option<nat> {
    let d = if s.len() > 0 && s[0] == '+' {
        s.drop_first()
    } else {
        s
    };
    if is_digit_run(d) {
        Some(digits_value(d))
    } else {
        None
    }
}

/// The signed number that `s` denotes as Rust's `FromStr` for signed
/// integers reads it: an optional `+` or `-`, then one or more decimal
/// digits and nothing else.
pub open spec fn parse_signed(s: Seq<char>) -> Option<int> {
    if s.len() > 0 && s[0] == '-' {
        let d = s.drop_first();
        if is_digit_run(d) {
            Some(-digits_value(d))
        } else {
            None
        }
    } else {
        match parse_unsigned(s) {
            Some(v) => Some(v as int),
            None => None,
        }
    }
}

proof fn lemma_digits_value_grows(d: Seq<char>, c: char)
    requires
        is_digit(c),
    ensures
        digits_value(d.push(c)) == 10 * digits_value(d) + ((c as int) - 48),
        digits_value(d.push(c)) >= digits_value(d),
{
    assert(d.push(c).drop_last() =~= d);
}

/// The value of the digits of `s` from `start` on, when they form a
/// non-empty digit run whose value is at most `limit`.
fn digit_run_value(s: &str, start: usize, limit: u64) -> (r: Option<u64>)
    requires
        start <= s@.len(),
    ensures
        ({
            let d = s@.subrange(start as int, s@.len() as int);
            &&& r is Some <==> (is_digit_run(d) && digits_value(d) <= limit)
            &&& r is Some ==> r->Some_0 == digits_value(d)
        }),
{
    let n = s.unicode_len();
    if start >= n {
        return None;
    }
    let mut value: u64 = 0;
    let mut too_big = false;
    let mut i = start;
    while i < n
        invariant
            n == s@.len(),
            start <= i <= n,
            forall|k: int| start <= k < i ==> is_digit(#[trigger] s@[k]),
            !too_big ==> value == digits_value(s@.subrange(start as int, i as int)),
            !too_big ==> value <= limit,
            too_big ==> digits_value(s@.subrange(start as int, i as int)) > limit,
        decreases n - i,
    {
        let c = s.get_char(i);
        if !('0' <= c && c <= '9') {
            proof {
                let d = s@.subrange(start as int, n as int);
                assert(d[i - start] == c);
            }
            return None;
        }
        let ghost prefix = s@.subrange(start as int, i as int);
        proof {
            lemma_digits_value_grows(prefix, c);
            assert(s@.subrange(start as int, i + 1) =~= prefix.push(c));
        }
        if !too_big {
            let digit = (c as u32 - 48) as u64;
            let next: u128 = (value as u128) * 10 + (digit as u128);
            if next > limit as u128 {
                too_big = true;
            } else {
                value = next as u64;
            }
        }
        i = i + 1;
    }
    proof {
        let d = s@.subrange(start as int, n as int);
        assert forall|k: int| 0 <= k < d.len() implies is_digit(#[trigger] d[k]) by {
            assert(d[k] == s@[start + k]);
        }
    }
    if too_big {
        None
    } else {
        Some(value)
    }
}

/// `s` read as a `usize`, as `s.parse::<usize>()` reads it; `None` where
/// that parse fails.
pub fn parse_usize(s: &str) -> (r: Option<usize>)
    ensures
        r is Some <==> (parse_unsigned(s@) is Some && parse_unsigned(s@)->Some_0 <= usize::MAX),
        r is Some ==> r->Some_0 == parse_unsigned(s@)->Some_0,
{
    let n = s.unicode_len();
    let start: usize = if n > 0 && s.get_char(0) == '+' {
        1
    } else {
        0
    };
    proof {
        if start == 1 {
            assert(s@.subrange(1, s@.len() as int) =~= s@.drop_first());
        } else {
            assert(s@.subrange(0, s@.len() as int) =~= s@);
        }
    }
    match digit_run_value(s, start, usize::MAX as u64) {
        Some(v) => Some(v as usize),
        None => None,
    }
}

/// `s` read as an `i32`, as `s.parse::<i32>()` reads it; `None` where that
/// parse fails.
pub fn parse_i32(s: &str) -> (r: Option<i32>)
    ensures
        r is Some <==> (parse_signed(s@) is Some && i32::MIN <= parse_signed(s@)->Some_0
            <= i32::MAX),
        r is Some ==> r->Some_0 == parse_signed(s@)->Some_0,
{
    let n = s.unicode_len();
    if n > 0 && s.get_char(0) == '-' {
        proof {
            assert(s@.subrange(1, s@.len() as int) =~= s@.drop_first());
        }
        match digit_run_value(s, 1, 2147483648u64) {
            Some(v) => Some((0 - (v as i64)) as i32),
            None => None,
        }
    } else {
        let start: usize = if n > 0 && s.get_char(0) == '+' {
            1
        } else {
            0
        };
        proof {
            if start == 1 {
                assert(s@.subrange(1, s@.len() as int) =~= s@.drop_first());
            } else {
                assert(s@.subrange(0, s@.len() as int) =~= s@);
            }
        }
        match digit_run_value(s, start, 2147483647u64) {
            Some(v) => Some(v as i32),
            None => None,
        }
    }
}

} // verus!

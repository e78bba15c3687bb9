use vstd::prelude::*;
use vstd::string::StringExecFns;
use vstd::string::StrSliceExecFns;

verus! {

// ---------------------------------------------------------------------------
// Whitespace and trimming
// ---------------------------------------------------------------------------

/// The whitespace characters the line protocol cares about.
pub open spec fn is_ws(c: char) -> bool {
    c == ' ' || c == '\t' || c == '\n' || c == '\r'
}

/// `s` with its leading whitespace dropped.
pub open spec fn trim_start_rec(s: Seq<char>) -> Seq<char>
    decreases s.len(),
{
    if s.len() > 0 && is_ws(s[0]) {
        trim_start_rec(s.drop_first())
    } else {
        s
    }
}

/// `s` with its trailing whitespace dropped.
pub open spec fn trim_end_rec(s: Seq<char>) -> Seq<char>
    decreases s.len(),
{
    if s.len() > 0 && is_ws(s.last()) {
        trim_end_rec(s.drop_last())
    } else {
        s
    }
}

/// `s` with whitespace dropped on both sides.
pub open spec fn spec_trim(s: Seq<char>) -> Seq<char> {
    trim_end_rec(trim_start_rec(s))
}

fn is_ws_char(c: char) -> (r: bool)
    ensures
        r == is_ws(c),
{
    c == ' ' || c == '\t' || c == '\n' || c == '\r'
}

/// The slice of `s` with surrounding whitespace dropped.
pub fn trim_str(s: &str) -> (r: &str)
    ensures
        r@ == spec_trim(s@),
{
    let n = s.unicode_len();
    proof {
        assert(s@.subrange(0, n as int) =~= s@);
    }
    let mut a: usize = 0;
    while a < n && is_ws_char(s.get_char(a))
        invariant
            a <= n,
            n == s@.len(),
            trim_start_rec(s@) == trim_start_rec(s@.subrange(a as int, n as int)),
        decreases n - a,
    {
        proof {
            let t = s@.subrange(a as int, n as int);
            assert(t[0] == s@[a as int]);
            assert(t.drop_first() =~= s@.subrange(a as int + 1, n as int));
        }
        a += 1;
    }
    proof {
        let t = s@.subrange(a as int, n as int);
        if a < n {
            assert(t[0] == s@[a as int]);
        }
        assert(trim_start_rec(s@) == t);
    }
    let mut b: usize = n;
    while b > a && is_ws_char(s.get_char(b - 1))
        invariant
            a <= b <= n,
            n == s@.len(),
            trim_start_rec(s@) == s@.subrange(a as int, n as int),
            trim_end_rec(s@.subrange(a as int, n as int)) == trim_end_rec(
                s@.subrange(a as int, b as int),
            ),
        decreases b,
    {
        proof {
            let t = s@.subrange(a as int, b as int);
            assert(t.last() == s@[b - 1]);
            assert(t.drop_last() =~= s@.subrange(a as int, b as int - 1));
        }
        b -= 1;
    }
    proof {
        let t = s@.subrange(a as int, b as int);
        if b > a {
            assert(t.last() == s@[b - 1]);
        }
        assert(trim_end_rec(s@.subrange(a as int, n as int)) == t);
    }
    s.substring_char(a, b)
}

// ---------------------------------------------------------------------------
// Case-insensitive matching (ASCII letters)
// ---------------------------------------------------------------------------

/// True when `c` is an ASCII capital letter.
pub open spec fn is_ascii_upper(c: char) -> bool {
    65 <= c as u32 && c as u32 <= 90
}

/// Two characters are equal up to ASCII case.
pub open spec fn eq_ci(a: char, b: char) -> bool {
    ||| a == b
    ||| (is_ascii_upper(a) && a as u32 + 32 == b as u32)
    ||| (is_ascii_upper(b) && b as u32 + 32 == a as u32)
}

fn chars_eq_ci(a: char, b: char) -> (r: bool)
    ensures
        r == eq_ci(a, b),
{
    let au = a as u32;
    let bu = b as u32;
    au == bu || (65 <= au && au <= 90 && au + 32 == bu) || (65 <= bu && bu <= 90 && bu + 32 == au)
}

/// The needle matches the haystack at offset `i`, up to ASCII case.
pub open spec fn ci_match_at(hay: Seq<char>, needle: Seq<char>, i: int) -> bool {
    &&& 0 <= i
    &&& i + needle.len() <= hay.len()
    &&& forall|j: int| 0 <= j < needle.len() ==> eq_ci(hay[i + j], needle[j])
}

/// The haystack holds the needle somewhere, up to ASCII case.
pub open spec fn spec_contains_ci(hay: Seq<char>, needle: Seq<char>) -> bool {
    exists|i: int| ci_match_at(hay, needle, i)
}

/// Characters equal up to case to a common character are equal up to
/// case to each other.
pub proof fn lemma_eq_ci_trans(a: char, b: char, c: char)
    requires
        eq_ci(a, b),
        eq_ci(b, c),
    ensures
        eq_ci(a, c),
{
}

/// Haystacks that agree up to ASCII case hold the same needles.
pub proof fn lemma_contains_ci_insensitive(h1: Seq<char>, h2: Seq<char>, needle: Seq<char>)
    requires
        h1.len() == h2.len(),
        forall|i: int| 0 <= i < h1.len() ==> eq_ci(#[trigger] h1[i], h2[i]),
    ensures
        spec_contains_ci(h1, needle) == spec_contains_ci(h2, needle),
{
    if spec_contains_ci(h1, needle) {
        let i = choose|i: int| ci_match_at(h1, needle, i);
        assert forall|j: int| 0 <= j < needle.len() implies eq_ci(h2[i + j], needle[j]) by {
            lemma_eq_ci_trans(h2[i + j], h1[i + j], needle[j]);
        }
        assert(ci_match_at(h2, needle, i));
    }
    if spec_contains_ci(h2, needle) {
        let i = choose|i: int| ci_match_at(h2, needle, i);
        assert forall|j: int| 0 <= j < needle.len() implies eq_ci(h1[i + j], needle[j]) by {
            lemma_eq_ci_trans(h1[i + j], h2[i + j], needle[j]);
        }
        assert(ci_match_at(h1, needle, i));
    }
}

/// Case-insensitive substring search, folding only ASCII letters.
pub fn contains_ci(hay: &str, needle: &str) -> (r: bool)
    ensures
        r == spec_contains_ci(hay@, needle@),
{
    let h = hay.unicode_len();
    let n = needle.unicode_len();
    if n > h {
        return false;
    }
    let mut i: usize = 0;
    while i <= h - n
        invariant
            h == hay@.len(),
            n == needle@.len(),
            n <= h,
            i <= h - n + 1,
            forall|k: int| 0 <= k < i ==> !ci_match_at(hay@, needle@, k),
        decreases h - n - i + 1,
    {
        let mut j: usize = 0;
        let mut all: bool = true;
        while j < n && all
            invariant
                h == hay@.len(),
                n == needle@.len(),
                i + n <= h,
                j <= n,
                all ==> forall|j2: int| 0 <= j2 < j ==> eq_ci(hay@[i + j2], needle@[j2]),
                !all ==> !ci_match_at(hay@, needle@, i as int),
            decreases n - j,
        {
            if !chars_eq_ci(hay.get_char(i + j), needle.get_char(j)) {
                all = false;
            }
            j += 1;
        }
        if all {
            assert(ci_match_at(hay@, needle@, i as int));
            return true;
        }
        i += 1;
    }
    assert(forall|k: int| !ci_match_at(hay@, needle@, k));
    false
}

// ---------------------------------------------------------------------------
// Plain string equality
// ---------------------------------------------------------------------------

/// Character-for-character equality of two string slices.
pub fn str_eq(a: &str, b: &str) -> (r: bool)
    ensures
        r == (a@ == b@),
{
    let n = a.unicode_len();
    if n != b.unicode_len() {
        return false;
    }
    let mut i: usize = 0;
    while i < n
        invariant
            n == a@.len(),
            n == b@.len(),
            i <= n,
            forall|k: int| 0 <= k < i ==> a@[k] == b@[k],
        decreases n - i,
    {
        if a.get_char(i) != b.get_char(i) {
            return false;
        }
        i += 1;
    }
    proof {
        assert(a@ =~= b@);
    }
    true
}

// ---------------------------------------------------------------------------
// Unsigned decimal numerals, with an optional fractional part
// ---------------------------------------------------------------------------

/// True when `c` is an ASCII digit.
pub open spec fn is_digit(c: char) -> bool {
    48 <= c as u32 && c as u32 <= 57
}

/// The numerical value of an ASCII digit.
pub open spec fn digit_val(c: char) -> nat {
    (c as u32 - 48) as nat
}

/// Ten to the power `k`.
pub open spec fn pow10(k: nat) -> nat
    decreases k,
{
    if k == 0 {
        1
    } else {
        10 * pow10((k - 1) as nat)
    }
}

proof fn lemma_pow10_pos(k: nat)
    ensures
        pow10(k) >= 1,
    decreases k,
{
    if k > 0 {
        lemma_pow10_pos((k - 1) as nat);
    }
}

/// How many fractional digits have been read so far.
pub open spec fn frac_digits(frac: Option<nat>) -> nat {
    match frac {
        Option::None => 0,
        Option::Some(k) => k,
    }
}

/// Reading `t` from position `i` as the rest of a decimal numeral, with
/// `num` the value of the digits read so far, `frac` the number of digits
/// read after a decimal point (if one was read), and `seen` whether any
/// digit was read: the value of the whole numeral as a pair of numerator
/// and denominator, or nothing if the text is not a plain decimal.
pub open spec fn dec_scan(t: Seq<char>, i: int, num: nat, frac: Option<nat>, seen: bool) -> Option<
    (nat, nat),
>
    decreases t.len() - i,
{
    if i < 0 || i >= t.len() {
        if seen {
            Option::Some((num, pow10(frac_digits(frac))))
        } else {
            Option::None
        }
    } else if is_digit(t[i]) {
        dec_scan(
            t,
            i + 1,
            num * 10 + digit_val(t[i]),
            match frac {
                Option::None => Option::None,
                Option::Some(k) => Option::Some((k + 1) as nat),
            },
            true,
        )
    } else if t[i] == '.' && frac is None {
        dec_scan(t, i + 1, num, Option::Some(0), seen)
    } else {
        Option::None
    }
}

/// The value of `t` read as an unsigned decimal numeral `digits[.digits]`,
/// as a numerator and a power-of-ten denominator.
pub open spec fn spec_parse_decimal(t: Seq<char>) -> Option<(nat, nat)> {
    dec_scan(t, 0, 0, Option::None, false)
}

/// The numerator and denominator a scan yields can only grow as the scan
/// goes on.
pub proof fn lemma_dec_scan_bounds(t: Seq<char>, i: int, num: nat, frac: Option<nat>, seen: bool)
    ensures
        dec_scan(t, i, num, frac, seen) matches Option::Some(p) ==> p.0 >= num && p.1 >= pow10(
            frac_digits(frac),
        ),
    decreases t.len() - i,
{
    lemma_pow10_pos(frac_digits(frac));
    if i < 0 || i >= t.len() {
    } else if is_digit(t[i]) {
        let frac2 = match frac {
            Option::None => Option::None,
            Option::Some(k) => Option::Some((k + 1) as nat),
        };
        lemma_dec_scan_bounds(t, i + 1, num * 10 + digit_val(t[i]), frac2, true);
    } else if t[i] == '.' && frac is None {
        lemma_dec_scan_bounds(t, i + 1, num, Option::Some(0), seen);
    } else {
    }
}

/// `spec_parse_decimal`, cut down to what fits in a machine word.
pub open spec fn spec_parse_dec_u64(t: Seq<char>) -> Option<(u64, u64)> {
    match spec_parse_decimal(t) {
        Option::Some(p) => if p.0 <= u64::MAX && p.1 <= u64::MAX {
            Option::Some((p.0 as u64, p.1 as u64))
        } else {
            Option::None
        },
        Option::None => Option::None,
    }
}

/// Read `t` as an unsigned decimal numeral `digits[.digits]`, yielding its
/// value as a numerator and a power-of-ten denominator, or nothing when the
/// text is not such a numeral or its value does not fit.
pub fn parse_decimal_u64(t: &str) -> (r: Option<(u64, u64)>)
    ensures
        r == spec_parse_dec_u64(t@),
{
    let n = t.unicode_len();
    let mut i: usize = 0;
    let mut num: u64 = 0;
    let mut den: u64 = 1;
    let mut in_frac: bool = false;
    let mut seen: bool = false;
    let ghost mut fracd: Option<nat> = Option::None;
    while i < n
        invariant
            i <= n,
            n == t@.len(),
            in_frac == (fracd is Some),
            den as nat == pow10(frac_digits(fracd)),
            spec_parse_decimal(t@) == dec_scan(t@, i as int, num as nat, fracd, seen),
        decreases n - i,
    {
        let c = t.get_char(i);
        let cu = c as u32;
        if 48 <= cu && cu <= 57 {
            let d = (cu - 48) as u64;
            let ghost frac2: Option<nat> = match fracd {
                Option::None => Option::None,
                Option::Some(k) => Option::Some((k + 1) as nat),
            };
            proof {
                assert(dec_scan(t@, i as int, num as nat, fracd, seen) == dec_scan(
                    t@,
                    i as int + 1,
                    num as nat * 10 + digit_val(t@[i as int]),
                    frac2,
                    true,
                ));
            }
            if num > (u64::MAX - d) / 10 {
                proof {
                    lemma_dec_scan_bounds(
                        t@,
                        i as int + 1,
                        num as nat * 10 + digit_val(t@[i as int]),
                        frac2,
                        true,
                    );
                    assert(num as nat * 10 + digit_val(t@[i as int]) > u64::MAX) by (nonlinear_arith)
                        requires
                            num > (u64::MAX - d) / 10,
                            d < 10,
                            digit_val(t@[i as int]) == d as nat,
                    ;
                }
                return Option::None;
            }
            proof {
                assert(num * 10 + d <= u64::MAX) by (nonlinear_arith)
                    requires
                        num <= (u64::MAX - d) / 10,
                        d < 10,
                ;
            }
            num = num * 10 + d;
            if in_frac {
                if den > u64::MAX / 10 {
                    proof {
                        lemma_dec_scan_bounds(t@, i as int + 1, num as nat, frac2, true);
                        assert(pow10(frac_digits(frac2)) == 10 * pow10(frac_digits(fracd)));
                        assert(10 * den as nat > u64::MAX) by (nonlinear_arith)
                            requires
                                den > u64::MAX / 10,
                        ;
                    }
                    return Option::None;
                }
                proof {
                    assert(den * 10 <= u64::MAX) by (nonlinear_arith)
                        requires
                            den <= u64::MAX / 10,
                    ;
                    assert(pow10(frac_digits(frac2)) == 10 * pow10(frac_digits(fracd)));
                }
                den = den * 10;
            }
            seen = true;
            proof {
                fracd = frac2;
            }
        } else if c == '.' && !in_frac {
            proof {
                assert(dec_scan(t@, i as int, num as nat, fracd, seen) == dec_scan(
                    t@,
                    i as int + 1,
                    num as nat,
                    Option::Some(0),
                    seen,
                ));
                fracd = Option::Some(0);
            }
            in_frac = true;
        } else {
            proof {
                assert(dec_scan(t@, i as int, num as nat, fracd, seen) is None);
            }
            return Option::None;
        }
        i += 1;
    }
    if seen {
        Option::Some((num, den))
    } else {
        Option::None
    }
}

// ---------------------------------------------------------------------------
// Numbers back to text
// ---------------------------------------------------------------------------

/// The ASCII digit for a value below ten.
pub open spec fn digit_char(d: nat) -> char {
    if d == 0 {
        '0'
    } else if d == 1 {
        '1'
    } else if d == 2 {
        '2'
    } else if d == 3 {
        '3'
    } else if d == 4 {
        '4'
    } else if d == 5 {
        '5'
    } else if d == 6 {
        '6'
    } else if d == 7 {
        '7'
    } else if d == 8 {
        '8'
    } else {
        '9'
    }
}

/// The decimal numeral for `n`, most significant digit first.
pub open spec fn spec_u64_string(n: nat) -> Seq<char>
    decreases n,
{
    if n < 10 {
        seq![digit_char(n)]
    } else {
        spec_u64_string(n / 10).push(digit_char(n % 10))
    }
}

fn digit_str(d: u64) -> (r: &'static str)
    requires
        d < 10,
    ensures
        r@ == seq![digit_char(d as nat)],
{
    if d == 0 {
        proof {
            reveal_strlit("0");
            assert("0"@ =~= seq![digit_char(0)]);
        }
        "0"
    } else if d == 1 {
        proof {
            reveal_strlit("1");
            assert("1"@ =~= seq![digit_char(1)]);
        }
        "1"
    } else if d == 2 {
        proof {
            reveal_strlit("2");
            assert("2"@ =~= seq![digit_char(2)]);
        }
        "2"
    } else if d == 3 {
        proof {
            reveal_strlit("3");
            assert("3"@ =~= seq![digit_char(3)]);
        }
        "3"
    } else if d == 4 {
        proof {
            reveal_strlit("4");
            assert("4"@ =~= seq![digit_char(4)]);
        }
        "4"
    } else if d == 5 {
        proof {
            reveal_strlit("5");
            assert("5"@ =~= seq![digit_char(5)]);
        }
        "5"
    } else if d == 6 {
        proof {
            reveal_strlit("6");
            assert("6"@ =~= seq![digit_char(6)]);
        }
        "6"
    } else if d == 7 {
        proof {
            reveal_strlit("7");
            assert("7"@ =~= seq![digit_char(7)]);
        }
        "7"
    } else if d == 8 {
        proof {
            reveal_strlit("8");
            assert("8"@ =~= seq![digit_char(8)]);
        }
        "8"
    } else {
        proof {
            reveal_strlit("9");
            assert("9"@ =~= seq![digit_char(9)]);
        }
        "9"
    }
}

/// `n` written out in decimal.
pub fn u64_to_string(n: u64) -> (r: String)
    ensures
        r@ == spec_u64_string(n as nat),
    decreases n,
{
    if n < 10 {
        digit_str(n).to_owned()
    } else {
        let mut r = u64_to_string(n / 10);
        r.append(digit_str(n % 10));
        proof {
            assert(r@ =~= spec_u64_string((n / 10) as nat).push(digit_char((n % 10) as nat)));
        }
        r
    }
}

/// The decimal numeral for `c`, with a leading minus sign when negative.
pub open spec fn spec_i32_string(c: int) -> Seq<char> {
    if c >= 0 {
        spec_u64_string(c as nat)
    } else {
        seq!['-'] + spec_u64_string((-c) as nat)
    }
}

/// `c` written out in decimal, sign included.
pub fn i32_to_string(c: i32) -> (r: String)
    ensures
        r@ == spec_i32_string(c as int),
{
    if c >= 0 {
        u64_to_string(c as u64)
    } else {
        let w: i64 = c as i64;
        let mut r = "-".to_owned();
        let digits = u64_to_string((-w) as u64);
        r.append(digits.as_str());
        proof {
            reveal_strlit("-");
            assert(r@ =~= seq!['-'] + spec_u64_string((-(c as int)) as nat));
        }
        r
    }
}

// ---------------------------------------------------------------------------
// Sequences of strings
// ---------------------------------------------------------------------------

/// The character sequences behind a sequence of strings.
pub open spec fn views_of(v: Seq<String>) -> Seq<Seq<char>> {
    v.map_values(|s: String| s@)
}

pub proof fn lemma_views_of_push(v: Seq<String>, x: String)
    ensures
        views_of(v.push(x)) == views_of(v).push(x@),
{
    assert(views_of(v.push(x)) =~= views_of(v).push(x@));
}

/// The lines joined with a newline between each two.
pub open spec fn spec_join_nl(l: Seq<Seq<char>>) -> Seq<char>
    decreases l.len(),
{
    if l.len() == 0 {
        Seq::empty()
    } else if l.len() == 1 {
        l[0]
    } else {
        spec_join_nl(l.drop_last()) + seq!['\n'] + l.last()
    }
}

/// Join the lines with a newline between each two.
pub fn join_newline(lines: &Vec<String>) -> (r: String)
    ensures
        r@ == spec_join_nl(views_of(lines@)),
{
    let mut out = String::new();
    let mut i: usize = 0;
    while i < lines.len()
        invariant
            i <= lines@.len(),
            out@ == spec_join_nl(views_of(lines@).take(i as int)),
        decreases lines@.len() - i,
    {
        if i > 0 {
            out.append("\n");
        }
        out.append(lines[i].as_str());
        proof {
            let l = views_of(lines@);
            assert(l.take(i as int + 1).drop_last() =~= l.take(i as int));
            assert(l.take(i as int + 1).last() == l[i as int]);
            reveal_strlit("\n");
            if i == 0 {
                assert(out@ =~= l.take(1).last());
            } else {
                assert(out@ =~= spec_join_nl(l.take(i as int)) + seq!['\n'] + l.take(
                    i as int + 1,
                ).last());
            }
        }
        i += 1;
    }
    proof {
        assert(views_of(lines@).take(lines@.len() as int) =~= views_of(lines@));
    }
    out
}

// ---------------------------------------------------------------------------
// Splitting on whitespace
// ---------------------------------------------------------------------------

/// Reading `s` from position `i` with `cur` the word in progress: the
/// whitespace-separated words of the rest.
pub open spec fn split_acc(s: Seq<char>, i: int, cur: Seq<char>) -> Seq<Seq<char>>
    decreases s.len() - i,
{
    if i < 0 || i >= s.len() {
        if cur.len() > 0 {
            seq![cur]
        } else {
            Seq::empty()
        }
    } else if is_ws(s[i]) {
        (if cur.len() > 0 {
            seq![cur]
        } else {
            Seq::empty()
        }) + split_acc(s, i + 1, Seq::empty())
    } else {
        split_acc(s, i + 1, cur.push(s[i]))
    }
}

/// The whitespace-separated words of `s`, in order, each nonempty.
pub open spec fn spec_split_ws(s: Seq<char>) -> Seq<Seq<char>> {
    split_acc(s, 0, Seq::empty())
}

/// Split `s` into its whitespace-separated words.
pub fn split_ws(s: &str) -> (r: Vec<String>)
    ensures
        views_of(r@) == spec_split_ws(s@),
{
    let n = s.unicode_len();
    let mut out: Vec<String> = Vec::new();
    let mut start: usize = 0;
    let mut i: usize = 0;
    proof {
        assert(s@.subrange(0, 0) =~= Seq::<char>::empty());
        assert(views_of(out@) =~= Seq::<Seq<char>>::empty());
    }
    while i < n
        invariant
            start <= i <= n,
            n == s@.len(),
            spec_split_ws(s@) == views_of(out@) + split_acc(
                s@,
                i as int,
                s@.subrange(start as int, i as int),
            ),
        decreases n - i,
    {
        if is_ws_char(s.get_char(i)) {
            proof {
                assert(s@.subrange(i as int + 1, i as int + 1) =~= Seq::<char>::empty());
            }
            if start < i {
                let w = s.substring_char(start, i).to_owned();
                proof {
                    lemma_views_of_push(out@, w);
                }
                out.push(w);
                proof {
                    assert(views_of(out@) + split_acc(s@, i as int + 1, Seq::<char>::empty())
                        =~= spec_split_ws(s@));
                }
            } else {
                proof {
                    assert(s@.subrange(start as int, i as int).len() == 0);
                    assert(s@.subrange(start as int, i as int) =~= Seq::<char>::empty());
                    assert(views_of(out@) + split_acc(s@, i as int + 1, Seq::<char>::empty())
                        =~= spec_split_ws(s@));
                }
            }
            i += 1;
            start = i;
        } else {
            proof {
                assert(s@.subrange(start as int, i as int).push(s@[i as int]) =~= s@.subrange(
                    start as int,
                    i as int + 1,
                ));
            }
            i += 1;
        }
    }
    if start < n {
        let w = s.substring_char(start, n).to_owned();
        proof {
            lemma_views_of_push(out@, w);
        }
        out.push(w);
        proof {
            assert(views_of(out@) =~= spec_split_ws(s@));
        }
    } else {
        proof {
            assert(views_of(out@) =~= spec_split_ws(s@));
        }
    }
    out
}

// ---------------------------------------------------------------------------
// Shortening a name for display
// ---------------------------------------------------------------------------

/// `name` unchanged when short enough, else its head with an ellipsis.
pub open spec fn spec_truncate(name: Seq<char>, max_len: int) -> Seq<char> {
    if name.len() <= max_len {
        name
    } else {
        name.subrange(0, max_len - 3) + "..."@
    }
}

/// Shorten a file name to at most `max_len` characters for display,
/// marking a cut with an ellipsis.
pub fn truncate_filename(filename: &str, max_len: usize) -> (r: String)
    requires
        max_len >= 3,
    ensures
        r@ == spec_truncate(filename@, max_len as int),
{
    let n = filename.unicode_len();
    if n <= max_len {
        filename.to_owned()
    } else {
        let mut r = filename.substring_char(0, max_len - 3).to_owned();
        r.append("...");
        r
    }
}

} // verus!

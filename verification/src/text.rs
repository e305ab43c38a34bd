//! Character-level text utilities used throughout the library.
//!
//! Strings are reasoned about through their view as `Seq<char>`. The few
//! std string operations that vstd gives no specification are either small
//! trusted wrappers (turning a `&str` into its characters and back) or are
//! written here against a short statement of what std documents.
use vstd::prelude::*;
use vstd::string::StrSliceExecFns;

verus! {

/// The characters of `s`, in order.
pub fn str_chars(s: &str) -> (r: Vec<char>)
    ensures
        r@ == s@,
{
    let n = s.unicode_len();
    let mut v: Vec<char> = Vec::new();
    let mut i: usize = 0;
    while i < n
        invariant
            n == s@.len(),
            i <= n,
            v@ == s@.take(i as int),
        decreases n - i,
    {
        v.push(s.get_char(i));
        i = i + 1;
        assert(v@ =~= s@.take(i as int));
    }
    assert(s@.take(n as int) =~= s@);
    v
}

/// `String::from_iter` over the characters `v`.
///
/// The contract claims that the string's characters are `v`'s, in order.
#[verifier::external_body]
pub fn string_from_chars(v: &Vec<char>) -> (r: String)
    ensures
        r@ == v@,
{
    String::from_iter(v.iter())
}

/// An owned copy of `s`.
pub fn owned(s: &str) -> (r: String)
    ensures
        r@ == s@,
{
    s.to_owned()
}

/// Appends the characters of `s` to `out`.
pub fn push_str_chars(out: &mut Vec<char>, s: &str)
    ensures
        final(out)@ == old(out)@ + s@,
{
    let cs = str_chars(s);
    push_seq(out, &cs);
}

/// Appends the characters of `cs` to `out`.
pub fn push_seq(out: &mut Vec<char>, cs: &Vec<char>)
    ensures
        final(out)@ == old(out)@ + cs@,
{
    let ghost start = out@;
    let mut i: usize = 0;
    while i < cs.len()
        invariant
            i <= cs.len(),
            out@ == start + cs@.subrange(0, i as int),
        decreases cs.len() - i,
    {
        out.push(cs[i]);
        i = i + 1;
        assert(cs@.subrange(0, i as int) == cs@.subrange(0, i - 1) + seq![cs@[i - 1]]);
    }
    assert(cs@.subrange(0, cs@.len() as int) == cs@);
}

/// The concatenation of `a` and `b` as a new `String`.
pub fn concat_str(a: &str, b: &str) -> (r: String)
    ensures
        r@ == a@ + b@,
{
    let mut v: Vec<char> = Vec::new();
    push_str_chars(&mut v, a);
    push_str_chars(&mut v, b);
    string_from_chars(&v)
}

// ---------------------------------------------------------------------------
// Whitespace and trimming (std `char::is_whitespace`, `str::trim`)
// ---------------------------------------------------------------------------

/// Unicode `White_Space`, the property that `char::is_whitespace` tests.
pub open spec fn is_ws(c: char) -> bool {
    let u = c as u32;
    ||| (0x9 <= u && u <= 0xd)
    ||| u == 0x20
    ||| u == 0x85
    ||| u == 0xa0
    ||| u == 0x1680
    ||| (0x2000 <= u && u <= 0x200a)
    ||| u == 0x2028
    ||| u == 0x2029
    ||| u == 0x202f
    ||| u == 0x205f
    ||| u == 0x3000
}

/// `s` without its leading whitespace.
pub open spec fn trim_start(s: Seq<char>) -> Seq<char>
    decreases s.len(),
{
    if s.len() > 0 && is_ws(s[0]) {
        trim_start(s.drop_first())
    } else {
        s
    }
}

/// `s` without its trailing whitespace.
pub open spec fn trim_end(s: Seq<char>) -> Seq<char>
    decreases s.len(),
{
    if s.len() > 0 && is_ws(s.last()) {
        trim_end(s.drop_last())
    } else {
        s
    }
}

/// `s` without leading and trailing whitespace, as `str::trim` gives it.
pub open spec fn trim(s: Seq<char>) -> Seq<char> {
    trim_end(trim_start(s))
}

pub fn is_whitespace(c: char) -> (r: bool)
    ensures
        r == is_ws(c),
{
    let u = c as u32;
    (0x9 <= u && u <= 0xd) || u == 0x20 || u == 0x85 || u == 0xa0 || u == 0x1680 || (0x2000 <= u
        && u <= 0x200a) || u == 0x2028 || u == 0x2029 || u == 0x202f || u == 0x205f || u == 0x3000
}

proof fn lemma_trim_start_skip(s: Seq<char>, i: int)
    requires
        0 <= i < s.len(),
        is_ws(s[i]),
    ensures
        trim_start(s.subrange(i, s.len() as int)) == trim_start(s.subrange(i + 1, s.len() as int)),
{
    let t = s.subrange(i, s.len() as int);
    assert(t.drop_first() =~= s.subrange(i + 1, s.len() as int));
}

proof fn lemma_trim_end_skip(s: Seq<char>, j: int)
    requires
        0 < j <= s.len(),
        is_ws(s[j - 1]),
    ensures
        trim_end(s.subrange(0, j)) == trim_end(s.subrange(0, j - 1)),
{
    let t = s.subrange(0, j);
    assert(t.drop_last() =~= s.subrange(0, j - 1));
}

/// Characters of `s` with leading and trailing whitespace removed.
pub fn trim_chars(s: &Vec<char>) -> (r: Vec<char>)
    ensures
        r@ == trim(s@),
{
    let n = s.len();
    let mut i: usize = 0;
    assert(s@.subrange(0, n as int) =~= s@);
    while i < n && is_whitespace(s[i])
        invariant
            n == s@.len(),
            i <= n,
            trim_start(s@) == trim_start(s@.subrange(i as int, n as int)),
        decreases n - i,
    {
        proof {
            lemma_trim_start_skip(s@, i as int);
        }
        i = i + 1;
    }
    assert(s@.subrange(0, n as int) =~= s@);
    let ghost mid = s@.subrange(i as int, n as int);
    assert(trim_start(mid) == mid);
    let mut j: usize = n;
    while j > i && is_whitespace(s[j - 1])
        invariant
            n == s@.len(),
            i <= j <= n,
            mid == s@.subrange(i as int, n as int),
            trim_end(mid) == trim_end(s@.subrange(i as int, j as int)),
        decreases j,
    {
        proof {
            let t = s@.subrange(i as int, j as int);
            lemma_trim_end_skip(t, (j - i) as int);
            assert(t.subrange(0, (j - i) as int) =~= t);
            assert(t.subrange(0, (j - i - 1) as int) =~= s@.subrange(i as int, j - 1));
        }
        j = j - 1;
    }
    let mut r: Vec<char> = Vec::new();
    let mut k: usize = i;
    while k < j
        invariant
            i <= k <= j <= n,
            n == s@.len(),
            r@ == s@.subrange(i as int, k as int),
        decreases j - k,
    {
        r.push(s[k]);
        k = k + 1;
        assert(r@ =~= s@.subrange(i as int, k as int));
    }
    r
}

/// `str::trim` as an owned `String`.
pub fn trim_str(s: &str) -> (r: String)
    ensures
        r@ == trim(s@),
{
    let cs = str_chars(s);
    let t = trim_chars(&cs);
    string_from_chars(&t)
}

// ---------------------------------------------------------------------------
// Substring search (std `str::contains` with a `&str` pattern)
// ---------------------------------------------------------------------------

/// `p` occurs in `s` at position `i`.
pub open spec fn occurs_at(s: Seq<char>, p: Seq<char>, i: int) -> bool {
    0 <= i && i + p.len() <= s.len() && s.subrange(i, i + p.len()) == p
}

/// `p` occurs somewhere in `s`.
pub open spec fn contains_seq(s: Seq<char>, p: Seq<char>) -> bool {
    exists|i: int| occurs_at(s, p, i)
}

/// Whether `p` occurs in `s` at position `i`.
pub fn occurs_at_exec(s: &Vec<char>, p: &Vec<char>, i: usize) -> (r: bool)
    ensures
        r == occurs_at(s@, p@, i as int),
{
    if i > s.len() || p.len() > s.len() - i {
        return false;
    }
    let mut k: usize = 0;
    while k < p.len()
        invariant
            i + p@.len() <= s@.len(),
            s@.len() == s.len(),
            k <= p@.len(),
            forall|m: int| 0 <= m < k ==> s@[i + m] == p@[m],
        decreases p.len() - k,
    {
        if s[i + k] != p[k] {
            assert(s@.subrange(i as int, i + p@.len())[k as int] != p@[k as int]);
            return false;
        }
        k = k + 1;
    }
    assert(s@.subrange(i as int, i + p@.len()) =~= p@);
    true
}

/// Whether `p` occurs in `s` (character sequences).
pub fn contains_chars(s: &Vec<char>, p: &Vec<char>) -> (r: bool)
    ensures
        r == contains_seq(s@, p@),
{
    if p.len() > s.len() {
        return false;
    }
    let last = s.len() - p.len();
    let mut i: usize = 0;
    while i < last
        invariant
            last == s@.len() - p@.len(),
            i <= last,
            forall|j: int| 0 <= j < i ==> !occurs_at(s@, p@, j),
        decreases last - i,
    {
        if occurs_at_exec(s, p, i) {
            return true;
        }
        i = i + 1;
    }
    if occurs_at_exec(s, p, last) {
        return true;
    }
    assert forall|j: int| !occurs_at(s@, p@, j) by {
        if 0 <= j && j < i {
        } else if j == last {
        } else {
            assert(!occurs_at(s@, p@, j));
        }
    }
    false
}

/// `str::contains` with a string pattern.
pub fn contains_str(s: &str, p: &str) -> (r: bool)
    ensures
        r == contains_seq(s@, p@),
{
    let sc = str_chars(s);
    let pc = str_chars(p);
    contains_chars(&sc, &pc)
}

// ---------------------------------------------------------------------------
// Replacement (std `str::replace` with a non-empty pattern)
// ---------------------------------------------------------------------------

/// `to` before every character of `s` and once more at the end: what
/// replacing the empty pattern does.
pub open spec fn interleave(s: Seq<char>, to: Seq<char>) -> Seq<char>
    decreases s.len(),
{
    if s.len() == 0 {
        to
    } else {
        to + seq![s[0]] + interleave(s.drop_first(), to)
    }
}

/// Every non-overlapping occurrence of `from` in `s`, found from left to
/// right, replaced by `to`; an empty `from` occurs at every character
/// boundary.
pub open spec fn replace_all(s: Seq<char>, from: Seq<char>, to: Seq<char>) -> Seq<char>
    decreases s.len(),
{
    if from.len() == 0 {
        interleave(s, to)
    } else if s.len() == 0 {
        s
    } else if occurs_at(s, from, 0) {
        to + replace_all(s.subrange(from.len() as int, s.len() as int), from, to)
    } else {
        seq![s[0]] + replace_all(s.drop_first(), from, to)
    }
}

/// `s` with every occurrence of `from` replaced by `to` (`str::replace`).
pub fn replace_str(s: &str, from: &str, to: &str) -> (r: String)
    ensures
        r@ == replace_all(s@, from@, to@),
{
    let sc = str_chars(s);
    let fc = str_chars(from);
    let tc = str_chars(to);
    let n = sc.len();
    if fc.len() == 0 {
        return interleave_chars(&sc, &tc);
    }
    let mut out: Vec<char> = Vec::new();
    let mut i: usize = 0;
    assert(sc@.subrange(0, n as int) =~= sc@);
    assert(out@ + replace_all(sc@, fc@, tc@) =~= replace_all(sc@, fc@, tc@));
    while i < n
        invariant
            n == sc@.len(),
            i <= n,
            fc@.len() > 0,
            out@ + replace_all(sc@.subrange(i as int, n as int), fc@, tc@) == replace_all(
                sc@,
                fc@,
                tc@,
            ),
        decreases n - i,
    {
        let ghost rest = sc@.subrange(i as int, n as int);
        if occurs_at_exec(&sc, &fc, i) {
            proof {
                assert(rest.subrange(0, fc@.len() as int) =~= sc@.subrange(
                    i as int,
                    i + fc@.len(),
                ));
                assert(rest.subrange(fc@.len() as int, rest.len() as int) =~= sc@.subrange(
                    i + fc@.len(),
                    n as int,
                ));
                assert(out@ + tc@ + replace_all(sc@.subrange(i + fc@.len(), n as int), fc@, tc@)
                    =~= out@ + (tc@ + replace_all(
                    sc@.subrange(i + fc@.len(), n as int),
                    fc@,
                    tc@,
                )));
            }
            push_seq(&mut out, &tc);
            i = i + fc.len();
        } else {
            proof {
                assert(!occurs_at(rest, fc@, 0)) by {
                    if occurs_at(rest, fc@, 0) {
                        assert(rest.subrange(0, fc@.len() as int) =~= sc@.subrange(
                            i as int,
                            i + fc@.len(),
                        ));
                    }
                }
                assert(rest.drop_first() =~= sc@.subrange(i + 1, n as int));
                assert(out@.push(sc@[i as int]) + replace_all(
                    sc@.subrange(i + 1, n as int),
                    fc@,
                    tc@,
                ) =~= out@ + (seq![rest[0]] + replace_all(rest.drop_first(), fc@, tc@)));
            }
            out.push(sc[i]);
            i = i + 1;
        }
    }
    assert(out@ + replace_all(sc@.subrange(n as int, n as int), fc@, tc@) =~= out@);
    string_from_chars(&out)
}

fn interleave_chars(sc: &Vec<char>, tc: &Vec<char>) -> (r: String)
    ensures
        r@ == interleave(sc@, tc@),
{
    let n = sc.len();
    let mut out: Vec<char> = Vec::new();
    let mut i: usize = 0;
    assert(sc@.subrange(0, n as int) =~= sc@);
    assert(out@ + interleave(sc@, tc@) =~= interleave(sc@, tc@));
    while i < n
        invariant
            n == sc@.len(),
            i <= n,
            out@ + interleave(sc@.subrange(i as int, n as int), tc@) == interleave(sc@, tc@),
        decreases n - i,
    {
        let ghost rest = sc@.subrange(i as int, n as int);
        proof {
            assert(rest.drop_first() =~= sc@.subrange(i + 1, n as int));
            assert(out@ + tc@ + seq![sc@[i as int]] + interleave(sc@.subrange(i + 1, n as int), tc@)
                =~= out@ + (tc@ + seq![rest[0]] + interleave(rest.drop_first(), tc@)));
        }
        push_seq(&mut out, tc);
        out.push(sc[i]);
        i = i + 1;
    }
    assert(sc@.subrange(n as int, n as int) =~= Seq::<char>::empty());
    push_seq(&mut out, tc);
    string_from_chars(&out)
}

// ---------------------------------------------------------------------------
// Joining (std `[String]::join`)
// ---------------------------------------------------------------------------

/// The parts, in order, with `sep` between neighbours.
pub open spec fn join_seqs(parts: Seq<Seq<char>>, sep: Seq<char>) -> Seq<char>
    decreases parts.len(),
{
    if parts.len() == 0 {
        seq![]
    } else if parts.len() == 1 {
        parts[0]
    } else {
        join_seqs(parts.drop_last(), sep) + sep + parts.last()
    }
}

/// The views of a list of strings.
pub open spec fn views(v: Seq<String>) -> Seq<Seq<char>> {
    v.map_values(|s: String| s@)
}

/// The strings of `parts`, in order, with `sep` between neighbours.
pub fn join_strings(parts: &[String], sep: &str) -> (r: String)
    ensures
        r@ == join_seqs(views(parts@), sep@),
{
    let mut out: Vec<char> = Vec::new();
    let mut i: usize = 0;
    while i < parts.len()
        invariant
            i <= parts@.len(),
            out@ == join_seqs(views(parts@).take(i as int), sep@),
        decreases parts.len() - i,
    {
        let ghost before = views(parts@).take(i as int);
        if i > 0 {
            push_str_chars(&mut out, sep);
        }
        push_str_chars(&mut out, parts[i].as_str());
        proof {
            let after = views(parts@).take(i + 1);
            assert(after.drop_last() =~= before);
            assert(after.last() == parts@[i as int]@);
            if i == 0 {
                assert(out@ =~= after[0]);
            }
        }
        i = i + 1;
    }
    assert(views(parts@).take(parts@.len() as int) =~= views(parts@));
    string_from_chars(&out)
}

// ---------------------------------------------------------------------------
// Decimal numbers (std integer `Display` and `FromStr`)
// ---------------------------------------------------------------------------

pub open spec fn digit_char(d: nat) -> char {
    ((d % 10) + 48) as char
}

/// Decimal digits of `n`, most significant first, without leading zeros.
pub open spec fn decimal(n: nat) -> Seq<char>
    decreases n,
{
    if n < 10 {
        seq![digit_char(n)]
    } else {
        decimal(n / 10).push(digit_char(n % 10))
    }
}

/// `n` as std's `Display` writes an integer.
pub open spec fn decimal_int(n: int) -> Seq<char> {
    if n < 0 {
        seq!['-'] + decimal((-n) as nat)
    } else {
        decimal(n as nat)
    }
}

fn push_decimal(out: &mut Vec<char>, n: u64)
    ensures
        final(out)@ == old(out)@ + decimal(n as nat),
    decreases n,
{
    if n >= 10 {
        push_decimal(out, n / 10);
    }
    let c = digit_to_char((n % 10) as u8);
    out.push(c);
}

fn digit_to_char(d: u8) -> (c: char)
    requires
        d < 10,
    ensures
        c == digit_char(d as nat),
{
    match d {
        0 => '0',
        1 => '1',
        2 => '2',
        3 => '3',
        4 => '4',
        5 => '5',
        6 => '6',
        7 => '7',
        8 => '8',
        _ => '9',
    }
}

/// Appends the decimal form of `n` to `out`.
pub fn push_int(out: &mut Vec<char>, n: i64)
    ensures
        final(out)@ == old(out)@ + decimal_int(n as int),
{
    if n < 0 {
        out.push('-');
        let m: u64 = if n == i64::MIN {
            9223372036854775808u64
        } else {
            (-n) as u64
        };
        push_decimal(out, m);
    } else {
        push_decimal(out, n as u64);
    }
}

/// The decimal form of `n` (`i64::to_string`).
pub fn int_to_string(n: i64) -> (r: String)
    ensures
        r@ == decimal_int(n as int),
{
    let mut v: Vec<char> = Vec::new();
    push_int(&mut v, n);
    string_from_chars(&v)
}

pub open spec fn is_ascii_digit(c: char) -> bool {
    '0' <= c && c <= '9'
}

/// The value of a string of ASCII digits.
pub open spec fn digits_value(s: Seq<char>) -> int
    decreases s.len(),
{
    if s.len() == 0 {
        0
    } else {
        digits_value(s.drop_last()) * 10 + (s.last() as int - 48)
    }
}

pub open spec fn all_digits(s: Seq<char>) -> bool {
    forall|i: int| 0 <= i < s.len() ==> is_ascii_digit(#[trigger] s[i])
}

/// The value `s` denotes as std's `FromStr` for an integer type with range
/// `[lo, hi]` reads it: an optional sign (`-` only where `lo < 0`), then one
/// or more ASCII digits, the value inside the range.
pub open spec fn parse_int_spec(s: Seq<char>, lo: int, hi: int) -> Option<int> {
    let neg = s.len() > 0 && s[0] == '-' && lo < 0;
    let signed = s.len() > 0 && (s[0] == '+' || (s[0] == '-' && lo < 0));
    let body = if signed {
        s.drop_first()
    } else {
        s
    };
    let v = if neg {
        -digits_value(body)
    } else {
        digits_value(body)
    };
    if body.len() > 0 && all_digits(body) && lo <= v && v <= hi {
        Some(v)
    } else {
        None
    }
}

proof fn lemma_digits_value_nonneg(s: Seq<char>)
    requires
        all_digits(s),
    ensures
        digits_value(s) >= 0,
    decreases s.len(),
{
    if s.len() > 0 {
        assert(all_digits(s.drop_last())) by {
            assert forall|i: int| 0 <= i < s.drop_last().len() implies is_ascii_digit(
                #[trigger] s.drop_last()[i],
            ) by {
                assert(s.drop_last()[i] == s[i]);
            }
        }
        lemma_digits_value_nonneg(s.drop_last());
        assert(is_ascii_digit(s[s.len() - 1]));
    }
}

proof fn lemma_digits_value_mono(s: Seq<char>, k: int)
    requires
        all_digits(s),
        0 <= k <= s.len(),
    ensures
        digits_value(s.take(k)) <= digits_value(s),
    decreases s.len() - k,
{
    if k < s.len() {
        lemma_digits_value_mono(s, k + 1);
        let t = s.take(k + 1);
        assert(t.drop_last() =~= s.take(k));
        assert(all_digits(s.take(k))) by {
            assert forall|i: int| 0 <= i < s.take(k).len() implies is_ascii_digit(
                #[trigger] s.take(k)[i],
            ) by {
                assert(s.take(k)[i] == s[i]);
            }
        }
        lemma_digits_value_nonneg(s.take(k));
        assert(is_ascii_digit(s[k]));
    } else {
        assert(s.take(k) =~= s);
    }
}

/// Reads the digits `s[start..]` as a value no larger than `hi`.
fn digits_upto(s: &Vec<char>, start: usize, hi: u64) -> (r: Option<u64>)
    requires
        start <= s@.len(),
        hi <= u64::MAX / 20,
    ensures
        ({
            let body = s@.subrange(start as int, s@.len() as int);
            match r {
                Some(v) => body.len() > 0 && all_digits(body) && v == digits_value(body) && v
                    <= hi,
                None => !(body.len() > 0 && all_digits(body) && digits_value(body) <= hi),
            }
        }),
{
    let n = s.len();
    let ghost body = s@.subrange(start as int, n as int);
    if start == n {
        return None;
    }
    let mut acc: u64 = 0;
    let mut i: usize = start;
    while i < n
        invariant
            n == s@.len(),
            start < n,
            start <= i <= n,
            body == s@.subrange(start as int, n as int),
            hi <= u64::MAX / 20,
            acc <= hi,
            all_digits(body.take(i - start)),
            acc == digits_value(body.take(i - start)),
        decreases n - i,
    {
        let c = s[i];
        let ghost k = (i - start) as int;
        if !('0' <= c && c <= '9') {
            proof {
                assert(body[k] == c);
            }
            return None;
        }
        let d = (c as u32 - 48) as u64;
        let next = acc * 10 + d;
        proof {
            let t = body.take(k + 1);
            assert(t.drop_last() =~= body.take(k));
            assert(t.last() == c);
            assert(all_digits(t)) by {
                assert forall|m: int| 0 <= m < t.len() implies is_ascii_digit(#[trigger] t[m]) by {
                    if m < k {
                        assert(t[m] == body.take(k)[m]);
                    }
                }
            }
        }
        if next > hi {
            proof {
                let t = body.take(k + 1);
                if all_digits(body) {
                    lemma_digits_value_mono(body, k + 1);
                }
            }
            return None;
        }
        acc = next;
        i = i + 1;
    }
    proof {
        assert(body.take(n - start) =~= body);
    }
    Some(acc)
}

/// `s.parse::<u32>()` as std's `FromStr for u32` reads it.
pub fn parse_u32(s: &str) -> (r: Option<u32>)
    ensures
        r matches Some(v) ==> parse_int_spec(s@, 0, u32::MAX as int) == Some(v as int),
        r is None ==> parse_int_spec(s@, 0, u32::MAX as int) is None,
{
    let cs = str_chars(s);
    let start: usize = if cs.len() > 0 && cs[0] == '+' {
        1
    } else {
        0
    };
    proof {
        assert(cs@.subrange(start as int, cs@.len() as int) =~= (if start == 1 {
            cs@.drop_first()
        } else {
            cs@
        }));
    }
    match digits_upto(&cs, start, u32::MAX as u64) {
        Some(v) => Some(v as u32),
        None => None,
    }
}

/// `s.parse::<i32>()` as std's `FromStr for i32` reads it.
pub fn parse_i32(s: &str) -> (r: Option<i32>)
    ensures
        r matches Some(v) ==> parse_int_spec(s@, i32::MIN as int, i32::MAX as int) == Some(
            v as int,
        ),
        r is None ==> parse_int_spec(s@, i32::MIN as int, i32::MAX as int) is None,
{
    let cs = str_chars(s);
    let neg = cs.len() > 0 && cs[0] == '-';
    let start: usize = if cs.len() > 0 && (cs[0] == '+' || cs[0] == '-') {
        1
    } else {
        0
    };
    proof {
        assert(cs@.subrange(start as int, cs@.len() as int) =~= (if start == 1 {
            cs@.drop_first()
        } else {
            cs@
        }));
    }
    let hi: u64 = if neg {
        2147483648
    } else {
        2147483647
    };
    match digits_upto(&cs, start, hi) {
        Some(v) => {
            if neg {
                if v == 2147483648 {
                    Some(i32::MIN)
                } else {
                    Some(-(v as i32))
                }
            } else {
                Some(v as i32)
            }
        },
        None => None,
    }
}

// ---------------------------------------------------------------------------
// Lower case (std `str::to_lowercase`)
// ---------------------------------------------------------------------------

/// The lower-case form of `s` under Unicode's case mapping, as
/// `str::to_lowercase` gives it.
pub uninterp spec fn unicode_lowercase(s: Seq<char>) -> Seq<char>;

/// `str::to_lowercase`.
///
/// The contract claims only that the result is std's lower-case form of the
/// argument; Unicode's case mapping is not restated.
#[verifier::external_body]
pub fn to_lowercase(s: &str) -> (r: String)
    ensures
        r@ == unicode_lowercase(s@),
{
    s.to_lowercase()
}

/// Writing a number in decimal and reading it back gives the number: the
/// digits are ASCII digits, there is no leading zero, and a number within
/// an integer type's range reads back as itself, with a `-` for a negative
/// one.
pub proof fn decimal_reads_back(n: int, lo: int, hi: int)
    ensures
        n >= 0 ==> all_digits(decimal(n as nat)) && digits_value(decimal(n as nat)) == n,
        n >= 10 ==> decimal(n as nat)[0] != '0',
        lo < 0 && lo <= n <= hi ==> parse_int_spec(decimal_int(n), lo, hi) == Some(n),
        0 <= lo <= n <= hi ==> parse_int_spec(decimal_int(n), lo, hi) == Some(n),
{
    if n < 0 {
        lemma_decimal_digits((-n) as nat);
        let d = decimal((-n) as nat);
        let s = seq!['-'] + d;
        assert(s.drop_first() =~= d);
        assert(d.len() > 0);
        assert(d[0] != '-');
    } else {
        lemma_decimal_digits(n as nat);
        let d = decimal(n as nat);
        assert(d.len() > 0);
        assert(is_ascii_digit(d[0]));
    }
}

proof fn lemma_decimal_digits(n: nat)
    ensures
        all_digits(decimal(n)),
        digits_value(decimal(n)) == n,
        decimal(n).len() > 0,
        n >= 10 ==> decimal(n)[0] != '0',
        n < 10 ==> decimal(n) == seq![digit_char(n)],
    decreases n,
{
    let c = digit_char(n % 10);
    assert(c as int == n % 10 + 48);
    if n < 10 {
        let e = decimal(n);
        assert(e.drop_last() =~= Seq::<char>::empty());
        assert(digits_value(e.drop_last()) == 0);
        assert(e.last() == c);
        assert(digits_value(e) == n);
        assert(all_digits(e));
    } else {
        lemma_decimal_digits(n / 10);
        let d = decimal(n / 10);
        let e = d.push(digit_char(n % 10));
        assert(e.drop_last() =~= d);
        assert(e.last() == c);
        assert(n == (n / 10) * 10 + n % 10);
        assert(digits_value(e) == n);
        assert(all_digits(e)) by {
            assert forall|i: int| 0 <= i < e.len() implies is_ascii_digit(#[trigger] e[i]) by {
                if i < d.len() {
                    assert(e[i] == d[i]);
                }
            }
        }
        assert(e[0] == d[0]);
        if n / 10 < 10 {
            assert(n / 10 >= 1);
            assert(d[0] == digit_char(n / 10));
        }
    }
}

} // verus!

//! Character-level helpers for the small textual formats that audio servers report:
//! decimal numbers, whitespace trimming and separator-delimited lists.
use vstd::prelude::*;
use vstd::string::StrSliceExecFns;

verus! {

/// The characters of `s`.
pub fn str_chars(s: &str) -> (v: Vec<char>)
    ensures
        v@ == s@,
{
    let n = s.unicode_len();
    let mut v: Vec<char> = Vec::new();
    let mut i: usize = 0;
    while i < n
        invariant
            n == s@.len(),
            i <= n,
            v@ == s@.subrange(0, i as int),
        decreases n - i,
    {
        let c = s.get_char(i);
        v.push(c);
        i = i + 1;
    }
    assert(v@ == s@);
    v
}

/// Whether `c` is an ASCII decimal digit.
pub open spec fn is_digit(c: char) -> bool {
    '0' <= c && c <= '9'
}

/// The value of a string of decimal digits, most significant first.
pub open spec fn digits_value(s: Seq<char>) -> nat
    decreases s.len(),
{
    if s.len() == 0 {
        0
    } else {
        digits_value(s.drop_last()) * 10 + ((s.last() as int - '0' as int) as nat)
    }
}

/// What parsing `s` as an unsigned 32-bit decimal number gives: an optional `+` sign followed
/// by at least one digit, with a value that fits in 32 bits.
pub open spec fn spec_parse_u32(s: Seq<char>) -> Option<u32> {
    let d = unsigned_digits(s);
    if d.len() > 0 && all_digits(d) && digits_value(d) <= u32::MAX {
        Some(digits_value(d) as u32)
    } else {
        None
    }
}

/// `s` without a leading `+` sign.
pub open spec fn unsigned_digits(s: Seq<char>) -> Seq<char> {
    if s.len() > 0 && s[0] == '+' { s.drop_first() } else { s }
}

/// Whether every character of `d` is a decimal digit.
pub open spec fn all_digits(d: Seq<char>) -> bool {
    forall|i: int| 0 <= i < d.len() ==> is_digit(#[trigger] d[i])
}

proof fn lemma_digits_value_step(s: Seq<char>, c: char)
    ensures
        digits_value(s.push(c)) == digits_value(s) * 10 + ((c as int - '0' as int) as nat),
{
    assert(s.push(c).drop_last() =~= s);
}

/// Parses `s[from..to]` as an unsigned 32-bit decimal number.
pub fn parse_u32_range(s: &Vec<char>, from: usize, to: usize) -> (r: Option<u32>)
    requires
        from <= to <= s@.len(),
    ensures
        r == spec_parse_u32(s@.subrange(from as int, to as int)),
{
    let ghost t = s@.subrange(from as int, to as int);
    let mut start = from;
    if from < to && s[from] == '+' {
        start = from + 1;
    }
    let ghost d = s@.subrange(start as int, to as int);
    assert(d =~= unsigned_digits(t));
    if start == to {
        return None;
    }
    let mut value: u64 = 0;
    let mut i = start;
    while i < to
        invariant
            start <= i <= to <= s@.len(),
            d == s@.subrange(start as int, to as int),
            t == s@.subrange(from as int, to as int),
            d == unsigned_digits(t),
            d.len() > 0,
            forall|k: int| start <= k < i ==> is_digit(#[trigger] s@[k]),
            value == digits_value(s@.subrange(start as int, i as int)),
            value <= u32::MAX,
        decreases to - i,
    {
        let c = s[i];
        if !('0' <= c && c <= '9') {
            assert(d[i - start] == c);
            assert(!is_digit(d[i - start]));
            assert(!all_digits(d));
            return None;
        }
        proof {
            lemma_digits_value_step(s@.subrange(start as int, i as int), c);
            assert(s@.subrange(start as int, i as int).push(c) =~= s@.subrange(start as int, i + 1));
        }
        let digit = (c as u32 - '0' as u32) as u64;
        let next = value * 10 + digit;
        if next > u32::MAX as u64 {
            proof {
                assert(s@.subrange(start as int, i + 1) =~= d.subrange(0, (i + 1 - start) as int));
                if all_digits(d) {
                    lemma_digits_value_grows(d, (i + 1 - start) as int);
                    assert(digits_value(d) > u32::MAX);
                }
            }
            return None;
        }
        value = next;
        i = i + 1;
    }
    assert(s@.subrange(start as int, to as int) =~= d);
    Some(value as u32)
}

/// The value of a digit string is at least the value of any of its prefixes.
proof fn lemma_digits_value_grows(d: Seq<char>, k: int)
    requires
        0 <= k <= d.len(),
        forall|i: int| 0 <= i < d.len() ==> is_digit(#[trigger] d[i]),
    ensures
        digits_value(d) >= digits_value(d.subrange(0, k)),
    decreases d.len() - k,
{
    if k < d.len() {
        lemma_digits_value_grows(d, k + 1);
        let p = d.subrange(0, k + 1);
        assert(p.drop_last() =~= d.subrange(0, k));
        assert(is_digit(d[k]));
        assert(p.last() == d[k]);
    } else {
        assert(d.subrange(0, k) =~= d);
    }
}

/// The decimal digits of `n`, with no leading zero.
pub open spec fn spec_decimal(n: nat) -> Seq<char>
    decreases n,
{
    if n < 10 {
        seq![(48 + n) as char]
    } else {
        spec_decimal(n / 10).push((48 + n % 10) as char)
    }
}

/// The decimal text of `n` is non-empty (longer than one digit from ten on), all digits,
/// without a leading zero, and reads back as `n`.
pub proof fn lemma_decimal_reads_back(n: nat)
    ensures
        spec_decimal(n).len() > 0,
        all_digits(spec_decimal(n)),
        digits_value(spec_decimal(n)) == n,
        spec_decimal(n).len() > 1 ==> spec_decimal(n)[0] != '0',
        n >= 10 ==> spec_decimal(n).len() > 1,
    decreases n,
{
    assert('0' as int == 48);
    if n < 10 {
        let s = spec_decimal(n);
        assert(s.drop_last() =~= Seq::<char>::empty());
        assert(s.last() as int == 48 + n);
        assert(digits_value(s) == digits_value(s.drop_last()) * 10 + ((s.last() as int - '0' as int) as nat));
    } else {
        let prefix = spec_decimal(n / 10);
        lemma_decimal_reads_back(n / 10);
        let c = (48 + n % 10) as char;
        lemma_digits_value_step(prefix, c);
        assert(c as int == 48 + n % 10);
        assert(spec_decimal(n) == prefix.push(c));
        assert forall|i: int| 0 <= i < prefix.push(c).len() implies is_digit(#[trigger] prefix.push(c)[i]) by {
            if i < prefix.len() {
                assert(prefix.push(c)[i] == prefix[i]);
            }
        }
        assert(prefix.push(c)[0] == prefix[0]);
        assert(n == (n / 10) * 10 + n % 10);
        if n / 10 < 10 {
            assert(prefix[0] as int == 48 + n / 10);
        }
    }
}

/// The one-character text of the digit `d`.
fn digit_text(d: u32) -> (s: &'static str)
    requires
        d < 10,
    ensures
        s@ == seq![(48 + d) as char],
{
    proof {
        reveal_strlit("0");
        reveal_strlit("1");
        reveal_strlit("2");
        reveal_strlit("3");
        reveal_strlit("4");
        reveal_strlit("5");
        reveal_strlit("6");
        reveal_strlit("7");
        reveal_strlit("8");
        reveal_strlit("9");
    }
    let s = match d {
        0 => "0",
        1 => "1",
        2 => "2",
        3 => "3",
        4 => "4",
        5 => "5",
        6 => "6",
        7 => "7",
        8 => "8",
        _ => "9",
    };
    assert(s@ =~= seq![(48 + d) as char]);
    s
}

/// The decimal text of `n`, as `Display` writes an integer: built from the lowest digit up.
fn u32_to_string(n: u32) -> (s: String)
    ensures
        s@ == spec_decimal(n as nat),
{
    let mut text = digit_text(n % 10).to_owned();
    let mut rest: u32 = n / 10;
    assert(n < 10 ==> spec_decimal(n as nat) =~= text@);
    assert(n >= 10 ==> spec_decimal(n as nat) =~= spec_decimal(rest as nat) + text@);
    while rest > 0
        invariant
            rest > 0 ==> spec_decimal(n as nat) == spec_decimal(rest as nat) + text@,
            rest == 0 ==> spec_decimal(n as nat) == text@,
        decreases rest,
    {
        let ghost before = text@;
        text = digit_text(rest % 10).to_owned().concat(text.as_str());
        proof {
            let d = seq![(48 + rest % 10) as char];
            assert(text@ == d + before);
            if rest < 10 {
                assert(spec_decimal(rest as nat) =~= d);
            } else {
                assert(spec_decimal(rest as nat) == spec_decimal((rest / 10) as nat).push((48 + rest % 10) as char));
                assert(spec_decimal(rest as nat) + before =~= spec_decimal((rest / 10) as nat) + (d + before));
            }
        }
        rest = rest / 10;
    }
    text
}

/// The decimal text of `n`: non-empty, all digits, without a leading zero, reading back as
/// `n`.
pub(crate) fn decimal_text(n: u32) -> (s: String)
    ensures
        s@ == spec_decimal(n as nat),
        s@.len() > 0,
        all_digits(s@),
        digits_value(s@) == n,
        s@.len() > 1 ==> s@[0] != '0',
{
    proof {
        lemma_decimal_reads_back(n as nat);
    }
    u32_to_string(n)
}

/// Whether `c` is Unicode white space, the set that `str::trim` removes.
pub open spec fn is_white_space(c: char) -> bool {
    ||| ('\u{9}' <= c && c <= '\u{d}')
    ||| c == ' '
    ||| c == '\u{85}'
    ||| c == '\u{a0}'
    ||| c == '\u{1680}'
    ||| ('\u{2000}' <= c && c <= '\u{200a}')
    ||| c == '\u{2028}'
    ||| c == '\u{2029}'
    ||| c == '\u{202f}'
    ||| c == '\u{205f}'
    ||| c == '\u{3000}'
}

pub fn white_space(c: char) -> (b: bool)
    ensures
        b == is_white_space(c),
{
    ('\u{9}' <= c && c <= '\u{d}') || c == ' ' || c == '\u{85}' || c == '\u{a0}' || c
        == '\u{1680}' || ('\u{2000}' <= c && c <= '\u{200a}') || c == '\u{2028}' || c == '\u{2029}'
        || c == '\u{202f}' || c == '\u{205f}' || c == '\u{3000}'
}

/// `s` without its leading white space.
pub open spec fn trim_start(s: Seq<char>) -> Seq<char>
    decreases s.len(),
{
    if s.len() > 0 && is_white_space(s[0]) {
        trim_start(s.drop_first())
    } else {
        s
    }
}

/// `s` without its trailing white space.
pub open spec fn trim_end(s: Seq<char>) -> Seq<char>
    decreases s.len(),
{
    if s.len() > 0 && is_white_space(s.last()) {
        trim_end(s.drop_last())
    } else {
        s
    }
}

/// `s` without leading and trailing white space.
pub open spec fn trim(s: Seq<char>) -> Seq<char> {
    trim_end(trim_start(s))
}

/// The bounds `(a, b)` of `trim(s)` within `s`.
pub fn trim_bounds(s: &Vec<char>) -> (r: (usize, usize))
    ensures
        r.0 <= r.1 <= s@.len(),
        s@.subrange(r.0 as int, r.1 as int) == trim(s@),
{
    let n = s.len();
    let mut a: usize = 0;
    assert(s@.subrange(0, n as int) =~= s@);
    while a < n && white_space(s[a])
        invariant
            a <= n == s@.len(),
            trim_start(s@) == trim_start(s@.subrange(a as int, n as int)),
        decreases n - a,
    {
        assert(s@.subrange(a as int, n as int).drop_first() =~= s@.subrange(a + 1, n as int));
        a = a + 1;
    }
    assert(trim_start(s@.subrange(a as int, n as int)) == s@.subrange(a as int, n as int));
    let mut b: usize = n;
    while b > a && white_space(s[b - 1])
        invariant
            a <= b <= n == s@.len(),
            trim(s@) == trim_end(s@.subrange(a as int, b as int)),
        decreases b - a,
    {
        assert(s@.subrange(a as int, b as int).drop_last() =~= s@.subrange(a as int, b - 1));
        b = b - 1;
    }
    (a, b)
}

/// `s` without its trailing white space, as `str::trim_end` gives it.
pub fn trimmed_end(s: &str) -> (t: &str)
    ensures
        t@ == trim_end(s@),
{
    let n = s.unicode_len();
    let mut b: usize = n;
    assert(s@.subrange(0, n as int) =~= s@);
    while b > 0 && white_space(s.get_char(b - 1))
        invariant
            b <= n == s@.len(),
            trim_end(s@) == trim_end(s@.subrange(0, b as int)),
        decreases b,
    {
        assert(s@.subrange(0, b as int).drop_last() =~= s@.subrange(0, b - 1));
        b = b - 1;
    }
    s.substring_char(0, b)
}

/// Whether `c` separates the entries of a list: a space or a comma.
pub open spec fn is_list_separator(c: char) -> bool {
    c == ' ' || c == ','
}

/// Splitting state after reading `s`: the finished entries and the entry being read.
pub open spec fn split_state(s: Seq<char>) -> (Seq<Seq<char>>, Seq<char>)
    decreases s.len(),
{
    if s.len() == 0 {
        (Seq::empty(), Seq::empty())
    } else {
        let (done, cur) = split_state(s.drop_last());
        let c = s.last();
        if is_list_separator(c) {
            if cur.len() > 0 {
                (done.push(cur), Seq::empty())
            } else {
                (done, cur)
            }
        } else {
            (done, cur.push(c))
        }
    }
}

/// The non-empty entries of `s` separated by spaces or commas.
pub open spec fn list_entries(s: Seq<char>) -> Seq<Seq<char>> {
    let (done, cur) = split_state(s);
    if cur.len() > 0 { done.push(cur) } else { done }
}

/// The start and end of each entry of `s[from..to]` separated by spaces or commas.
pub fn list_entry_bounds(s: &Vec<char>, from: usize, to: usize) -> (r: Vec<(usize, usize)>)
    requires
        from <= to <= s@.len(),
    ensures
        r@.len() == list_entries(s@.subrange(from as int, to as int)).len(),
        forall|k: int|
            0 <= k < r@.len() ==> {
                &&& (#[trigger] r@[k]).0 <= r@[k].1 <= s@.len()
                &&& s@.subrange(r@[k].0 as int, r@[k].1 as int) == list_entries(
                    s@.subrange(from as int, to as int),
                )[k]
            },
{
    let mut out: Vec<(usize, usize)> = Vec::new();
    let mut cur_start: usize = from;
    let mut i: usize = from;
    while i < to
        invariant
            from <= cur_start <= i <= to <= s@.len(),
            split_state(s@.subrange(from as int, i as int)).1 == s@.subrange(
                cur_start as int,
                i as int,
            ),
            out@.len() == split_state(s@.subrange(from as int, i as int)).0.len(),
            forall|k: int|
                0 <= k < out@.len() ==> {
                    &&& (#[trigger] out@[k]).0 <= out@[k].1 <= s@.len()
                    &&& s@.subrange(out@[k].0 as int, out@[k].1 as int) == split_state(
                        s@.subrange(from as int, i as int),
                    ).0[k]
                },
        decreases to - i,
    {
        let c = s[i];
        let ghost prev = s@.subrange(from as int, i as int);
        let ghost next = s@.subrange(from as int, i + 1);
        assert(next.drop_last() =~= prev);
        assert(next.last() == c);
        if c == ' ' || c == ',' {
            if cur_start < i {
                out.push((cur_start, i));
            }
            cur_start = i + 1;
            assert(s@.subrange(cur_start as int, i + 1) =~= Seq::<char>::empty());
        } else {
            assert(s@.subrange(cur_start as int, i + 1) =~= s@.subrange(
                cur_start as int,
                i as int,
            ).push(c));
        }
        i = i + 1;
    }
    if cur_start < to {
        out.push((cur_start, to));
    }
    out
}

/// Splitting state after reading `s` at white space: the finished tokens and the token being
/// read.
pub open spec fn white_space_split_state(s: Seq<char>) -> (Seq<Seq<char>>, Seq<char>)
    decreases s.len(),
{
    if s.len() == 0 {
        (Seq::empty(), Seq::empty())
    } else {
        let (done, cur) = white_space_split_state(s.drop_last());
        let c = s.last();
        if is_white_space(c) {
            if cur.len() > 0 {
                (done.push(cur), Seq::empty())
            } else {
                (done, cur)
            }
        } else {
            (done, cur.push(c))
        }
    }
}

/// The non-empty runs of `s` between white space, as `str::split_whitespace` yields them.
pub open spec fn white_space_tokens(s: Seq<char>) -> Seq<Seq<char>> {
    let (done, cur) = white_space_split_state(s);
    if cur.len() > 0 { done.push(cur) } else { done }
}

/// The start and end of each white-space separated token of `s[from..to]`.
pub fn white_space_token_bounds(s: &Vec<char>, from: usize, to: usize) -> (r: Vec<(usize, usize)>)
    requires
        from <= to <= s@.len(),
    ensures
        r@.len() == white_space_tokens(s@.subrange(from as int, to as int)).len(),
        forall|k: int|
            0 <= k < r@.len() ==> {
                &&& (#[trigger] r@[k]).0 <= r@[k].1 <= s@.len()
                &&& s@.subrange(r@[k].0 as int, r@[k].1 as int) == white_space_tokens(
                    s@.subrange(from as int, to as int),
                )[k]
            },
{
    let mut out: Vec<(usize, usize)> = Vec::new();
    let mut cur_start: usize = from;
    let mut i: usize = from;
    while i < to
        invariant
            from <= cur_start <= i <= to <= s@.len(),
            white_space_split_state(s@.subrange(from as int, i as int)).1 == s@.subrange(
                cur_start as int,
                i as int,
            ),
            out@.len() == white_space_split_state(s@.subrange(from as int, i as int)).0.len(),
            forall|k: int|
                0 <= k < out@.len() ==> {
                    &&& (#[trigger] out@[k]).0 <= out@[k].1 <= s@.len()
                    &&& s@.subrange(out@[k].0 as int, out@[k].1 as int) == white_space_split_state(
                        s@.subrange(from as int, i as int),
                    ).0[k]
                },
        decreases to - i,
    {
        let c = s[i];
        let ghost prev = s@.subrange(from as int, i as int);
        let ghost next = s@.subrange(from as int, i + 1);
        assert(next.drop_last() =~= prev);
        assert(next.last() == c);
        if white_space(c) {
            if cur_start < i {
                out.push((cur_start, i));
            }
            cur_start = i + 1;
            assert(s@.subrange(cur_start as int, i + 1) =~= Seq::<char>::empty());
        } else {
            assert(s@.subrange(cur_start as int, i + 1) =~= s@.subrange(
                cur_start as int,
                i as int,
            ).push(c));
        }
        i = i + 1;
    }
    if cur_start < to {
        out.push((cur_start, to));
    }
    out
}

} // verus!

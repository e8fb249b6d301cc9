//! Character-level reading and writing of the controller's text attributes:
//! whitespace-separated fields, newline-separated lines, unsigned numbers
//! in decimal or hexadecimal, and decimal rendering.
use vstd::prelude::*;

verus! {

/// The characters that `char::is_whitespace` accepts (the Unicode White_Space set).
pub open spec fn is_space_spec(c: char) -> bool {
    let u = c as u32;
    (0x9 <= u <= 0xd) || u == 0x20 || u == 0x85 || u == 0xa0 || u == 0x1680 || (0x2000 <= u
        <= 0x200a) || u == 0x2028 || u == 0x2029 || u == 0x202f || u == 0x205f || u == 0x3000
}

pub fn is_space(c: char) -> (r: bool)
    ensures
        r == is_space_spec(c),
{
    let u = c as u32;
    (0x9 <= u && u <= 0xd) || u == 0x20 || u == 0x85 || u == 0xa0 || u == 0x1680 || (0x2000 <= u
        && u <= 0x200a) || u == 0x2028 || u == 0x2029 || u == 0x202f || u == 0x205f || u == 0x3000
}

/// Splits `s` into its maximal runs of non-whitespace characters; `cur` is the run
/// read so far.
pub open spec fn fields_from(s: Seq<char>, cur: Seq<char>) -> Seq<Seq<char>>
    decreases s.len(),
{
    let done = if cur.len() > 0 {
        seq![cur]
    } else {
        Seq::<Seq<char>>::empty()
    };
    if s.len() == 0 {
        done
    } else if is_space_spec(s[0]) {
        done + fields_from(s.drop_first(), Seq::<char>::empty())
    } else {
        fields_from(s.drop_first(), cur.push(s[0]))
    }
}

/// The whitespace-separated, non-empty fields of `s`, in order.
pub open spec fn fields(s: Seq<char>) -> Seq<Seq<char>> {
    fields_from(s, Seq::<char>::empty())
}

/// Splits `s` at each `sep`; `cur` is the piece read so far.
pub open spec fn split_from(s: Seq<char>, sep: char, cur: Seq<char>) -> Seq<Seq<char>>
    decreases s.len(),
{
    if s.len() == 0 {
        seq![cur]
    } else if s[0] == sep {
        seq![cur] + split_from(s.drop_first(), sep, Seq::<char>::empty())
    } else {
        split_from(s.drop_first(), sep, cur.push(s[0]))
    }
}

/// The pieces of `s` between occurrences of `sep`, as `str::split` gives them
/// (empty ones included).
pub open spec fn split_on(s: Seq<char>, sep: char) -> Seq<Seq<char>> {
    split_from(s, sep, Seq::<char>::empty())
}

/// The lines of `s`: the pieces between newlines.
pub open spec fn lines(s: Seq<char>) -> Seq<Seq<char>> {
    split_on(s, '\n')
}

/// The pieces of `s` that a list of index ranges marks.
pub open spec fn pieces(s: Seq<char>, ranges: Seq<(usize, usize)>) -> Seq<Seq<char>> {
    ranges.map_values(|r: (usize, usize)| s.subrange(r.0 as int, r.1 as int))
}

/// The value of a hexadecimal digit (of a decimal one too); 16 for any other character.
pub open spec fn digit_value(c: char) -> nat {
    let u = c as u32;
    if 0x30 <= u <= 0x39 {
        (u - 0x30) as nat
    } else if 0x61 <= u <= 0x66 {
        (u - 0x61 + 10) as nat
    } else if 0x41 <= u <= 0x46 {
        (u - 0x41 + 10) as nat
    } else {
        16
    }
}

/// The number that the digits `s` spell in base `radix`.
pub open spec fn value_of(s: Seq<char>, radix: nat) -> nat
    decreases s.len(),
{
    if s.len() == 0 {
        0
    } else {
        value_of(s.drop_last(), radix) * radix + digit_value(s.last())
    }
}

/// `s` without the one leading `+` that Rust's integer parsing accepts.
pub open spec fn unsigned_digits(s: Seq<char>) -> Seq<char> {
    if s.len() > 0 && s[0] == '+' {
        s.drop_first()
    } else {
        s
    }
}

/// What parsing `s` as an unsigned integer of base `radix` no larger than `max` gives:
/// an optional `+`, then at least one digit of the base, and a value in range.
pub open spec fn parse_unsigned_spec(s: Seq<char>, radix: nat, max: nat) -> Option<nat> {
    let d = unsigned_digits(s);
    if d.len() > 0 && (forall|i: int| 0 <= i < d.len() ==> digit_value(#[trigger] d[i]) < radix)
        && value_of(d, radix) <= max {
        Some(value_of(d, radix))
    } else {
        None
    }
}

/// The decimal digits of `n`, without leading zeros.
pub open spec fn decimal(n: nat) -> Seq<char>
    decreases n,
{
    if n < 10 {
        seq![digit_char(n)]
    } else {
        decimal(n / 10).push(digit_char(n % 10))
    }
}

pub open spec fn digit_char(d: nat) -> char {
    if d == 0 {
        '0'
    } else if d == 1 {
        '1'
    } else if d == 2 {
        '2'
    } else if d == 3 {
        '3'
    } else if d == 4 {
        '4'
    } else if d == 5 {
        '5'
    } else if d == 6 {
        '6'
    } else if d == 7 {
        '7'
    } else if d == 8 {
        '8'
    } else {
        '9'
    }
}

/// The decimal form of a signed number, with a leading `-` when it is negative.
pub open spec fn signed_decimal(n: int) -> Seq<char> {
    if n < 0 {
        seq!['-'] + decimal((-n) as nat)
    } else {
        decimal(n as nat)
    }
}

proof fn lemma_value_of_prefix(s: Seq<char>, k: int, radix: nat)
    requires
        0 <= k <= s.len(),
        radix >= 1,
    ensures
        value_of(s.take(k), radix) <= value_of(s, radix),
    decreases s.len(),
{
    if k == s.len() {
        assert(s.take(k) =~= s);
    } else {
        let p = s.drop_last();
        lemma_value_of_prefix(p, k, radix);
        assert(p.take(k) =~= s.take(k));
        let v = value_of(p, radix);
        assert(v * radix >= v) by (nonlinear_arith)
            requires
                radix >= 1,
        ;
    }
}

/// The characters of `s`, one by one.
pub fn chars_of(s: &str) -> (r: Vec<char>)
    ensures
        r@ == s@,
{
    let n = s.unicode_len();
    let mut v: Vec<char> = Vec::new();
    let mut i: usize = 0;
    while i < n
        invariant
            n == s@.len(),
            i <= n,
            v@ == s@.take(i as int),
        decreases n - i,
    {
        let c = s.get_char(i);
        v.push(c);
        i = i + 1;
        assert(v@ =~= s@.take(i as int));
    }
    assert(v@ =~= s@);
    v
}

/// Whether the characters of `s` from `from` to `to` are exactly those of `lit`.
pub fn range_is(s: &Vec<char>, from: usize, to: usize, lit: &str) -> (r: bool)
    requires
        from <= to <= s.len(),
    ensures
        r == (s@.subrange(from as int, to as int) == lit@),
{
    let n = lit.unicode_len();
    if to - from != n {
        return false;
    }
    let mut k: usize = 0;
    while k < n
        invariant
            n == lit@.len(),
            to - from == n,
            from <= to <= s.len(),
            k <= n,
            forall|j: int| 0 <= j < k ==> s@[from + j] == lit@[j],
        decreases n - k,
    {
        if s[from + k] != lit.get_char(k) {
            assert(s@.subrange(from as int, to as int)[k as int] != lit@[k as int]);
            return false;
        }
        k = k + 1;
    }
    assert(s@.subrange(from as int, to as int) =~= lit@);
    true
}

/// The index ranges of the whitespace-separated fields of `s` between `start` and `end`.
pub fn split_fields(s: &Vec<char>, start: usize, end: usize) -> (r: Vec<(usize, usize)>)
    requires
        start <= end <= s.len(),
    ensures
        pieces(s@, r@) == fields(s@.subrange(start as int, end as int)),
        forall|j: int| 0 <= j < r.len() ==> start <= #[trigger] r@[j].0 <= r@[j].1 <= end,
{
    let mut out: Vec<(usize, usize)> = Vec::new();
    let mut ws: usize = start;
    let mut i: usize = start;
    assert(s@.subrange(start as int, end as int) =~= s@.subrange(i as int, end as int));
    assert(s@.subrange(ws as int, i as int) =~= Seq::<char>::empty());
    while i < end
        invariant
            start <= ws <= i <= end <= s.len(),
            forall|j: int| 0 <= j < out.len() ==> start <= #[trigger] out@[j].0 <= out@[j].1 <= end,
            fields(s@.subrange(start as int, end as int)) == pieces(s@, out@) + fields_from(
                s@.subrange(i as int, end as int),
                s@.subrange(ws as int, i as int),
            ),
        decreases end - i,
    {
        let ghost rest = s@.subrange(i as int, end as int);
        let ghost cur = s@.subrange(ws as int, i as int);
        assert(rest.drop_first() =~= s@.subrange(i + 1, end as int));
        assert(rest[0] == s@[i as int]);
        if is_space(s[i]) {
            if ws < i {
                let ghost before = out@;
                out.push((ws, i));
                assert(pieces(s@, out@) =~= pieces(s@, before) + seq![cur]);
                assert(pieces(s@, out@) + fields_from(rest.drop_first(), Seq::<char>::empty())
                    =~= pieces(s@, before) + (seq![cur] + fields_from(
                    rest.drop_first(),
                    Seq::<char>::empty(),
                )));
            } else {
                assert(cur.len() == 0);
                assert(Seq::<Seq<char>>::empty() + fields_from(
                    rest.drop_first(),
                    Seq::<char>::empty(),
                ) =~= fields_from(rest.drop_first(), Seq::<char>::empty()));
            }
            i = i + 1;
            ws = i;
            assert(s@.subrange(ws as int, i as int) =~= Seq::<char>::empty());
        } else {
            assert(cur.push(s@[i as int]) =~= s@.subrange(ws as int, i + 1));
            i = i + 1;
        }
    }
    let ghost cur = s@.subrange(ws as int, i as int);
    if ws < i {
        let ghost before = out@;
        out.push((ws, i));
        assert(pieces(s@, out@) =~= pieces(s@, before) + seq![cur]);
    } else {
        assert(pieces(s@, out@) + Seq::<Seq<char>>::empty() =~= pieces(s@, out@));
    }
    out
}

/// `s` without its leading whitespace.
pub open spec fn trim_start(s: Seq<char>) -> Seq<char>
    decreases s.len(),
{
    if s.len() > 0 && is_space_spec(s[0]) {
        trim_start(s.drop_first())
    } else {
        s
    }
}

/// `s` without its trailing whitespace.
pub open spec fn trim_end(s: Seq<char>) -> Seq<char>
    decreases s.len(),
{
    if s.len() > 0 && is_space_spec(s.last()) {
        trim_end(s.drop_last())
    } else {
        s
    }
}

/// `s` without leading and trailing whitespace, as `str::trim` gives it.
pub open spec fn trim(s: Seq<char>) -> Seq<char> {
    trim_end(trim_start(s))
}

/// The bounds of `s` once leading and trailing whitespace is cut off.
pub fn trim_bounds(s: &Vec<char>) -> (r: (usize, usize))
    ensures
        r.0 <= r.1 <= s.len(),
        s@.subrange(r.0 as int, r.1 as int) == trim(s@),
{
    let n = s.len();
    let mut a: usize = 0;
    assert(s@.subrange(0, n as int) =~= s@);
    while a < n && is_space(s[a])
        invariant
            n == s.len(),
            a <= n,
            trim_start(s@) == trim_start(s@.subrange(a as int, n as int)),
        decreases n - a,
    {
        assert(s@.subrange(a as int, n as int).drop_first() =~= s@.subrange(a + 1, n as int));
        a = a + 1;
    }
    let ghost t = s@.subrange(a as int, n as int);
    assert(trim_start(t) == t);
    let mut b: usize = n;
    while b > a && is_space(s[b - 1])
        invariant
            n == s.len(),
            a <= b <= n,
            t == s@.subrange(a as int, n as int),
            trim_end(t) == trim_end(s@.subrange(a as int, b as int)),
        decreases b,
    {
        assert(s@.subrange(a as int, b as int).drop_last() =~= s@.subrange(a as int, b - 1));
        b = b - 1;
    }
    (a, b)
}

/// The value of a hexadecimal digit, or 16 for any other character.
pub fn digit(c: char) -> (r: u64)
    ensures
        r == digit_value(c),
{
    let u = c as u32;
    if 0x30 <= u && u <= 0x39 {
        (u - 0x30) as u64
    } else if 0x61 <= u && u <= 0x66 {
        (u - 0x61 + 10) as u64
    } else if 0x41 <= u && u <= 0x46 {
        (u - 0x41 + 10) as u64
    } else {
        16
    }
}

/// Parses the characters of `s` from `start` to `end` as an unsigned number of base
/// `radix` that is at most `max`, as Rust's `from_str_radix` does for an unsigned type.
pub fn parse_unsigned(
    s: &Vec<char>,
    start: usize,
    end: usize,
    radix: u64,
    max: u64,
) -> (r: Option<u64>)
    requires
        start <= end <= s.len(),
        2 <= radix <= 16,
    ensures
        match parse_unsigned_spec(s@.subrange(start as int, end as int), radix as nat, max as nat) {
            Some(v) => r == Some(v as u64),
            None => r is None,
        },
{
    let ghost whole = s@.subrange(start as int, end as int);
    let mut i0: usize = start;
    if i0 < end && s[i0] == '+' {
        i0 = i0 + 1;
        assert(whole.drop_first() =~= s@.subrange(i0 as int, end as int));
    } else {
        assert(whole =~= s@.subrange(i0 as int, end as int));
    }
    let ghost d = s@.subrange(i0 as int, end as int);
    assert(unsigned_digits(whole) == d);
    if i0 == end {
        return None;
    }
    let mut acc: u64 = 0;
    let mut i: usize = i0;
    assert(s@.subrange(i0 as int, i as int) =~= Seq::<char>::empty());
    while i < end
        invariant
            start <= i0 <= i <= end <= s.len(),
            2 <= radix <= 16,
            d == s@.subrange(i0 as int, end as int),
            unsigned_digits(whole) == d,
            whole == s@.subrange(start as int, end as int),
            acc == value_of(s@.subrange(i0 as int, i as int), radix as nat),
            acc <= max,
            forall|k: int| i0 <= k < i ==> digit_value(#[trigger] s@[k]) < radix,
        decreases end - i,
    {
        let dv = digit(s[i]);
        let ghost next = s@.subrange(i0 as int, i + 1);
        assert(next.drop_last() =~= s@.subrange(i0 as int, i as int));
        assert(d.take(i + 1 - i0) =~= next);
        if dv >= radix {
            assert(d[i - i0] == s@[i as int]);
            return None;
        }
        let m = acc.checked_mul(radix);
        if m.is_none() {
            proof {
                lemma_value_of_prefix(d, i + 1 - i0, radix as nat);
            }
            return None;
        }
        let m = m.unwrap();
        let v = m.checked_add(dv);
        if v.is_none() {
            proof {
                lemma_value_of_prefix(d, i + 1 - i0, radix as nat);
            }
            return None;
        }
        let v = v.unwrap();
        if v > max {
            proof {
                lemma_value_of_prefix(d, i + 1 - i0, radix as nat);
            }
            return None;
        }
        acc = v;
        i = i + 1;
    }
    assert(s@.subrange(i0 as int, i as int) == d);
    assert forall|k: int| 0 <= k < d.len() implies digit_value(#[trigger] d[k]) < radix by {
        assert(d[k] == s@[i0 + k]);
    }
    Some(acc)
}

/// The one-character string of a decimal digit.
fn digit_str(d: u64) -> (r: &'static str)
    requires
        d < 10,
    ensures
        r@ == seq![digit_char(d as nat)],
{
    proof {
        reveal_strlit("0");
        reveal_strlit("1");
        reveal_strlit("2");
        reveal_strlit("3");
        reveal_strlit("4");
        reveal_strlit("5");
        reveal_strlit("6");
        reveal_strlit("7");
        reveal_strlit("8");
        reveal_strlit("9");
    }
    if d == 0 {
        "0"
    } else if d == 1 {
        "1"
    } else if d == 2 {
        "2"
    } else if d == 3 {
        "3"
    } else if d == 4 {
        "4"
    } else if d == 5 {
        "5"
    } else if d == 6 {
        "6"
    } else if d == 7 {
        "7"
    } else if d == 8 {
        "8"
    } else {
        "9"
    }
}

/// Appends the decimal digits of `n` to `out`.
pub fn push_decimal(out: &mut String, n: u64)
    ensures
        final(out)@ == old(out)@ + decimal(n as nat),
    decreases n,
{
    if n >= 10 {
        push_decimal(out, n / 10);
    }
    out.append(digit_str(n % 10));
    proof {
        if n < 10 {
            assert(n % 10 == n);
        }
    }
    assert(final(out)@ =~= old(out)@ + decimal(n as nat));
}

/// Appends the decimal form of a signed number to `out`.
pub fn push_signed_decimal(out: &mut String, n: i64)
    ensures
        final(out)@ == old(out)@ + signed_decimal(n as int),
{
    proof {
        reveal_strlit("-");
    }
    if n < 0 {
        out.append("-");
        let m: u64 = if n == i64::MIN {
            0x8000_0000_0000_0000u64
        } else {
            (-n) as u64
        };
        push_decimal(out, m);
        assert(final(out)@ =~= old(out)@ + signed_decimal(n as int));
    } else {
        push_decimal(out, n as u64);
    }
}

/// The index ranges of the pieces of `s` between `start` and `end` that lie between
/// occurrences of `sep`.
pub fn split_at_char(s: &Vec<char>, start: usize, end: usize, sep: char) -> (r: Vec<(usize, usize)>)
    requires
        start <= end <= s.len(),
    ensures
        pieces(s@, r@) == split_on(s@.subrange(start as int, end as int), sep),
        forall|j: int| 0 <= j < r.len() ==> start <= #[trigger] r@[j].0 <= r@[j].1 <= end,
{
    let mut out: Vec<(usize, usize)> = Vec::new();
    let mut ps: usize = start;
    let mut i: usize = start;
    assert(s@.subrange(start as int, end as int) =~= s@.subrange(i as int, end as int));
    assert(s@.subrange(ps as int, i as int) =~= Seq::<char>::empty());
    while i < end
        invariant
            start <= ps <= i <= end <= s.len(),
            forall|j: int| 0 <= j < out.len() ==> start <= #[trigger] out@[j].0 <= out@[j].1 <= end,
            split_on(s@.subrange(start as int, end as int), sep) == pieces(s@, out@) + split_from(
                s@.subrange(i as int, end as int),
                sep,
                s@.subrange(ps as int, i as int),
            ),
        decreases end - i,
    {
        let ghost rest = s@.subrange(i as int, end as int);
        let ghost cur = s@.subrange(ps as int, i as int);
        assert(rest.drop_first() =~= s@.subrange(i + 1, end as int));
        assert(rest[0] == s@[i as int]);
        if s[i] == sep {
            let ghost before = out@;
            out.push((ps, i));
            assert(pieces(s@, out@) =~= pieces(s@, before) + seq![cur]);
            assert(pieces(s@, out@) + split_from(rest.drop_first(), sep, Seq::<char>::empty())
                =~= pieces(s@, before) + (seq![cur] + split_from(
                rest.drop_first(),
                sep,
                Seq::<char>::empty(),
            )));
            i = i + 1;
            ps = i;
            assert(s@.subrange(ps as int, i as int) =~= Seq::<char>::empty());
        } else {
            assert(cur.push(s@[i as int]) =~= s@.subrange(ps as int, i + 1));
            i = i + 1;
        }
    }
    let ghost cur = s@.subrange(ps as int, i as int);
    let ghost before = out@;
    out.push((ps, i));
    assert(pieces(s@, out@) =~= pieces(s@, before) + seq![cur]);
    out
}

} // verus!

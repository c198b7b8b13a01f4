//! Reading the line-oriented `KEY=VALUE` output of the utility.
//!
//! Lines are split as `str::lines` splits them, and a value that is not a
//! decimal `i32` reads as zero: odd output never turns into an error.
use vstd::prelude::*;

verus! {

/// Removes one `'\r'` at the end of a line that ended in `'\n'`.
pub open spec fn strip_cr(l: Seq<char>) -> Seq<char> {
    if l.len() > 0 && l.last() == '\r' {
        l.drop_last()
    } else {
        l
    }
}

/// The lines of `s` from position `i` on, where `cur` holds the characters of
/// the current line read so far.
pub open spec fn lines_from(s: Seq<char>, i: int, cur: Seq<char>) -> Seq<Seq<char>>
    decreases s.len() - i,
{
    if i >= s.len() {
        if cur.len() == 0 {
            seq![]
        } else {
            seq![cur]
        }
    } else if s[i] == '\n' {
        seq![strip_cr(cur)] + lines_from(s, i + 1, seq![])
    } else {
        lines_from(s, i + 1, cur.push(s[i]))
    }
}

/// The lines of `s`: split at each `'\n'`, a `'\r'` before it dropped, and no
/// empty line after a final `'\n'`.
pub open spec fn lines_of(s: Seq<char>) -> Seq<Seq<char>> {
    lines_from(s, 0, seq![])
}

pub open spec fn is_digit(c: char) -> bool {
    '0' <= c && c <= '9'
}

pub open spec fn digit_value(c: char) -> int {
    (c as u32) as int - ('0' as u32) as int
}

/// The value of a string of decimal digits.
pub open spec fn digits_value(d: Seq<char>) -> int
    decreases d.len(),
{
    if d.len() == 0 {
        0
    } else {
        digits_value(d.drop_last()) * 10 + digit_value(d.last())
    }
}

pub open spec fn all_digits(d: Seq<char>) -> bool {
    d.len() > 0 && forall|i: int| 0 <= i < d.len() ==> is_digit(#[trigger] d[i])
}

/// The integer that `t` writes in decimal, with an optional sign, if any.
pub open spec fn decimal_value(t: Seq<char>) -> Option<int> {
    if all_digits(t) {
        Some(digits_value(t))
    } else if t.len() > 1 && t[0] == '+' && all_digits(t.skip(1)) {
        Some(digits_value(t.skip(1)))
    } else if t.len() > 1 && t[0] == '-' && all_digits(t.skip(1)) {
        Some(-digits_value(t.skip(1)))
    } else {
        None
    }
}

/// The `i32` that `t` writes in decimal, or zero where it writes none.
pub open spec fn lenient_i32(t: Seq<char>) -> i32 {
    match decimal_value(t) {
        Some(v) => if i32::MIN <= v <= i32::MAX {
            v as i32
        } else {
            0
        },
        None => 0,
    }
}

pub open spec fn starts_with(l: Seq<char>, key: Seq<char>) -> bool {
    key.len() <= l.len() && l.subrange(0, key.len() as int) == key
}

/// The text of each line.
pub open spec fn line_views(v: Seq<Vec<char>>) -> Seq<Seq<char>> {
    v.map_values(|l: Vec<char>| l@)
}

/// The value after `key` on the last line that starts with `key`, or zero.
pub open spec fn shell_field(lines: Seq<Seq<char>>, key: Seq<char>) -> i32
    decreases lines.len(),
{
    if lines.len() == 0 {
        0
    } else if starts_with(lines.last(), key) {
        lenient_i32(lines.last().skip(key.len() as int))
    } else {
        shell_field(lines.drop_last(), key)
    }
}

proof fn lemma_digits_nonneg(d: Seq<char>)
    requires
        forall|i: int| 0 <= i < d.len() ==> is_digit(#[trigger] d[i]),
    ensures
        digits_value(d) >= 0,
    decreases d.len(),
{
    if d.len() > 0 {
        lemma_digits_nonneg(d.drop_last());
        assert(is_digit(d[d.len() - 1]));
    }
}

fn char_digit(c: char) -> (r: Option<i64>)
    ensures
        is_digit(c) ==> r == Some(digit_value(c) as i64),
        !is_digit(c) ==> r is None,
{
    if '0' <= c && c <= '9' {
        Some((c as u32 - '0' as u32) as i64)
    } else {
        None
    }
}

/// The `i32` that the characters of `t` from `from` on write in decimal, or
/// zero where they write none (as `str::parse` with a fallback of zero).
pub fn parse_lenient_i32(t: &Vec<char>, from: usize) -> (r: i32)
    requires
        from <= t@.len(),
    ensures
        r == lenient_i32(t@.skip(from as int)),
{
    let ghost u = t@.skip(from as int);
    let n = t.len();
    if from == n {
        assert(!all_digits(u));
        return 0;
    }
    let mut start: usize = from;
    let mut neg = false;
    if t[from] == '+' || t[from] == '-' {
        if from + 1 == n {
            assert(!is_digit(u[0]));
            return 0;
        }
        neg = t[from] == '-';
        start = from + 1;
        assert(!is_digit(u[0]));
        assert(u.skip(1) =~= t@.skip(start as int));
    }
    let ghost body = t@.skip(start as int);
    let limit: i64 = 2147483648;
    let mut acc: i64 = 0;
    let mut big = false;
    let mut i: usize = start;
    while i < n
        invariant
            n == t@.len(),
            from <= start <= i <= n,
            start < n,
            body == t@.skip(start as int),
            u == t@.skip(from as int),
            start == from || start == from + 1,
            start == from + 1 ==> (t@[from as int] == '+' || t@[from as int] == '-'),
            start == from ==> !(t@[from as int] == '+' || t@[from as int] == '-'),
            neg == (start == from + 1 && t@[from as int] == '-'),
            forall|k: int| start <= k < i ==> is_digit(#[trigger] t@[k]),
            !big ==> acc == digits_value(t@.subrange(start as int, i as int)) && 0 <= acc <= limit,
            big ==> digits_value(t@.subrange(start as int, i as int)) > limit,
            limit == 2147483648,
        decreases n - i,
    {
        let d = char_digit(t[i]);
        match d {
            None => {
                proof {
                    assert(body[i - start] == t@[i as int]);
                    assert(!is_digit(body[i - start]));
                    if start > from {
                        assert(!is_digit(u[0]));
                        assert(u.skip(1) =~= body);
                        assert(!all_digits(u.skip(1)));
                    } else {
                        assert(u =~= body);
                    }
                    assert(!all_digits(u));
                }
                return 0;
            },
            Some(d) => {
                let ghost prev = t@.subrange(start as int, i as int);
                let ghost next = t@.subrange(start as int, i + 1);
                assert(next.drop_last() =~= prev);
                proof {
                    lemma_digits_nonneg(prev);
                }
                if !big {
                    let grown = acc * 10 + d;
                    if grown > limit {
                        big = true;
                    } else {
                        acc = grown;
                    }
                }
                i = i + 1;
            },
        }
    }
    assert(t@.subrange(start as int, n as int) =~= body);
    assert(all_digits(body));
    if start > from {
        assert(!is_digit(u[0]));
        assert(u.skip(1) =~= body);
    } else {
        assert(u =~= body);
    }
    if big {
        0
    } else if neg {
        (-acc) as i32
    } else if acc <= 2147483647 {
        acc as i32
    } else {
        0
    }
}

/// Whether the line `l` starts with the characters of `key`.
pub fn line_starts_with(l: &Vec<char>, key: &Vec<char>) -> (r: bool)
    ensures
        r == starts_with(l@, key@),
{
    if key.len() > l.len() {
        return false;
    }
    let mut i: usize = 0;
    while i < key.len()
        invariant
            key@.len() <= l@.len(),
            i <= key@.len(),
            forall|k: int| 0 <= k < i ==> l@[k] == key@[k],
        decreases key@.len() - i,
    {
        if l[i] != key[i] {
            assert(l@.subrange(0, key@.len() as int)[i as int] != key@[i as int]);
            return false;
        }
        i = i + 1;
    }
    assert(l@.subrange(0, key@.len() as int) =~= key@);
    true
}

/// The value of the `key` field among `lines`, as `shell_field` reads it.
pub fn field_value(lines: &Vec<Vec<char>>, key: &Vec<char>) -> (r: i32)
    ensures
        r == shell_field(line_views(lines@), key@),
{
    let ghost all = line_views(lines@);
    let mut value: i32 = 0;
    let mut k: usize = 0;
    while k < lines.len()
        invariant
            k <= lines@.len(),
            all == line_views(lines@),
            value == shell_field(all.subrange(0, k as int), key@),
        decreases lines@.len() - k,
    {
        let ghost seen = all.subrange(0, k as int + 1);
        assert(seen.drop_last() =~= all.subrange(0, k as int));
        assert(seen.last() == lines@[k as int]@);
        let line = &lines[k];
        if line_starts_with(line, key) {
            value = parse_lenient_i32(line, key.len());
        }
        k = k + 1;
    }
    assert(all.subrange(0, k as int) =~= all);
    value
}

/// The lines of `s`, as `lines_of` gives them.
pub fn split_lines(s: &Vec<char>) -> (r: Vec<Vec<char>>)
    ensures
        r@.len() == lines_of(s@).len(),
        forall|k: int| 0 <= k < r@.len() ==> (#[trigger] r@[k])@ == lines_of(s@)[k],
{
    let mut out: Vec<Vec<char>> = Vec::new();
    let ghost mut done: Seq<Seq<char>> = seq![];
    let mut cur: Vec<char> = Vec::new();
    let mut i: usize = 0;
    while i < s.len()
        invariant
            i <= s@.len(),
            out@.len() == done.len(),
            forall|k: int| 0 <= k < out@.len() ==> (#[trigger] out@[k])@ == done[k],
            lines_of(s@) == done + lines_from(s@, i as int, cur@),
        decreases s@.len() - i,
    {
        let ghost line = cur@;
        if s[i] == '\n' {
            if cur.len() > 0 && cur[cur.len() - 1] == '\r' {
                cur.pop();
            }
            assert(cur@ =~= strip_cr(line));
            proof {
                assert(done.push(cur@) + lines_from(s@, i + 1, seq![]) =~= done + (seq![
                    strip_cr(line),
                ] + lines_from(s@, i + 1, seq![])));
                done = done.push(cur@);
            }
            out.push(cur);
            cur = Vec::new();
            assert(cur@ =~= seq![]);
        } else {
            cur.push(s[i]);
        }
        i = i + 1;
    }
    proof {
        if cur@.len() == 0 {
            assert(done + lines_from(s@, i as int, cur@) =~= done);
        } else {
            assert(done + lines_from(s@, i as int, cur@) =~= done.push(cur@));
            done = done.push(cur@);
        }
    }
    if cur.len() > 0 {
        out.push(cur);
    }
    out
}

} // verus!

verus! {

/// The lines of `s`, as `lines_of` gives them.
pub fn output_lines(s: &str) -> (r: Vec<Vec<char>>)
    ensures
        line_views(r@) == lines_of(s@),
{
    let chars = crate::text::chars_of(s);
    let r = split_lines(&chars);
    assert(line_views(r@) =~= lines_of(s@));
    r
}

/// The value of the `key` field in the output `s`.
pub open spec fn output_field(s: Seq<char>, key: Seq<char>) -> i32 {
    shell_field(lines_of(s), key)
}

/// The value of the `key` field among the lines of an output.
pub fn read_field(lines: &Vec<Vec<char>>, key: &str) -> (r: i32)
    ensures
        r == shell_field(line_views(lines@), key@),
{
    let k = crate::text::chars_of(key);
    field_value(lines, &k)
}

} // verus!

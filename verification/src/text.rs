//! Text helpers: decimal rendering of integers, user mentions, char-level
//! string building and line splitting.

use vstd::prelude::*;

verus! {

/// The ASCII digit for `d` (`d < 10`).
pub open spec fn digit_char(d: nat) -> char {
    (48 + d) as char
}

/// The decimal representation of `n`, most significant digit first.
pub open spec fn decimal_digits(n: nat) -> Seq<char>
    decreases n,
{
    if n < 10 {
        seq![digit_char(n)]
    } else {
        decimal_digits(n / 10).push(digit_char(n % 10))
    }
}

/// The number that the decimal digits `ds` denote.
pub open spec fn decimal_value(ds: Seq<char>) -> int
    decreases ds.len(),
{
    if ds.len() == 0 {
        0
    } else {
        decimal_value(ds.drop_last()) * 10 + (ds.last() as u32 - 48)
    }
}

/// The decimal rendering of `n` is a non-empty run of ASCII digits without
/// a leading zero (unless `n` is 0) that denotes `n`.
pub proof fn lemma_decimal_digits(n: nat)
    ensures
        decimal_value(decimal_digits(n)) == n,
        decimal_digits(n).len() >= 1,
        forall|i: int| 0 <= i < decimal_digits(n).len() ==> '0' <= #[trigger] decimal_digits(n)[i] <= '9',
        n >= 10 ==> decimal_digits(n)[0] != '0',
    decreases n,
{
    assert(digit_char(n % 10) as u32 == 48 + n % 10);
    if n < 10 {
        assert(decimal_digits(n) =~= seq![digit_char(n)]);
        assert(decimal_digits(n).drop_last() =~= Seq::<char>::empty());
        assert(decimal_value(Seq::<char>::empty()) == 0);
        assert(decimal_value(decimal_digits(n)) == decimal_value(Seq::<char>::empty()) * 10 + (digit_char(n) as u32 - 48));
    } else {
        lemma_decimal_digits(n / 10);
        let prev = decimal_digits(n / 10);
        assert(decimal_digits(n) == prev.push(digit_char(n % 10)));
        assert(decimal_digits(n).drop_last() =~= prev);
        assert(decimal_value(decimal_digits(n)) == decimal_value(prev) * 10 + (digit_char(n % 10) as u32 - 48));
        assert((n / 10) * 10 + n % 10 == n) by (nonlinear_arith);
        assert forall|i: int| 0 <= i < decimal_digits(n).len() implies '0' <= #[trigger] decimal_digits(n)[i] <= '9' by {
            if i < prev.len() {
                assert(decimal_digits(n)[i] == prev[i]);
            }
        }
        if n / 10 >= 10 {
            assert(decimal_digits(n)[0] == prev[0]);
        } else {
            assert(decimal_digits(n)[0] == prev[0]);
            assert(prev =~= seq![digit_char(n / 10)]);
        }
    }
}

/// Appends `c` to `s` (`String::push`).
#[verifier::external_body]
pub(crate) fn push_char(s: &mut String, c: char)
    ensures
        final(s)@ == old(s)@.push(c),
{
    s.push(c)
}

/// Appends the decimal representation of `n` to `s`.
pub fn push_decimal(s: &mut String, n: u64)
    ensures
        final(s)@ == old(s)@ + decimal_digits(n as nat),
    decreases n,
{
    if n >= 10 {
        push_decimal(s, n / 10);
    }
    let d: u8 = (n % 10) as u8;
    let c = (48u8 + d) as char;
    push_char(s, c);
}

/// The decimal representation of `n` as a new string.
pub fn decimal_string(n: u64) -> (res: String)
    ensures
        res@ == decimal_digits(n as nat),
{
    let mut s = String::new();
    push_decimal(&mut s, n);
    s
}

/// The characters of `s`, in order.
pub fn chars_of(s: &str) -> (res: Vec<char>)
    ensures
        res@ == s@,
{
    let mut res: Vec<char> = Vec::new();
    for c in it: s.chars()
        invariant
            res@ == it.seq().take(it.index() as int),
    {
        res.push(c);
    }
    res
}

/// Appends every character of `cs` to `s`.
pub fn push_chars(s: &mut String, cs: &Vec<char>)
    ensures
        final(s)@ == old(s)@ + cs@,
{
    let ghost start = s@;
    let mut i: usize = 0;
    while i < cs.len()
        invariant
            i <= cs.len(),
            s@ == start + cs@.take(i as int),
        decreases cs.len() - i,
    {
        push_char(s, cs[i]);
        assert(cs@.take(i as int + 1) == cs@.take(i as int).push(cs@[i as int]));
        i += 1;
    }
    assert(cs@.take(cs.len() as int) == cs@);
}

/// A string holding the characters of `cs`.
pub fn string_from_chars(cs: &Vec<char>) -> (res: String)
    ensures
        res@ == cs@,
{
    let mut s = String::new();
    push_chars(&mut s, cs);
    s
}

/// Appends `n` spaces to `s`.
pub fn push_spaces(s: &mut String, n: usize)
    ensures
        final(s)@ == old(s)@ + Seq::new(n as nat, |_i: int| ' '),
{
    let ghost start = s@;
    let mut i: usize = 0;
    while i < n
        invariant
            i <= n,
            s@ == start + Seq::new(i as nat, |_i: int| ' '),
        decreases n - i,
    {
        push_char(s, ' ');
        assert(Seq::new((i + 1) as nat, |_i: int| ' ') == Seq::new(i as nat, |_i: int| ' ').push(' '));
        i += 1;
    }
}

/// `p` occurs in `s` starting at index `i`.
pub open spec fn occurs_at(s: Seq<char>, p: Seq<char>, i: int) -> bool {
    0 <= i && i + p.len() <= s.len() && s.subrange(i, i + p.len()) == p
}

/// The least index `>= i` at which `p` occurs in `s`, or `s.len()` when
/// there is none.
pub open spec fn first_occurrence_from(s: Seq<char>, p: Seq<char>, i: int) -> int
    decreases s.len() + 1 - i,
{
    if i < 0 || i + p.len() > s.len() {
        s.len() as int
    } else if s.subrange(i, i + p.len()) == p {
        i
    } else {
        first_occurrence_from(s, p, i + 1)
    }
}

/// The part of `s` before the first occurrence of `p` (all of `s` when `p`
/// does not occur): the first item of `str::split(s, p)`.
pub open spec fn before_first(s: Seq<char>, p: Seq<char>) -> Seq<char> {
    s.take(first_occurrence_from(s, p, 0))
}

proof fn lemma_first_occurrence_from(s: Seq<char>, p: Seq<char>, i: int)
    requires
        0 <= i,
    ensures
        i <= s.len() ==> i <= first_occurrence_from(s, p, i) <= s.len(),
        i > s.len() ==> first_occurrence_from(s, p, i) == s.len(),
        first_occurrence_from(s, p, i) < s.len() ==> occurs_at(s, p, first_occurrence_from(s, p, i)),
        forall|j: int| i <= j < first_occurrence_from(s, p, i) ==> !occurs_at(s, p, j),
        p.len() > 0 && first_occurrence_from(s, p, i) == s.len() ==> forall|j: int| i <= j ==> !occurs_at(s, p, j),
    decreases s.len() + 1 - i,
{
    if i + p.len() > s.len() {
    } else if s.subrange(i, i + p.len()) == p {
    } else {
        lemma_first_occurrence_from(s, p, i + 1);
    }
}

/// Whether `p` occurs in `s` at index `i` (`i + p.len() <= s.len()`).
fn matches_at(s: &Vec<char>, p: &Vec<char>, i: usize) -> (res: bool)
    requires
        i + p@.len() <= s@.len(),
    ensures
        res == (s@.subrange(i as int, i + p@.len()) == p@),
{
    let mut k: usize = 0;
    while k < p.len()
        invariant
            i + p@.len() <= s@.len(),
            k <= p@.len(),
            forall|m: int| 0 <= m < k ==> s@[i + m] == p@[m],
        decreases p.len() - k,
    {
        assert(i + k < s.len());
        if s[i + k] != p[k] {
            assert(s@.subrange(i as int, i + p@.len())[k as int] != p@[k as int]);
            return false;
        }
        k += 1;
    }
    assert(s@.subrange(i as int, i + p@.len()) =~= p@);
    true
}

/// The index of the first occurrence of `p` in `s`, or `s.len()`.
pub fn find_first(s: &Vec<char>, p: &Vec<char>) -> (res: usize)
    ensures
        res == first_occurrence_from(s@, p@, 0),
{
    let mut i: usize = 0;
    proof {
        lemma_first_occurrence_from(s@, p@, 0);
    }
    if p.len() > s.len() {
        return s.len();
    }
    if p.len() == 0 {
        assert(s@.subrange(0, 0) =~= p@);
        return 0;
    }
    while i <= s.len() - p.len()
        invariant
            0 < p@.len() <= s@.len(),
            i <= s@.len() - p@.len() + 1,
            first_occurrence_from(s@, p@, 0) == first_occurrence_from(s@, p@, i as int),
        decreases s.len() - i,
    {
        if matches_at(s, p, i) {
            return i;
        }
        i += 1;
    }
    s.len()
}

/// The text of a formatted error report up to (not including) its first
/// "Stack backtrace" marker; the whole text when there is none.
pub fn strip_backtrace(formatted: &str) -> (res: String)
    ensures
        res@ == before_first(formatted@, backtrace_marker()),
{
    let s = chars_of(formatted);
    let p = chars_of("Stack backtrace");
    let k = find_first(&s, &p);
    proof {
        lemma_first_occurrence_from(s@, p@, 0);
    }
    let mut res = String::new();
    let mut i: usize = 0;
    while i < k
        invariant
            k == first_occurrence_from(s@, p@, 0),
            k <= s@.len(),
            i <= k,
            res@ == s@.take(i as int),
        decreases k - i,
    {
        push_char(&mut res, s[i]);
        assert(s@.take(i as int + 1) == s@.take(i as int).push(s@[i as int]));
        i += 1;
    }
    res
}

/// The marker that starts the backtrace section of a formatted error.
pub open spec fn backtrace_marker() -> Seq<char> {
    "Stack backtrace"@
}

/// The text before the first occurrence of a non-empty pattern is a prefix
/// of the text in which the pattern does not occur; cutting it again
/// changes nothing.
pub proof fn lemma_before_first(s: Seq<char>, p: Seq<char>)
    requires
        p.len() > 0,
    ensures
        s.take(before_first(s, p).len() as int) == before_first(s, p),
        forall|j: int| !occurs_at(before_first(s, p), p, j),
        before_first(before_first(s, p), p) == before_first(s, p),
{
    lemma_first_occurrence_from(s, p, 0);
    let k = first_occurrence_from(s, p, 0);
    let r = before_first(s, p);
    assert(r.len() == k);
    assert forall|j: int| !occurs_at(r, p, j) by {
        if occurs_at(r, p, j) {
            assert(s.subrange(j, j + p.len()) =~= r.subrange(j, j + p.len()));
            assert(occurs_at(s, p, j));
        }
    }
    lemma_first_occurrence_from(r, p, 0);
    assert(r.take(r.len() as int) =~= r);
}

/// `line` without one trailing carriage return, if it has one.
pub open spec fn strip_cr(line: Seq<char>) -> Seq<char> {
    if line.len() > 0 && line.last() == '\r' {
        line.drop_last()
    } else {
        line
    }
}

/// The lines of `s[i..]` as `str::lines` yields them, where `cur` holds the
/// characters of the current line read so far: lines end at `'\n'`, a
/// `'\r'` just before that `'\n'` is dropped, and an empty text after the
/// last `'\n'` is no line.
pub open spec fn lines_from(s: Seq<char>, i: int, cur: Seq<char>) -> Seq<Seq<char>>
    decreases s.len() - i,
{
    if i >= s.len() {
        if cur.len() == 0 {
            seq![]
        } else {
            seq![cur]
        }
    } else if s[i] == '\n' {
        seq![strip_cr(cur)] + lines_from(s, i + 1, seq![])
    } else {
        lines_from(s, i + 1, cur.push(s[i]))
    }
}

/// The lines of `s`, as `str::lines` yields them.
pub open spec fn lines(s: Seq<char>) -> Seq<Seq<char>> {
    lines_from(s, 0, seq![])
}

proof fn lemma_lines_from_bounded(s: Seq<char>, i: int, cur: Seq<char>)
    requires
        0 <= i <= s.len(),
    ensures
        forall|k: int| 0 <= k < lines_from(s, i, cur).len() ==> #[trigger] lines_from(s, i, cur)[k].len() <= cur.len() + s.len() - i,
    decreases s.len() - i,
{
    if i >= s.len() {
        if cur.len() != 0 {
            assert(lines_from(s, i, cur) =~= seq![cur]);
        }
    } else if s[i] == '\n' {
        lemma_lines_from_bounded(s, i + 1, seq![]);
        let rest = lines_from(s, i + 1, seq![]);
        assert forall|k: int| 0 <= k < lines_from(s, i, cur).len() implies #[trigger] lines_from(s, i, cur)[k].len() <= cur.len() + s.len() - i by {
            if k > 0 {
                assert(lines_from(s, i, cur)[k] == rest[k - 1]);
            }
        }
    } else {
        lemma_lines_from_bounded(s, i + 1, cur.push(s[i]));
        assert(lines_from(s, i, cur) == lines_from(s, i + 1, cur.push(s[i])));
    }
}

proof fn lemma_lines_from_no_newline(s: Seq<char>, i: int, cur: Seq<char>)
    requires
        0 <= i <= s.len(),
        !cur.contains('\n'),
    ensures
        forall|k: int| 0 <= k < lines_from(s, i, cur).len() ==> !(#[trigger] lines_from(s, i, cur)[k]).contains('\n'),
    decreases s.len() - i,
{
    if i >= s.len() {
        if cur.len() != 0 {
            assert(lines_from(s, i, cur) =~= seq![cur]);
        }
    } else if s[i] == '\n' {
        lemma_lines_from_no_newline(s, i + 1, seq![]);
        let rest = lines_from(s, i + 1, seq![]);
        assert(!strip_cr(cur).contains('\n')) by {
            if strip_cr(cur).contains('\n') {
                let j = choose|j: int| 0 <= j < strip_cr(cur).len() && strip_cr(cur)[j] == '\n';
                assert(cur[j] == '\n');
            }
        }
        assert forall|k: int| 0 <= k < lines_from(s, i, cur).len() implies !(#[trigger] lines_from(s, i, cur)[k]).contains('\n') by {
            if k > 0 {
                assert(lines_from(s, i, cur)[k] == rest[k - 1]);
            }
        }
    } else {
        assert(!cur.push(s[i]).contains('\n')) by {
            if cur.push(s[i]).contains('\n') {
                let j = choose|j: int| 0 <= j < cur.push(s[i]).len() && cur.push(s[i])[j] == '\n';
                if j < cur.len() {
                    assert(cur[j] == '\n');
                }
            }
        }
        lemma_lines_from_no_newline(s, i + 1, cur.push(s[i]));
        assert(lines_from(s, i, cur) == lines_from(s, i + 1, cur.push(s[i])));
    }
}

/// No line of `s` holds a line feed.
pub proof fn lemma_lines_no_newline(s: Seq<char>)
    ensures
        forall|k: int| 0 <= k < lines(s).len() ==> !(#[trigger] lines(s)[k]).contains('\n'),
{
    assert(!Seq::<char>::empty().contains('\n'));
    lemma_lines_from_no_newline(s, 0, seq![]);
}

/// Every line of `s` is at most as long as `s`.
pub proof fn lemma_lines_bounded(s: Seq<char>)
    ensures
        forall|k: int| 0 <= k < lines(s).len() ==> #[trigger] lines(s)[k].len() <= s.len(),
{
    lemma_lines_from_bounded(s, 0, seq![]);
}

proof fn lemma_lines_from_shift(s: Seq<char>, i: int, cur: Seq<char>)
    requires
        0 <= i <= s.len(),
    ensures
        lines_from(s, i, cur) == lines_from(s.subrange(i, s.len() as int), 0, cur),
    decreases s.len() - i,
{
    let t = s.subrange(i, s.len() as int);
    if i < s.len() {
        assert(t.subrange(1, t.len() as int) =~= s.subrange(i + 1, s.len() as int));
        if s[i] == '\n' {
            lemma_lines_from_shift(s, i + 1, seq![]);
            lemma_lines_from_shift(t, 1, seq![]);
        } else {
            lemma_lines_from_shift(s, i + 1, cur.push(s[i]));
            lemma_lines_from_shift(t, 1, cur.push(s[i]));
        }
    }
}

proof fn lemma_lines_from_newline(s: Seq<char>, i: int, cur: Seq<char>)
    requires
        0 <= i <= s.len(),
        s.len() > 0,
        s.last() != '\n',
        s.last() != '\r',
        i == s.len() ==> cur.len() > 0 && cur.last() != '\r',
    ensures
        lines_from(s.push('\n'), i, cur) == lines_from(s, i, cur),
    decreases s.len() - i,
{
    let t = s.push('\n');
    if i == s.len() {
        assert(lines_from(t, i + 1, seq![]) =~= Seq::<Seq<char>>::empty());
        assert(lines_from(t, i, cur) =~= seq![cur]);
    } else {
        assert(t[i] == s[i]);
        if s[i] == '\n' {
            lemma_lines_from_newline(s, i + 1, seq![]);
        } else {
            lemma_lines_from_newline(s, i + 1, cur.push(s[i]));
        }
    }
}

/// A final line break adds no line: `s` and `s` followed by `'\n'` have the
/// same lines, when `s` is not empty and ends in neither `'\n'` nor `'\r'`.
pub proof fn lemma_lines_trailing_newline(s: Seq<char>)
    requires
        s.len() > 0,
        s.last() != '\n',
        s.last() != '\r',
    ensures
        lines(s + "\n"@) == lines(s),
{
    reveal_strlit("\n");
    assert(s + "\n"@ =~= s.push('\n'));
    lemma_lines_from_newline(s, 0, seq![]);
}

/// `s` with every `'\n'` written as `"\r\n"`.
pub open spec fn crlf(s: Seq<char>) -> Seq<char>
    decreases s.len(),
{
    if s.len() == 0 {
        seq![]
    } else if s[0] == '\n' {
        seq!['\r', '\n'] + crlf(s.drop_first())
    } else {
        seq![s[0]] + crlf(s.drop_first())
    }
}

proof fn lemma_lines_from_crlf(s: Seq<char>, cur: Seq<char>)
    requires
        !s.contains('\r'),
        cur.len() == 0 || cur.last() != '\r',
    ensures
        lines_from(crlf(s), 0, cur) == lines_from(s, 0, cur),
    decreases s.len(),
{
    if s.len() > 0 {
        let rest = s.drop_first();
        assert(!rest.contains('\r')) by {
            if rest.contains('\r') {
                let k = choose|k: int| 0 <= k < rest.len() && rest[k] == '\r';
                assert(s[k + 1] == '\r');
            }
        }
        assert(s[0] != '\r');
        let c = crlf(s);
        lemma_lines_from_shift(s, 1, if s[0] == '\n' { seq![] } else { cur.push(s[0]) });
        assert(s.subrange(1, s.len() as int) =~= rest);
        if s[0] == '\n' {
            lemma_lines_from_crlf(rest, seq![]);
            let d = seq!['\n'] + crlf(rest);
            assert(c.subrange(1, c.len() as int) =~= d);
            assert(d.subrange(1, d.len() as int) =~= crlf(rest));
            lemma_lines_from_shift(c, 1, cur.push('\r'));
            lemma_lines_from_shift(d, 1, seq![]);
            assert(strip_cr(cur.push('\r')) =~= cur);
            assert(strip_cr(cur) == cur);
        } else {
            lemma_lines_from_crlf(rest, cur.push(s[0]));
            assert(c.subrange(1, c.len() as int) =~= crlf(rest));
            lemma_lines_from_shift(c, 1, cur.push(s[0]));
        }
    }
}

/// Line breaks written as `"\r\n"` give the same lines as `'\n'` alone,
/// for a text without carriage returns.
pub proof fn lemma_lines_crlf(s: Seq<char>)
    requires
        !s.contains('\r'),
    ensures
        lines(crlf(s)) == lines(s),
{
    lemma_lines_from_crlf(s, seq![]);
}

/// The views of a vector of character vectors.
pub open spec fn char_rows(v: Seq<Vec<char>>) -> Seq<Seq<char>> {
    v.map_values(|r: Vec<char>| r@)
}

/// Removes one trailing carriage return from `line`, if it has one.
fn pop_cr(line: &mut Vec<char>)
    ensures
        final(line)@ == strip_cr(old(line)@),
{
    let n = line.len();
    if n > 0 && line[n - 1] == '\r' {
        line.pop();
    }
}

/// Splits `s` into its lines, as `str::lines` does.
pub fn split_lines(s: &Vec<char>) -> (res: Vec<Vec<char>>)
    ensures
        char_rows(res@) == lines(s@),
{
    let mut out: Vec<Vec<char>> = Vec::new();
    let mut cur: Vec<char> = Vec::new();
    let mut i: usize = 0;
    while i < s.len()
        invariant
            i <= s@.len(),
            lines(s@) == char_rows(out@) + lines_from(s@, i as int, cur@),
        decreases s.len() - i,
    {
        let c = s[i];
        if c == '\n' {
            let ghost before = char_rows(out@);
            let ghost cur_before = cur@;
            pop_cr(&mut cur);
            out.push(cur);
            cur = Vec::new();
            assert(char_rows(out@) == before.push(strip_cr(cur_before)));
            assert(lines_from(s@, i as int, cur_before) == seq![strip_cr(cur_before)] + lines_from(s@, i + 1, seq![]));
            assert(before + (seq![strip_cr(cur_before)] + lines_from(s@, i + 1, seq![]))
                =~= before.push(strip_cr(cur_before)) + lines_from(s@, i + 1, seq![]));
            assert(cur@ =~= Seq::<char>::empty());
        } else {
            cur.push(c);
        }
        i += 1;
    }
    if cur.len() > 0 {
        let ghost before = char_rows(out@);
        let ghost last = cur@;
        out.push(cur);
        assert(char_rows(out@) =~= before + seq![last]);
    } else {
        assert(char_rows(out@) + lines_from(s@, i as int, cur@) =~= char_rows(out@));
    }
    out
}

} // verus!

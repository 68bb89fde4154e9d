//! Character-level building blocks of the HTTP parser: line splitting,
//! whitespace tokens, trimming, ASCII case folding and decimal numbers.
//! Each operation is given by a spec function that follows the standard
//! library's documented behaviour of the corresponding `str` method.
use vstd::prelude::*;

verus! {

// ---------------------------------------------------------------------------
// Whitespace
// ---------------------------------------------------------------------------

/// Unicode `White_Space`, the property that `char::is_whitespace` tests.
pub open spec fn is_ws(c: char) -> bool {
    let u = c as u32;
    ||| (0x09 <= u && u <= 0x0D)
    ||| u == 0x20
    ||| u == 0x85
    ||| u == 0xA0
    ||| u == 0x1680
    ||| (0x2000 <= u && u <= 0x200A)
    ||| u == 0x2028
    ||| u == 0x2029
    ||| u == 0x202F
    ||| u == 0x205F
    ||| u == 0x3000
}

pub fn is_whitespace(c: char) -> (r: bool)
    ensures
        r == is_ws(c),
{
    let u = c as u32;
    (0x09 <= u && u <= 0x0D) || u == 0x20 || u == 0x85 || u == 0xA0 || u == 0x1680 || (0x2000 <= u
        && u <= 0x200A) || u == 0x2028 || u == 0x2029 || u == 0x202F || u == 0x205F || u == 0x3000
}

// ---------------------------------------------------------------------------
// Searching
// ---------------------------------------------------------------------------

/// Index of the first occurrence of `c` in `s`.
pub open spec fn index_of_char(s: Seq<char>, c: char) -> Option<int>
    decreases s.len(),
{
    if s.len() == 0 {
        None
    } else if s[0] == c {
        Some(0)
    } else {
        match index_of_char(s.skip(1), c) {
            Some(k) => Some(k + 1),
            None => None,
        }
    }
}

pub proof fn lemma_index_of_char(s: Seq<char>, c: char)
    ensures
        index_of_char(s, c) matches Some(k) ==> {
            &&& 0 <= k < s.len()
            &&& s[k] == c
            &&& forall|j: int| 0 <= j < k ==> s[j] != c
        },
        index_of_char(s, c) is None ==> forall|j: int| 0 <= j < s.len() ==> s[j] != c,
    decreases s.len(),
{
    if s.len() > 0 {
        lemma_index_of_char(s.skip(1), c);
        if s[0] != c {
            assert forall|j: int| 1 <= j < s.len() implies s[j] == s.skip(1)[j - 1] by {}
        }
    }
}

/// Position of the first `c` in `s`, found by a linear scan.
pub fn find_char(s: &[char], c: char) -> (r: Option<usize>)
    ensures
        r matches Some(k) ==> index_of_char(s@, c) == Some(k as int),
        r is None ==> index_of_char(s@, c) is None,
{
    proof {
        lemma_index_of_char(s@, c);
    }
    let mut i: usize = 0;
    while i < s.len()
        invariant
            i <= s@.len(),
            forall|j: int| 0 <= j < i ==> s@[j] != c,
            index_of_char(s@, c) matches Some(k) ==> {
                &&& 0 <= k < s@.len()
                &&& s@[k] == c
                &&& forall|j: int| 0 <= j < k ==> s@[j] != c
            },
            index_of_char(s@, c) is None ==> forall|j: int| 0 <= j < s@.len() ==> s@[j] != c,
        decreases s@.len() - i,
    {
        if s[i] == c {
            return Some(i);
        }
        i = i + 1;
    }
    None
}

// ---------------------------------------------------------------------------
// Lines
// ---------------------------------------------------------------------------

/// The contents of a sequence of character vectors.
pub open spec fn seqs_of(v: Seq<Vec<char>>) -> Seq<Seq<char>> {
    v.map_values(|x: Vec<char>| x@)
}

/// A line as `str::lines` yields it: one `\r` before the `\n` is dropped.
pub open spec fn strip_cr(l: Seq<char>) -> Seq<char> {
    if l.len() > 0 && l.last() == '\r' {
        l.drop_last()
    } else {
        l
    }
}

/// The lines of the text `t` that follow a partial line `cur`.
pub open spec fn lines_from(t: Seq<char>, cur: Seq<char>) -> Seq<Seq<char>>
    decreases t.len(),
{
    if t.len() == 0 {
        if cur.len() == 0 {
            Seq::empty()
        } else {
            seq![cur]
        }
    } else if t[0] == '\n' {
        seq![strip_cr(cur)] + lines_from(t.skip(1), Seq::empty())
    } else {
        lines_from(t.skip(1), cur.push(t[0]))
    }
}

/// `str::lines`: the text split at each `\n`, with a `\r` right before the
/// `\n` removed, and no empty line after a final `\n`.
pub open spec fn lines(t: Seq<char>) -> Seq<Seq<char>> {
    lines_from(t, Seq::empty())
}

fn strip_cr_vec(cur: &mut Vec<char>)
    ensures
        final(cur)@ == strip_cr(old(cur)@),
{
    let n = cur.len();
    if n > 0 && cur[n - 1] == '\r' {
        cur.pop();
        assert(cur@ =~= old(cur)@.drop_last());
    }
}

/// Splits text into lines as `str::lines` does.
pub fn split_lines(t: &[char]) -> (r: Vec<Vec<char>>)
    ensures
        seqs_of(r@) == lines(t@),
{
    let mut out: Vec<Vec<char>> = Vec::new();
    let mut cur: Vec<char> = Vec::new();
    let mut i: usize = 0;
    assert(t@.skip(0) =~= t@);
    while i < t.len()
        invariant
            i <= t@.len(),
            seqs_of(out@) + lines_from(t@.skip(i as int), cur@) == lines(t@),
        decreases t@.len() - i,
    {
        let ghost rest = t@.skip(i as int);
        assert(rest[0] == t@[i as int]);
        assert(rest.skip(1) =~= t@.skip(i + 1));
        let c = t[i];
        if c == '\n' {
            let ghost old_out = seqs_of(out@);
            let mut line = cur;
            strip_cr_vec(&mut line);
            out.push(line);
            cur = Vec::new();
            assert(seqs_of(out@) =~= old_out.push(line@));
            assert(old_out.push(line@) + lines_from(t@.skip(i + 1), cur@) =~= old_out + (seq![line@]
                + lines_from(t@.skip(i + 1), Seq::empty())));
        } else {
            cur.push(c);
        }
        i = i + 1;
    }
    let ghost old_out = seqs_of(out@);
    if cur.len() > 0 {
        out.push(cur);
        assert(seqs_of(out@) =~= old_out.push(cur@));
    }
    assert(seqs_of(out@) =~= lines(t@));
    out
}

// ---------------------------------------------------------------------------
// Whitespace-separated tokens
// ---------------------------------------------------------------------------

/// The whitespace-separated tokens of `l` that follow a partial token `cur`.
pub open spec fn tokens_from(l: Seq<char>, cur: Seq<char>) -> Seq<Seq<char>>
    decreases l.len(),
{
    if l.len() == 0 {
        if cur.len() == 0 {
            Seq::empty()
        } else {
            seq![cur]
        }
    } else if is_ws(l[0]) {
        if cur.len() == 0 {
            tokens_from(l.skip(1), Seq::empty())
        } else {
            seq![cur] + tokens_from(l.skip(1), Seq::empty())
        }
    } else {
        tokens_from(l.skip(1), cur.push(l[0]))
    }
}

/// `str::split_whitespace`: the non-empty runs of non-whitespace characters.
pub open spec fn ws_tokens(l: Seq<char>) -> Seq<Seq<char>> {
    tokens_from(l, Seq::empty())
}

/// Splits a line into whitespace-separated tokens.
pub fn split_whitespace(l: &[char]) -> (r: Vec<Vec<char>>)
    ensures
        seqs_of(r@) == ws_tokens(l@),
{
    let mut out: Vec<Vec<char>> = Vec::new();
    let mut cur: Vec<char> = Vec::new();
    let mut i: usize = 0;
    assert(l@.skip(0) =~= l@);
    while i < l.len()
        invariant
            i <= l@.len(),
            seqs_of(out@) + tokens_from(l@.skip(i as int), cur@) == ws_tokens(l@),
        decreases l@.len() - i,
    {
        let ghost rest = l@.skip(i as int);
        assert(rest[0] == l@[i as int]);
        assert(rest.skip(1) =~= l@.skip(i + 1));
        let c = l[i];
        if is_whitespace(c) {
            if cur.len() == 0 {
                assert(cur@ =~= Seq::<char>::empty());
            } else {
                let ghost old_out = seqs_of(out@);
                let tok = cur;
                out.push(tok);
                cur = Vec::new();
                assert(seqs_of(out@) =~= old_out.push(tok@));
                assert(old_out.push(tok@) + tokens_from(l@.skip(i + 1), cur@) =~= old_out + (seq![tok@]
                    + tokens_from(l@.skip(i + 1), Seq::empty())));
            }
        } else {
            cur.push(c);
        }
        i = i + 1;
    }
    let ghost old_out = seqs_of(out@);
    if cur.len() > 0 {
        out.push(cur);
        assert(seqs_of(out@) =~= old_out.push(cur@));
    }
    assert(seqs_of(out@) =~= ws_tokens(l@));
    out
}

// ---------------------------------------------------------------------------
// Trimming
// ---------------------------------------------------------------------------

pub open spec fn trim_start(s: Seq<char>) -> Seq<char>
    decreases s.len(),
{
    if s.len() > 0 && is_ws(s[0]) {
        trim_start(s.skip(1))
    } else {
        s
    }
}

pub open spec fn trim_end(s: Seq<char>) -> Seq<char>
    decreases s.len(),
{
    if s.len() > 0 && is_ws(s.last()) {
        trim_end(s.drop_last())
    } else {
        s
    }
}

/// `str::trim`: leading and trailing whitespace removed.
pub open spec fn trim(s: Seq<char>) -> Seq<char> {
    trim_end(trim_start(s))
}

/// Copies `s[lo..hi]` into a new vector.
pub fn copy_range(s: &[char], lo: usize, hi: usize) -> (r: Vec<char>)
    requires
        lo <= hi <= s@.len(),
    ensures
        r@ == s@.subrange(lo as int, hi as int),
{
    let mut out: Vec<char> = Vec::new();
    let mut i = lo;
    while i < hi
        invariant
            lo <= i <= hi,
            hi <= s@.len(),
            out@ == s@.subrange(lo as int, i as int),
        decreases hi - i,
    {
        out.push(s[i]);
        i = i + 1;
        assert(out@ =~= s@.subrange(lo as int, i as int));
    }
    out
}

/// Removes leading and trailing whitespace.
pub fn trim_chars(s: &[char]) -> (r: Vec<char>)
    ensures
        r@ == trim(s@),
{
    let mut lo: usize = 0;
    assert(s@.skip(0) =~= s@);
    while lo < s.len() && is_whitespace(s[lo])
        invariant
            lo <= s@.len(),
            trim_start(s@) == trim_start(s@.skip(lo as int)),
        decreases s@.len() - lo,
    {
        assert(s@.skip(lo as int).skip(1) =~= s@.skip(lo + 1));
        lo = lo + 1;
    }
    let ghost mid = s@.skip(lo as int);
    assert(trim_start(s@) == mid);
    let mut hi: usize = s.len();
    assert(mid.take(mid.len() as int) =~= mid);
    while hi > lo && is_whitespace(s[hi - 1])
        invariant
            lo <= hi <= s@.len(),
            mid == s@.skip(lo as int),
            trim_end(mid) == trim_end(s@.subrange(lo as int, hi as int)),
        decreases hi,
    {
        assert(s@.subrange(lo as int, hi as int).drop_last() =~= s@.subrange(lo as int, hi - 1));
        hi = hi - 1;
    }
    copy_range(s, lo, hi)
}

// ---------------------------------------------------------------------------
// ASCII case folding
// ---------------------------------------------------------------------------

pub open spec fn ascii_lower(c: char) -> char {
    if 'A' <= c && c <= 'Z' {
        ((c as u32) + 32) as char
    } else {
        c
    }
}

/// `eq_ignore_ascii_case`: equal after lowering ASCII capitals.
pub open spec fn ci_eq(a: Seq<char>, b: Seq<char>) -> bool {
    &&& a.len() == b.len()
    &&& forall|i: int| 0 <= i < a.len() ==> ascii_lower(#[trigger] a[i]) == ascii_lower(b[i])
}

pub fn to_ascii_lower(c: char) -> (r: char)
    ensures
        r == ascii_lower(c),
{
    if 'A' <= c && c <= 'Z' {
        ((c as u32 + 32) as u8) as char
    } else {
        c
    }
}

/// Compares `a[from..from + b.len()]` with `b`, ignoring ASCII case.
pub fn eq_ignore_ascii_case_at(a: &[char], from: usize, b: &[char]) -> (r: bool)
    requires
        from <= a@.len(),
    ensures
        r == (from + b@.len() <= a@.len() && ci_eq(
            a@.subrange(from as int, from + b@.len()),
            b@,
        )),
{
    if a.len() - from < b.len() {
        return false;
    }
    let mut i: usize = 0;
    while i < b.len()
        invariant
            i <= b@.len(),
            from + b@.len() <= a@.len(),
            a@.len() == a.len(),
            forall|j: int| 0 <= j < i ==> ascii_lower(a@[from + j]) == ascii_lower(b@[j]),
        decreases b@.len() - i,
    {
        if to_ascii_lower(a[from + i]) != to_ascii_lower(b[i]) {
            let ghost sub = a@.subrange(from as int, from + b@.len());
            assert(sub[i as int] == a@[from + i]);
            return false;
        }
        i = i + 1;
    }
    let ghost sub = a@.subrange(from as int, from + b@.len());
    assert forall|j: int| 0 <= j < sub.len() implies ascii_lower(#[trigger] sub[j]) == ascii_lower(
        b@[j],
    ) by {
        assert(sub[j] == a@[from + j]);
    }
    true
}

// ---------------------------------------------------------------------------
// Decimal numbers
// ---------------------------------------------------------------------------

pub open spec fn is_digit(c: char) -> bool {
    '0' <= c && c <= '9'
}

pub open spec fn digit_value(c: char) -> nat {
    (c as nat - 48) as nat
}

pub open spec fn all_digits(s: Seq<char>) -> bool {
    forall|i: int| 0 <= i < s.len() ==> is_digit(#[trigger] s[i])
}

/// Value of a string of decimal digits.
pub open spec fn decimal_value(s: Seq<char>) -> nat
    decreases s.len(),
{
    if s.len() == 0 {
        0
    } else {
        decimal_value(s.drop_last()) * 10 + digit_value(s.last())
    }
}

/// `<usize as FromStr>::from_str`: an optional `+` and then one or more
/// decimal digits whose value fits in `usize`.
pub open spec fn parse_usize(s: Seq<char>) -> Option<usize> {
    let d = if s.len() > 0 && s[0] == '+' {
        s.skip(1)
    } else {
        s
    };
    if d.len() > 0 && all_digits(d) && decimal_value(d) <= usize::MAX {
        Some(decimal_value(d) as usize)
    } else {
        None
    }
}

proof fn lemma_decimal_value_prefix(s: Seq<char>, k: int)
    requires
        0 <= k <= s.len(),
    ensures
        decimal_value(s.take(k)) <= decimal_value(s),
    decreases s.len() - k,
{
    if k < s.len() {
        lemma_decimal_value_prefix(s, k + 1);
        assert(s.take(k + 1).drop_last() =~= s.take(k));
    } else {
        assert(s.take(k) =~= s);
    }
}

/// Parses an unsigned decimal number as `str::parse::<usize>` does.
pub fn parse_decimal(s: &[char]) -> (r: Option<usize>)
    ensures
        r == parse_usize(s@),
{
    let start: usize = if s.len() > 0 && s[0] == '+' {
        1
    } else {
        0
    };
    let ghost d = s@.skip(start as int);
    assert(d == (if s@.len() > 0 && s@[0] == '+' { s@.skip(1) } else { s@ }));
    if start >= s.len() {
        assert(d.len() == 0);
        return None;
    }
    let mut value: usize = 0;
    let mut i = start;
    while i < s.len()
        invariant
            start <= i <= s@.len(),
            d == s@.skip(start as int),
            d == (if s@.len() > 0 && s@[0] == '+' { s@.skip(1) } else { s@ }),
            all_digits(d.take(i - start)),
            value == decimal_value(d.take(i - start)),
        decreases s@.len() - i,
    {
        let c = s[i];
        let ghost k = i - start;
        assert(d[k] == c);
        if !('0' <= c && c <= '9') {
            assert(!is_digit(d[k]));
            assert(!all_digits(d));
            assert(parse_usize(s@) is None);
            return None;
        }
        assert(d.take(k + 1).drop_last() =~= d.take(k));
        let dv = (c as u32 - 48) as usize;
        let next = match value.checked_mul(10) {
            Some(m) => m.checked_add(dv),
            None => None,
        };
        match next {
            Some(v) => {
                value = v;
            },
            None => {
                proof {
                    assert(d.take(k + 1).last() == c);
                    assert(decimal_value(d.take(k + 1)) == value * 10 + dv);
                    lemma_decimal_value_prefix(d, k + 1);
                    assert(decimal_value(d) > usize::MAX);
                    assert(parse_usize(s@) is None);
                }
                return None;
            },
        }
        i = i + 1;
        assert forall|j: int| 0 <= j < i - start implies is_digit(#[trigger] d.take(i - start)[j]) by {
            if j < k {
                assert(d.take(k)[j] == d.take(i - start)[j]);
            }
        }
    }
    assert(d.take(i - start) =~= d);
    Some(value)
}

pub open spec fn digit_char(n: nat) -> char {
    (48 + n) as char
}

/// The decimal digits of `n`, as `{}` formats an unsigned number.
pub open spec fn decimal_digits(n: nat) -> Seq<char>
    decreases n,
{
    if n < 10 {
        seq![digit_char(n)]
    } else {
        decimal_digits(n / 10).push(digit_char(n % 10))
    }
}

/// Appends the characters of `s` to `out`.
pub fn push_all(out: &mut Vec<char>, s: &[char])
    ensures
        final(out)@ == old(out)@ + s@,
{
    let mut i: usize = 0;
    while i < s.len()
        invariant
            i <= s@.len(),
            out@ == old(out)@ + s@.take(i as int),
        decreases s@.len() - i,
    {
        out.push(s[i]);
        i = i + 1;
        assert(out@ =~= old(out)@ + s@.take(i as int));
    }
    assert(s@.take(s@.len() as int) =~= s@);
}

/// Appends the decimal digits of `n` to `out`.
pub fn push_decimal(out: &mut Vec<char>, n: u64)
    ensures
        final(out)@ == old(out)@ + decimal_digits(n as nat),
{
    let mut rev: Vec<char> = Vec::new();
    let mut cur = n;
    while cur >= 10
        invariant
            decimal_digits(n as nat) == decimal_digits(cur as nat) + rev@.reverse(),
        decreases cur,
    {
        let ghost old_rev = rev@;
        let ghost old_cur = cur;
        rev.push(((48 + cur % 10) as u8) as char);
        cur = cur / 10;
        assert(rev@.reverse() =~= seq![digit_char((old_cur % 10) as nat)] + old_rev.reverse());
        assert(decimal_digits(old_cur as nat) == decimal_digits(cur as nat).push(
            digit_char((old_cur % 10) as nat),
        ));
        assert(decimal_digits(cur as nat).push(digit_char((old_cur % 10) as nat)) + old_rev.reverse()
            =~= decimal_digits(cur as nat) + rev@.reverse());
    }
    rev.push(((48 + cur) as u8) as char);
    let ghost all = rev@.reverse();
    assert(all =~= decimal_digits(n as nat)) by {
        assert(decimal_digits(cur as nat) =~= seq![digit_char(cur as nat)]);
    }
    let mut j = rev.len();
    while j > 0
        invariant
            j <= rev@.len(),
            all == rev@.reverse(),
            out@ == old(out)@ + all.take(rev@.len() - j),
        decreases j,
    {
        j = j - 1;
        out.push(rev[j]);
        assert(all[rev@.len() - j - 1] == rev@[j as int]);
        assert(out@ =~= old(out)@ + all.take(rev@.len() - j));
    }
    assert(all.take(rev@.len() as int) =~= all);
}

} // verus!

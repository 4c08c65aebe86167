//! Character-level string helpers shared by the rest of the library.
//!
//! Strings are reasoned about through their views, sequences of `char`.
use vstd::prelude::*;

verus! {

/// Appends one character to a string with `String::push`, which std documents as
/// adding the character at the end; the contract says that and nothing else.
#[verifier::external_body]
pub(crate) fn push_char(s: &mut String, c: char)
    ensures
        final(s)@ == old(s)@.push(c),
{
    s.push(c)
}

/// The characters of a string slice, in order.
pub fn chars_of(s: &str) -> (v: Vec<char>)
    ensures
        v@ == s@,
{
    let mut v: Vec<char> = Vec::new();
    for c in it: s.chars()
        invariant
            v@ == it.seq().take(it.index()),
    {
        v.push(c);
    }
    v
}

/// A string holding the given characters.
pub fn string_of(cs: &[char]) -> (s: String)
    ensures
        s@ == cs@,
{
    let mut s = String::new();
    let mut i: usize = 0;
    while i < cs.len()
        invariant
            i <= cs@.len(),
            s@ == cs@.take(i as int),
        decreases cs@.len() - i,
    {
        push_char(&mut s, cs[i]);
        i = i + 1;
        assert(cs@.take(i as int) =~= cs@.take((i - 1) as int).push(cs@[i - 1]));
    }
    assert(cs@.take(cs@.len() as int) =~= cs@);
    s
}

/// An owned copy of a string slice.
pub fn owned(s: &str) -> (r: String)
    ensures
        r@ == s@,
{
    s.to_owned()
}

/// The concatenation of two string slices.
pub fn concat2(a: &str, b: &str) -> (r: String)
    ensures
        r@ == a@ + b@,
{
    let mut r = a.to_owned();
    r.append(b);
    r
}

/// The concatenation of three string slices.
pub fn concat3(a: &str, b: &str, c: &str) -> (r: String)
    ensures
        r@ == a@ + b@ + c@,
{
    let mut r = a.to_owned();
    r.append(b);
    r.append(c);
    r
}

/// Whether two string slices hold the same characters.
pub fn str_eq(a: &str, b: &str) -> (r: bool)
    ensures
        r == (a@ == b@),
{
    let x = chars_of(a);
    let y = chars_of(b);
    if x.len() != y.len() {
        return false;
    }
    let mut i: usize = 0;
    while i < x.len()
        invariant
            x@ == a@,
            y@ == b@,
            x@.len() == y@.len(),
            i <= x@.len(),
            forall|j: int| 0 <= j < i ==> x@[j] == y@[j],
        decreases x@.len() - i,
    {
        if x[i] != y[i] {
            return false;
        }
        i = i + 1;
    }
    assert(x@ =~= y@);
    true
}

/// `p` is a prefix of `s`.
pub open spec fn has_prefix(s: Seq<char>, p: Seq<char>) -> bool {
    p.len() <= s.len() && s.take(p.len() as int) == p
}

/// `suf` is a suffix of `s`.
pub open spec fn has_suffix(s: Seq<char>, suf: Seq<char>) -> bool {
    suf.len() <= s.len() && s.skip(s.len() - suf.len()) == suf
}

/// `s` with the prefix `p` removed when `s` starts with it, and `s` itself otherwise.
pub open spec fn without_prefix(s: Seq<char>, p: Seq<char>) -> Seq<char> {
    if has_prefix(s, p) {
        s.skip(p.len() as int)
    } else {
        s
    }
}

/// Whether the characters `p` begin the characters `s`.
pub fn seq_starts_with(s: &[char], p: &[char]) -> (b: bool)
    ensures
        b == has_prefix(s@, p@),
{
    if p.len() > s.len() {
        return false;
    }
    let mut i: usize = 0;
    while i < p.len()
        invariant
            p@.len() <= s@.len(),
            i <= p@.len(),
            forall|j: int| 0 <= j < i ==> s@[j] == p@[j],
        decreases p@.len() - i,
    {
        if s[i] != p[i] {
            assert(s@.take(p@.len() as int)[i as int] != p@[i as int]);
            return false;
        }
        i = i + 1;
    }
    assert(s@.take(p@.len() as int) =~= p@);
    true
}

/// `p` occurs in `s` at position `i`.
pub open spec fn occurs_at(s: Seq<char>, p: Seq<char>, i: int) -> bool {
    0 <= i && i + p.len() <= s.len() && s.subrange(i, i + p.len()) == p
}

/// `p` occurs somewhere in `s`.
pub open spec fn contains_seq(s: Seq<char>, p: Seq<char>) -> bool {
    exists|i: int| occurs_at(s, p, i)
}

/// Whether `p` occurs in `s` at position `i`.
fn matches_at(s: &[char], p: &[char], i: usize) -> (b: bool)
    requires
        i + p@.len() <= s@.len(),
    ensures
        b == occurs_at(s@, p@, i as int),
{
    let n = s.len();
    let mut j: usize = 0;
    while j < p.len()
        invariant
            n == s@.len(),
            i + p@.len() <= s@.len(),
            j <= p@.len(),
            forall|k: int| 0 <= k < j ==> s@[i + k] == p@[k],
        decreases p@.len() - j,
    {
        if s[i + j] != p[j] {
            assert(s@.subrange(i as int, i + p@.len())[j as int] != p@[j as int]);
            return false;
        }
        j = j + 1;
    }
    assert(s@.subrange(i as int, i + p@.len()) =~= p@);
    true
}

/// Whether `p` occurs in `s`.
pub fn contains_str(s: &str, p: &str) -> (b: bool)
    ensures
        b == contains_seq(s@, p@),
{
    let sv = chars_of(s);
    let pv = chars_of(p);
    if pv.len() == 0 {
        assert(s@.subrange(0, 0) =~= p@);
        assert(occurs_at(s@, p@, 0));
        return true;
    }
    if pv.len() > sv.len() {
        return false;
    }
    let n = sv.len();
    let last = n - pv.len();
    let mut i: usize = 0;
    while i <= last
        invariant
            n == sv@.len(),
            sv@ == s@,
            pv@ == p@,
            0 < pv@.len() <= sv@.len(),
            last == sv@.len() - pv@.len(),
            i <= last + 1,
            forall|k: int| 0 <= k < i ==> !occurs_at(s@, p@, k),
        decreases last + 1 - i,
    {
        if matches_at(sv.as_slice(), pv.as_slice(), i) {
            return true;
        }
        i = i + 1;
    }
    false
}

/// Whether `s` starts with `p`.
pub fn starts_with(s: &str, p: &str) -> (b: bool)
    ensures
        b == has_prefix(s@, p@),
{
    let x = chars_of(s);
    let y = chars_of(p);
    seq_starts_with(x.as_slice(), y.as_slice())
}

/// `s` without the prefix `p` when it has it, and `s` unchanged otherwise.
pub fn strip_prefix_or_self<'a>(s: &'a str, p: &str) -> (r: &'a str)
    ensures
        r@ == without_prefix(s@, p@),
{
    if starts_with(s, p) {
        let from = p.unicode_len();
        let to = s.unicode_len();
        let r = s.substring_char(from, to);
        assert(s@.subrange(from as int, to as int) =~= s@.skip(p@.len() as int));
        r
    } else {
        s
    }
}

/// Whether `c` occurs in `s`.
pub fn contains_char(s: &str, c: char) -> (b: bool)
    ensures
        b == s@.contains(c),
{
    let v = chars_of(s);
    let mut i: usize = 0;
    while i < v.len()
        invariant
            v@ == s@,
            i <= v@.len(),
            forall|j: int| 0 <= j < i ==> v@[j] != c,
        decreases v@.len() - i,
    {
        if v[i] == c {
            assert(s@[i as int] == c);
            return true;
        }
        i = i + 1;
    }
    false
}

/// `s` with every trailing occurrence of `suf` removed, repeatedly.
pub open spec fn trim_suffix_repeated(s: Seq<char>, suf: Seq<char>) -> Seq<char>
    decreases s.len(),
{
    if suf.len() > 0 && has_suffix(s, suf) {
        trim_suffix_repeated(s.take(s.len() - suf.len()), suf)
    } else {
        s
    }
}

/// Removes every trailing occurrence of `suf` from `s`.
pub fn trim_end_matches(s: &str, suf: &str) -> (r: String)
    ensures
        r@ == trim_suffix_repeated(s@, suf@),
{
    let x = chars_of(s);
    let y = chars_of(suf);
    let mut end: usize = x.len();
    if y.len() == 0 {
        return string_of(x.as_slice());
    }
    assert(x@.take(end as int) =~= x@);
    loop
        invariant
            x@ == s@,
            y@ == suf@,
            y@.len() > 0,
            end <= x@.len(),
            trim_suffix_repeated(s@, suf@) == trim_suffix_repeated(x@.take(end as int), suf@),
        ensures
            end <= x@.len(),
            trim_suffix_repeated(s@, suf@) == x@.take(end as int),
        decreases end,
    {
        if y.len() > end {
            break;
        }
        let start = end - y.len();
        let mut i: usize = 0;
        let mut same = true;
        while i < y.len()
            invariant
                start + y@.len() == end,
                end <= x@.len(),
                i <= y@.len(),
                same == (forall|j: int| 0 <= j < i ==> x@[start + j] == y@[j]),
            decreases y@.len() - i,
        {
            if x[start + i] != y[i] {
                same = false;
            }
            i = i + 1;
        }
        let ghost cur = x@.take(end as int);
        if same {
            assert(cur.skip(cur.len() - y@.len()) =~= y@);
            assert(cur.take(cur.len() - y@.len()) =~= x@.take(start as int));
            end = start;
        } else {
            assert(!has_suffix(cur, y@)) by {
                if has_suffix(cur, y@) {
                    let j = choose|j: int| 0 <= j < y@.len() && x@[start + j] != y@[j];
                    assert(cur.skip(cur.len() - y@.len())[j] == y@[j]);
                }
            }
            break;
        }
    }
    let out = x.as_slice();
    let mut res = String::new();
    let mut k: usize = 0;
    while k < end
        invariant
            end <= out@.len(),
            k <= end,
            res@ == out@.take(k as int),
        decreases end - k,
    {
        push_char(&mut res, out[k]);
        k = k + 1;
        assert(out@.take(k as int) =~= out@.take((k - 1) as int).push(out@[k - 1]));
    }
    assert(res@ =~= x@.take(end as int));
    res
}


/// The Unicode `White_Space` characters, which `str::trim` removes.
pub open spec fn is_whitespace(c: char) -> bool {
    ('\u{9}' <= c && c <= '\u{d}') || c == ' ' || c == '\u{85}' || c == '\u{a0}'
        || c == '\u{1680}' || ('\u{2000}' <= c && c <= '\u{200a}') || c == '\u{2028}'
        || c == '\u{2029}' || c == '\u{202f}' || c == '\u{205f}' || c == '\u{3000}'
}

fn whitespace(c: char) -> (b: bool)
    ensures
        b == is_whitespace(c),
{
    ('\u{9}' <= c && c <= '\u{d}') || c == ' ' || c == '\u{85}' || c == '\u{a0}'
        || c == '\u{1680}' || ('\u{2000}' <= c && c <= '\u{200a}') || c == '\u{2028}'
        || c == '\u{2029}' || c == '\u{202f}' || c == '\u{205f}' || c == '\u{3000}'
}

/// `s` without its leading whitespace.
pub open spec fn trim_start_spec(s: Seq<char>) -> Seq<char>
    decreases s.len(),
{
    if s.len() > 0 && is_whitespace(s[0]) {
        trim_start_spec(s.drop_first())
    } else {
        s
    }
}

/// `s` without its trailing whitespace.
pub open spec fn trim_end_spec(s: Seq<char>) -> Seq<char>
    decreases s.len(),
{
    if s.len() > 0 && is_whitespace(s.last()) {
        trim_end_spec(s.drop_last())
    } else {
        s
    }
}

/// `s` without leading and trailing whitespace, as `str::trim` gives it.
pub open spec fn trim_spec(s: Seq<char>) -> Seq<char> {
    trim_end_spec(trim_start_spec(s))
}

proof fn lemma_trim_start_skip(s: Seq<char>, i: int)
    requires
        0 <= i <= s.len(),
        forall|j: int| 0 <= j < i ==> is_whitespace(#[trigger] s[j]),
    ensures
        trim_start_spec(s) == trim_start_spec(s.skip(i)),
    decreases i,
{
    if i > 0 {
        assert(s.skip(1) =~= s.drop_first());
        lemma_trim_start_skip(s.drop_first(), i - 1);
        assert(s.drop_first().skip(i - 1) =~= s.skip(i));
    } else {
        assert(s.skip(0) =~= s);
    }
}

proof fn lemma_trim_end_take(s: Seq<char>, k: int)
    requires
        0 <= k <= s.len(),
        forall|j: int| k <= j < s.len() ==> is_whitespace(#[trigger] s[j]),
    ensures
        trim_end_spec(s) == trim_end_spec(s.take(k)),
    decreases s.len() - k,
{
    if k < s.len() {
        assert(s.drop_last() =~= s.take(s.len() - 1));
        lemma_trim_end_take(s.drop_last(), k);
        assert(s.drop_last().take(k) =~= s.take(k));
    } else {
        assert(s.take(k) =~= s);
    }
}

/// The characters of `s` without leading and trailing whitespace.
pub fn trim_chars(s: &[char]) -> (r: Vec<char>)
    ensures
        r@ == trim_spec(s@),
{
    let mut i: usize = 0;
    while i < s.len() && whitespace(s[i])
        invariant
            i <= s@.len(),
            forall|j: int| 0 <= j < i ==> is_whitespace(#[trigger] s@[j]),
        decreases s@.len() - i,
    {
        i = i + 1;
    }
    proof {
        lemma_trim_start_skip(s@, i as int);
    }
    let ghost t = s@.skip(i as int);
    assert(trim_start_spec(t) == t);
    let mut k: usize = s.len();
    while k > i && whitespace(s[k - 1])
        invariant
            i <= k <= s@.len(),
            forall|j: int| k <= j < s@.len() ==> is_whitespace(#[trigger] s@[j]),
        decreases k,
    {
        k = k - 1;
    }
    proof {
        assert forall|j: int| k - i <= j < t.len() implies is_whitespace(#[trigger] t[j]) by {
            assert(t[j] == s@[i + j]);
        }
        lemma_trim_end_take(t, k - i);
        let u = t.take(k - i);
        if u.len() > 0 {
            assert(u.last() == s@[k - 1]);
        }
    }
    let mut r: Vec<char> = Vec::new();
    let mut m: usize = i;
    while m < k
        invariant
            i <= m <= k,
            k <= s@.len(),
            r@ == s@.subrange(i as int, m as int),
        decreases k - m,
    {
        r.push(s[m]);
        m = m + 1;
        assert(s@.subrange(i as int, m as int) =~= s@.subrange(i as int, (m - 1) as int).push(
            s@[m - 1],
        ));
    }
    assert(r@ =~= t.take(k - i));
    r
}

/// Whether `s`, trimmed, is exactly `word`.
pub fn trimmed_equals(s: &str, word: &str) -> (b: bool)
    ensures
        b == (trim_spec(s@) == word@),
{
    let v = chars_of(s);
    let t = trim_chars(v.as_slice());
    let w = chars_of(word);
    assert(t@ == trim_spec(s@));
    assert(w@ == word@);
    if t.len() != w.len() {
        assert(t@.len() != w@.len());
        assert(t@ != w@);
        return false;
    }
    let mut i: usize = 0;
    while i < t.len()
        invariant
            t@ == trim_spec(s@),
            w@ == word@,
            t@.len() == w@.len(),
            i <= t@.len(),
            forall|j: int| 0 <= j < i ==> t@[j] == w@[j],
        decreases t@.len() - i,
    {
        if t[i] != w[i] {
            assert(t@[i as int] != w@[i as int]);
            return false;
        }
        i = i + 1;
    }
    assert(t@ =~= w@);
    true
}

/// Whether `s` is empty or made only of whitespace.
pub fn is_blank(s: &str) -> (b: bool)
    ensures
        b == (trim_spec(s@).len() == 0),
{
    let v = chars_of(s);
    let t = trim_chars(v.as_slice());
    t.len() == 0
}

/// The position of the first line feed in `s`, or its length when it has none.
pub open spec fn newline_pos(s: Seq<char>) -> nat
    decreases s.len(),
{
    if s.len() == 0 {
        0
    } else if s[0] == '\n' {
        0
    } else {
        1 + newline_pos(s.drop_first())
    }
}

/// A line without the carriage return that ended it, as `str::lines` gives it.
pub open spec fn strip_cr(line: Seq<char>) -> Seq<char> {
    if line.len() > 0 && line.last() == '\r' {
        line.drop_last()
    } else {
        line
    }
}

/// The lines of `s` as `str::lines` yields them: split at each `\n`, a `\r`
/// just before that `\n` dropped, and no empty line after a final `\n`.
pub open spec fn lines_spec(s: Seq<char>) -> Seq<Seq<char>>
    decreases s.len(),
{
    if s.len() == 0 {
        seq![]
    } else {
        let k = newline_pos(s);
        if k < s.len() {
            seq![strip_cr(s.take(k as int))] + lines_spec(s.skip(k as int + 1))
        } else {
            seq![s]
        }
    }
}

proof fn lemma_newline_pos_bound(s: Seq<char>)
    ensures
        newline_pos(s) <= s.len(),
        newline_pos(s) < s.len() ==> s[newline_pos(s) as int] == '\n',
        forall|j: int| 0 <= j < newline_pos(s) ==> s[j] != '\n',
    decreases s.len(),
{
    if s.len() > 0 && s[0] != '\n' {
        lemma_newline_pos_bound(s.drop_first());
        assert forall|j: int| 0 <= j < newline_pos(s) implies s[j] != '\n' by {
            if j > 0 {
                assert(s[j] == s.drop_first()[j - 1]);
            }
        }
    }
}

proof fn lemma_newline_pos_append(cur: Seq<char>, t: Seq<char>)
    requires
        !cur.contains('\n'),
    ensures
        newline_pos(cur + t) == cur.len() + newline_pos(t),
    decreases cur.len(),
{
    if cur.len() > 0 {
        assert(cur[0] != '\n') by {
            if cur[0] == '\n' {
                assert(cur.contains('\n'));
            }
        }
        assert((cur + t).drop_first() =~= cur.drop_first() + t);
        assert(!cur.drop_first().contains('\n')) by {
            if cur.drop_first().contains('\n') {
                let j = choose|j: int| 0 <= j < cur.drop_first().len() && cur.drop_first()[j] == '\n';
                assert(cur[j + 1] == '\n');
            }
        }
        lemma_newline_pos_append(cur.drop_first(), t);
    } else {
        assert(cur + t =~= t);
    }
}

/// Splits text into lines as `str::lines` does.
pub fn split_lines(s: &str) -> (r: Vec<String>)
    ensures
        r@.len() == lines_spec(s@).len(),
        forall|i: int| 0 <= i < r@.len() ==> (#[trigger] r@[i])@ == lines_spec(s@)[i],
{
    let v = chars_of(s);
    let ghost done: Seq<Seq<char>> = seq![];
    let mut out: Vec<String> = Vec::new();
    let mut cur: Vec<char> = Vec::new();
    let mut i: usize = 0;
    assert(cur@ + v@.skip(0) =~= s@);
    while i < v.len()
        invariant
            v@ == s@,
            i <= v@.len(),
            !cur@.contains('\n'),
            out@.len() == done.len(),
            forall|j: int| 0 <= j < out@.len() ==> (#[trigger] out@[j])@ == done[j],
            lines_spec(s@) == done + lines_spec(cur@ + v@.skip(i as int)),
        decreases v@.len() - i,
    {
        let c = v[i];
        let ghost rest = v@.skip(i as int + 1);
        assert(v@.skip(i as int) =~= seq![c] + rest);
        if c == '\n' {
            proof {
                let whole = cur@ + v@.skip(i as int);
                assert(whole =~= cur@ + (seq![c] + rest));
                lemma_newline_pos_append(cur@, seq![c] + rest);
                assert(whole.take(cur@.len() as int) =~= cur@);
                assert(whole.skip(cur@.len() as int + 1) =~= rest);
                assert(rest =~= seq![] + rest);
            }
            let line = if cur.len() > 0 && cur[cur.len() - 1] == '\r' {
                let mut t = cur.clone();
                t.pop();
                assert(t@ =~= cur@.drop_last());
                string_of(t.as_slice())
            } else {
                string_of(cur.as_slice())
            };
            out.push(line);
            proof {
                done = done.push(strip_cr(cur@));
            }
            cur = Vec::new();
            assert(cur@ + rest =~= rest);
        } else {
            proof {
                assert(!cur@.push(c).contains('\n')) by {
                    if cur@.push(c).contains('\n') {
                        let j = choose|j: int| 0 <= j < cur@.push(c).len() && cur@.push(c)[j] == '\n';
                        if j < cur@.len() {
                            assert(cur@[j] == '\n');
                        }
                    }
                }
            }
            let ghost old_cur = cur@;
            cur.push(c);
            assert(old_cur + (seq![c] + rest) =~= cur@ + rest);
        }
        i = i + 1;
        assert(v@.skip(i as int) =~= rest);
    }
    proof {
        assert(v@.skip(i as int) =~= seq![]);
        assert(cur@ + v@.skip(i as int) =~= cur@);
        lemma_newline_pos_append(cur@, seq![]);
        assert(cur@ + seq![] =~= cur@);
    }
    if cur.len() > 0 {
        out.push(string_of(cur.as_slice()));
        proof {
            done = done.push(cur@);
        }
    }
    assert(lines_spec(s@) =~= done);
    out
}

/// The decimal digit for a value below ten.
pub open spec fn digit_char(d: nat) -> char {
    if d == 0 { '0' }
    else if d == 1 { '1' }
    else if d == 2 { '2' }
    else if d == 3 { '3' }
    else if d == 4 { '4' }
    else if d == 5 { '5' }
    else if d == 6 { '6' }
    else if d == 7 { '7' }
    else if d == 8 { '8' }
    else { '9' }
}

/// The decimal representation of `n`, without leading zeros.
pub open spec fn decimal(n: nat) -> Seq<char>
    decreases n,
{
    if n < 10 {
        seq![digit_char(n)]
    } else {
        decimal(n / 10).push(digit_char(n % 10))
    }
}

/// The decimal representation of `n`, left-padded with zeros to `width` characters.
pub open spec fn decimal_padded(n: nat, width: nat) -> Seq<char> {
    let d = decimal(n);
    if d.len() < width {
        Seq::new((width - d.len()) as nat, |i: int| '0') + d
    } else {
        d
    }
}

/// The decimal representation of a signed number, with a leading `-` when negative.
pub open spec fn signed_decimal(n: int) -> Seq<char> {
    if n < 0 {
        seq!['-'] + decimal((-n) as nat)
    } else {
        decimal(n as nat)
    }
}

fn digit(d: u64) -> (c: char)
    requires
        d < 10,
    ensures
        c == digit_char(d as nat),
{
    if d == 0 { '0' }
    else if d == 1 { '1' }
    else if d == 2 { '2' }
    else if d == 3 { '3' }
    else if d == 4 { '4' }
    else if d == 5 { '5' }
    else if d == 6 { '6' }
    else if d == 7 { '7' }
    else if d == 8 { '8' }
    else { '9' }
}

/// Appends the decimal digits of `n`.
pub fn push_decimal(out: &mut String, n: u64)
    ensures
        final(out)@ == old(out)@ + decimal(n as nat),
    decreases n,
{
    if n >= 10 {
        push_decimal(out, n / 10);
    }
    push_char(out, digit(n % 10));
    proof {
        if n >= 10 {
            assert(decimal(n as nat) == decimal((n / 10) as nat).push(digit_char((n % 10) as nat)));
        }
    }
    assert(final(out)@ =~= old(out)@ + decimal(n as nat));
}

/// Appends the decimal digits of `n`, left-padded with zeros to `width` characters.
pub fn push_decimal_padded(out: &mut String, n: u64, width: usize)
    ensures
        final(out)@ == old(out)@ + decimal_padded(n as nat, width as nat),
{
    let mut digits = String::new();
    push_decimal(&mut digits, n);
    assert(digits@ =~= decimal(n as nat));
    let len = digits.as_str().unicode_len();
    let ghost start = out@;
    if len < width {
        let mut k: usize = 0;
        while k < width - len
            invariant
                len < width,
                k <= width - len,
                out@ == start + Seq::new(k as nat, |i: int| '0'),
            decreases width - len - k,
        {
            push_char(out, '0');
            k = k + 1;
            assert(start + Seq::new(k as nat, |i: int| '0') =~= (start + Seq::new(
                (k - 1) as nat,
                |i: int| '0',
            )).push('0'));
        }
    }
    out.append(digits.as_str());
    assert(out@ =~= start + decimal_padded(n as nat, width as nat));
}

/// The decimal representation of `n`.
pub fn decimal_string(n: u64) -> (s: String)
    ensures
        s@ == decimal(n as nat),
{
    let mut s = String::new();
    push_decimal(&mut s, n);
    assert(s@ =~= decimal(n as nat));
    s
}

/// Appends the decimal representation of a signed number.
pub fn push_signed_decimal(out: &mut String, n: i64)
    ensures
        final(out)@ == old(out)@ + signed_decimal(n as int),
{
    if n < 0 {
        let ghost start = out@;
        push_char(out, '-');
        let m: u64 = if n == i64::MIN { 9223372036854775808u64 } else { (-n) as u64 };
        assert(m as int == -(n as int));
        push_decimal(out, m);
        assert(out@ =~= start + signed_decimal(n as int));
    } else {
        push_decimal(out, n as u64);
    }
}

/// The value of a decimal digit character.
pub open spec fn digit_value(c: char) -> int {
    (c as int) - ('0' as int)
}

/// The number written by the decimal digits `s`, most significant first.
pub open spec fn digits_value(s: Seq<char>) -> int
    decreases s.len(),
{
    if s.len() == 0 {
        0
    } else {
        digits_value(s.drop_last()) * 10 + digit_value(s.last())
    }
}

/// Every character of `s` is an ASCII digit.
pub open spec fn all_digits(s: Seq<char>) -> bool {
    forall|i: int| 0 <= i < s.len() ==> '0' <= #[trigger] s[i] && s[i] <= '9'
}

/// What `str::parse::<usize>` accepts: an optional `+`, then one or more ASCII
/// digits, whose value fits in `usize`; `None` for anything else.
pub open spec fn parse_usize_spec(s: Seq<char>) -> Option<int> {
    let body = if s.len() > 0 && s[0] == '+' { s.drop_first() } else { s };
    if body.len() > 0 && all_digits(body) && digits_value(body) <= usize::MAX {
        Some(digits_value(body))
    } else {
        None
    }
}

proof fn lemma_digits_value_nonneg(s: Seq<char>)
    requires
        all_digits(s),
    ensures
        digits_value(s) >= 0,
    decreases s.len(),
{
    if s.len() > 0 {
        assert(all_digits(s.drop_last())) by {
            assert forall|i: int| 0 <= i < s.drop_last().len() implies '0' <= #[trigger] s.drop_last()[i] && s.drop_last()[i] <= '9' by {
                assert(s.drop_last()[i] == s[i]);
            }
        }
        lemma_digits_value_nonneg(s.drop_last());
        assert('0' <= s.last() && s.last() <= '9');
    }
}

/// Parses a `usize` the way `str::parse::<usize>` does.
pub fn parse_usize(s: &str) -> (r: Option<usize>)
    ensures
        r matches Some(v) ==> parse_usize_spec(s@) == Some(v as int),
        r is None ==> parse_usize_spec(s@) is None,
{
    let v = chars_of(s);
    let start: usize = if v.len() > 0 && v[0] == '+' { 1 } else { 0 };
    let ghost body = if s@.len() > 0 && s@[0] == '+' { s@.drop_first() } else { s@ };
    assert(body =~= v@.skip(start as int));
    if start >= v.len() {
        return None;
    }
    let mut acc: usize = 0;
    let mut i: usize = start;
    while i < v.len()
        invariant
            v@ == s@,
            start <= i <= v@.len(),
            body == v@.skip(start as int),
            body == (if s@.len() > 0 && s@[0] == '+' { s@.drop_first() } else { s@ }),
            all_digits(v@.subrange(start as int, i as int)),
            acc as int == digits_value(v@.subrange(start as int, i as int)),
        decreases v@.len() - i,
    {
        let c = v[i];
        let ghost pre = v@.subrange(start as int, i as int);
        let ghost next = v@.subrange(start as int, i as int + 1);
        assert(next.drop_last() =~= pre);
        assert(next.last() == c);
        if c < '0' || c > '9' {
            proof {
                let k = i - start;
                assert(body[k] == c);
                assert(!('0' <= body[k] && body[k] <= '9'));
                assert(!all_digits(body));
                assert(parse_usize_spec(s@) is None);
            }
            return None;
        }
        let d = (c as u32 - '0' as u32) as usize;
        assert(all_digits(next)) by {
            assert forall|k: int| 0 <= k < next.len() implies '0' <= #[trigger] next[k] && next[k] <= '9' by {
                if k < pre.len() {
                    assert(next[k] == pre[k]);
                }
            }
        }
        if acc > (usize::MAX - d) / 10 {
            proof {
                let a = acc as int;
                let dd = d as int;
                let m = usize::MAX as int;
                assert(a * 10 + dd > m) by (nonlinear_arith)
                    requires
                        a > (m - dd) / 10,
                        0 <= dd < 10,
                        m > 10,
                ;
                assert(digits_value(next) == a * 10 + dd);
                if all_digits(body) {
                    lemma_digits_prefix_bound(body, (i + 1 - start) as int);
                    assert(body.take((i + 1 - start) as int) =~= next);
                }
                assert(parse_usize_spec(s@) is None);
            }
            return None;
        }
        acc = acc * 10 + d;
        i = i + 1;
    }
    assert(v@.subrange(start as int, v@.len() as int) =~= body);
    Some(acc)
}

proof fn lemma_digits_prefix_bound(s: Seq<char>, k: int)
    requires
        0 <= k <= s.len(),
        all_digits(s),
    ensures
        digits_value(s.take(k)) <= digits_value(s),
    decreases s.len() - k,
{
    if k < s.len() {
        assert(all_digits(s.drop_last())) by {
            assert forall|i: int| 0 <= i < s.drop_last().len() implies '0' <= #[trigger] s.drop_last()[i] && s.drop_last()[i] <= '9' by {
                assert(s.drop_last()[i] == s[i]);
            }
        }
        lemma_digits_prefix_bound(s.drop_last(), k);
        assert(s.drop_last().take(k) =~= s.take(k));
        lemma_digits_value_nonneg(s.drop_last());
        assert(s[s.len() - 1] >= '0');
    } else {
        assert(s.take(k) =~= s);
    }
}


/// The view of an optional string.
pub open spec fn opt_view(o: Option<String>) -> Option<Seq<char>> {
    match o {
        Some(s) => Some(s@),
        None => None,
    }
}

/// An owned copy of an optional string slice.
pub fn owned_opt(o: Option<&str>) -> (r: Option<String>)
    ensures
        opt_view(r) == match o {
            Some(s) => Some(s@),
            None => None::<Seq<char>>,
        },
{
    match o {
        Some(s) => Some(owned(s)),
        None => None,
    }
}

/// The views of a sequence of strings.
pub open spec fn string_views(v: Seq<String>) -> Seq<Seq<char>> {
    v.map_values(|s: String| s@)
}

/// The views of a sequence of string slices.
pub open spec fn str_views(v: Seq<&str>) -> Seq<Seq<char>> {
    v.map_values(|s: &str| s@)
}

/// Owned copies of string slices, in order.
pub fn owned_all(items: &[&str]) -> (r: Vec<String>)
    ensures
        string_views(r@) == str_views(items@),
{
    let mut out: Vec<String> = Vec::new();
    let mut i: usize = 0;
    while i < items.len()
        invariant
            i <= items@.len(),
            out@.len() == i,
            forall|j: int| 0 <= j < i ==> (#[trigger] out@[j])@ == items@[j]@,
        decreases items@.len() - i,
    {
        out.push(owned(items[i]));
        i = i + 1;
    }
    assert(string_views(out@) =~= str_views(items@));
    out
}

}

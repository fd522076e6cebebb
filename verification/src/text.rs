//! Verified text utilities over character sequences.
//!
//! Executable code works on `Vec<char>` / `String`; specifications describe
//! the same operations over `Seq<char>`.  All higher-level formatting and
//! parsing in this crate is stated in terms of these spec functions.

use vstd::prelude::*;

verus! {

use vstd::multiset::Multiset;

/// Whitespace characters recognised by the trimming helpers: the ASCII
/// whitespace controls and the space.  Multilingual space characters are
/// not recognised.
pub open spec fn is_space(c: char) -> bool {
    c == ' ' || c == '\t' || c == '\n' || c == '\u{b}' || c == '\u{c}' || c == '\r'
}

pub open spec fn spec_trim_start(s: Seq<char>) -> Seq<char>
    decreases s.len(),
{
    if s.len() == 0 {
        s
    } else if is_space(s[0]) {
        spec_trim_start(s.drop_first())
    } else {
        s
    }
}

pub open spec fn spec_trim_end(s: Seq<char>) -> Seq<char>
    decreases s.len(),
{
    if s.len() == 0 {
        s
    } else if is_space(s.last()) {
        spec_trim_end(s.drop_last())
    } else {
        s
    }
}

/// Both ends trimmed of whitespace.
pub open spec fn spec_trim(s: Seq<char>) -> Seq<char> {
    spec_trim_end(spec_trim_start(s))
}

pub open spec fn spec_starts_with(s: Seq<char>, p: Seq<char>) -> bool {
    p.len() <= s.len() && s.subrange(0, p.len() as int) == p
}

pub open spec fn spec_ends_with(s: Seq<char>, p: Seq<char>) -> bool {
    p.len() <= s.len() && s.subrange(s.len() - p.len(), s.len() as int) == p
}

pub open spec fn spec_contains_at(s: Seq<char>, i: int, p: Seq<char>) -> bool {
    0 <= i && i + p.len() <= s.len() && s.subrange(i, i + p.len()) == p
}

pub open spec fn spec_contains(s: Seq<char>, p: Seq<char>) -> bool {
    exists|i: int| spec_contains_at(s, i, p)
}

/// Every occurrence of `a` replaced by `b`.
pub open spec fn spec_replace(s: Seq<char>, a: char, b: char) -> Seq<char> {
    Seq::new(s.len(), |i: int| if s[i] == a { b } else { s[i] })
}

/// Split at every occurrence of `sep`; always returns at least one segment.
pub open spec fn spec_split(s: Seq<char>, sep: char) -> Seq<Seq<char>>
    decreases s.len(),
{
    if s.len() == 0 {
        seq![seq![]]
    } else if s[0] == sep {
        seq![seq![]] + spec_split(s.drop_first(), sep)
    } else {
        let r = spec_split(s.drop_first(), sep);
        seq![seq![s[0]] + r[0]] + r.drop_first()
    }
}

/// Segments joined with a single `sep` between them.
pub open spec fn spec_join(ss: Seq<Seq<char>>, sep: char) -> Seq<char>
    decreases ss.len(),
{
    if ss.len() == 0 {
        seq![]
    } else if ss.len() == 1 {
        ss[0]
    } else {
        ss[0] + seq![sep] + spec_join(ss.drop_first(), sep)
    }
}

pub open spec fn spec_strip_cr(s: Seq<char>) -> Seq<char> {
    if s.len() > 0 && s.last() == '\r' {
        s.drop_last()
    } else {
        s
    }
}

/// The lines of `s`: split at `'\n'`, a carriage return before each newline
/// removed, and no final empty line for text ending in a newline.
pub open spec fn spec_lines(s: Seq<char>) -> Seq<Seq<char>> {
    let segs = spec_split(s, '\n');
    let stripped = Seq::new(
        segs.len(),
        |i: int| if i < segs.len() - 1 { spec_strip_cr(segs[i]) } else { segs[i] },
    );
    if stripped.last().len() == 0 {
        stripped.drop_last()
    } else {
        stripped
    }
}

pub open spec fn spec_digit(d: int) -> char {
    if d == 0 { '0' }
    else if d == 1 { '1' }
    else if d == 2 { '2' }
    else if d == 3 { '3' }
    else if d == 4 { '4' }
    else if d == 5 { '5' }
    else if d == 6 { '6' }
    else if d == 7 { '7' }
    else if d == 8 { '8' }
    else { '9' }
}

/// Decimal digits of `n`, most significant first.
pub open spec fn spec_dec(n: nat) -> Seq<char>
    decreases n,
{
    if n < 10 {
        seq![spec_digit(n as int)]
    } else {
        spec_dec(n / 10) + seq![spec_digit((n % 10) as int)]
    }
}

/// Decimal form of a signed number, with a leading minus sign when negative.
pub open spec fn spec_dec_signed(n: int) -> Seq<char> {
    if n < 0 {
        seq!['-'] + spec_dec((-n) as nat)
    } else {
        spec_dec(n as nat)
    }
}

/// Zero-padded to at least three characters.
pub open spec fn spec_pad3(s: Seq<char>) -> Seq<char> {
    if s.len() >= 3 {
        s
    } else if s.len() == 2 {
        seq!['0'] + s
    } else if s.len() == 1 {
        seq!['0', '0'] + s
    } else {
        seq!['0', '0', '0']
    }
}

/// Lexicographic order on character sequences, by code point.
pub open spec fn spec_lex_le(a: Seq<char>, b: Seq<char>) -> bool
    decreases a.len(),
{
    if a.len() == 0 {
        true
    } else if b.len() == 0 {
        false
    } else if (a[0] as u32) < (b[0] as u32) {
        true
    } else if (a[0] as u32) > (b[0] as u32) {
        false
    } else {
        spec_lex_le(a.drop_first(), b.drop_first())
    }
}

/// The views of a list of strings.
pub open spec fn strings_view(v: Seq<String>) -> Seq<Seq<char>> {
    v.map_values(|s: String| s@)
}

/// The views of a list of character vectors.
pub open spec fn charvecs_view(v: Seq<Vec<char>>) -> Seq<Seq<char>> {
    v.map_values(|x: Vec<char>| x@)
}

/// Relies on `String::push`: appends exactly one character.
#[verifier::external_body]
pub fn string_push(s: &mut String, c: char)
    ensures
        final(s)@ == old(s)@.push(c),
{
    s.push(c);
}

pub fn is_space_char(c: char) -> (r: bool)
    ensures
        r == is_space(c),
{
    c == ' ' || c == '\t' || c == '\n' || c == '\u{b}' || c == '\u{c}' || c == '\r'
}

/// The characters of a string slice.
pub fn to_chars(s: &str) -> (r: Vec<char>)
    ensures
        r@ == s@,
{
    let n = s.unicode_len();
    let mut r: Vec<char> = Vec::new();
    let mut i: usize = 0;
    while i < n
        invariant
            n == s@.len(),
            i <= n,
            r@ == s@.subrange(0, i as int),
        decreases n - i,
    {
        r.push(s.get_char(i));
        i = i + 1;
        proof {
            assert(s@.subrange(0, i as int) =~= s@.subrange(0, i - 1) + seq![s@[i - 1]]);
        }
    }
    proof {
        assert(s@.subrange(0, n as int) =~= s@);
    }
    r
}

/// A string holding exactly the given characters.
pub fn from_chars(v: &Vec<char>) -> (r: String)
    ensures
        r@ == v@,
{
    let mut r = String::new();
    let mut i: usize = 0;
    while i < v.len()
        invariant
            i <= v@.len(),
            r@ == v@.subrange(0, i as int),
        decreases v@.len() - i,
    {
        string_push(&mut r, v[i]);
        i = i + 1;
        proof {
            assert(v@.subrange(0, i as int) =~= v@.subrange(0, i - 1).push(v@[i - 1]));
        }
    }
    proof {
        assert(v@.subrange(0, v@.len() as int) =~= v@);
    }
    r
}

/// Appends all characters of `src`.
pub fn push_all(dst: &mut Vec<char>, src: &Vec<char>)
    ensures
        final(dst)@ == old(dst)@ + src@,
{
    let mut i: usize = 0;
    while i < src.len()
        invariant
            i <= src@.len(),
            dst@ == old(dst)@ + src@.subrange(0, i as int),
        decreases src@.len() - i,
    {
        dst.push(src[i]);
        i = i + 1;
        proof {
            assert(old(dst)@ + src@.subrange(0, i as int) =~= (old(dst)@ + src@.subrange(
                0,
                i - 1,
            )).push(src@[i - 1]));
        }
    }
    proof {
        assert(old(dst)@ + src@.subrange(0, src@.len() as int) =~= old(dst)@ + src@);
    }
}

/// Both ends trimmed of whitespace.
pub fn trim_chars(v: &Vec<char>) -> (r: Vec<char>)
    ensures
        r@ == spec_trim(v@),
{
    let n = v.len();
    proof {
        assert(v@.subrange(0, n as int) =~= v@);
    }
    let mut lo: usize = 0;
    while lo < n && is_space_char(v[lo])
        invariant
            lo <= n,
            n == v@.len(),
            spec_trim_start(v@) == spec_trim_start(v@.subrange(lo as int, n as int)),
        decreases n - lo,
    {
        proof {
            let cur = v@.subrange(lo as int, n as int);
            assert(cur.drop_first() =~= v@.subrange(lo + 1, n as int));
        }
        lo = lo + 1;
    }
    proof {
        let cur = v@.subrange(lo as int, n as int);
        if cur.len() > 0 {
            assert(cur[0] == v@[lo as int]);
        }
        assert(spec_trim_start(v@) == cur);
    }
    let mut hi: usize = n;
    while hi > lo && is_space_char(v[hi - 1])
        invariant
            lo <= hi <= n,
            n == v@.len(),
            spec_trim_start(v@) == v@.subrange(lo as int, n as int),
            spec_trim_end(v@.subrange(lo as int, n as int)) == spec_trim_end(
                v@.subrange(lo as int, hi as int),
            ),
        decreases hi,
    {
        proof {
            let cur = v@.subrange(lo as int, hi as int);
            assert(cur.last() == v@[hi - 1]);
            assert(cur.drop_last() =~= v@.subrange(lo as int, hi - 1));
        }
        hi = hi - 1;
    }
    proof {
        let cur = v@.subrange(lo as int, hi as int);
        if cur.len() > 0 {
            assert(cur.last() == v@[hi - 1]);
        }
        assert(spec_trim(v@) == cur);
    }
    let mut r: Vec<char> = Vec::new();
    let mut i: usize = lo;
    while i < hi
        invariant
            lo <= i <= hi <= n,
            n == v@.len(),
            r@ == v@.subrange(lo as int, i as int),
        decreases hi - i,
    {
        r.push(v[i]);
        i = i + 1;
        proof {
            assert(v@.subrange(lo as int, i as int) =~= v@.subrange(lo as int, i - 1).push(
                v@[i - 1],
            ));
        }
    }
    r
}

/// Leading whitespace trimmed.
pub fn trim_start_chars(v: &Vec<char>) -> (r: Vec<char>)
    ensures
        r@ == spec_trim_start(v@),
{
    let n = v.len();
    proof {
        assert(v@.subrange(0, n as int) =~= v@);
    }
    let mut lo: usize = 0;
    while lo < n && is_space_char(v[lo])
        invariant
            lo <= n,
            n == v@.len(),
            spec_trim_start(v@) == spec_trim_start(v@.subrange(lo as int, n as int)),
        decreases n - lo,
    {
        proof {
            let cur = v@.subrange(lo as int, n as int);
            assert(cur.drop_first() =~= v@.subrange(lo + 1, n as int));
        }
        lo = lo + 1;
    }
    proof {
        let cur = v@.subrange(lo as int, n as int);
        if cur.len() > 0 {
            assert(cur[0] == v@[lo as int]);
        }
        assert(spec_trim_start(v@) == cur);
    }
    let mut r: Vec<char> = Vec::new();
    let mut i: usize = lo;
    while i < n
        invariant
            lo <= i <= n,
            n == v@.len(),
            r@ == v@.subrange(lo as int, i as int),
        decreases n - i,
    {
        r.push(v[i]);
        i = i + 1;
        proof {
            assert(v@.subrange(lo as int, i as int) =~= v@.subrange(lo as int, i - 1).push(
                v@[i - 1],
            ));
        }
    }
    r
}

/// Whether `p` occurs in `v` starting at index `i`.
pub fn matches_at(v: &Vec<char>, i: usize, p: &Vec<char>) -> (r: bool)
    requires
        i + p@.len() <= v@.len(),
    ensures
        r == spec_contains_at(v@, i as int, p@),
{
    let total = v.len();
    proof {
        assert(v@.len() <= usize::MAX);
    }
    let mut k: usize = 0;
    while k < p.len()
        invariant
            k <= p@.len(),
            i + p@.len() <= v@.len(),
            v@.len() <= usize::MAX,
            forall|j: int| 0 <= j < k ==> v@[i + j] == p@[j],
        decreases p@.len() - k,
    {
        if v[i + k] != p[k] {
            proof {
                let sub = v@.subrange(i as int, i + p@.len());
                assert(sub[k as int] == v@[i + k]);
                assert(sub != p@);
            }
            return false;
        }
        k = k + 1;
    }
    proof {
        assert(v@.subrange(i as int, i + p@.len()) =~= p@);
    }
    true
}

pub fn starts_with_chars(v: &Vec<char>, p: &Vec<char>) -> (r: bool)
    ensures
        r == spec_starts_with(v@, p@),
{
    if p.len() > v.len() {
        return false;
    }
    let r = matches_at(v, 0, p);
    proof {
        assert(spec_contains_at(v@, 0, p@) == spec_starts_with(v@, p@));
    }
    r
}

pub fn ends_with_chars(v: &Vec<char>, p: &Vec<char>) -> (r: bool)
    ensures
        r == spec_ends_with(v@, p@),
{
    if p.len() > v.len() {
        return false;
    }
    let off = v.len() - p.len();
    let r = matches_at(v, off, p);
    proof {
        assert(spec_contains_at(v@, off as int, p@) == spec_ends_with(v@, p@));
    }
    r
}

pub fn contains_chars(v: &Vec<char>, p: &Vec<char>) -> (r: bool)
    ensures
        r == spec_contains(v@, p@),
{
    if p.len() > v.len() {
        proof {
            assert(forall|i: int| !spec_contains_at(v@, i, p@));
        }
        return false;
    }
    let total = v.len();
    proof {
        assert(v@.len() <= usize::MAX);
    }
    let last = total - p.len();
    let mut i: usize = 0;
    while i <= last
        invariant
            i <= last + 1,
            last + p@.len() == v@.len(),
            p@.len() <= v@.len(),
            v@.len() <= usize::MAX,
            forall|j: int| 0 <= j < i ==> !spec_contains_at(v@, j, p@),
        decreases last + 1 - i,
    {
        if matches_at(v, i, p) {
            proof {
                assert(spec_contains_at(v@, i as int, p@));
            }
            return true;
        }
        proof {
            if p@.len() == 0 {
                assert(v@.subrange(i as int, i as int) =~= p@);
                assert(spec_contains_at(v@, i as int, p@));
            }
            assert(p@.len() > 0);
        }
        i = i + 1;
    }
    proof {
        assert(forall|j: int| j > last ==> !spec_contains_at(v@, j, p@));
        assert(!spec_contains(v@, p@));
    }
    false
}

/// Every occurrence of `a` replaced by `b`.
pub fn replace_chars(v: &Vec<char>, a: char, b: char) -> (r: Vec<char>)
    ensures
        r@ == spec_replace(v@, a, b),
{
    let mut r: Vec<char> = Vec::new();
    let mut i: usize = 0;
    while i < v.len()
        invariant
            i <= v@.len(),
            r@.len() == i,
            forall|j: int| 0 <= j < i ==> r@[j] == (if v@[j] == a {
                b
            } else {
                v@[j]
            }),
        decreases v@.len() - i,
    {
        if v[i] == a {
            r.push(b);
        } else {
            r.push(v[i]);
        }
        i = i + 1;
    }
    proof {
        assert(r@ =~= spec_replace(v@, a, b));
    }
    r
}

/// Whether two character vectors hold the same characters.
pub fn chars_eq(a: &Vec<char>, b: &Vec<char>) -> (r: bool)
    ensures
        r == (a@ == b@),
{
    if a.len() != b.len() {
        return false;
    }
    let n = a.len();
    let mut i: usize = 0;
    while i < n
        invariant
            i <= n,
            n == a@.len(),
            n == b@.len(),
            forall|j: int| 0 <= j < i ==> a@[j] == b@[j],
        decreases n - i,
    {
        if a[i] != b[i] {
            return false;
        }
        i = i + 1;
    }
    proof {
        assert(a@ =~= b@);
    }
    true
}

/// A copy of the given characters.
pub fn clone_chars(v: &Vec<char>) -> (r: Vec<char>)
    ensures
        r@ == v@,
{
    let mut r: Vec<char> = Vec::new();
    push_all(&mut r, v);
    proof {
        assert(Seq::<char>::empty() + v@ =~= v@);
    }
    r
}

pub proof fn lemma_split_len(s: Seq<char>, sep: char)
    ensures
        spec_split(s, sep).len() >= 1,
    decreases s.len(),
{
    if s.len() == 0 {
    } else {
        lemma_split_len(s.drop_first(), sep);
    }
}

/// Splitting distributes over a separator between two texts.
pub proof fn lemma_split_append(x: Seq<char>, y: Seq<char>, sep: char)
    ensures
        spec_split(x + seq![sep] + y, sep) == spec_split(x, sep) + spec_split(y, sep),
    decreases x.len(),
{
    let s = x + seq![sep] + y;
    if x.len() == 0 {
        assert(s =~= seq![sep] + y);
        assert(s[0] == sep);
        assert(s.drop_first() =~= y);
        assert(spec_split(s, sep) =~= spec_split(x, sep) + spec_split(y, sep));
    } else {
        assert(s[0] == x[0]);
        assert(s.len() > 0);
        assert(s.drop_first() =~= x.drop_first() + seq![sep] + y);
        lemma_split_append(x.drop_first(), y, sep);
        lemma_split_len(x.drop_first(), sep);
        lemma_split_len(y, sep);
        let rx = spec_split(x.drop_first(), sep);
        let ry = spec_split(y, sep);
        if x[0] == sep {
            assert(spec_split(s, sep) =~= (seq![seq![]] + rx) + ry);
            assert(spec_split(x, sep) =~= seq![seq![]] + rx);
        } else {
            let r = spec_split(s.drop_first(), sep);
            assert(r == rx + ry);
            assert(r[0] == rx[0]);
            assert(r.drop_first() =~= rx.drop_first() + ry);
            assert(spec_split(s, sep) =~= (seq![seq![s[0]] + rx[0]] + rx.drop_first()) + ry);
            assert(spec_split(x, sep) =~= seq![seq![x[0]] + rx[0]] + rx.drop_first());
            assert(spec_split(s, sep) =~= spec_split(x, sep) + ry);
        }
    }
}

/// A text without the separator is a single segment.
pub proof fn lemma_split_no_sep(s: Seq<char>, sep: char)
    requires
        forall|i: int| 0 <= i < s.len() ==> s[i] != sep,
    ensures
        spec_split(s, sep) == seq![s],
    decreases s.len(),
{
    if s.len() == 0 {
        assert(spec_split(s, sep) =~~= seq![s]);
    } else {
        assert(s[0] != sep);
        assert(forall|i: int|
            0 <= i < s.drop_first().len() ==> s.drop_first()[i] == s[i + 1] && s[i + 1] != sep);
        lemma_split_no_sep(s.drop_first(), sep);
        assert(spec_split(s, sep) =~= seq![seq![s[0]] + s.drop_first()]);
        assert(seq![s[0]] + s.drop_first() =~= s);
        assert(spec_split(s, sep) =~= seq![s]);
    }
}

/// A character absent from the text is absent from every split segment.
pub proof fn lemma_split_no_char(s: Seq<char>, sep: char, c: char)
    requires
        forall|i: int| 0 <= i < s.len() ==> s[i] != c,
    ensures
        forall|k: int, i: int|
            0 <= k < spec_split(s, sep).len() && 0 <= i < spec_split(s, sep)[k].len()
                ==> #[trigger] spec_split(s, sep)[k][i] != c,
    decreases s.len(),
{
    if s.len() == 0 {
    } else {
        assert(forall|i: int|
            0 <= i < s.drop_first().len() ==> s.drop_first()[i] == s[i + 1] && s[i + 1] != c);
        lemma_split_no_char(s.drop_first(), sep, c);
        let r = spec_split(s.drop_first(), sep);
        lemma_split_len(s.drop_first(), sep);
        if s[0] == sep {
            assert(forall|k: int|
                0 <= k < spec_split(s, sep).len() ==> {
                    &&& (k == 0 ==> (#[trigger] spec_split(s, sep)[k]).len() == 0)
                    &&& (k > 0 ==> spec_split(s, sep)[k] == r[k - 1])
                });
        } else {
            assert(s[0] != c);
            let head = seq![s[0]] + r[0];
            assert(forall|i: int|
                0 <= i < head.len() ==> head[i] == (if i == 0 {
                    s[0]
                } else {
                    r[0][i - 1]
                }));
            assert(forall|k: int|
                1 <= k < spec_split(s, sep).len() ==> #[trigger] spec_split(s, sep)[k] == r[k]);
            assert(spec_split(s, sep)[0] == head);
        }
    }
}

/// Joining the segments of a split gives back the original text.
pub proof fn lemma_join_split(s: Seq<char>, sep: char)
    ensures
        spec_join(spec_split(s, sep), sep) == s,
    decreases s.len(),
{
    if s.len() == 0 {
        assert(spec_join(spec_split(s, sep), sep) =~= s);
    } else if s[0] == sep {
        lemma_join_split(s.drop_first(), sep);
        lemma_split_len(s.drop_first(), sep);
        let parts = seq![seq![]] + spec_split(s.drop_first(), sep);
        assert(parts.len() >= 2);
        assert(parts.drop_first() =~= spec_split(s.drop_first(), sep));
        assert(parts[0] =~= Seq::<char>::empty());
        assert(spec_join(parts, sep) =~= seq![sep] + s.drop_first());
        assert(seq![sep] + s.drop_first() =~= s);
    } else {
        lemma_join_split(s.drop_first(), sep);
        lemma_split_len(s.drop_first(), sep);
        let r = spec_split(s.drop_first(), sep);
        let parts = seq![seq![s[0]] + r[0]] + r.drop_first();
        assert(spec_split(s, sep) == parts);
        if r.len() == 1 {
            assert(parts.len() == 1);
            assert(spec_join(r, sep) == r[0]);
            assert(spec_join(parts, sep) == seq![s[0]] + r[0]);
            assert(seq![s[0]] + s.drop_first() =~= s);
        } else {
            assert(parts.len() >= 2);
            assert(parts.drop_first() =~= r.drop_first());
            assert(spec_join(parts, sep) == parts[0] + seq![sep] + spec_join(r.drop_first(), sep));
            assert(spec_join(r, sep) == r[0] + seq![sep] + spec_join(r.drop_first(), sep));
            assert(spec_join(parts, sep) =~= seq![s[0]] + spec_join(r, sep));
            assert(seq![s[0]] + s.drop_first() =~= s);
        }
    }
}

/// Appending one more segment appends a separator and that segment.
pub proof fn lemma_join_push(ss: Seq<Seq<char>>, x: Seq<char>, sep: char)
    requires
        ss.len() >= 1,
    ensures
        spec_join(ss.push(x), sep) == spec_join(ss, sep) + seq![sep] + x,
    decreases ss.len(),
{
    if ss.len() == 1 {
        let p = ss.push(x);
        assert(p.len() == 2);
        assert(p.drop_first() =~= seq![x]);
        assert(spec_join(p.drop_first(), sep) == x);
        assert(p[0] == ss[0]);
    } else {
        lemma_join_push(ss.drop_first(), x, sep);
        let p = ss.push(x);
        assert(p.drop_first() =~= ss.drop_first().push(x));
        assert(p[0] == ss[0]);
        assert(spec_join(p, sep) == ss[0] + seq![sep] + spec_join(ss.drop_first().push(x), sep));
        assert(spec_join(ss.drop_first().push(x), sep) == spec_join(ss.drop_first(), sep)
            + seq![sep] + x);
        assert(ss[0] + seq![sep] + (spec_join(ss.drop_first(), sep) + seq![sep] + x) =~= (ss[0]
            + seq![sep] + spec_join(ss.drop_first(), sep)) + seq![sep] + x);
    }
}

/// Split at every occurrence of `sep`.
pub fn split_chars(v: &Vec<char>, sep: char) -> (r: Vec<Vec<char>>)
    ensures
        charvecs_view(r@) == spec_split(v@, sep),
{
    let n = v.len();
    let mut acc: Vec<Vec<char>> = Vec::new();
    let mut cur: Vec<char> = Vec::new();
    let mut i: usize = 0;
    proof {
        assert(cur@ + v@.subrange(0, n as int) =~= v@);
        assert(charvecs_view(acc@) =~= Seq::<Seq<char>>::empty());
    }
    while i < n
        invariant
            i <= n,
            n == v@.len(),
            forall|j: int| 0 <= j < cur@.len() ==> cur@[j] != sep,
            spec_split(v@, sep) == charvecs_view(acc@) + spec_split(
                cur@ + v@.subrange(i as int, n as int),
                sep,
            ),
        decreases n - i,
    {
        let c = v[i];
        if c == sep {
            proof {
                let rest = v@.subrange(i + 1, n as int);
                assert(cur@ + v@.subrange(i as int, n as int) =~= cur@ + seq![sep] + rest);
                lemma_split_append(cur@, rest, sep);
                lemma_split_no_sep(cur@, sep);
                assert(charvecs_view(acc@.push(cur)) =~= charvecs_view(acc@).push(cur@));
                assert(charvecs_view(acc@) + (seq![cur@] + spec_split(rest, sep))
                    =~= charvecs_view(acc@).push(cur@) + spec_split(rest, sep));
            }
            acc.push(cur);
            cur = Vec::new();
            proof {
                assert(cur@ + v@.subrange(i + 1, n as int) =~= v@.subrange(i + 1, n as int));
            }
        } else {
            proof {
                assert(cur@ + v@.subrange(i as int, n as int) =~= cur@.push(c) + v@.subrange(
                    i + 1,
                    n as int,
                ));
            }
            cur.push(c);
        }
        i = i + 1;
    }
    proof {
        assert(cur@ + v@.subrange(n as int, n as int) =~= cur@);
        lemma_split_no_sep(cur@, sep);
        assert(charvecs_view(acc@.push(cur)) =~= charvecs_view(acc@).push(cur@));
        assert(charvecs_view(acc@) + seq![cur@] =~= charvecs_view(acc@).push(cur@));
    }
    acc.push(cur);
    acc
}

/// The lines of a text, as `str::lines` produces them.
pub fn lines_chars(v: &Vec<char>) -> (r: Vec<Vec<char>>)
    ensures
        charvecs_view(r@) == spec_lines(v@),
{
    let segs = split_chars(v, '\n');
    proof {
        lemma_split_len(v@, '\n');
    }
    let n = segs.len();
    let ghost gsegs = spec_split(v@, '\n');
    let ghost stripped = Seq::new(
        gsegs.len(),
        |i: int| if i < gsegs.len() - 1 { spec_strip_cr(gsegs[i]) } else { gsegs[i] },
    );
    let mut out: Vec<Vec<char>> = Vec::new();
    let mut i: usize = 0;
    while i < n - 1
        invariant
            n == gsegs.len(),
            n >= 1,
            charvecs_view(segs@) == gsegs,
            segs@.len() == n,
            i <= n - 1,
            stripped == Seq::new(
                gsegs.len(),
                |k: int| if k < gsegs.len() - 1 { spec_strip_cr(gsegs[k]) } else { gsegs[k] },
            ),
            charvecs_view(out@) == stripped.subrange(0, i as int),
        decreases n - 1 - i,
    {
        let mut c = clone_chars(&segs[i]);
        proof {
            assert(charvecs_view(segs@)[i as int] == segs@[i as int]@);
        }
        if c.len() > 0 && c[c.len() - 1] == '\r' {
            let _dropped = c.pop();
        }
        proof {
            assert(c@ == spec_strip_cr(gsegs[i as int]));
            assert(charvecs_view(out@.push(c)) =~= charvecs_view(out@).push(c@));
            assert(stripped.subrange(0, i + 1) =~= stripped.subrange(0, i as int).push(
                stripped[i as int],
            ));
        }
        out.push(c);
        i = i + 1;
    }
    let last = clone_chars(&segs[n - 1]);
    proof {
        assert(charvecs_view(segs@)[n - 1] == segs@[n - 1]@);
        assert(last@ == gsegs[n - 1]);
        assert(stripped.last() == gsegs[n - 1]);
    }
    if last.len() > 0 {
        proof {
            assert(charvecs_view(out@.push(last)) =~= charvecs_view(out@).push(last@));
            assert(stripped.subrange(0, n - 1).push(stripped[n - 1]) =~= stripped);
            assert(spec_lines(v@) == stripped);
        }
        out.push(last);
    } else {
        proof {
            assert(stripped.subrange(0, n - 1) =~= stripped.drop_last());
            assert(spec_lines(v@) == stripped.drop_last());
        }
    }
    out
}

/// Segments joined with a single `sep` between them.
pub fn join_chars(ss: &Vec<Vec<char>>, sep: char) -> (r: Vec<char>)
    ensures
        r@ == spec_join(charvecs_view(ss@), sep),
{
    let n = ss.len();
    if n == 0 {
        let r: Vec<char> = Vec::new();
        proof {
            assert(charvecs_view(ss@).len() == 0);
        }
        return r;
    }
    let mut r = clone_chars(&ss[0]);
    proof {
        assert(charvecs_view(ss@)[0] == ss@[0]@);
        assert(charvecs_view(ss@.subrange(0, 1)) =~= seq![ss@[0]@]);
        assert(spec_join(charvecs_view(ss@.subrange(0, 1)), sep) == ss@[0]@);
    }
    let mut i: usize = 1;
    while i < n
        invariant
            1 <= i <= n,
            n == ss@.len(),
            r@ == spec_join(charvecs_view(ss@.subrange(0, i as int)), sep),
        decreases n - i,
    {
        r.push(sep);
        push_all(&mut r, &ss[i]);
        proof {
            let prefix = charvecs_view(ss@.subrange(0, i as int));
            lemma_join_push(prefix, ss@[i as int]@, sep);
            assert(charvecs_view(ss@.subrange(0, i + 1)) =~= prefix.push(ss@[i as int]@));
            assert(r@ =~= spec_join(prefix, sep) + seq![sep] + ss@[i as int]@);
        }
        i = i + 1;
    }
    proof {
        assert(ss@.subrange(0, n as int) =~= ss@);
    }
    r
}

fn digit_char(d: u64) -> (c: char)
    requires
        d < 10,
    ensures
        c == spec_digit(d as int),
{
    if d == 0 { '0' }
    else if d == 1 { '1' }
    else if d == 2 { '2' }
    else if d == 3 { '3' }
    else if d == 4 { '4' }
    else if d == 5 { '5' }
    else if d == 6 { '6' }
    else if d == 7 { '7' }
    else if d == 8 { '8' }
    else { '9' }
}

/// Decimal digits of `n`, most significant first.
pub fn dec_u64(n: u64) -> (r: Vec<char>)
    ensures
        r@ == spec_dec(n as nat),
    decreases n,
{
    if n < 10 {
        let mut r: Vec<char> = Vec::new();
        r.push(digit_char(n));
        proof {
            assert(r@ =~= seq![spec_digit(n as int)]);
        }
        r
    } else {
        let mut r = dec_u64(n / 10);
        r.push(digit_char(n % 10));
        proof {
            assert(spec_dec((n as nat) / 10).push(spec_digit(((n as nat) % 10) as int))
                =~= spec_dec((n as nat) / 10) + seq![spec_digit(((n as nat) % 10) as int)]);
        }
        r
    }
}

pub fn dec_u32(n: u32) -> (r: Vec<char>)
    ensures
        r@ == spec_dec(n as nat),
{
    dec_u64(n as u64)
}

/// Decimal form of a signed number.
pub fn dec_i32(n: i32) -> (r: Vec<char>)
    ensures
        r@ == spec_dec_signed(n as int),
{
    if n >= 0 {
        dec_u64(n as u64)
    } else {
        let m: u64 = (-(n as i64)) as u64;
        let mut r: Vec<char> = Vec::new();
        r.push('-');
        let digits = dec_u64(m);
        push_all(&mut r, &digits);
        proof {
            assert(m as nat == (-(n as int)) as nat);
            assert(r@ =~= seq!['-'] + spec_dec((-(n as int)) as nat));
        }
        r
    }
}

/// Zero-padded to at least three characters.
pub fn pad3_chars(v: Vec<char>) -> (r: Vec<char>)
    ensures
        r@ == spec_pad3(v@),
{
    if v.len() >= 3 {
        v
    } else {
        let mut r: Vec<char> = Vec::new();
        r.push('0');
        if v.len() <= 1 {
            r.push('0');
        }
        if v.len() == 0 {
            r.push('0');
        }
        push_all(&mut r, &v);
        proof {
            if v@.len() == 2 {
                assert(r@ =~= seq!['0'] + v@);
            } else if v@.len() == 1 {
                assert(r@ =~= seq!['0', '0'] + v@);
            } else {
                assert(r@ =~= seq!['0', '0', '0']);
            }
        }
        r
    }
}

/// Lexicographic order is total.
pub proof fn lemma_lex_le_total(a: Seq<char>, b: Seq<char>)
    ensures
        spec_lex_le(a, b) || spec_lex_le(b, a),
    decreases a.len(),
{
    if a.len() == 0 || b.len() == 0 {
    } else if (a[0] as u32) == (b[0] as u32) {
        lemma_lex_le_total(a.drop_first(), b.drop_first());
    }
}

/// Lexicographic order is transitive.
pub proof fn lemma_lex_le_trans(a: Seq<char>, b: Seq<char>, c: Seq<char>)
    requires
        spec_lex_le(a, b),
        spec_lex_le(b, c),
    ensures
        spec_lex_le(a, c),
    decreases a.len(),
{
    if a.len() == 0 {
    } else {
        if b.len() == 0 {
        } else if c.len() == 0 {
        } else {
            if (a[0] as u32) == (b[0] as u32) && (b[0] as u32) == (c[0] as u32) {
                lemma_lex_le_trans(a.drop_first(), b.drop_first(), c.drop_first());
            }
        }
    }
}

/// Lexicographic comparison of two character vectors.
pub fn chars_lex_le(a: &Vec<char>, b: &Vec<char>) -> (r: bool)
    ensures
        r == spec_lex_le(a@, b@),
{
    let alen = a.len();
    let blen = b.len();
    proof {
        assert(a@.subrange(0, alen as int) =~= a@);
        assert(b@.subrange(0, blen as int) =~= b@);
    }
    let mut i: usize = 0;
    while i < alen && i < blen
        invariant
            i <= alen,
            i <= blen,
            alen == a@.len(),
            blen == b@.len(),
            spec_lex_le(a@, b@) == spec_lex_le(
                a@.subrange(i as int, alen as int),
                b@.subrange(i as int, blen as int),
            ),
        decreases alen - i,
    {
        let ca = a[i];
        let cb = b[i];
        proof {
            let sa = a@.subrange(i as int, alen as int);
            let sb = b@.subrange(i as int, blen as int);
            assert(sa[0] == ca && sb[0] == cb);
            if (ca as u32) == (cb as u32) {
                assert(sa.drop_first() =~= a@.subrange(i + 1, alen as int));
                assert(sb.drop_first() =~= b@.subrange(i + 1, blen as int));
            }
        }
        if (ca as u32) < (cb as u32) {
            return true;
        }
        if (ca as u32) > (cb as u32) {
            return false;
        }
        proof {
            assert((ca as u32) == (cb as u32));
        }
        i = i + 1;
    }
    proof {
        let sa = a@.subrange(i as int, alen as int);
        let sb = b@.subrange(i as int, blen as int);
        if i == alen {
            assert(sa.len() == 0);
        } else {
            assert(sb.len() == 0 && sa.len() > 0);
        }
    }
    i == alen
}

/// All segments in nondecreasing lexicographic order.
pub open spec fn spec_sorted(ss: Seq<Seq<char>>) -> bool {
    forall|i: int, j: int| 0 <= i < j < ss.len() ==> spec_lex_le(ss[i], ss[j])
}

fn lower_bound(out: &Vec<String>, schars: &Vec<char>) -> (j: usize)
    ensures
        j <= out@.len(),
        forall|i: int| 0 <= i < j ==> spec_lex_le(strings_view(out@)[i], schars@),
        j < out@.len() ==> !spec_lex_le(strings_view(out@)[j as int], schars@),
{
    let n = out.len();
    let mut j: usize = 0;
    while j < n
        invariant
            j <= n,
            n == out@.len(),
            forall|i: int| 0 <= i < j ==> spec_lex_le(strings_view(out@)[i], schars@),
        decreases n - j,
    {
        let ochars = to_chars(out[j].as_str());
        proof {
            assert(strings_view(out@)[j as int] == out@[j as int]@);
        }
        if !chars_lex_le(&ochars, &schars) {
            return j;
        }
        j = j + 1;
    }
    j
}

fn insert_sorted(out: &mut Vec<String>, s: String)
    requires
        spec_sorted(strings_view(old(out)@)),
    ensures
        spec_sorted(strings_view(final(out)@)),
        strings_view(final(out)@).to_multiset() == strings_view(old(out)@).to_multiset().insert(
            s@,
        ),
{
    let schars = to_chars(s.as_str());
    let j = lower_bound(out, &schars);
    proof {
        let ov = strings_view(out@);
        if j < out@.len() {
            lemma_lex_le_total(ov[j as int], s@);
        }
        assert(j < out@.len() ==> spec_lex_le(s@, ov[j as int]));
    }
    let ghost oldv = strings_view(out@);
    out.insert(j, s);
    proof {
        let newv = strings_view(out@);
        assert(newv =~= oldv.subrange(0, j as int) + seq![s@] + oldv.subrange(
            j as int,
            oldv.len() as int,
        ));
        assert forall|p: int, q: int| 0 <= p < q < newv.len() implies spec_lex_le(
            newv[p],
            newv[q],
        ) by {
            if q < j {
                assert(newv[p] == oldv[p] && newv[q] == oldv[q]);
            } else if p < j && q == j {
                assert(newv[p] == oldv[p] && newv[q] == s@);
            } else if p < j && q > j {
                assert(newv[p] == oldv[p] && newv[q] == oldv[q - 1]);
                assert(p < q - 1);
            } else if p == j && q > j {
                assert(newv[p] == s@ && newv[q] == oldv[q - 1]);
                assert(spec_lex_le(s@, oldv[j as int]));
                if q - 1 > j {
                    assert(spec_lex_le(oldv[j as int], oldv[q - 1]));
                    lemma_lex_le_trans(s@, oldv[j as int], oldv[q - 1]);
                }
            } else {
                assert(p > j && q > j);
                assert(newv[p] == oldv[p - 1] && newv[q] == oldv[q - 1]);
            }
        }
        vstd::seq_lib::to_multiset_insert(oldv, j as int, s@);
        assert(newv =~= oldv.insert(j as int, s@));
    }
}

/// The strings sorted lexicographically by character.
pub fn sort_strings(v: Vec<String>) -> (r: Vec<String>)
    ensures
        spec_sorted(strings_view(r@)),
        strings_view(r@).to_multiset() == strings_view(v@).to_multiset(),
{
    let mut rest = v;
    let mut out: Vec<String> = Vec::new();
    proof {
        assert(strings_view(out@) =~= Seq::<Seq<char>>::empty());
        strings_view(out@).to_multiset_ensures();
        assert(strings_view(out@).to_multiset() =~= Multiset::empty());
    }
    while rest.len() > 0
        invariant
            spec_sorted(strings_view(out@)),
            strings_view(out@).to_multiset().add(strings_view(rest@).to_multiset())
                == strings_view(v@).to_multiset(),
        decreases rest@.len(),
    {
        let ghost oldrest = strings_view(rest@);
        let s = rest.remove(0);
        proof {
            broadcast use vstd::multiset::group_multiset_axioms;

            assert(strings_view(rest@) =~= oldrest.remove(0));
            vstd::seq_lib::to_multiset_remove(oldrest, 0);
            oldrest.to_multiset_ensures();
            assert(oldrest.contains(s@));
            assert(oldrest.to_multiset().count(s@) > 0);
        }
        let ghost out_before = strings_view(out@);
        insert_sorted(&mut out, s);
        proof {
            broadcast use vstd::multiset::group_multiset_axioms;

            assert(strings_view(out@).to_multiset() == out_before.to_multiset().insert(s@));
            assert(strings_view(rest@).to_multiset() == oldrest.to_multiset().remove(s@));
            assert(strings_view(out@).to_multiset().add(strings_view(rest@).to_multiset())
                =~= strings_view(v@).to_multiset());
        }
    }
    proof {
        assert(strings_view(rest@) =~= Seq::<Seq<char>>::empty());
        strings_view(rest@).to_multiset_ensures();
        assert(strings_view(out@).to_multiset().add(Multiset::empty()) =~= strings_view(
            out@,
        ).to_multiset());
    }
    out
}

/// A copy of a list of strings.
pub fn clone_strings(v: &Vec<String>) -> (r: Vec<String>)
    ensures
        strings_view(r@) == strings_view(v@),
{
    let mut r: Vec<String> = Vec::new();
    let mut i: usize = 0;
    while i < v.len()
        invariant
            i <= v@.len(),
            strings_view(r@) == strings_view(v@).subrange(0, i as int),
        decreases v@.len() - i,
    {
        let chars = to_chars(v[i].as_str());
        let s = from_chars(&chars);
        proof {
            assert(strings_view(v@)[i as int] == v@[i as int]@);
            assert(strings_view(r@.push(s)) =~= strings_view(r@).push(s@));
            assert(strings_view(v@).subrange(0, i + 1) =~= strings_view(v@).subrange(
                0,
                i as int,
            ).push(strings_view(v@)[i as int]));
        }
        r.push(s);
        i = i + 1;
    }
    proof {
        assert(strings_view(v@).subrange(0, strings_view(v@).len() as int) =~= strings_view(v@));
    }
    r
}

/// The characters between two positions.
pub fn sub_chars(v: &Vec<char>, from: usize, to: usize) -> (r: Vec<char>)
    requires
        from <= to <= v@.len(),
    ensures
        r@ == v@.subrange(from as int, to as int),
{
    let mut r: Vec<char> = Vec::new();
    let mut i: usize = from;
    while i < to
        invariant
            from <= i <= to <= v@.len(),
            r@ == v@.subrange(from as int, i as int),
        decreases to - i,
    {
        r.push(v[i]);
        i = i + 1;
        proof {
            assert(v@.subrange(from as int, i as int) =~= v@.subrange(from as int, i - 1).push(
                v@[i - 1],
            ));
        }
    }
    r
}

/// The position of the first occurrence of `c`, or -1 when absent.
pub open spec fn spec_find_char(s: Seq<char>, c: char) -> int
    decreases s.len(),
{
    if s.len() == 0 {
        -1
    } else if s[0] == c {
        0
    } else {
        let r = spec_find_char(s.drop_first(), c);
        if r == -1 {
            -1
        } else {
            r + 1
        }
    }
}

pub proof fn lemma_find_char_bounds(s: Seq<char>, c: char)
    ensures
        spec_find_char(s, c) == -1 ==> forall|i: int| 0 <= i < s.len() ==> s[i] != c,
        spec_find_char(s, c) != -1 ==> {
            &&& 0 <= spec_find_char(s, c) < s.len()
            &&& s[spec_find_char(s, c)] == c
            &&& forall|i: int| 0 <= i < spec_find_char(s, c) ==> s[i] != c
        },
    decreases s.len(),
{
    if s.len() == 0 {
    } else if s[0] == c {
    } else {
        lemma_find_char_bounds(s.drop_first(), c);
        let r = spec_find_char(s.drop_first(), c);
        if r == -1 {
            assert(forall|i: int|
                1 <= i < s.len() ==> s[i] == s.drop_first()[i - 1] && s.drop_first()[i - 1] != c);
        } else {
            assert(s[r + 1] == s.drop_first()[r]);
            assert(forall|i: int|
                1 <= i < r + 1 ==> s[i] == s.drop_first()[i - 1] && s.drop_first()[i - 1] != c);
        }
    }
}

/// The position of the first occurrence of `c`, if any.
pub fn find_char(v: &Vec<char>, c: char) -> (r: Option<usize>)
    ensures
        match r {
            Some(i) => i == spec_find_char(v@, c),
            None => spec_find_char(v@, c) == -1,
        },
{
    let n = v.len();
    proof {
        assert(v@.subrange(0, n as int) =~= v@);
    }
    let mut i: usize = 0;
    while i < n
        invariant
            i <= n,
            n == v@.len(),
            spec_find_char(v@, c) == (if spec_find_char(v@.subrange(i as int, n as int), c) == -1 {
                -1
            } else {
                i + spec_find_char(v@.subrange(i as int, n as int), c)
            }),
        decreases n - i,
    {
        if v[i] == c {
            proof {
                let sub = v@.subrange(i as int, n as int);
                assert(sub[0] == v@[i as int]);
                assert(spec_find_char(sub, c) == 0);
            }
            return Some(i);
        }
        proof {
            let sub = v@.subrange(i as int, n as int);
            let sub2 = v@.subrange(i + 1, n as int);
            assert(sub[0] == v@[i as int]);
            assert(sub.drop_first() =~= sub2);
            lemma_find_char_bounds(sub2, c);
            assert(spec_find_char(sub, c) == (if spec_find_char(sub2, c) == -1 {
                -1int
            } else {
                spec_find_char(sub2, c) + 1
            }));
            assert(spec_find_char(v@, c) == (if spec_find_char(sub2, c) == -1 {
                -1int
            } else {
                (i + 1) + spec_find_char(sub2, c)
            }));
        }
        i = i + 1;
    }
    proof {
        assert(v@.subrange(n as int, n as int).len() == 0);
    }
    None
}

/// Every character is a decimal digit.
pub open spec fn spec_all_digits(s: Seq<char>) -> bool {
    forall|i: int| 0 <= i < s.len() ==> 48 <= (#[trigger] s[i] as u32) <= 57
}

/// The numeric value of a digit string, most significant first.
pub open spec fn spec_digits_val(s: Seq<char>) -> int
    decreases s.len(),
{
    if s.len() == 0 {
        0
    } else {
        spec_digits_val(s.drop_last()) * 10 + ((s.last() as u32) - 48)
    }
}

proof fn lemma_digits_val_nonneg(s: Seq<char>)
    requires
        spec_all_digits(s),
    ensures
        spec_digits_val(s) >= 0,
    decreases s.len(),
{
    if s.len() > 0 {
        assert(spec_all_digits(s.drop_last()));
        lemma_digits_val_nonneg(s.drop_last());
    }
}

proof fn lemma_digits_val_prefix(s: Seq<char>, i: int)
    requires
        spec_all_digits(s),
        0 <= i <= s.len(),
    ensures
        spec_digits_val(s.subrange(0, i)) <= spec_digits_val(s),
    decreases s.len() - i,
{
    if i == s.len() {
        assert(s.subrange(0, i) =~= s);
    } else {
        lemma_digits_val_prefix(s, i + 1);
        let longer = s.subrange(0, i + 1);
        assert(longer.drop_last() =~= s.subrange(0, i));
        assert(spec_all_digits(s.subrange(0, i)));
        lemma_digits_val_nonneg(s.subrange(0, i));
        assert(spec_digits_val(longer) == spec_digits_val(s.subrange(0, i)) * 10 + ((longer.last()
            as u32) - 48));
    }
}

/// Parsing a decimal number: defined exactly when the text is non-empty,
/// all digits, and the value fits.
pub open spec fn spec_parse_u32(s: Seq<char>) -> Option<u32> {
    if s.len() == 0 || !spec_all_digits(s) || spec_digits_val(s) > u32::MAX {
        None
    } else {
        Some(spec_digits_val(s) as u32)
    }
}

fn digit_of(c: char) -> (r: Option<u64>)
    ensures
        match r {
            Some(d) => 48 <= (c as u32) <= 57 && d == (c as u32) - 48,
            None => !(48 <= (c as u32) <= 57),
        },
{
    let v = c as u32;
    if v >= 48 && v <= 57 {
        Some((v - 48) as u64)
    } else {
        None
    }
}

/// Parse a decimal number from digit characters.
pub fn parse_u32_chars(v: &Vec<char>) -> (r: Option<u32>)
    ensures
        r == spec_parse_u32(v@),
{
    let n = v.len();
    if n == 0 {
        return None;
    }
    let mut val: u64 = 0;
    let mut i: usize = 0;
    while i < n
        invariant
            i <= n,
            n == v@.len(),
            n > 0,
            spec_all_digits(v@.subrange(0, i as int)),
            val == spec_digits_val(v@.subrange(0, i as int)),
            val <= u32::MAX,
        decreases n - i,
    {
        let d = match digit_of(v[i]) {
            Some(d) => d,
            None => {
                proof {
                    assert(!spec_all_digits(v@));
                }
                return None;
            },
        };
        let newval: u64 = val * 10 + d;
        proof {
            assert(v@.subrange(0, i + 1).drop_last() =~= v@.subrange(0, i as int));
            assert(v@.subrange(0, i + 1).last() == v@[i as int]);
            assert(spec_all_digits(v@.subrange(0, i + 1)));
            assert(newval == spec_digits_val(v@.subrange(0, i + 1)));
        }
        if newval > 0xffff_ffff {
            proof {
                if spec_all_digits(v@) {
                    lemma_digits_val_prefix(v@, i + 1);
                    assert(spec_digits_val(v@) > u32::MAX);
                }
            }
            return None;
        }
        val = newval;
        i = i + 1;
    }
    proof {
        assert(v@.subrange(0, n as int) =~= v@);
    }
    Some(val as u32)
}

/// Segments joined with a separator text between them.
pub open spec fn spec_join_sep(ss: Seq<Seq<char>>, sep: Seq<char>) -> Seq<char>
    decreases ss.len(),
{
    if ss.len() == 0 {
        seq![]
    } else if ss.len() == 1 {
        ss[0]
    } else {
        ss[0] + sep + spec_join_sep(ss.drop_first(), sep)
    }
}

proof fn lemma_join_sep_push(ss: Seq<Seq<char>>, x: Seq<char>, sep: Seq<char>)
    requires
        ss.len() >= 1,
    ensures
        spec_join_sep(ss.push(x), sep) == spec_join_sep(ss, sep) + sep + x,
    decreases ss.len(),
{
    if ss.len() == 1 {
        let p = ss.push(x);
        assert(p.len() == 2);
        assert(p.drop_first() =~= seq![x]);
        assert(spec_join_sep(p.drop_first(), sep) == x);
        assert(p[0] == ss[0]);
    } else {
        lemma_join_sep_push(ss.drop_first(), x, sep);
        let p = ss.push(x);
        assert(p.drop_first() =~= ss.drop_first().push(x));
        assert(p[0] == ss[0]);
        assert(spec_join_sep(p, sep) == ss[0] + sep + spec_join_sep(ss.drop_first().push(x), sep));
        assert(spec_join_sep(ss.drop_first().push(x), sep) == spec_join_sep(ss.drop_first(), sep)
            + sep + x);
        assert(ss[0] + sep + (spec_join_sep(ss.drop_first(), sep) + sep + x) =~= (ss[0] + sep
            + spec_join_sep(ss.drop_first(), sep)) + sep + x);
    }
}

/// Strings joined with a separator text between them.
pub fn join_strings(ss: &Vec<String>, sep: &str) -> (r: String)
    ensures
        r@ == spec_join_sep(strings_view(ss@), sep@),
{
    let n = ss.len();
    if n == 0 {
        return String::new();
    }
    let first_chars = to_chars(ss[0].as_str());
    let mut r = from_chars(&first_chars);
    proof {
        assert(strings_view(ss@)[0] == ss@[0]@);
        assert(strings_view(ss@.subrange(0, 1)) =~= seq![ss@[0]@]);
        assert(spec_join_sep(strings_view(ss@.subrange(0, 1)), sep@) == ss@[0]@);
    }
    let mut i: usize = 1;
    while i < n
        invariant
            1 <= i <= n,
            n == ss@.len(),
            r@ == spec_join_sep(strings_view(ss@.subrange(0, i as int)), sep@),
        decreases n - i,
    {
        r.append(sep);
        r.append(ss[i].as_str());
        proof {
            let prefix = strings_view(ss@.subrange(0, i as int));
            lemma_join_sep_push(prefix, ss@[i as int]@, sep@);
            assert(strings_view(ss@.subrange(0, i + 1)) =~= prefix.push(ss@[i as int]@));
            assert(strings_view(ss@)[i as int] == ss@[i as int]@);
            assert(r@ =~= spec_join_sep(prefix, sep@) + sep@ + ss@[i as int]@);
        }
        i = i + 1;
    }
    proof {
        assert(ss@.subrange(0, n as int) =~= ss@);
    }
    r
}

/// An occurrence in the right part survives concatenation.
pub proof fn lemma_contains_right(a: Seq<char>, b: Seq<char>, p: Seq<char>)
    requires
        spec_contains(b, p),
    ensures
        spec_contains(a + b, p),
{
    let i = choose|i: int| spec_contains_at(b, i, p);
    assert((a + b).subrange(a.len() + i, a.len() + i + p.len()) =~= b.subrange(i, i + p.len()));
    assert(spec_contains_at(a + b, a.len() + i, p));
}

/// An occurrence in the left part survives concatenation.
pub proof fn lemma_contains_left(a: Seq<char>, b: Seq<char>, p: Seq<char>)
    requires
        spec_contains(a, p),
    ensures
        spec_contains(a + b, p),
{
    let i = choose|i: int| spec_contains_at(a, i, p);
    assert((a + b).subrange(i, i + p.len()) =~= a.subrange(i, i + p.len()));
    assert(spec_contains_at(a + b, i, p));
}

/// Trimming is the identity when neither end is whitespace.
pub proof fn lemma_trim_id(s: Seq<char>)
    requires
        s.len() == 0 || (!is_space(s[0]) && !is_space(s.last())),
    ensures
        spec_trim(s) == s,
{
}

} // verus!

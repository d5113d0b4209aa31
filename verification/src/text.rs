//! Byte-level text utilities: substring search, ASCII case folding and
//! decimal rendering over UTF-8 byte sequences.

use vstd::prelude::*;

verus! {

/// The pattern `pat` occurs in `s` starting at position `i`.
pub open spec fn matches_at(s: Seq<u8>, pat: Seq<u8>, i: int) -> bool {
    0 <= i && i + pat.len() <= s.len() && s.subrange(i, i + pat.len() as int) == pat
}

/// The pattern `pat` occurs somewhere in `s` (every sequence contains the
/// empty pattern).
pub open spec fn contains_seq(s: Seq<u8>, pat: Seq<u8>) -> bool {
    exists|i: int| matches_at(s, pat, i)
}

/// Whether `pat` occurs at position `i` of `hay`, byte for byte.
fn matches_at_exec(hay: &[u8], pat: &[u8], i: usize) -> (r: bool)
    requires
        i + pat@.len() <= hay@.len(),
    ensures
        r == matches_at(hay@, pat@, i as int),
{
    let n: usize = hay.len();
    let mut j: usize = 0;
    while j < pat.len()
        invariant
            n == hay@.len(),
            i + pat@.len() <= hay@.len(),
            j <= pat@.len(),
            forall|k: int| 0 <= k < j ==> hay@[i + k] == pat@[k],
        decreases pat@.len() - j,
    {
        if hay[i + j] != pat[j] {
            assert(hay@.subrange(i as int, i + pat@.len() as int)[j as int] != pat@[j as int]);
            return false;
        }
        j = j + 1;
    }
    assert(hay@.subrange(i as int, i + pat@.len() as int) =~= pat@);
    true
}

/// Naive substring search over byte sequences.
pub fn contains_bytes(hay: &[u8], pat: &[u8]) -> (r: bool)
    ensures
        r == contains_seq(hay@, pat@),
{
    if pat.len() > hay.len() {
        assert(forall|i: int| !matches_at(hay@, pat@, i));
        return false;
    }
    if pat.len() == 0 {
        assert(matches_at(hay@, pat@, 0)) by {
            assert(hay@.subrange(0, 0) =~= pat@);
        }
        return true;
    }
    let end: usize = hay.len() - pat.len();
    let mut i: usize = 0;
    while i <= end
        invariant
            0 < pat@.len() <= hay@.len(),
            end == hay@.len() - pat@.len(),
            end < usize::MAX,
            i <= end + 1,
            forall|k: int| 0 <= k < i ==> !matches_at(hay@, pat@, k),
        decreases end + 1 - i,
    {
        if matches_at_exec(hay, pat, i) {
            return true;
        }
        i = i + 1;
    }
    assert(forall|k: int| !matches_at(hay@, pat@, k));
    false
}

/// ASCII lowercase of a single byte; bytes outside `A..=Z` are unchanged, so
/// UTF-8 continuation and leading bytes are never touched.
pub open spec fn lower_byte(b: u8) -> u8 {
    if 65 <= b <= 90 {
        (b + 32) as u8
    } else {
        b
    }
}

/// Byte-wise ASCII lowercase of a sequence.
pub open spec fn lower_seq(s: Seq<u8>) -> Seq<u8> {
    s.map_values(|b: u8| lower_byte(b))
}

/// ASCII-lowercases a byte string in one pass.
pub fn to_lower_bytes(s: &[u8]) -> (r: Vec<u8>)
    ensures
        r@ == lower_seq(s@),
{
    let mut r: Vec<u8> = Vec::new();
    let mut i: usize = 0;
    while i < s.len()
        invariant
            i <= s@.len(),
            r@ =~= lower_seq(s@).take(i as int),
        decreases s@.len() - i,
    {
        let b = s[i];
        if 65 <= b && b <= 90 {
            r.push(b + 32);
        } else {
            r.push(b);
        }
        assert(r@ =~= lower_seq(s@).take(i + 1));
        i = i + 1;
    }
    assert(lower_seq(s@).take(s@.len() as int) =~= lower_seq(s@));
    r
}

/// Byte-for-byte equality of two byte strings.
pub fn bytes_eq(a: &[u8], b: &[u8]) -> (r: bool)
    ensures
        r == (a@ == b@),
{
    if a.len() != b.len() {
        assert(a@ != b@) by {
            assert(a@.len() != b@.len());
        }
        return false;
    }
    let mut i: usize = 0;
    while i < a.len()
        invariant
            a@.len() == b@.len(),
            i <= a@.len(),
            forall|k: int| 0 <= k < i ==> a@[k] == b@[k],
        decreases a@.len() - i,
    {
        if a[i] != b[i] {
            return false;
        }
        i = i + 1;
    }
    assert(a@ =~= b@);
    true
}

/// ASCII whitespace.
pub open spec fn is_ws(b: u8) -> bool {
    b == 32 || b == 9 || b == 10 || b == 13
}

/// First index at or after `i` holding a non-whitespace byte, or the length.
pub open spec fn trim_start_idx(s: Seq<u8>, i: int) -> int
    decreases s.len() - i,
{
    if 0 <= i < s.len() && is_ws(s[i]) {
        trim_start_idx(s, i + 1)
    } else {
        i
    }
}

/// Last index at or before `j` such that everything from it on is
/// whitespace.
pub open spec fn trim_end_idx(s: Seq<u8>, j: int) -> int
    decreases j,
{
    if 0 < j <= s.len() && is_ws(s[j - 1]) {
        trim_end_idx(s, j - 1)
    } else {
        j
    }
}

/// `s` with leading and trailing ASCII whitespace removed.
pub open spec fn trim_seq(s: Seq<u8>) -> Seq<u8> {
    let a = trim_start_idx(s, 0);
    if a == s.len() {
        Seq::empty()
    } else {
        s.subrange(a, trim_end_idx(s, s.len() as int))
    }
}

proof fn lemma_trim_start_bounds(s: Seq<u8>, i: int)
    requires
        0 <= i <= s.len(),
    ensures
        i <= trim_start_idx(s, i) <= s.len(),
        forall|k: int| i <= k < trim_start_idx(s, i) ==> is_ws(s[k]),
        trim_start_idx(s, i) < s.len() ==> !is_ws(s[trim_start_idx(s, i)]),
    decreases s.len() - i,
{
    if i < s.len() && is_ws(s[i]) {
        lemma_trim_start_bounds(s, i + 1);
    }
}

proof fn lemma_trim_end_bounds(s: Seq<u8>, j: int, a: int)
    requires
        0 <= a < j <= s.len(),
        !is_ws(s[a]),
    ensures
        a < trim_end_idx(s, j) <= j,
        trim_end_idx(s, j) > 0 ==> !is_ws(s[trim_end_idx(s, j) - 1]),
    decreases j,
{
    if 0 < j <= s.len() && is_ws(s[j - 1]) {
        lemma_trim_end_bounds(s, j - 1, a);
    }
}

/// Copies `s` without its leading and trailing ASCII whitespace.
pub fn trim_bytes(s: &[u8]) -> (r: Vec<u8>)
    ensures
        r@ == trim_seq(s@),
{
    proof {
        lemma_trim_start_bounds(s@, 0);
    }
    let mut a: usize = 0;
    loop
        invariant
            0 <= a <= s@.len(),
            trim_start_idx(s@, 0) == trim_start_idx(s@, a as int),
        ensures
            0 <= a <= s@.len(),
            a as int == trim_start_idx(s@, 0),
        decreases s@.len() - a,
    {
        if a >= s.len() {
            break ;
        }
        let b = s[a];
        if !(b == 32 || b == 9 || b == 10 || b == 13) {
            break ;
        }
        a = a + 1;
    }
    if a == s.len() {
        let r: Vec<u8> = Vec::new();
        assert(r@ =~= trim_seq(s@));
        return r;
    }
    proof {
        lemma_trim_end_bounds(s@, s@.len() as int, a as int);
    }
    let mut j: usize = s.len();
    loop
        invariant
            0 <= j <= s@.len(),
            a < s@.len(),
            !is_ws(s@[a as int]),
            trim_end_idx(s@, s@.len() as int) == trim_end_idx(s@, j as int),
            a < trim_end_idx(s@, j as int) <= j,
        ensures
            a < j <= s@.len(),
            j as int == trim_end_idx(s@, s@.len() as int),
        decreases j,
    {
        if j == 0 {
            break ;
        }
        let b = s[j - 1];
        if !(b == 32 || b == 9 || b == 10 || b == 13) {
            break ;
        }
        proof {
            assert(a != j - 1);
            lemma_trim_end_bounds(s@, j - 1, a as int);
        }
        j = j - 1;
    }
    let mut r: Vec<u8> = Vec::new();
    let mut i: usize = a;
    while i < j
        invariant
            a <= i <= j <= s@.len(),
            r@ =~= s@.subrange(a as int, i as int),
        decreases j - i,
    {
        r.push(s[i]);
        assert(r@ =~= s@.subrange(a as int, i + 1));
        i = i + 1;
    }
    assert(r@ =~= trim_seq(s@));
    r
}

/// A UTF-8 continuation byte.
pub open spec fn is_cont_byte(b: u8) -> bool {
    128 <= b <= 191
}

/// The byte index where the prefix of `n` characters ends: scanning from
/// `i` with `seen` character starts already counted, the position of the
/// next character start once `n` have been seen, or the end of the text.
pub open spec fn char_prefix_end(s: Seq<u8>, i: int, seen: int, n: int) -> int
    decreases s.len() - i,
{
    if i < 0 || i >= s.len() {
        s.len() as int
    } else if !is_cont_byte(s[i]) && seen == n {
        i
    } else if !is_cont_byte(s[i]) {
        char_prefix_end(s, i + 1, seen + 1, n)
    } else {
        char_prefix_end(s, i + 1, seen, n)
    }
}

/// The prefix of `s` holding its first `n` characters (all of `s` when it
/// is shorter).
pub open spec fn char_prefix_seq(s: Seq<u8>, n: int) -> Seq<u8> {
    s.take(char_prefix_end(s, 0, 0, n))
}

proof fn lemma_char_prefix_end_bounds(s: Seq<u8>, i: int, seen: int, n: int)
    requires
        0 <= i <= s.len(),
    ensures
        i <= char_prefix_end(s, i, seen, n) <= s.len(),
    decreases s.len() - i,
{
    if i < s.len() {
        if !is_cont_byte(s[i]) && seen == n {
        } else if !is_cont_byte(s[i]) {
            lemma_char_prefix_end_bounds(s, i + 1, seen + 1, n);
        } else {
            lemma_char_prefix_end_bounds(s, i + 1, seen, n);
        }
    }
}

/// Copies the prefix of `s` holding its first `n` characters.
pub fn char_prefix(s: &[u8], n: usize) -> (r: Vec<u8>)
    ensures
        r@ == char_prefix_seq(s@, n as int),
{
    let mut i: usize = 0;
    let mut seen: usize = 0;
    loop
        invariant
            0 <= i <= s@.len(),
            seen <= i,
            char_prefix_end(s@, 0, 0, n as int) == char_prefix_end(s@, i as int, seen as int, n as int),
        ensures
            0 <= i <= s@.len(),
            i as int == char_prefix_end(s@, 0, 0, n as int),
        decreases s@.len() - i,
    {
        proof {
            lemma_char_prefix_end_bounds(s@, i as int, seen as int, n as int);
        }
        if i >= s.len() {
            break ;
        }
        let b = s[i];
        let cont = 128 <= b && b <= 191;
        if !cont && seen == n {
            break ;
        }
        if !cont {
            seen = seen + 1;
        }
        i = i + 1;
    }
    let mut r: Vec<u8> = Vec::new();
    let mut k: usize = 0;
    while k < i
        invariant
            k <= i <= s@.len(),
            r@ =~= s@.take(k as int),
        decreases i - k,
    {
        r.push(s[k]);
        assert(r@ =~= s@.take(k + 1));
        k = k + 1;
    }
    r
}

/// The views of a sequence of byte vectors.
pub open spec fn views2(v: Seq<Vec<u8>>) -> Seq<Seq<u8>> {
    Seq::new(v.len(), |i: int| v[i]@)
}

/// Length of the list-item separator starting at `i`: 1 for an ASCII comma
/// or semicolon, 3 for their ideographic counterparts, 0 otherwise.
pub open spec fn sep_len_at(s: Seq<u8>, i: int) -> int {
    if 0 <= i < s.len() && (s[i] == 44 || s[i] == 59) {
        1
    } else if 0 <= i && i + 3 <= s.len() && ((s[i] == 227 && s[i + 1] == 128 && s[i + 2] == 129)
        || (s[i] == 239 && s[i + 1] == 188 && s[i + 2] == 155)) {
        3
    } else {
        0
    }
}

/// Splits `s` from position `i` at every separator, `cur` being the segment
/// accumulated so far.
pub open spec fn split_from(s: Seq<u8>, i: int, cur: Seq<u8>) -> Seq<Seq<u8>>
    decreases s.len() - i,
{
    if i < 0 || i >= s.len() {
        seq![cur]
    } else if sep_len_at(s, i) == 1 {
        seq![cur] + split_from(s, i + 1, Seq::empty())
    } else if sep_len_at(s, i) == 3 {
        seq![cur] + split_from(s, i + 3, Seq::empty())
    } else {
        split_from(s, i + 1, cur.push(s[i]))
    }
}

/// Trims every segment and drops the empty ones, keeping order.
pub open spec fn clean_parts(parts: Seq<Seq<u8>>) -> Seq<Seq<u8>>
    decreases parts.len(),
{
    if parts.len() == 0 {
        Seq::empty()
    } else {
        let rest = clean_parts(parts.drop_last());
        if trim_seq(parts.last()).len() > 0 {
            rest.push(trim_seq(parts.last()))
        } else {
            rest
        }
    }
}

/// The non-empty, whitespace-trimmed list items of `s`, split at commas and
/// semicolons, ASCII or ideographic.
pub open spec fn split_clean_seq(s: Seq<u8>) -> Seq<Seq<u8>> {
    clean_parts(split_from(s, 0, Seq::empty()))
}

/// Splits `s` at list-item separators, trims each item and drops empties.
pub fn split_clean(s: &[u8]) -> (r: Vec<Vec<u8>>)
    ensures
        views2(r@) == split_clean_seq(s@),
{
    let ghost whole: Seq<Seq<u8>> = split_from(s@, 0, Seq::empty());
    let mut parts: Vec<Vec<u8>> = Vec::new();
    let mut cur: Vec<u8> = Vec::new();
    let mut i: usize = 0;
    loop
        invariant_except_break
            views2(parts@) + split_from(s@, i as int, cur@) =~= whole,
        invariant
            0 <= i <= s@.len(),
            whole == split_from(s@, 0, Seq::empty()),
        ensures
            views2(parts@) =~= whole,
        decreases s@.len() - i,
    {
        if i >= s.len() {
            assert(split_from(s@, i as int, cur@) =~= seq![cur@]);
            let ghost old_parts = parts@;
            parts.push(cur);
            assert(views2(parts@) =~= views2(old_parts).push(cur@));
            break ;
        }
        let b = s[i];
        if b == 44 || b == 59 {
            let ghost old_parts = parts@;
            let ghost old_cur = cur@;
            parts.push(cur);
            cur = Vec::new();
            assert(views2(parts@) =~= views2(old_parts).push(old_cur));
            i = i + 1;
        } else if s.len() - i >= 3 && ((b == 227 && s[i + 1] == 128 && s[i + 2] == 129) || (b
            == 239 && s[i + 1] == 188 && s[i + 2] == 155)) {
            let ghost old_parts = parts@;
            let ghost old_cur = cur@;
            parts.push(cur);
            cur = Vec::new();
            assert(views2(parts@) =~= views2(old_parts).push(old_cur));
            i = i + 3;
        } else {
            assert(sep_len_at(s@, i as int) == 0);
            cur.push(b);
            i = i + 1;
        }
    }
    let mut r: Vec<Vec<u8>> = Vec::new();
    let mut k: usize = 0;
    while k < parts.len()
        invariant
            0 <= k <= parts@.len(),
            views2(parts@) =~= whole,
            views2(r@) =~= clean_parts(views2(parts@).take(k as int)),
        decreases parts@.len() - k,
    {
        let t = trim_bytes(parts[k].as_slice());
        assert(views2(parts@).take(k + 1).drop_last() =~= views2(parts@).take(k as int));
        assert(views2(parts@).take(k + 1).last() == parts@[k as int]@);
        if t.len() > 0 {
            let ghost old_r = r@;
            r.push(t);
            assert(views2(r@) =~= views2(old_r).push(trim_seq(parts@[k as int]@)));
        }
        k = k + 1;
    }
    assert(views2(parts@).take(parts@.len() as int) =~= views2(parts@));
    assert(views2(r@) =~= split_clean_seq(s@));
    r
}

/// Decimal digit sequence of a natural number, most significant digit first.
pub open spec fn dec_seq(n: nat) -> Seq<u8>
    decreases n,
{
    if n < 10 {
        seq![(48 + n) as u8]
    } else {
        dec_seq(n / 10) + seq![(48 + n % 10) as u8]
    }
}

/// Renders a number in decimal as ASCII bytes.
pub fn dec_bytes(n: u64) -> (r: Vec<u8>)
    ensures
        r@ == dec_seq(n as nat),
    decreases n,
{
    if n < 10 {
        let mut r: Vec<u8> = Vec::new();
        r.push(48 + (n as u8));
        assert(r@ =~= dec_seq(n as nat));
        r
    } else {
        let mut r = dec_bytes(n / 10);
        r.push(48 + ((n % 10) as u8));
        assert(r@ =~= dec_seq(n as nat));
        r
    }
}

/// Splits `s` from position `i` at every ASCII whitespace byte, `cur`
/// being the segment accumulated so far.
pub open spec fn ws_split_from(s: Seq<u8>, i: int, cur: Seq<u8>) -> Seq<Seq<u8>>
    decreases s.len() - i,
{
    if i < 0 || i >= s.len() {
        seq![cur]
    } else if is_ws(s[i]) {
        seq![cur] + ws_split_from(s, i + 1, Seq::empty())
    } else {
        ws_split_from(s, i + 1, cur.push(s[i]))
    }
}

/// Drops the empty segments, keeping order.
pub open spec fn nonempty_parts(parts: Seq<Seq<u8>>) -> Seq<Seq<u8>>
    decreases parts.len(),
{
    if parts.len() == 0 {
        Seq::empty()
    } else {
        let rest = nonempty_parts(parts.drop_last());
        if parts.last().len() > 0 {
            rest.push(parts.last())
        } else {
            rest
        }
    }
}

/// The whitespace-separated words of `s`.
pub open spec fn words_of(s: Seq<u8>) -> Seq<Seq<u8>> {
    nonempty_parts(ws_split_from(s, 0, Seq::empty()))
}

/// Splits `s` into its whitespace-separated words.
pub fn split_words(s: &[u8]) -> (r: Vec<Vec<u8>>)
    ensures
        views2(r@) == words_of(s@),
{
    let ghost whole: Seq<Seq<u8>> = ws_split_from(s@, 0, Seq::empty());
    let mut parts: Vec<Vec<u8>> = Vec::new();
    let mut cur: Vec<u8> = Vec::new();
    let mut i: usize = 0;
    loop
        invariant_except_break
            views2(parts@) + ws_split_from(s@, i as int, cur@) =~= whole,
        invariant
            0 <= i <= s@.len(),
            whole == ws_split_from(s@, 0, Seq::empty()),
        ensures
            views2(parts@) =~= whole,
        decreases s@.len() - i,
    {
        if i >= s.len() {
            assert(ws_split_from(s@, i as int, cur@) =~= seq![cur@]);
            let ghost old_parts = parts@;
            parts.push(cur);
            assert(views2(parts@) =~= views2(old_parts).push(cur@));
            break ;
        }
        let b = s[i];
        if b == 32 || b == 9 || b == 10 || b == 13 {
            let ghost old_parts = parts@;
            let ghost old_cur = cur@;
            parts.push(cur);
            cur = Vec::new();
            assert(views2(parts@) =~= views2(old_parts).push(old_cur));
            i = i + 1;
        } else {
            cur.push(b);
            i = i + 1;
        }
    }
    let mut r: Vec<Vec<u8>> = Vec::new();
    let mut k: usize = 0;
    while k < parts.len()
        invariant
            0 <= k <= parts@.len(),
            views2(parts@) =~= whole,
            views2(r@) =~= nonempty_parts(views2(parts@).take(k as int)),
        decreases parts@.len() - k,
    {
        assert(views2(parts@).take(k + 1).drop_last() =~= views2(parts@).take(k as int));
        assert(views2(parts@).take(k + 1).last() == parts@[k as int]@);
        if parts[k].len() > 0 {
            let ghost old_r = r@;
            let item = parts[k].clone();
            r.push(item);
            assert(views2(r@) =~= views2(old_r).push(parts@[k as int]@));
        }
        k = k + 1;
    }
    assert(views2(parts@).take(parts@.len() as int) =~= views2(parts@));
    assert(views2(r@) =~= words_of(s@));
    r
}

/// The parts joined with the given separator.
pub open spec fn join_sep(parts: Seq<Seq<u8>>, sep: Seq<u8>) -> Seq<u8>
    decreases parts.len(),
{
    if parts.len() == 0 {
        Seq::empty()
    } else if parts.len() == 1 {
        parts[0]
    } else {
        join_sep(parts.drop_last(), sep) + sep + parts.last()
    }
}

/// Joins byte strings with a separator.
pub fn join_bytes(parts: &Vec<Vec<u8>>, sep: &[u8]) -> (r: Vec<u8>)
    ensures
        r@ == join_sep(views2(parts@), sep@),
{
    let ghost w = views2(parts@);
    if parts.len() == 0 {
        let r: Vec<u8> = Vec::new();
        assert(r@ =~= join_sep(w, sep@));
        return r;
    }
    let mut r: Vec<u8> = parts[0].clone();
    assert(r@ =~= join_sep(w.take(1), sep@));
    let mut k: usize = 1;
    while k < parts.len()
        invariant
            1 <= k <= w.len(),
            w == views2(parts@),
            r@ =~= join_sep(w.take(k as int), sep@),
        decreases w.len() - k,
    {
        r.extend_from_slice(sep);
        r.extend_from_slice(parts[k].as_slice());
        assert(w.take(k + 1).drop_last() =~= w.take(k as int));
        assert(w.take(k + 1).last() == w[k as int]);
        assert(r@ =~= join_sep(w.take(k + 1), sep@));
        k = k + 1;
    }
    assert(w.take(w.len() as int) =~= w);
    r
}

/// The words joined with single ASCII spaces.
pub open spec fn join_sp(parts: Seq<Seq<u8>>) -> Seq<u8>
    decreases parts.len(),
{
    if parts.len() == 0 {
        Seq::empty()
    } else if parts.len() == 1 {
        parts[0]
    } else {
        join_sp(parts.drop_last()) + seq![32u8] + parts.last()
    }
}

/// The text matches at least one keyword of the list.
pub open spec fn matches_any(content: Seq<u8>, kws: Seq<Seq<u8>>) -> bool {
    exists|i: int| 0 <= i < kws.len() && contains_seq(content, kws[i])
}

/// Tests every keyword of the list against the text.
pub fn matches_any_exec(content: &[u8], kws: &Vec<Vec<u8>>) -> (r: bool)
    ensures
        r == matches_any(content@, views2(kws@)),
{
    let mut i: usize = 0;
    while i < kws.len()
        invariant
            i <= kws@.len(),
            forall|k: int| 0 <= k < i ==> !contains_seq(content@, views2(kws@)[k]),
        decreases kws@.len() - i,
    {
        if contains_bytes(content, kws[i].as_slice()) {
            assert(contains_seq(content@, views2(kws@)[i as int]));
            return true;
        }
        i = i + 1;
    }
    false
}


/// Concatenation keeps every occurrence: a pattern contained in either
/// part is contained in the whole.
pub proof fn lemma_contains_concat(a: Seq<u8>, b: Seq<u8>, pat: Seq<u8>)
    ensures
        contains_seq(a, pat) ==> contains_seq(a + b, pat),
        contains_seq(b, pat) ==> contains_seq(a + b, pat),
{
    if contains_seq(a, pat) {
        let i = choose|i: int| matches_at(a, pat, i);
        assert((a + b).subrange(i, i + pat.len() as int) =~= a.subrange(i, i + pat.len() as int));
        assert(matches_at(a + b, pat, i));
    }
    if contains_seq(b, pat) {
        let i = choose|i: int| matches_at(b, pat, i);
        assert((a + b).subrange(a.len() + i, a.len() + i + pat.len() as int) =~= b.subrange(
            i,
            i + pat.len() as int,
        ));
        assert(matches_at(a + b, pat, a.len() + i));
    }
}

/// Appends a fragment; whatever the text already contains, it still
/// contains.
pub fn push_text(s: &mut Vec<u8>, frag: &[u8])
    ensures
        final(s)@ == old(s)@ + frag@,
        forall|pat: Seq<u8>|
            #![trigger contains_seq(old(s)@, pat)]
            contains_seq(old(s)@, pat) ==> contains_seq(final(s)@, pat),
{
    let ghost before = s@;
    s.extend_from_slice(frag);
    proof {
        assert(s@ =~= before + frag@);
        assert forall|pat: Seq<u8>| contains_seq(before, pat) implies contains_seq(s@, pat) by {
            lemma_contains_concat(before, frag@, pat);
        }
    }
}

/// Appends a fragment and records that the text now contains it.
pub fn push_fact(s: &mut Vec<u8>, frag: &[u8])
    ensures
        final(s)@ == old(s)@ + frag@,
        contains_seq(final(s)@, frag@),
        forall|pat: Seq<u8>|
            #![trigger contains_seq(old(s)@, pat)]
            contains_seq(old(s)@, pat) ==> contains_seq(final(s)@, pat),
{
    let ghost before = s@;
    push_text(s, frag);
    proof {
        assert(s@.subrange(before.len() as int, before.len() + frag@.len() as int) =~= frag@);
        assert(matches_at(s@, frag@, before.len() as int));
    }
}

/// A unit-interval value rendered in tenths, rounded: "0.0" through "1.0".
pub open spec fn tenths_seq(x: u32) -> Seq<u8> {
    let t = (x + 50) / 100;
    if t >= 10 {
        seq![49u8, 46u8, 48u8]
    } else {
        seq![48u8, 46u8, (48 + t) as u8]
    }
}

/// Renders a value in thousandths as tenths of the unit.
pub fn tenths_bytes(x: u32) -> (r: Vec<u8>)
    requires
        x <= 1000,
    ensures
        r@ == tenths_seq(x),
{
    let t: u32 = (x + 50) / 100;
    let mut r: Vec<u8> = Vec::new();
    if t >= 10 {
        r.push(49);
        r.push(46);
        r.push(48);
    } else {
        r.push(48);
        r.push(46);
        r.push(48 + (t as u8));
    }
    assert(r@ =~= tenths_seq(x));
    r
}

/// A unit-interval value rendered in hundredths, rounded: "0.00" through
/// "1.00".
pub open spec fn cent_seq(x: u32) -> Seq<u8> {
    let c = (x + 5) / 10;
    if c >= 100 {
        seq![49u8, 46u8, 48u8, 48u8]
    } else {
        seq![48u8, 46u8, (48 + c / 10) as u8, (48 + c % 10) as u8]
    }
}

/// Renders a value in thousandths as hundredths of the unit.
pub fn cent_bytes(x: u32) -> (r: Vec<u8>)
    requires
        x <= 1000,
    ensures
        r@ == cent_seq(x),
{
    let c: u32 = (x + 5) / 10;
    let mut r: Vec<u8> = Vec::new();
    if c >= 100 {
        r.push(49);
        r.push(46);
        r.push(48);
        r.push(48);
    } else {
        r.push(48);
        r.push(46);
        r.push(48 + ((c / 10) as u8));
        r.push(48 + ((c % 10) as u8));
    }
    assert(r@ =~= cent_seq(x));
    r
}

/// A unit-interval value rendered as a percentage with one decimal place:
/// 532 thousandths become "53.2".
pub open spec fn percent_seq(x: u32) -> Seq<u8> {
    dec_seq((x / 10) as nat) + seq![46u8, (48 + x % 10) as u8]
}

/// Renders a value in thousandths as a percentage with one decimal place.
pub fn percent_bytes(x: u32) -> (r: Vec<u8>)
    requires
        x <= 1000,
    ensures
        r@ == percent_seq(x),
{
    let mut r = dec_bytes((x / 10) as u64);
    r.push(46);
    r.push(48 + ((x % 10) as u8));
    assert(r@ =~= percent_seq(x));
    r
}

} // verus!

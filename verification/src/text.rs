//! Character-level helpers shared by the prompt builder, the response parsers and the
//! error formatting: whitespace trimming, substring tests, decimal rendering and
//! UTF-8 aware byte truncation.
use vstd::prelude::*;
use vstd::string::StringSliceAdditionalSpecFns;
use vstd::utf8::*;

verus! {

broadcast use vstd::string::group_string_axioms;

// ---------------------------------------------------------------------------
// Classification of characters (std's Unicode tables)
// ---------------------------------------------------------------------------

/// Whether `c` has the Unicode `White_Space` property (PropList.txt), as
/// `char::is_whitespace` decides: tab, line feed, vertical tab, form feed, carriage
/// return, space, next line, no-break space, ogham space mark, the spaces U+2000 to
/// U+200A, line and paragraph separators, narrow no-break space, medium mathematical
/// space and ideographic space.
pub open spec fn char_is_whitespace(c: char) -> bool {
    let v = c as u32;
    ||| 0x09 <= v <= 0x0d
    ||| v == 0x20
    ||| v == 0x85
    ||| v == 0xa0
    ||| v == 0x1680
    ||| 0x2000 <= v <= 0x200a
    ||| v == 0x2028
    ||| v == 0x2029
    ||| v == 0x202f
    ||| v == 0x205f
    ||| v == 0x3000
}

/// Whether `c` has the Unicode `Alphabetic` property, as `char::is_alphabetic` decides.
pub uninterp spec fn char_is_alphabetic(c: char) -> bool;

/// Calls `char::is_whitespace`, which answers whether the character has the Unicode
/// `White_Space` property, the code points that `char_is_whitespace` lists.
#[verifier::external_body]
pub(crate) fn is_whitespace(c: char) -> (b: bool)
    ensures
        b == char_is_whitespace(c),
{
    c.is_whitespace()
}

/// Calls `char::is_alphabetic`; the answer is the `Alphabetic` table lookup, named
/// `char_is_alphabetic` here (the table itself is not written out).
#[verifier::external_body]
pub(crate) fn is_alphabetic(c: char) -> (b: bool)
    ensures
        b == char_is_alphabetic(c),
{
    c.is_alphabetic()
}

/// Appends one character to a string with `String::push`, which adds it at the end.
#[verifier::external_body]
pub(crate) fn push_char(s: &mut String, c: char)
    ensures
        final(s)@ == old(s)@.push(c),
{
    s.push(c);
}

/// The text of `bytes` as `String::from_utf8_lossy` decodes it (invalid sequences
/// become U+FFFD).
pub uninterp spec fn utf8_lossy(bytes: Seq<u8>) -> Seq<char>;

/// Calls `String::from_utf8_lossy`. Its documentation states that valid UTF-8 is
/// decoded as it stands; the replacement of invalid sequences is only named.
#[verifier::external_body]
pub(crate) fn decode_utf8_lossy(bytes: &[u8]) -> (s: String)
    ensures
        s@ == utf8_lossy(bytes@),
        valid_utf8(bytes@) ==> s@ == decode_utf8(bytes@),
{
    String::from_utf8_lossy(bytes).into_owned()
}

// ---------------------------------------------------------------------------
// Conversions between strings and character vectors
// ---------------------------------------------------------------------------

/// The characters of `s`, in order.
pub fn str_chars(s: &str) -> (out: Vec<char>)
    ensures
        out@ == s@,
{
    let mut out: Vec<char> = Vec::new();
    for c in it: s.chars()
        invariant
            out@ == it.seq().take(it.index() as int),
    {
        out.push(c);
    }
    out
}

/// The views of a list of strings.
pub open spec fn string_views(ws: Seq<String>) -> Seq<Seq<char>> {
    ws.map_values(|w: String| w@)
}

/// Appends the characters of `v` to `s`.
pub fn push_chars(s: &mut String, v: &[char])
    ensures
        final(s)@ == old(s)@ + v@,
{
    let mut i: usize = 0;
    while i < v.len()
        invariant
            i <= v@.len(),
            s@ == old(s)@ + v@.take(i as int),
        decreases v@.len() - i,
    {
        push_char(s, v[i]);
        assert(v@.take(i as int + 1) =~= v@.take(i as int).push(v@[i as int]));
        i = i + 1;
    }
    assert(v@.take(v@.len() as int) =~= v@);
}

/// A string holding the characters of `v`.
pub fn chars_to_string(v: &[char]) -> (s: String)
    ensures
        s@ == v@,
{
    let mut s = String::new();
    push_chars(&mut s, v);
    s
}

/// Appends `t` to `s`.
pub fn push_str(s: &mut String, t: &str)
    ensures
        final(s)@ == old(s)@ + t@,
{
    s.append(t);
}

// ---------------------------------------------------------------------------
// Trimming
// ---------------------------------------------------------------------------

/// `s` without its leading whitespace.
pub open spec fn trim_start(s: Seq<char>) -> Seq<char>
    decreases s.len(),
{
    if s.len() > 0 && char_is_whitespace(s[0]) {
        trim_start(s.drop_first())
    } else {
        s
    }
}

/// `s` without its trailing whitespace.
pub open spec fn trim_end(s: Seq<char>) -> Seq<char>
    decreases s.len(),
{
    if s.len() > 0 && char_is_whitespace(s.last()) {
        trim_end(s.drop_last())
    } else {
        s
    }
}

/// `s` without leading and trailing whitespace, as `str::trim` gives it.
pub open spec fn trim(s: Seq<char>) -> Seq<char> {
    trim_end(trim_start(s))
}

/// The characters of `s` without leading and trailing whitespace.
pub fn trim_chars(s: &[char]) -> (out: Vec<char>)
    ensures
        out@ == trim(s@),
{
    let n = s.len();
    let mut i: usize = 0;
    assert(s@.subrange(0, n as int) =~= s@);
    while i < n && is_whitespace(s[i])
        invariant
            n == s@.len(),
            i <= n,
            trim_start(s@) == trim_start(s@.subrange(i as int, n as int)),
        decreases n - i,
    {
        assert(s@.subrange(i as int, n as int).drop_first() =~= s@.subrange(
            i as int + 1,
            n as int,
        ));
        i = i + 1;
    }
    assert(trim_start(s@) == s@.subrange(i as int, n as int));
    let mut j: usize = n;
    while j > i && is_whitespace(s[j - 1])
        invariant
            n == s@.len(),
            i <= j <= n,
            trim(s@) == trim_end(s@.subrange(i as int, j as int)),
        decreases j - i,
    {
        assert(s@.subrange(i as int, j as int).drop_last() =~= s@.subrange(
            i as int,
            j as int - 1,
        ));
        j = j - 1;
    }
    let mut out: Vec<char> = Vec::new();
    let mut k: usize = i;
    while k < j
        invariant
            n == s@.len(),
            i <= k <= j <= n,
            out@ == s@.subrange(i as int, k as int),
        decreases j - k,
    {
        out.push(s[k]);
        assert(s@.subrange(i as int, k as int + 1) =~= s@.subrange(i as int, k as int).push(
            s@[k as int],
        ));
        k = k + 1;
    }
    out
}

/// `trim_start` leaves no whitespace at the front.
proof fn lemma_trim_start_front(s: Seq<char>)
    ensures
        trim_start(s).len() > 0 ==> !char_is_whitespace(trim_start(s)[0]),
    decreases s.len(),
{
    if s.len() > 0 && char_is_whitespace(s[0]) {
        lemma_trim_start_front(s.drop_first());
    }
}

/// `trim_end` keeps a prefix and leaves no whitespace at the back.
proof fn lemma_trim_end_shape(s: Seq<char>)
    ensures
        trim_end(s).len() <= s.len(),
        trim_end(s) == s.take(trim_end(s).len() as int),
        trim_end(s).len() > 0 ==> !char_is_whitespace(trim_end(s).last()),
    decreases s.len(),
{
    if s.len() > 0 && char_is_whitespace(s.last()) {
        lemma_trim_end_shape(s.drop_last());
        let t = trim_end(s.drop_last());
        assert(s.drop_last().take(t.len() as int) =~= s.take(t.len() as int));
    } else {
        assert(s.take(s.len() as int) =~= s);
    }
}

/// Trimmed text has no whitespace at either end.
pub proof fn lemma_trim_ends(s: Seq<char>)
    ensures
        trim(s).len() > 0 ==> !char_is_whitespace(trim(s)[0]) && !char_is_whitespace(
            trim(s).last(),
        ),
{
    let u = trim_start(s);
    lemma_trim_start_front(s);
    lemma_trim_end_shape(u);
    if trim(s).len() > 0 {
        assert(trim(s)[0] == u.take(trim(s).len() as int)[0]);
    }
}

/// Trimming trimmed text changes nothing.
pub proof fn lemma_trim_idempotent(s: Seq<char>)
    ensures
        trim(trim(s)) == trim(s),
{
    let t = trim(s);
    lemma_trim_ends(s);
    assert(trim_start(t) == t);
    assert(trim_end(t) == t);
}

// ---------------------------------------------------------------------------
// Prefixes and substrings
// ---------------------------------------------------------------------------

/// `p` is a prefix of `s`.
pub open spec fn has_prefix(s: Seq<char>, p: Seq<char>) -> bool {
    p.len() <= s.len() && s.subrange(0, p.len() as int) == p
}

/// `p` occurs in `s` at position `i`.
pub open spec fn occurs_at(s: Seq<char>, p: Seq<char>, i: int) -> bool {
    0 <= i && i + p.len() <= s.len() && s.subrange(i, i + p.len()) == p
}

/// `p` occurs somewhere in `s`.
pub open spec fn contains_seq(s: Seq<char>, p: Seq<char>) -> bool {
    exists|i: int| occurs_at(s, p, i)
}

/// Whether `p` is a prefix of `s`.
pub fn starts_with_chars(s: &[char], p: &[char]) -> (b: bool)
    ensures
        b == has_prefix(s@, p@),
{
    if p.len() > s.len() {
        return false;
    }
    let mut k: usize = 0;
    while k < p.len()
        invariant
            p@.len() <= s@.len(),
            k <= p@.len(),
            forall|m: int| 0 <= m < k ==> s@[m] == p@[m],
        decreases p@.len() - k,
    {
        if s[k] != p[k] {
            return false;
        }
        k = k + 1;
    }
    assert(s@.subrange(0, p@.len() as int) =~= p@);
    true
}

/// Whether `p` occurs in `s` starting at position `i`.
fn matches_at(s: &[char], p: &[char], i: usize) -> (b: bool)
    requires
        i + p@.len() <= s@.len(),
    ensures
        b == occurs_at(s@, p@, i as int),
{
    let slen = s.len();
    let mut k: usize = 0;
    while k < p.len()
        invariant
            slen == s@.len(),
            i + p@.len() <= s@.len(),
            k <= p@.len(),
            forall|m: int| 0 <= m < k ==> s@[i + m] == p@[m],
        decreases p@.len() - k,
    {
        if s[i + k] != p[k] {
            assert(s@.subrange(i as int, i + p@.len())[k as int] != p@[k as int]);
            return false;
        }
        k = k + 1;
    }
    assert(s@.subrange(i as int, i + p@.len()) =~= p@);
    true
}

/// Whether `p` occurs anywhere in `s`.
pub fn contains_chars(s: &[char], p: &[char]) -> (b: bool)
    ensures
        b == contains_seq(s@, p@),
{
    if p.len() > s.len() {
        return false;
    }
    let last = s.len() - p.len();
    let mut i: usize = 0;
    while i < last
        invariant
            last + p@.len() == s@.len(),
            i <= last,
            forall|m: int| 0 <= m < i ==> !occurs_at(s@, p@, m),
        decreases last - i,
    {
        if matches_at(s, p, i) {
            return true;
        }
        i = i + 1;
    }
    if matches_at(s, p, last) {
        return true;
    }
    assert forall|m: int| !occurs_at(s@, p@, m) by {
        if 0 <= m && m + p@.len() <= s@.len() {
            assert(m <= last);
        }
    }
    false
}

/// Whether two character sequences are equal.
pub fn chars_eq(a: &[char], b: &[char]) -> (r: bool)
    ensures
        r == (a@ == b@),
{
    if a.len() != b.len() {
        return false;
    }
    let r = starts_with_chars(a, b);
    assert(a@.subrange(0, b@.len() as int) =~= a@);
    r
}

// ---------------------------------------------------------------------------
// Searching for a character
// ---------------------------------------------------------------------------

/// The position of the first `c` in `s`, if any.
pub open spec fn find_char(s: Seq<char>, c: char) -> Option<int>
    decreases s.len(),
{
    if s.len() == 0 {
        None
    } else if s[0] == c {
        Some(0)
    } else {
        match find_char(s.drop_first(), c) {
            Some(i) => Some(i + 1),
            None => None,
        }
    }
}

/// What `find_char` finds: the first occurrence, or nothing when `c` does not occur.
pub proof fn lemma_find_char(s: Seq<char>, c: char)
    ensures
        match find_char(s, c) {
            Some(i) => 0 <= i < s.len() && s[i] == c && forall|j: int| 0 <= j < i ==> s[j] != c,
            None => forall|j: int| 0 <= j < s.len() ==> s[j] != c,
        },
    decreases s.len(),
{
    if s.len() > 0 && s[0] != c {
        lemma_find_char(s.drop_first(), c);
        match find_char(s.drop_first(), c) {
            Some(i) => {
                assert forall|j: int| 0 <= j < i + 1 implies s[j] != c by {
                    if j > 0 {
                        assert(s[j] == s.drop_first()[j - 1]);
                    }
                }
            },
            None => {
                assert forall|j: int| 0 <= j < s.len() implies s[j] != c by {
                    if j > 0 {
                        assert(s[j] == s.drop_first()[j - 1]);
                    }
                }
            },
        }
    }
}

/// The first `c` is at `k` when `k` holds `c` and no position before it does.
pub proof fn lemma_find_char_at(s: Seq<char>, c: char, k: int)
    requires
        0 <= k < s.len(),
        s[k] == c,
        forall|j: int| 0 <= j < k ==> s[j] != c,
    ensures
        find_char(s, c) == Some(k),
    decreases k,
{
    if k > 0 {
        assert forall|j: int| 0 <= j < k - 1 implies s.drop_first()[j] != c by {
            assert(s.drop_first()[j] == s[j + 1]);
        }
        lemma_find_char_at(s.drop_first(), c, k - 1);
    }
}

/// `find_char` finds nothing when `c` does not occur.
proof fn lemma_find_char_absent(s: Seq<char>, c: char)
    requires
        forall|j: int| 0 <= j < s.len() ==> s[j] != c,
    ensures
        find_char(s, c) is None,
{
    lemma_find_char(s, c);
}

/// The position of the first `c` in `s`, if any.
pub fn find_char_index(s: &[char], c: char) -> (r: Option<usize>)
    ensures
        r matches Some(i) ==> find_char(s@, c) == Some(i as int),
        r is None ==> find_char(s@, c) is None,
{
    let mut k: usize = 0;
    while k < s.len()
        invariant
            k <= s@.len(),
            forall|j: int| 0 <= j < k ==> s@[j] != c,
        decreases s@.len() - k,
    {
        if s[k] == c {
            proof {
                lemma_find_char_at(s@, c, k as int);
            }
            return Some(k);
        }
        k = k + 1;
    }
    proof {
        lemma_find_char_absent(s@, c);
    }
    None
}

/// `s` without the copies of `c` at its end, as `str::trim_end_matches(c)` gives it.
pub open spec fn trim_end_char(s: Seq<char>, c: char) -> Seq<char>
    decreases s.len(),
{
    if s.len() > 0 && s.last() == c {
        trim_end_char(s.drop_last(), c)
    } else {
        s
    }
}

/// The characters of `s` without the copies of `c` at its end.
pub fn trim_end_char_chars(s: &[char], c: char) -> (out: Vec<char>)
    ensures
        out@ == trim_end_char(s@, c),
{
    let mut j: usize = s.len();
    assert(s@.subrange(0, j as int) =~= s@);
    while j > 0 && s[j - 1] == c
        invariant
            j <= s@.len(),
            trim_end_char(s@, c) == trim_end_char(s@.subrange(0, j as int), c),
        decreases j,
    {
        assert(s@.subrange(0, j as int).drop_last() =~= s@.subrange(0, j as int - 1));
        j = j - 1;
    }
    let mut out: Vec<char> = Vec::new();
    let mut k: usize = 0;
    while k < j
        invariant
            k <= j <= s@.len(),
            out@ == s@.subrange(0, k as int),
        decreases j - k,
    {
        out.push(s[k]);
        assert(s@.subrange(0, k as int + 1) =~= s@.subrange(0, k as int).push(s@[k as int]));
        k = k + 1;
    }
    out
}

/// The characters of `s` from position `from` on.
pub fn skip_chars(s: &[char], from: usize) -> (out: Vec<char>)
    requires
        from <= s@.len(),
    ensures
        out@ == s@.skip(from as int),
{
    let mut out: Vec<char> = Vec::new();
    let mut k: usize = from;
    while k < s.len()
        invariant
            from <= k <= s@.len(),
            out@ == s@.subrange(from as int, k as int),
        decreases s@.len() - k,
    {
        out.push(s[k]);
        assert(s@.subrange(from as int, k as int + 1) =~= s@.subrange(from as int, k as int).push(
            s@[k as int],
        ));
        k = k + 1;
    }
    out
}

/// The first `n` characters of `s`.
pub fn take_chars(s: &[char], n: usize) -> (out: Vec<char>)
    requires
        n <= s@.len(),
    ensures
        out@ == s@.take(n as int),
{
    let mut out: Vec<char> = Vec::new();
    let mut k: usize = 0;
    while k < n
        invariant
            k <= n <= s@.len(),
            out@ == s@.take(k as int),
        decreases n - k,
    {
        out.push(s[k]);
        assert(s@.take(k as int + 1) =~= s@.take(k as int).push(s@[k as int]));
        k = k + 1;
    }
    out
}

// ---------------------------------------------------------------------------
// Decimal rendering
// ---------------------------------------------------------------------------

/// The ASCII digit for `d` (`d < 10`).
pub open spec fn digit_char(d: nat) -> char {
    if d == 0 { '0' }
    else if d == 1 { '1' }
    else if d == 2 { '2' }
    else if d == 3 { '3' }
    else if d == 4 { '4' }
    else if d == 5 { '5' }
    else if d == 6 { '6' }
    else if d == 7 { '7' }
    else if d == 8 { '8' }
    else { '9' }
}

/// The decimal notation of `n`, without sign or leading zeros (as `{}` prints an unsigned integer).
pub open spec fn decimal(n: nat) -> Seq<char>
    decreases n,
{
    if n < 10 {
        seq![digit_char(n)]
    } else {
        decimal(n / 10).push(digit_char(n % 10))
    }
}

fn digit(d: u32) -> (c: char)
    requires
        d < 10,
    ensures
        c == digit_char(d as nat),
{
    if d == 0 { '0' }
    else if d == 1 { '1' }
    else if d == 2 { '2' }
    else if d == 3 { '3' }
    else if d == 4 { '4' }
    else if d == 5 { '5' }
    else if d == 6 { '6' }
    else if d == 7 { '7' }
    else if d == 8 { '8' }
    else { '9' }
}

/// Appends the decimal notation of `n` to `s`.
pub fn push_decimal(s: &mut String, n: u32)
    ensures
        final(s)@ == old(s)@ + decimal(n as nat),
    decreases n,
{
    if n >= 10 {
        push_decimal(s, n / 10);
    }
    push_char(s, digit(n % 10));
    assert(final(s)@ =~= old(s)@ + decimal(n as nat));
}

// ---------------------------------------------------------------------------
// Byte-length truncation on character boundaries
// ---------------------------------------------------------------------------

/// The largest character boundary of `bytes` that is at most `k`.
pub open spec fn floor_boundary(bytes: Seq<u8>, k: int) -> int
    decreases k,
{
    if k <= 0 || is_char_boundary(bytes, k) {
        if k <= 0 { 0 } else { k }
    } else {
        floor_boundary(bytes, k - 1)
    }
}

/// The number of leading bytes of `bytes` that `truncate_str` keeps for a limit of `max`.
pub open spec fn truncated_len(bytes: Seq<u8>, max: int) -> int {
    if bytes.len() <= max {
        bytes.len() as int
    } else {
        floor_boundary(bytes, max)
    }
}

/// The smallest character boundary of `bytes` that is at least `k`, or the length.
pub open spec fn ceil_boundary(bytes: Seq<u8>, k: int) -> int
    decreases bytes.len() - k,
{
    if k >= bytes.len() {
        bytes.len() as int
    } else if is_char_boundary(bytes, k) {
        k
    } else {
        ceil_boundary(bytes, k + 1)
    }
}

/// The longest prefix of `s` of at most `max_bytes` bytes that ends on a character boundary.
pub fn truncate_str(s: &str, max_bytes: usize) -> (r: &str)
    ensures
        r.spec_bytes() == s.spec_bytes().take(truncated_len(s.spec_bytes(), max_bytes as int)),
{
    proof {
        encode_utf8_valid_utf8(s@);
    }
    let len = s.as_bytes().len();
    if len <= max_bytes {
        assert(s.spec_bytes().take(s.spec_bytes().len() as int) =~= s.spec_bytes());
        return s;
    }
    let mut end = max_bytes;
    while end > 0 && !s.is_char_boundary(end)
        invariant
            end <= max_bytes,
            max_bytes < s.spec_bytes().len(),
            valid_utf8(s.spec_bytes()),
            floor_boundary(s.spec_bytes(), max_bytes as int) == floor_boundary(
                s.spec_bytes(),
                end as int,
            ),
        decreases end,
    {
        end = end - 1;
    }
    let (head, _) = s.split_at(end);
    head
}

/// The prefix of `s` that ends where the character holding byte `at - 1` ends: the shortest
/// prefix of at least `min(at, len)` bytes that ends on a character boundary.
pub fn truncate_to_char_end(s: &str, at: usize) -> (r: &str)
    ensures
        r.spec_bytes() == s.spec_bytes().take(ceil_boundary(s.spec_bytes(), at as int)),
{
    proof {
        encode_utf8_valid_utf8(s@);
        is_char_boundary_start_end_of_seq(s.spec_bytes());
    }
    let len = s.as_bytes().len();
    let mut end = if at < len { at } else { len };
    while end < len && !s.is_char_boundary(end)
        invariant
            len == s.spec_bytes().len(),
            end <= len,
            valid_utf8(s.spec_bytes()),
            is_char_boundary(s.spec_bytes(), len as int),
            ceil_boundary(s.spec_bytes(), at as int) == ceil_boundary(s.spec_bytes(), end as int),
        decreases len - end,
    {
        end = end + 1;
    }
    let (head, _) = s.split_at(end);
    head
}

/// `floor_boundary` finds the largest character boundary at most `k`.
proof fn lemma_floor_boundary(bytes: Seq<u8>, k: int)
    requires
        valid_utf8(bytes),
        0 <= k <= bytes.len(),
    ensures
        0 <= floor_boundary(bytes, k) <= k,
        is_char_boundary(bytes, floor_boundary(bytes, k)),
        forall|j: int| floor_boundary(bytes, k) < j <= k ==> !is_char_boundary(bytes, j),
    decreases k,
{
    if k > 0 && !is_char_boundary(bytes, k) {
        lemma_floor_boundary(bytes, k - 1);
    }
}

/// `ceil_boundary` finds the smallest character boundary at least `k`.
proof fn lemma_ceil_boundary(bytes: Seq<u8>, k: int)
    requires
        valid_utf8(bytes),
        0 <= k,
    ensures
        (if k < bytes.len() { k } else { bytes.len() as int }) <= ceil_boundary(bytes, k)
            <= bytes.len(),
        is_char_boundary(bytes, ceil_boundary(bytes, k)),
        forall|j: int| k <= j < ceil_boundary(bytes, k) ==> !is_char_boundary(bytes, j),
    decreases bytes.len() - k,
{
    is_char_boundary_start_end_of_seq(bytes);
    if k < bytes.len() && !is_char_boundary(bytes, k) {
        lemma_ceil_boundary(bytes, k + 1);
    }
}

/// What `truncate_str` keeps of a string of `bytes` for a limit of `max` bytes: at most
/// `max` bytes, ending on a character boundary, and no shorter than it must be (no longer
/// prefix within the limit ends on a boundary). A string within the limit is kept whole,
/// so truncating a second time changes nothing.
pub proof fn lemma_truncation_law(bytes: Seq<u8>, max: int)
    requires
        valid_utf8(bytes),
        0 <= max,
    ensures
        ({
            let n = truncated_len(bytes, max);
            &&& 0 <= n <= bytes.len()
            &&& n <= max
            &&& is_char_boundary(bytes, n)
            &&& forall|j: int| n < j <= max && j <= bytes.len() ==> !is_char_boundary(bytes, j)
            &&& bytes.len() <= max ==> n == bytes.len()
            &&& truncated_len(bytes.take(n), max) == n
        }),
{
    is_char_boundary_start_end_of_seq(bytes);
    if bytes.len() > max {
        lemma_floor_boundary(bytes, max);
    }
}

/// What `truncate_to_char_end` keeps of a string of `bytes` for a cut at byte `at`: at
/// least `min(at, len)` bytes, ending on a character boundary, and no more than needed to
/// finish the character that is cut.
pub proof fn lemma_char_end_law(bytes: Seq<u8>, at: int)
    requires
        valid_utf8(bytes),
        0 <= at,
    ensures
        ({
            let n = ceil_boundary(bytes, at);
            &&& (if at < bytes.len() { at } else { bytes.len() as int }) <= n <= bytes.len()
            &&& is_char_boundary(bytes, n)
            &&& forall|j: int| at <= j < n ==> !is_char_boundary(bytes, j)
        }),
{
    lemma_ceil_boundary(bytes, at);
}

} // verus!

//! Character-level string operations with their specifications:
//! splitting, trimming, joining, comparison and decimal rendering.

use vstd::prelude::*;
use vstd::string::*;

verus! {

/// The character views of a sequence of strings.
pub open spec fn views(v: Seq<String>) -> Seq<Seq<char>> {
    v.map_values(|p: String| p@)
}

/// The characters of an optional string.
pub open spec fn opt_view(o: Option<String>) -> Option<Seq<char>> {
    match o {
        Some(s) => Some(s@),
        None => None,
    }
}

/// An optional text, or the empty text when absent.
pub open spec fn or_empty(o: Option<Seq<char>>) -> Seq<char> {
    match o {
        Some(s) => s,
        None => Seq::empty(),
    }
}

/// `o.clone().unwrap_or("".to_string())`.
pub fn string_or_empty(o: &Option<String>) -> (r: String)
    ensures
        r@ == or_empty(opt_view(*o)),
{
    match o {
        Some(s) => s.clone(),
        None => {
            let r = String::new();
            r
        },
    }
}

/// Splitting at every occurrence of `sep`, the way `str::split` with a `char`
/// pattern does: `k` separators give `k + 1` pieces, empty pieces included.
pub open spec fn split_spec(s: Seq<char>, sep: char) -> Seq<Seq<char>>
    decreases s.len(),
{
    if s.len() == 0 {
        seq![Seq::<char>::empty()]
    } else {
        let prev = split_spec(s.drop_last(), sep);
        if s.last() == sep {
            prev.push(Seq::<char>::empty())
        } else {
            prev.update(prev.len() - 1, prev.last().push(s.last()))
        }
    }
}

pub proof fn lemma_split_len(s: Seq<char>, sep: char)
    ensures
        split_spec(s, sep).len() >= 1,
    decreases s.len(),
{
    if s.len() > 0 {
        lemma_split_len(s.drop_last(), sep);
    }
}

/// Whether `c` has the Unicode `White_Space` property (the characters that
/// `char::is_whitespace` and `str::trim` treat as whitespace).
pub open spec fn is_white_space(c: char) -> bool {
    let u = c as u32;
    ||| 0x9 <= u <= 0xD
    ||| u == 0x20
    ||| u == 0x85
    ||| u == 0xA0
    ||| u == 0x1680
    ||| 0x2000 <= u <= 0x200A
    ||| u == 0x2028
    ||| u == 0x2029
    ||| u == 0x202F
    ||| u == 0x205F
    ||| u == 0x3000
}

/// Which characters a trim removes.
pub enum Trimmed {
    WhiteSpace,
    Char(char),
}

pub open spec fn trimmed_pred(t: Trimmed) -> spec_fn(char) -> bool {
    match t {
        Trimmed::WhiteSpace => |c: char| is_white_space(c),
        Trimmed::Char(x) => |c: char| c == x,
    }
}

/// Drops the leading characters that satisfy `p`.
pub open spec fn trim_start_by(s: Seq<char>, p: spec_fn(char) -> bool) -> Seq<char>
    decreases s.len(),
{
    if s.len() > 0 && p(s[0]) {
        trim_start_by(s.drop_first(), p)
    } else {
        s
    }
}

/// Drops the trailing characters that satisfy `p`.
pub open spec fn trim_end_by(s: Seq<char>, p: spec_fn(char) -> bool) -> Seq<char>
    decreases s.len(),
{
    if s.len() > 0 && p(s.last()) {
        trim_end_by(s.drop_last(), p)
    } else {
        s
    }
}

/// Drops leading and trailing characters that satisfy `p`.
pub open spec fn trim_by(s: Seq<char>, p: spec_fn(char) -> bool) -> Seq<char> {
    trim_end_by(trim_start_by(s, p), p)
}

fn is_trimmed(t: &Trimmed, c: char) -> (b: bool)
    ensures
        b == (trimmed_pred(*t))(c),
{
    match t {
        Trimmed::WhiteSpace => {
            let u = c as u32;
            (0x9 <= u && u <= 0xD) || u == 0x20 || u == 0x85 || u == 0xA0 || u == 0x1680 || (0x2000
                <= u && u <= 0x200A) || u == 0x2028 || u == 0x2029 || u == 0x202F || u == 0x205F
                || u == 0x3000
        },
        Trimmed::Char(x) => c == *x,
    }
}

/// Index of the first character that is not trimmed at the start.
fn start_index(s: &str, t: &Trimmed) -> (a: usize)
    ensures
        a <= s@.len(),
        trim_start_by(s@, trimmed_pred(*t)) == s@.subrange(a as int, s@.len() as int),
{
    let n = s.unicode_len();
    let mut i: usize = 0;
    assert(s@.subrange(0, n as int) =~= s@);
    while i < n
        invariant
            n == s@.len(),
            i <= n,
            trim_start_by(s@, trimmed_pred(*t)) == trim_start_by(
                s@.subrange(i as int, n as int),
                trimmed_pred(*t),
            ),
        decreases n - i,
    {
        let c = s.get_char(i);
        if !is_trimmed(t, c) {
            return i;
        }
        assert(s@.subrange(i as int, n as int).drop_first() =~= s@.subrange(
            i + 1,
            n as int,
        ));
        i = i + 1;
    }
    i
}

/// Index one past the last character that is not trimmed at the end, looking
/// only at the characters from `a` on.
fn end_index(s: &str, t: &Trimmed, a: usize) -> (b: usize)
    requires
        a <= s@.len(),
    ensures
        a <= b <= s@.len(),
        trim_end_by(s@.subrange(a as int, s@.len() as int), trimmed_pred(*t)) == s@.subrange(
            a as int,
            b as int,
        ),
{
    let n = s.unicode_len();
    let mut j: usize = n;
    while j > a
        invariant
            n == s@.len(),
            a <= j <= n,
            trim_end_by(s@.subrange(a as int, n as int), trimmed_pred(*t)) == trim_end_by(
                s@.subrange(a as int, j as int),
                trimmed_pred(*t),
            ),
        decreases j - a,
    {
        let c = s.get_char(j - 1);
        if !is_trimmed(t, c) {
            return j;
        }
        assert(s@.subrange(a as int, j as int).drop_last() =~= s@.subrange(
            a as int,
            j - 1,
        ));
        j = j - 1;
    }
    j
}

/// `str::trim`: leading and trailing whitespace removed.
pub fn trim_whitespace(s: &str) -> (r: &str)
    ensures
        r@ == trim_by(s@, |c: char| is_white_space(c)),
{
    let t = Trimmed::WhiteSpace;
    let a = start_index(s, &t);
    let b = end_index(s, &t, a);
    s.substring_char(a, b)
}

/// `str::trim_matches(c)`: leading and trailing occurrences of `c` removed.
pub fn trim_matches_char(s: &str, c: char) -> (r: &str)
    ensures
        r@ == trim_by(s@, |x: char| x == c),
{
    let t = Trimmed::Char(c);
    let a = start_index(s, &t);
    let b = end_index(s, &t, a);
    assert(trimmed_pred(t) == (|x: char| x == c));
    s.substring_char(a, b)
}

/// `str::trim_start_matches(c)`: leading occurrences of `c` removed.
pub fn trim_start_matches_char(s: &str, c: char) -> (r: &str)
    ensures
        r@ == trim_start_by(s@, |x: char| x == c),
{
    let t = Trimmed::Char(c);
    let a = start_index(s, &t);
    let n = s.unicode_len();
    assert(trimmed_pred(t) == (|x: char| x == c));
    s.substring_char(a, n)
}

/// `str::trim_end_matches(c)`: trailing occurrences of `c` removed.
pub fn trim_end_matches_char(s: &str, c: char) -> (r: &str)
    ensures
        r@ == trim_end_by(s@, |x: char| x == c),
{
    let t = Trimmed::Char(c);
    let b = end_index(s, &t, 0);
    assert(s@.subrange(0, s@.len() as int) =~= s@);
    assert(trimmed_pred(t) == (|x: char| x == c));
    s.substring_char(0, b)
}

/// `str::split(sep)` with a `char` separator, collected into owned pieces.
pub fn split_char(s: &str, sep: char) -> (pieces: Vec<String>)
    ensures
        views(pieces@) == split_spec(s@, sep),
{
    let n = s.unicode_len();
    let mut pieces: Vec<String> = Vec::new();
    let mut start: usize = 0;
    let mut i: usize = 0;
    assert(s@.take(0) =~= Seq::<char>::empty());
    assert(views(pieces@).push(s@.subrange(0, 0)) =~= seq![Seq::<char>::empty()]);
    while i < n
        invariant
            n == s@.len(),
            start <= i <= n,
            views(pieces@).push(s@.subrange(start as int, i as int)) == split_spec(
                s@.take(i as int),
                sep,
            ),
        decreases n - i,
    {
        let c = s.get_char(i);
        let ghost prev = split_spec(s@.take(i as int), sep);
        assert(s@.take(i + 1).drop_last() =~= s@.take(i as int));
        assert(s@.take(i + 1).last() == c);
        if c == sep {
            let piece = s.substring_char(start, i).to_owned();
            let ghost before = pieces@;
            pieces.push(piece);
            assert(views(pieces@) =~= views(before).push(s@.subrange(start as int, i as int)));
            start = i + 1;
            assert(s@.subrange(start as int, i + 1) =~= Seq::<char>::empty());
            assert(views(pieces@).push(s@.subrange(start as int, i + 1)) =~= prev.push(
                Seq::<char>::empty(),
            ));
        } else {
            assert(s@.subrange(start as int, i + 1) =~= s@.subrange(start as int, i as int).push(
                c,
            ));
            assert(views(pieces@).push(s@.subrange(start as int, i + 1)) =~= prev.update(
                prev.len() - 1,
                prev.last().push(c),
            ));
        }
        i = i + 1;
    }
    let last = s.substring_char(start, n).to_owned();
    pieces.push(last);
    assert(s@.take(n as int) =~= s@);
    assert(views(pieces@) =~= split_spec(s@, sep));
    pieces
}

/// Appends clones of `more` to `dst`.
pub fn extend_strings(dst: &mut Vec<String>, more: &Vec<String>)
    ensures
        views(final(dst)@) == views(old(dst)@) + views(more@),
{
    let n = more.len();
    let mut i: usize = 0;
    let ghost start = views(dst@);
    while i < n
        invariant
            n == more@.len(),
            i <= n,
            views(dst@) == start + views(more@).take(i as int),
        decreases n - i,
    {
        let x = more[i].clone();
        let ghost before = dst@;
        dst.push(x);
        assert(views(dst@) =~= views(before).push(more@[i as int]@));
        assert(views(more@).take(i + 1) =~= views(more@).take(i as int).push(more@[i as int]@));
        i = i + 1;
    }
    assert(views(more@).take(n as int) =~= views(more@));
}

/// A character absent from both sides is absent from their concatenation.
pub proof fn lemma_not_contains_concat(a: Seq<char>, b: Seq<char>, c: char)
    requires
        !a.contains(c),
        !b.contains(c),
    ensures
        !(a + b).contains(c),
{
    if (a + b).contains(c) {
        let k = choose|k: int| 0 <= k < (a + b).len() && (a + b)[k] == c;
        if k < a.len() {
            assert(a[k] == c);
        } else {
            assert(b[k - a.len()] == c);
        }
    }
}

/// Splitting a text with no separator in it gives the text alone.
pub proof fn lemma_split_no_sep(a: Seq<char>, sep: char)
    requires
        !a.contains(sep),
    ensures
        split_spec(a, sep) == seq![a],
    decreases a.len(),
{
    if a.len() > 0 {
        assert(!a.drop_last().contains(sep)) by {
            if a.drop_last().contains(sep) {
                let k = choose|k: int| 0 <= k < a.drop_last().len() && a.drop_last()[k] == sep;
                assert(a[k] == sep);
            }
        }
        lemma_split_no_sep(a.drop_last(), sep);
        assert(a.last() != sep) by {
            assert(a[a.len() - 1] == a.last());
        }
        assert(a.drop_last().push(a.last()) =~= a);
    } else {
        assert(a =~= Seq::<char>::empty());
    }
}

/// Splitting at a separator occurrence splits both sides independently.
pub proof fn lemma_split_concat(a: Seq<char>, b: Seq<char>, sep: char)
    ensures
        split_spec(a + seq![sep] + b, sep) == split_spec(a, sep) + split_spec(b, sep),
    decreases b.len(),
{
    lemma_split_len(a, sep);
    if b.len() == 0 {
        assert((a + seq![sep] + b).drop_last() =~= a);
        assert(split_spec(b, sep) =~= seq![Seq::<char>::empty()]);
        assert(split_spec(a, sep).push(Seq::<char>::empty()) =~= split_spec(a, sep) + seq![
            Seq::<char>::empty(),
        ]);
    } else {
        let b2 = b.drop_last();
        lemma_split_concat(a, b2, sep);
        lemma_split_len(b2, sep);
        assert((a + seq![sep] + b).drop_last() =~= a + seq![sep] + b2);
        assert((a + seq![sep] + b).last() == b.last());
        let pa = split_spec(a, sep);
        let pb = split_spec(b2, sep);
        if b.last() == sep {
            assert((pa + pb).push(Seq::<char>::empty()) =~= pa + pb.push(Seq::<char>::empty()));
        } else {
            assert((pa + pb).update((pa + pb).len() - 1, (pa + pb).last().push(b.last())) =~= pa
                + pb.update(pb.len() - 1, pb.last().push(b.last())));
        }
    }
}

/// Concatenation of `pieces` with `sep` between neighbours (`[T]::join`).
pub open spec fn join_spec(pieces: Seq<Seq<char>>, sep: Seq<char>) -> Seq<char>
    decreases pieces.len(),
{
    if pieces.len() == 0 {
        Seq::<char>::empty()
    } else if pieces.len() == 1 {
        pieces[0]
    } else {
        join_spec(pieces.drop_last(), sep) + sep + pieces.last()
    }
}

/// `pieces.join(sep)`.
pub fn join_strings(pieces: &Vec<String>, sep: &str) -> (r: String)
    ensures
        r@ == join_spec(views(pieces@), sep@),
{
    let n = pieces.len();
    let mut r = String::new();
    let mut i: usize = 0;
    while i < n
        invariant
            n == pieces@.len(),
            i <= n,
            r@ == join_spec(views(pieces@).take(i as int), sep@),
        decreases n - i,
    {
        assert(views(pieces@).take(i + 1).drop_last() =~= views(pieces@).take(i as int));
        if i > 0 {
            r.append(sep);
        }
        r.append(pieces[i].as_str());
        i = i + 1;
    }
    assert(views(pieces@).take(n as int) =~= views(pieces@));
    r
}

/// Character-wise equality of two string slices.
pub fn str_eq(a: &str, b: &str) -> (r: bool)
    ensures
        r == (a@ == b@),
{
    let n = a.unicode_len();
    let m = b.unicode_len();
    if n != m {
        return false;
    }
    let mut i: usize = 0;
    while i < n
        invariant
            n == a@.len(),
            m == b@.len(),
            n == m,
            i <= n,
            forall|k: int| 0 <= k < i ==> a@[k] == b@[k],
        decreases n - i,
    {
        if a.get_char(i) != b.get_char(i) {
            return false;
        }
        i = i + 1;
    }
    assert(a@ =~= b@);
    true
}

/// Whether `s` ends with `suffix` (`str::ends_with`).
pub open spec fn ends_with_spec(s: Seq<char>, suffix: Seq<char>) -> bool {
    suffix.len() <= s.len() && s.subrange(s.len() - suffix.len(), s.len() as int) == suffix
}

pub fn ends_with(s: &str, suffix: &str) -> (r: bool)
    ensures
        r == ends_with_spec(s@, suffix@),
{
    let n = s.unicode_len();
    let m = suffix.unicode_len();
    if m > n {
        return false;
    }
    let tail = s.substring_char(n - m, n);
    str_eq(tail, suffix)
}

/// Whether `needle` occurs in `s` at some position (`str::contains`).
pub open spec fn contains_spec(s: Seq<char>, needle: Seq<char>) -> bool {
    exists|i: int|
        0 <= i && i + needle.len() <= s.len() && #[trigger] s.subrange(i, i + needle.len())
            == needle
}

pub fn contains(s: &str, needle: &str) -> (r: bool)
    ensures
        r == contains_spec(s@, needle@),
{
    let n = s.unicode_len();
    let m = needle.unicode_len();
    if m > n {
        assert(!contains_spec(s@, needle@));
        return false;
    }
    let last = n - m;
    let mut i: usize = 0;
    while i < last
        invariant
            n == s@.len(),
            m == needle@.len(),
            last == n - m,
            i <= last,
            forall|k: int| 0 <= k < i ==> #[trigger] s@.subrange(k, k + m) != needle@,
        decreases last - i,
    {
        let window = s.substring_char(i, i + m);
        if str_eq(window, needle) {
            assert(s@.subrange(i as int, i + m) == needle@);
            return true;
        }
        i = i + 1;
    }
    let window = s.substring_char(last, n);
    if str_eq(window, needle) {
        assert(s@.subrange(last as int, last + m) == needle@);
        return true;
    }
    assert forall|k: int| 0 <= k && k + needle@.len() <= s@.len() implies #[trigger] s@.subrange(
        k,
        k + needle@.len(),
    ) != needle@ by {
        if k < last {
        } else {
            assert(k == last);
        }
    }
    false
}

/// The text of a decimal digit.
pub open spec fn digit_text(d: int) -> Seq<char> {
    if d == 0 {
        "0"@
    } else if d == 1 {
        "1"@
    } else if d == 2 {
        "2"@
    } else if d == 3 {
        "3"@
    } else if d == 4 {
        "4"@
    } else if d == 5 {
        "5"@
    } else if d == 6 {
        "6"@
    } else if d == 7 {
        "7"@
    } else if d == 8 {
        "8"@
    } else {
        "9"@
    }
}

/// Decimal rendering of a natural number, as `Display` for unsigned integers
/// writes it (no leading zeros).
pub open spec fn decimal_spec(n: nat) -> Seq<char>
    decreases n,
{
    if n < 10 {
        digit_text(n as int)
    } else {
        decimal_spec(n / 10) + digit_text((n % 10) as int)
    }
}

/// Decimal rendering of an integer, with a leading `-` when negative, as
/// `Display` for signed integers writes it.
pub open spec fn int_text(n: int) -> Seq<char> {
    if n < 0 {
        "-"@ + decimal_spec((-n) as nat)
    } else {
        decimal_spec(n as nat)
    }
}

fn digit_str(d: u64) -> (r: &'static str)
    requires
        d < 10,
    ensures
        r@ == digit_text(d as int),
{
    if d == 0 {
        "0"
    } else if d == 1 {
        "1"
    } else if d == 2 {
        "2"
    } else if d == 3 {
        "3"
    } else if d == 4 {
        "4"
    } else if d == 5 {
        "5"
    } else if d == 6 {
        "6"
    } else if d == 7 {
        "7"
    } else if d == 8 {
        "8"
    } else {
        "9"
    }
}

/// `n.to_string()` for an unsigned integer.
pub fn decimal(n: u64) -> (r: String)
    ensures
        r@ == decimal_spec(n as nat),
    decreases n,
{
    if n < 10 {
        digit_str(n).to_owned()
    } else {
        let mut r = decimal(n / 10);
        r.append(digit_str(n % 10));
        r
    }
}

/// `n.to_string()` for a signed integer.
pub fn signed_decimal(n: i64) -> (r: String)
    ensures
        r@ == int_text(n as int),
{
    if n < 0 {
        let magnitude: u64 = ((-(n + 1)) as u64) + 1;
        let mut r = "-".to_owned();
        r.append(decimal(magnitude).as_str());
        r
    } else {
        decimal(n as u64)
    }
}

/// Whether every character is ASCII.
pub open spec fn all_ascii(s: Seq<char>) -> bool {
    forall|i: int| 0 <= i < s.len() ==> (#[trigger] s[i] as u32) < 128
}

/// ASCII lower-casing of one character.
pub open spec fn ascii_lower(c: char) -> char {
    if 65 <= (c as u32) <= 90 {
        ((c as u32) + 32) as char
    } else {
        c
    }
}

/// ASCII upper-casing of one character.
pub open spec fn ascii_upper(c: char) -> char {
    if 97 <= (c as u32) <= 122 {
        ((c as u32) - 32) as char
    } else {
        c
    }
}

/// ASCII lower-casing of a text, character by character.
pub open spec fn ascii_lowered(s: Seq<char>) -> Seq<char> {
    s.map_values(|c: char| ascii_lower(c))
}

/// ASCII lower-casing keeps a text ASCII, and lower-casing it again changes
/// nothing.
pub proof fn lemma_ascii_lowered_idempotent(s: Seq<char>)
    requires
        all_ascii(s),
    ensures
        all_ascii(ascii_lowered(s)),
        ascii_lowered(ascii_lowered(s)) == ascii_lowered(s),
{
    let l = ascii_lowered(s);
    assert forall|i: int| 0 <= i < l.len() implies (#[trigger] l[i] as u32) < 128 by {
        assert(l[i] == ascii_lower(s[i]));
        assert((s[i] as u32) < 128);
    }
    assert forall|i: int| 0 <= i < l.len() implies #[trigger] ascii_lowered(l)[i] == l[i] by {
        assert(l[i] == ascii_lower(s[i]));
    }
    assert(ascii_lowered(l) =~= l);
}

/// What `str::to_lowercase` returns for the given characters: the Unicode
/// lower-case mapping, which the standard library implements from its
/// Unicode tables.
pub uninterp spec fn unicode_lowercase(s: Seq<char>) -> Seq<char>;

/// What `str::to_uppercase` returns for the given characters: the Unicode
/// upper-case mapping, which the standard library implements from its
/// Unicode tables.
pub uninterp spec fn unicode_uppercase(s: Seq<char>) -> Seq<char>;

/// What `format!("{:?}", s)` writes for a string slice: the text in double
/// quotes with the standard library's escapes.
pub uninterp spec fn debug_text(s: Seq<char>) -> Seq<char>;

/// Calls `str::to_lowercase`. The contract names its result, a function of the
/// characters alone, and states the one fact the documentation makes plain:
/// on ASCII text the Unicode mapping is the ASCII one (`A`..`Z` to `a`..`z`,
/// every other character unchanged). Nothing is said of other characters.
#[verifier::external_body]
pub(crate) fn to_lowercase(s: &str) -> (r: String)
    ensures
        r@ == unicode_lowercase(s@),
        all_ascii(s@) ==> r@ == s@.map_values(|c: char| ascii_lower(c)),
{
    s.to_lowercase()
}

/// Calls `str::to_uppercase`. The contract names its result, a function of the
/// characters alone, and states that on ASCII text it is the ASCII mapping
/// (`a`..`z` to `A`..`Z`, every other character unchanged). Nothing is said of
/// other characters.
#[verifier::external_body]
pub(crate) fn to_uppercase(s: &str) -> (r: String)
    ensures
        r@ == unicode_uppercase(s@),
        all_ascii(s@) ==> r@ == s@.map_values(|c: char| ascii_upper(c)),
{
    s.to_uppercase()
}

/// Calls the standard library's `Debug` formatting of a string slice
/// (`format!("{:?}", s)`). The contract names the result, a function of the
/// characters alone; the escaping rules are not restated.
#[verifier::external_body]
pub(crate) fn debug_str(s: &str) -> (r: String)
    ensures
        r@ == debug_text(s@),
{
    format!("{:?}", s)
}

} // verus!

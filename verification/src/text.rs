//! Small verified helpers on text, stated over the characters of a string.

use vstd::prelude::*;
use vstd::string::*;

verus! {

/// `k` is where the first line of `text` ends: no line feed lies before `k`, and
/// `k` is either the position of a line feed or the end of the text.
pub open spec fn is_line_end(text: Seq<char>, k: int) -> bool {
    &&& 0 <= k <= text.len()
    &&& forall|i: int| 0 <= i < k ==> text[i] != '\n'
    &&& (k == text.len() || text[k] == '\n')
}

/// The text up to, and without, its first line feed; the whole text where it has none.
pub open spec fn first_line_of(text: Seq<char>) -> Seq<char> {
    text.take(choose|k: int| is_line_end(text, k))
}

/// There is exactly one place where the first line ends.
pub proof fn lemma_line_end_unique(text: Seq<char>, a: int, b: int)
    requires
        is_line_end(text, a),
        is_line_end(text, b),
    ensures
        a == b,
{
    if a < b {
        assert(text[a] != '\n');
    } else if b < a {
        assert(text[b] != '\n');
    }
}

/// `needle` occurs in `hay` as a contiguous run of characters starting at `at`.
pub open spec fn occurs_at(hay: Seq<char>, needle: Seq<char>, at: int) -> bool {
    &&& 0 <= at
    &&& at + needle.len() <= hay.len()
    &&& hay.subrange(at, at + needle.len()) == needle
}

/// `needle` occurs somewhere in `hay`.
pub open spec fn occurs_in(hay: Seq<char>, needle: Seq<char>) -> bool {
    exists|at: int| occurs_at(hay, needle, at)
}

/// The pieces put together again, with one `/` between each two neighbours.
pub open spec fn joined_by_slash(pieces: Seq<Seq<char>>) -> Seq<char>
    decreases pieces.len(),
{
    if pieces.len() == 0 {
        Seq::empty()
    } else if pieces.len() == 1 {
        pieces[0]
    } else {
        joined_by_slash(pieces.drop_last()) + seq!['/'] + pieces.last()
    }
}

/// `pieces` is `text` cut at every `/`: at least one piece, none with a `/` in it,
/// and together, with the slashes back in place, the text.
pub open spec fn is_split_at_slashes(text: Seq<char>, pieces: Seq<Seq<char>>) -> bool {
    &&& pieces.len() >= 1
    &&& forall|i: int| 0 <= i < pieces.len() ==> !(#[trigger] pieces[i]).contains('/')
    &&& joined_by_slash(pieces) == text
}

/// A text can be cut at its slashes in one way only.
pub proof fn lemma_split_unique(text: Seq<char>, p: Seq<Seq<char>>, q: Seq<Seq<char>>)
    requires
        is_split_at_slashes(text, p),
        is_split_at_slashes(text, q),
    ensures
        p == q,
    decreases p.len(),
{
    if p.len() == 1 && q.len() == 1 {
        assert(p =~= q);
    } else if p.len() == 1 {
        let at = joined_by_slash(q.drop_last()).len() as int;
        assert(text[at] == '/');
        assert(p[0][at] == '/');
        assert(p[0].contains('/'));
    } else if q.len() == 1 {
        let at = joined_by_slash(p.drop_last()).len() as int;
        assert(text[at] == '/');
        assert(q[0][at] == '/');
        assert(q[0].contains('/'));
    } else {
        let a = joined_by_slash(p.drop_last()).len() as int;
        let b = joined_by_slash(q.drop_last()).len() as int;
        assert(text == joined_by_slash(p.drop_last()) + seq!['/'] + p.last());
        assert(text == joined_by_slash(q.drop_last()) + seq!['/'] + q.last());
        assert(text.len() == a + 1 + p.last().len());
        assert(text.len() == b + 1 + q.last().len());
        assert(text[a] == '/');
        assert(text[b] == '/');
        if a < b {
            assert(p.last()[b - a - 1] == text[b]);
            assert(p.last().contains('/'));
        } else if b < a {
            assert(q.last()[a - b - 1] == text[a]);
            assert(q.last().contains('/'));
        }
        assert(joined_by_slash(p.drop_last()) =~= text.take(a));
        assert(joined_by_slash(q.drop_last()) =~= text.take(a));
        assert(p.last() =~= text.skip(a + 1));
        assert(q.last() =~= text.skip(a + 1));
        assert(is_split_at_slashes(text.take(a), p.drop_last())) by {
            assert forall|i: int| 0 <= i < p.drop_last().len() implies !(
            #[trigger] p.drop_last()[i]).contains('/') by {
                assert(p.drop_last()[i] == p[i]);
            }
        }
        assert(is_split_at_slashes(text.take(a), q.drop_last())) by {
            assert forall|i: int| 0 <= i < q.drop_last().len() implies !(
            #[trigger] q.drop_last()[i]).contains('/') by {
                assert(q.drop_last()[i] == q[i]);
            }
        }
        lemma_split_unique(text.take(a), p.drop_last(), q.drop_last());
        assert(p =~= p.drop_last().push(p.last()));
        assert(q =~= q.drop_last().push(q.last()));
    }
}

/// Whether a character is one of the ten decimal digits.
pub open spec fn is_digit(c: char) -> bool {
    '0' <= c && c <= '9'
}

/// Whether a text is a bare number: decimal digits with at most one point among
/// them, and at least one digit. A sign, an exponent and a word such as `inf` or
/// `NaN` make a text something else.
pub open spec fn is_bare_number(text: Seq<char>) -> bool {
    &&& forall|i: int| 0 <= i < text.len() ==> is_digit(#[trigger] text[i]) || text[i] == '.'
    &&& exists|i: int| 0 <= i < text.len() && is_digit(#[trigger] text[i])
    &&& forall|i: int, j: int|
        0 <= i < j < text.len() ==> !(#[trigger] text[i] == '.' && #[trigger] text[j] == '.')
}

/// Whether `text` begins with `prefix`.
pub open spec fn has_prefix(text: Seq<char>, prefix: Seq<char>) -> bool {
    prefix.len() <= text.len() && text.take(prefix.len() as int) == prefix
}

/// Whether two strings hold the same characters.
pub fn same_text(a: &str, b: &str) -> (same: bool)
    ensures
        same == (a@ == b@),
{
    let x = a.to_owned();
    let y = b.to_owned();
    x == y
}

/// The characters of `a`, then those of `b`, then those of `c`.
pub fn join3(a: &str, b: &str, c: &str) -> (joined: String)
    ensures
        joined@ == a@ + b@ + c@,
{
    let mut joined = a.to_owned();
    joined.append(b);
    joined.append(c);
    joined
}

/// What follows `prefix` in `text`, where `text` begins with it.
pub fn strip_prefix<'a>(text: &'a str, prefix: &str) -> (rest: Option<&'a str>)
    ensures
        match rest {
            Some(rest) => has_prefix(text@, prefix@) && rest@ == text@.skip(prefix@.len() as int),
            None => !has_prefix(text@, prefix@),
        },
{
    let n = prefix.unicode_len();
    let m = text.unicode_len();
    if n > m {
        return None;
    }
    let head = text.substring_char(0, n);
    assert(text@.subrange(0, n as int) =~= text@.take(n as int));
    if same_text(head, prefix) {
        let rest = text.substring_char(n, m);
        assert(text@.subrange(n as int, m as int) =~= text@.skip(n as int));
        Some(rest)
    } else {
        None
    }
}

/// The first line of `text`: everything before its first line feed.
pub fn first_line(text: &str) -> (line: &str)
    ensures
        line@ == first_line_of(text@),
        is_line_end(text@, line@.len() as int),
{
    let n = text.unicode_len();
    let mut k: usize = 0;
    while k < n && text.get_char(k) != '\n'
        invariant
            n == text@.len(),
            k <= n,
            forall|i: int| 0 <= i < k ==> text@[i] != '\n',
        decreases n - k,
    {
        k = k + 1;
    }
    proof {
        assert(is_line_end(text@, k as int));
        let c = choose|c: int| is_line_end(text@, c);
        lemma_line_end_unique(text@, c, k as int);
    }
    text.substring_char(0, k)
}

/// Whether `needle` occurs at position `at` of `hay`, both given as characters.
fn matches_at(hay: &Vec<char>, needle: &Vec<char>, at: usize) -> (found: bool)
    requires
        at + needle.len() <= hay.len(),
    ensures
        found == occurs_at(hay@, needle@, at as int),
{
    let mut j: usize = 0;
    while j < needle.len()
        invariant
            j <= needle.len(),
            at + needle.len() <= hay.len(),
            forall|i: int| 0 <= i < j ==> hay@[at + i] == needle@[i],
        decreases needle.len() - j,
    {
        if hay[at + j] != needle[j] {
            proof {
                let window = hay@.subrange(at as int, at + needle.len());
                assert(window[j as int] == hay@[at + j]);
            }
            return false;
        }
        j = j + 1;
    }
    assert(hay@.subrange(at as int, at + needle.len()) =~= needle@);
    true
}

/// Whether a text is a bare number.
pub fn bare_number(text: &str) -> (bare: bool)
    ensures
        bare == is_bare_number(text@),
{
    let chars = chars_of(text);
    let mut digit_seen = false;
    let mut point_seen = false;
    let ghost mut digit_at: int = 0;
    let ghost mut point_at: int = 0;
    let mut k: usize = 0;
    while k < chars.len()
        invariant
            chars@ == text@,
            k <= chars.len(),
            forall|i: int| 0 <= i < k ==> is_digit(#[trigger] chars@[i]) || chars@[i] == '.',
            digit_seen ==> 0 <= digit_at < k && is_digit(chars@[digit_at]),
            !digit_seen ==> forall|i: int| 0 <= i < k ==> !is_digit(#[trigger] chars@[i]),
            point_seen ==> 0 <= point_at < k && chars@[point_at] == '.',
            !point_seen ==> forall|i: int| 0 <= i < k ==> #[trigger] chars@[i] != '.',
            forall|i: int, j: int|
                0 <= i < j < k ==> !(#[trigger] chars@[i] == '.' && #[trigger] chars@[j] == '.'),
        decreases chars.len() - k,
    {
        let c = chars[k];
        if c >= '0' && c <= '9' {
            digit_seen = true;
            proof {
                digit_at = k as int;
            }
        } else if c == '.' {
            if point_seen {
                assert(chars@[point_at] == '.' && chars@[k as int] == '.');
                return false;
            }
            point_seen = true;
            proof {
                point_at = k as int;
            }
        } else {
            assert(!(is_digit(chars@[k as int]) || chars@[k as int] == '.'));
            return false;
        }
        k = k + 1;
    }
    digit_seen
}

/// The characters of a string, one by one.
pub fn chars_of(text: &str) -> (chars: Vec<char>)
    ensures
        chars@ == text@,
{
    let n = text.unicode_len();
    let mut chars: Vec<char> = Vec::new();
    let mut i: usize = 0;
    while i < n
        invariant
            n == text@.len(),
            i <= n,
            chars@ == text@.take(i as int),
        decreases n - i,
    {
        chars.push(text.get_char(i));
        assert(chars@ =~= text@.take(i + 1));
        i = i + 1;
    }
    assert(text@.take(n as int) =~= text@);
    chars
}

/// Whether `needle` occurs anywhere in `hay`.
pub fn contains_text(hay: &str, needle: &str) -> (found: bool)
    ensures
        found == occurs_in(hay@, needle@),
{
    let h = chars_of(hay);
    let p = chars_of(needle);
    if p.len() > h.len() {
        return false;
    }
    let last: usize = h.len() - p.len();
    let mut at: usize = 0;
    loop
        invariant
            h@ == hay@,
            p@ == needle@,
            last == h.len() - p.len(),
            at <= last,
            forall|i: int| 0 <= i < at ==> !occurs_at(h@, p@, i),
        decreases last - at,
    {
        if matches_at(&h, &p, at) {
            return true;
        }
        if at == last {
            return false;
        }
        at = at + 1;
    }
}

/// Cuts `text` at every `/`. A text without `/` is one piece; two neighbouring
/// slashes, or one at either end, give an empty piece.
pub fn split_at_slashes(text: &str) -> (pieces: Vec<String>)
    ensures
        is_split_at_slashes(text@, pieces.deep_view()),
{
    let n = text.unicode_len();
    let mut pieces: Vec<String> = Vec::new();
    let mut start: usize = 0;
    let mut i: usize = 0;
    while i < n
        invariant
            n == text@.len(),
            start <= i <= n,
            forall|j: int| 0 <= j < pieces@.len() ==> !(#[trigger] pieces@[j])@.contains('/'),
            forall|j: int| start <= j < i ==> text@[j] != '/',
            joined_by_slash(pieces.deep_view().push(text@.subrange(start as int, i as int)))
                == text@.take(i as int),
        decreases n - i,
    {
        let ghost done = pieces.deep_view();
        let ghost current = text@.subrange(start as int, i as int);
        if text.get_char(i) == '/' {
            pieces.push(text.substring_char(start, i).to_owned());
            proof {
                let after = pieces.deep_view();
                assert(after =~= done.push(current));
                assert(!current.contains('/'));
                let empty = text@.subrange(i + 1, i + 1);
                assert(after.push(empty).drop_last() =~= after);
                assert(text@.take(i as int) + seq!['/'] + empty =~= text@.take(i + 1));
            }
            start = i + 1;
        } else {
            proof {
                let longer = text@.subrange(start as int, i + 1);
                assert(longer =~= current.push(text@[i as int]));
                assert(done.push(longer).drop_last() =~= done);
                assert(done.push(current).drop_last() =~= done);
                if done.len() > 0 {
                    assert(joined_by_slash(done) + seq!['/'] + longer =~= (joined_by_slash(done)
                        + seq!['/'] + current).push(text@[i as int]));
                }
                assert(text@.take(i + 1) =~= text@.take(i as int).push(text@[i as int]));
            }
        }
        i = i + 1;
    }
    let ghost done = pieces.deep_view();
    let ghost current = text@.subrange(start as int, n as int);
    pieces.push(text.substring_char(start, n).to_owned());
    proof {
        assert(pieces.deep_view() =~= done.push(current));
        assert(!current.contains('/'));
        assert(text@.take(n as int) =~= text@);
        assert forall|j: int| 0 <= j < pieces.deep_view().len() implies !(
        #[trigger] pieces.deep_view()[j]).contains('/') by {
            assert(pieces.deep_view()[j] == pieces@[j]@);
        }
    }
    pieces
}

} // verus!

//! Character-level operations on text: white space, trimming, splitting on a
//! separator, prefix tests and comparison, each with its meaning on sequences
//! of characters.

use vstd::prelude::*;

verus! {

/// White space: the code points that Unicode marks as `White_Space`.
pub open spec fn is_space(c: char) -> bool {
    let n = c as u32;
    ||| 0x09 <= n <= 0x0d
    ||| n == 0x20
    ||| n == 0x85
    ||| n == 0xa0
    ||| n == 0x1680
    ||| 0x2000 <= n <= 0x200a
    ||| n == 0x2028
    ||| n == 0x2029
    ||| n == 0x202f
    ||| n == 0x205f
    ||| n == 0x3000
}

/// `s` without its leading white space.
pub open spec fn skip_spaces(s: Seq<char>) -> Seq<char>
    decreases s.len(),
{
    if s.len() > 0 && is_space(s[0]) {
        skip_spaces(s.drop_first())
    } else {
        s
    }
}

/// `s` without its trailing white space.
pub open spec fn drop_trailing_spaces(s: Seq<char>) -> Seq<char>
    decreases s.len(),
{
    if s.len() > 0 && is_space(s.last()) {
        drop_trailing_spaces(s.drop_last())
    } else {
        s
    }
}

/// `s` without leading and trailing white space.
pub open spec fn trimmed(s: Seq<char>) -> Seq<char> {
    drop_trailing_spaces(skip_spaces(s))
}

/// The pieces of `rest` between occurrences of `sep`, read from the left, where
/// `piece` holds the characters of the current piece that were read already.
pub open spec fn pieces_acc(rest: Seq<char>, sep: Seq<char>, piece: Seq<char>) -> Seq<Seq<char>>
    decreases rest.len(),
{
    if rest.len() == 0 {
        seq![piece]
    } else if sep.len() > 0 && sep.is_prefix_of(rest) {
        seq![piece] + pieces_acc(rest.skip(sep.len() as int), sep, Seq::empty())
    } else {
        pieces_acc(rest.drop_first(), sep, piece.push(rest[0]))
    }
}

/// The pieces of `s` between the occurrences of `sep`, which are found from the
/// left and do not overlap. There is always at least one piece; with an empty
/// separator the one piece is `s`.
pub open spec fn pieces(s: Seq<char>, sep: Seq<char>) -> Seq<Seq<char>> {
    pieces_acc(s, sep, Seq::empty())
}

/// Text without an occurrence of the first character of the separator is one
/// piece.
pub proof fn lemma_one_piece(rest: Seq<char>, sep: Seq<char>, piece: Seq<char>)
    requires
        sep.len() > 0,
        forall|i: int| 0 <= i < rest.len() ==> rest[i] != sep[0],
    ensures
        pieces_acc(rest, sep, piece) == seq![piece + rest],
    decreases rest.len(),
{
    if rest.len() == 0 {
        assert(piece + rest =~= piece);
    } else {
        assert(!sep.is_prefix_of(rest)) by {
            if sep.is_prefix_of(rest) {
                assert(rest.subrange(0, sep.len() as int)[0] == sep[0]);
            }
        }
        lemma_one_piece(rest.drop_first(), sep, piece.push(rest[0]));
        assert(piece.push(rest[0]) + rest.drop_first() =~= piece + rest);
    }
}

/// Where the separator stands behind text that holds none of its first
/// character, a piece ends there and the next begins behind the separator.
pub proof fn lemma_piece_ends_at_separator(
    head: Seq<char>,
    sep: Seq<char>,
    tail: Seq<char>,
    piece: Seq<char>,
)
    requires
        sep.len() > 0,
        forall|i: int| 0 <= i < head.len() ==> head[i] != sep[0],
    ensures
        pieces_acc(head + sep + tail, sep, piece) == seq![piece + head] + pieces_acc(
            tail,
            sep,
            Seq::empty(),
        ),
    decreases head.len(),
{
    let rest = head + sep + tail;
    if head.len() == 0 {
        assert(rest =~= sep + tail);
        assert(sep.is_prefix_of(rest)) by {
            assert(rest.subrange(0, sep.len() as int) =~= sep);
        }
        assert(rest.skip(sep.len() as int) =~= tail);
        assert(piece + head =~= piece);
    } else {
        assert(!sep.is_prefix_of(rest)) by {
            if sep.is_prefix_of(rest) {
                assert(rest.subrange(0, sep.len() as int)[0] == sep[0]);
                assert(rest[0] == head[0]);
            }
        }
        assert(rest.drop_first() =~= head.drop_first() + sep + tail);
        assert(rest[0] == head[0]);
        lemma_piece_ends_at_separator(head.drop_first(), sep, tail, piece.push(head[0]));
        assert(piece.push(head[0]) + head.drop_first() =~= piece + head);
    }
}

/// What is left of white space alone when its leading white space is taken
/// away is empty.
proof fn lemma_skip_spaces_of_blank(s: Seq<char>)
    requires
        forall|i: int| 0 <= i < s.len() ==> is_space(s[i]),
    ensures
        skip_spaces(s).len() == 0,
    decreases s.len(),
{
    if s.len() > 0 {
        lemma_skip_spaces_of_blank(s.drop_first());
    }
}

/// What `skip_spaces` leaves is empty or begins with another character than
/// white space, and nothing is left only of white space alone.
proof fn lemma_skip_spaces(s: Seq<char>)
    ensures
        skip_spaces(s).len() == 0 || !is_space(skip_spaces(s)[0]),
        skip_spaces(s).len() == 0 ==> forall|i: int| 0 <= i < s.len() ==> is_space(s[i]),
    decreases s.len(),
{
    if s.len() > 0 && is_space(s[0]) {
        let rest = s.drop_first();
        lemma_skip_spaces(rest);
        if skip_spaces(s).len() == 0 {
            assert forall|i: int| 0 <= i < s.len() implies is_space(s[i]) by {
                if i > 0 {
                    assert(s[i] == rest[i - 1]);
                }
            }
        }
    }
}

/// Nothing is left by `drop_trailing_spaces` only of white space alone.
proof fn lemma_drop_trailing_spaces(s: Seq<char>)
    ensures
        drop_trailing_spaces(s).len() == 0 ==> forall|i: int| 0 <= i < s.len() ==> is_space(s[i]),
    decreases s.len(),
{
    if s.len() > 0 && is_space(s.last()) {
        let rest = s.drop_last();
        lemma_drop_trailing_spaces(rest);
        if drop_trailing_spaces(s).len() == 0 {
            assert forall|i: int| 0 <= i < s.len() implies is_space(s[i]) by {
                if i < s.len() - 1 {
                    assert(s[i] == rest[i]);
                }
            }
        }
    }
}

/// Trimming leaves nothing if and only if the text is white space alone.
pub proof fn lemma_trimmed_blank(s: Seq<char>)
    ensures
        trimmed(s).len() == 0 <==> forall|i: int| 0 <= i < s.len() ==> is_space(s[i]),
{
    lemma_skip_spaces(s);
    lemma_drop_trailing_spaces(skip_spaces(s));
    if forall|i: int| 0 <= i < s.len() ==> is_space(s[i]) {
        lemma_skip_spaces_of_blank(s);
    }
}

/// Trimming changes no text that is empty or has another character than white
/// space at both ends.
pub proof fn lemma_trimmed_is_self(s: Seq<char>)
    requires
        s.len() == 0 || (!is_space(s[0]) && !is_space(s.last())),
    ensures
        trimmed(s) == s,
{
}

/// The views of a sequence of string slices.
pub open spec fn slice_views(pieces: Seq<&str>) -> Seq<Seq<char>> {
    Seq::new(pieces.len(), |i: int| pieces[i]@)
}

/// The characters of `s`, in order.
pub fn chars_of(s: &str) -> (chars: Vec<char>)
    ensures
        chars@ == s@,
{
    let mut chars: Vec<char> = Vec::new();
    for c in iter: s.chars()
        invariant
            iter.seq() == s@,
            chars@ == s@.take(iter.index()),
    {
        chars.push(c);
    }
    chars
}

/// Whether `c` is white space.
pub fn is_space_char(c: char) -> (r: bool)
    ensures
        r == is_space(c),
{
    let n: u32 = c as u32;
    (0x09 <= n && n <= 0x0d) || n == 0x20 || n == 0x85 || n == 0xa0 || n == 0x1680 || (0x2000 <= n
        && n <= 0x200a) || n == 0x2028 || n == 0x2029 || n == 0x202f || n == 0x205f || n == 0x3000
}

/// `s` without leading and trailing white space.
pub fn trim<'a>(s: &'a str) -> (r: &'a str)
    ensures
        r@ == trimmed(s@),
{
    let chars = chars_of(s);
    let n = chars.len();
    let mut a: usize = 0;
    assert(s@.skip(0) =~= s@);
    while a < n && is_space_char(chars[a])
        invariant
            a <= n,
            n == s@.len(),
            chars@ == s@,
            skip_spaces(s@) == skip_spaces(s@.skip(a as int)),
        decreases n - a,
    {
        assert(s@.skip(a as int).drop_first() =~= s@.skip(a + 1));
        a += 1;
    }
    let mut b: usize = n;
    assert(s@.skip(a as int) =~= s@.subrange(a as int, n as int));
    while b > a && is_space_char(chars[b - 1])
        invariant
            a <= b <= n,
            n == s@.len(),
            chars@ == s@,
            trimmed(s@) == drop_trailing_spaces(s@.subrange(a as int, b as int)),
        decreases b - a,
    {
        assert(s@.subrange(a as int, b as int).drop_last() =~= s@.subrange(a as int, b - 1));
        b -= 1;
    }
    s.substring_char(a, b)
}

/// Whether `chars` holds exactly the characters of `text`.
pub fn text_is(chars: &Vec<char>, text: &str) -> (r: bool)
    ensures
        r == (chars@ == text@),
{
    let mut same = true;
    let mut i: usize = 0;
    for c in iter: text.chars()
        invariant
            iter.seq() == text@,
            same ==> i == iter.index(),
            same ==> i <= chars.len(),
            same == (iter.index() <= chars.len() && chars@.take(iter.index()) =~= text@.take(
                iter.index(),
            )),
    {
        let ghost k = iter.index();
        if same && i < chars.len() && chars[i] == c {
            assert(chars@.take(k + 1) =~= chars@.take(k).push(chars@[k]));
            assert(text@.take(k + 1) =~= text@.take(k).push(text@[k]));
            i += 1;
        } else {
            proof {
                if k + 1 <= chars.len() && chars@.take(k + 1) == text@.take(k + 1) {
                    assert(chars@.take(k) =~= chars@.take(k + 1).take(k));
                    assert(text@.take(k) =~= text@.take(k + 1).take(k));
                    assert(chars@[k] == chars@.take(k + 1)[k]);
                    assert(text@[k] == text@.take(k + 1)[k]);
                }
            }
            same = false;
        }
    }
    proof {
        if same && i == chars.len() {
            assert(chars@.take(i as int) =~= chars@);
            assert(text@.take(i as int) =~= text@);
        }
        if chars@ == text@ {
            assert(chars@.take(text@.len() as int) =~= text@.take(text@.len() as int));
        }
    }
    same && i == chars.len()
}

/// Whether `a` and `b` hold the same characters.
pub fn same_text(a: &str, b: &str) -> (r: bool)
    ensures
        r == (a@ == b@),
{
    let chars = chars_of(a);
    text_is(&chars, b)
}

/// Whether `sep` stands in `chars` at position `at`.
fn occurs_at(chars: &Vec<char>, sep: &Vec<char>, at: usize) -> (r: bool)
    requires
        at <= chars.len(),
    ensures
        r == sep@.is_prefix_of(chars@.skip(at as int)),
{
    if sep.len() > chars.len() - at {
        return false;
    }
    let mut k: usize = 0;
    while k < sep.len()
        invariant
            k <= sep.len(),
            at + sep.len() <= chars.len(),
            forall|j: int| 0 <= j < k ==> chars@[at + j] == sep@[j],
        decreases sep.len() - k,
    {
        if chars[at + k] != sep[k] {
            assert(chars@.skip(at as int).subrange(0, sep@.len() as int)[k as int] != sep@[k as int]);
            return false;
        }
        k += 1;
    }
    assert(sep@ =~= chars@.skip(at as int).subrange(0, sep@.len() as int));
    true
}

/// Whether `s` begins with `prefix`.
pub fn starts_with(s: &str, prefix: &str) -> (r: bool)
    ensures
        r == prefix@.is_prefix_of(s@),
{
    let chars = chars_of(s);
    let head = chars_of(prefix);
    assert(s@.skip(0) =~= s@);
    occurs_at(&chars, &head, 0)
}

/// The pieces of `s` between the occurrences of `sep`.
pub fn split<'a>(s: &'a str, sep: &str) -> (parts: Vec<&'a str>)
    ensures
        slice_views(parts@) == pieces(s@, sep@),
        parts@.len() > 0,
{
    let chars = chars_of(s);
    let mark = chars_of(sep);
    let n = chars.len();
    let m = mark.len();
    let mut parts: Vec<&'a str> = Vec::new();
    let mut start: usize = 0;
    let mut i: usize = 0;
    assert(s@.skip(0) =~= s@);
    assert(s@.subrange(0, 0) =~= Seq::<char>::empty());
    assert(slice_views(parts@) + pieces(s@, sep@) =~= pieces(s@, sep@));
    while i < n
        invariant
            start <= i <= n,
            n == s@.len(),
            m == sep@.len(),
            chars@ == s@,
            mark@ == sep@,
            pieces(s@, sep@) == slice_views(parts@) + pieces_acc(
                s@.skip(i as int),
                sep@,
                s@.subrange(start as int, i as int),
            ),
        decreases n - i,
    {
        let ghost before = slice_views(parts@);
        let ghost piece = s@.subrange(start as int, i as int);
        if m > 0 && occurs_at(&chars, &mark, i) {
            parts.push(s.substring_char(start, i));
            assert(slice_views(parts@) =~= before + seq![piece]);
            assert(s@.skip(i as int).skip(m as int) =~= s@.skip(i + m));
            i += m;
            start = i;
            assert(s@.subrange(start as int, i as int) =~= Seq::<char>::empty());
        } else {
            assert(s@.skip(i as int).drop_first() =~= s@.skip(i + 1));
            assert(piece.push(s@.skip(i as int)[0]) =~= s@.subrange(start as int, i + 1));
            i += 1;
        }
    }
    let ghost before = slice_views(parts@);
    parts.push(s.substring_char(start, n));
    assert(slice_views(parts@) =~= before + seq![s@.subrange(start as int, n as int)]);
    parts
}

} // verus!

//! The segments of a rule's contents and their pairing: each key or button
//! takes the modifier expression that follows it, if one does.

use crate::error::{after, outcome, ConvError, ConvErrorView, SegmentKind};
use crate::json::{KeyOrButton, KeyOrButtonView};
use crate::text::{pieces, slice_views, split, starts_with, trim, trimmed};
use crate::token::{conv_key, conv_mod, key_of, modifiers_of, namespace_and_name, namespace_of};
use vstd::prelude::*;

verus! {

/// A key or button with its modifier clause. A pair without a clause differs
/// from one whose clause names no modifier.
#[derive(Debug, Clone, PartialEq)]
pub struct TokenPair {
    pub key: KeyOrButton,
    pub mods: Option<Vec<String>>,
}

/// A `TokenPair` with its texts as sequences of characters.
pub struct TokenPairView {
    pub key: KeyOrButtonView,
    pub mods: Option<Seq<Seq<char>>>,
}

impl DeepView for TokenPair {
    type V = TokenPairView;

    open spec fn deep_view(&self) -> TokenPairView {
        TokenPairView { key: self.key.deep_view(), mods: self.mods.deep_view() }
    }
}

/// The segments of a rule's contents: its pieces between commas, each trimmed.
pub open spec fn segments_of(contents: Seq<char>) -> Seq<Seq<char>> {
    let parts = pieces(contents, ","@);
    Seq::new(parts.len(), |i: int| trimmed(parts[i]))
}

/// Whether a segment opens a pair: it begins with the marker of the key
/// namespace or with that of the button namespace.
pub open spec fn opens_pair(segment: Seq<char>) -> bool {
    "Key"@.is_prefix_of(segment) || "PointingButton"@.is_prefix_of(segment)
}

/// The pairs that `segments` make when a pair has just ended. A segment that
/// opens no pair cannot stand here: it would be a second clause for one key.
pub open spec fn pairs_from(segments: Seq<Seq<char>>) -> Result<Seq<TokenPairView>, ConvErrorView>
    decreases segments.len(),
{
    if segments.len() == 0 {
        Ok(Seq::empty())
    } else if !opens_pair(segments[0]) {
        Err(ConvErrorView::MalformedEncoding)
    } else {
        match key_of(segments[0]) {
            Err(error) => Err(error),
            Ok(key) => if segments.len() > 1 && !opens_pair(segments[1]) {
                match modifiers_of(segments[1]) {
                    Err(error) => Err(error),
                    Ok(mods) => after(
                        seq![TokenPairView { key, mods: Some(mods) }],
                        pairs_from(segments.skip(2)),
                    ),
                }
            } else {
                after(seq![TokenPairView { key, mods: None }], pairs_from(segments.skip(1)))
            },
        }
    }
}

/// The pairs that the segments of a rule make. The first segment must open a
/// pair; its namespace is refused where it opens none.
pub open spec fn pairs_of(segments: Seq<Seq<char>>) -> Result<Seq<TokenPairView>, ConvErrorView> {
    if segments.len() > 0 && !opens_pair(segments[0]) {
        Err(ConvErrorView::UnknownNamespace(SegmentKind::Key, namespace_of(segments[0])))
    } else {
        pairs_from(segments)
    }
}

/// A position in the segments of a rule's contents.
pub struct Cursor<'a> {
    segments: Vec<&'a str>,
    pos: usize,
}

impl<'a> Cursor<'a> {
    #[verifier::type_invariant]
    spec fn in_range(self) -> bool {
        self.pos <= self.segments.len()
    }

    /// The segments from the position on.
    pub closed spec fn remaining(self) -> Seq<Seq<char>> {
        slice_views(self.segments@).skip(self.pos as int)
    }

    /// A cursor at the first segment of `contents`.
    pub fn new(contents: &'a str) -> (cursor: Self)
        ensures
            cursor.remaining() == segments_of(contents@),
    {
        let parts = split(contents, ",");
        let mut segments: Vec<&'a str> = Vec::new();
        let mut i: usize = 0;
        while i < parts.len()
            invariant
                i <= parts.len(),
                slice_views(parts@) == pieces(contents@, ","@),
                segments.len() == i,
                forall|j: int| 0 <= j < i ==> segments@[j]@ == trimmed(#[trigger] parts@[j]@),
            decreases parts.len() - i,
        {
            segments.push(trim(parts[i]));
            i += 1;
        }
        assert(slice_views(segments@).skip(0) =~= segments_of(contents@)) by {
            let parts_view = pieces(contents@, ","@);
            assert forall|j: int| 0 <= j < segments.len() implies slice_views(segments@)[j]
                == segments_of(contents@)[j] by {
                assert(parts@[j]@ == parts_view[j]);
            }
        }
        Cursor { segments, pos: 0 }
    }

    /// The segment at the position, if there is one.
    pub fn peek(&self) -> (segment: Option<&'a str>)
        ensures
            match segment {
                Some(s) => self.remaining().len() > 0 && s@ == self.remaining()[0],
                None => self.remaining().len() == 0,
            },
    {
        proof {
            use_type_invariant(self);
        }
        if self.pos < self.segments.len() {
            Some(self.segments[self.pos])
        } else {
            None
        }
    }

    /// Passes the segment at the position, and returns it. At the end there is
    /// none, and the cursor stays.
    pub fn advance(&mut self) -> (segment: Option<&'a str>)
        ensures
            match segment {
                Some(s) => old(self).remaining().len() > 0 && s@ == old(self).remaining()[0]
                    && final(self).remaining() == old(self).remaining().skip(1),
                None => old(self).remaining().len() == 0 && final(self).remaining() == old(
                    self,
                ).remaining(),
            },
    {
        proof {
            use_type_invariant(&*self);
        }
        if self.pos < self.segments.len() {
            let segment = self.segments[self.pos];
            assert(slice_views(self.segments@).skip(self.pos as int).skip(1) =~= slice_views(
                self.segments@,
            ).skip(self.pos + 1));
            self.pos += 1;
            Some(segment)
        } else {
            None
        }
    }
}

/// Whether `segment` opens a pair.
pub fn is_pair_start(segment: &str) -> (r: bool)
    ensures
        r == opens_pair(segment@),
{
    starts_with(segment, "Key") || starts_with(segment, "PointingButton")
}

/// Pairs the segments of `contents`: scanning from the left, a segment that
/// opens a pair is converted as a key or button, and the segment after it, if it
/// opens no pair itself, as that pair's modifier expression.
pub fn pair_tokens(contents: &str) -> (r: Result<Vec<TokenPair>, ConvError>)
    ensures
        outcome(r) == pairs_of(segments_of(contents@)),
{
    let mut cursor = Cursor::new(contents);
    let ghost all = segments_of(contents@);
    if let Some(first) = cursor.peek() {
        if !is_pair_start(first) {
            let (namespace, _) = namespace_and_name(first);
            return Err(ConvError::UnknownNamespace(SegmentKind::Key, namespace.to_owned()));
        }
    }
    let mut pairs: Vec<TokenPair> = Vec::new();
    assert(pairs.deep_view() =~= Seq::<TokenPairView>::empty());
    assert(forall|rest: Seq<TokenPairView>| Seq::<TokenPairView>::empty() + rest =~= rest);
    loop
        invariant
            all == segments_of(contents@),
            pairs_of(all) == pairs_from(all),
            pairs_from(all) == after(pairs.deep_view(), pairs_from(cursor.remaining())),
        decreases cursor.remaining().len(),
    {
        let ghost done = pairs.deep_view();
        let ghost rest = cursor.remaining();
        let segment = match cursor.advance() {
            Some(segment) => segment,
            None => {
                assert(done + Seq::<TokenPairView>::empty() =~= done);
                return Ok(pairs);
            },
        };
        if !is_pair_start(segment) {
            return Err(ConvError::MalformedEncoding);
        }
        let key = match conv_key(segment) {
            Ok(key) => key,
            Err(error) => {
                return Err(error);
            },
        };
        let mods = match cursor.peek() {
            Some(next) => {
                if is_pair_start(next) {
                    None
                } else {
                    cursor.advance();
                    assert(rest.skip(1).skip(1) =~= rest.skip(2));
                    match conv_mod(next) {
                        Ok(mods) => Some(mods),
                        Err(error) => {
                            return Err(error);
                        },
                    }
                }
            },
            None => None,
        };
        let pair = TokenPair { key, mods };
        pairs.push(pair);
        assert(pairs.deep_view() =~= done + seq![pair.deep_view()]);
        assert forall|tail: Seq<TokenPairView>| done + (seq![pair.deep_view()] + tail) == (done
            + seq![pair.deep_view()]) + tail by {
            assert(done + (seq![pair.deep_view()] + tail) =~= (done + seq![pair.deep_view()])
                + tail);
        }
    }
}

/// A modifier expression joins the key before it and makes no pair of its own:
/// a segment that opens a pair and a segment after it that opens none make one
/// pair, and pairing goes on behind them.
pub proof fn lemma_modifier_joins_its_key(
    key_segment: Seq<char>,
    modifier_segment: Seq<char>,
    rest: Seq<Seq<char>>,
)
    requires
        opens_pair(key_segment),
        !opens_pair(modifier_segment),
        key_of(key_segment) is Ok,
        modifiers_of(modifier_segment) is Ok,
    ensures
        pairs_of(seq![key_segment, modifier_segment] + rest) == after(
            seq![
                TokenPairView {
                    key: key_of(key_segment)->Ok_0,
                    mods: Some(modifiers_of(modifier_segment)->Ok_0),
                },
            ],
            pairs_from(rest),
        ),
{
    let segments = seq![key_segment, modifier_segment] + rest;
    assert(segments[0] == key_segment);
    assert(segments[1] == modifier_segment);
    assert(segments.skip(2) =~= rest);
}

/// A key that another key follows has no modifier clause.
pub proof fn lemma_key_before_key_stands_alone(
    key_segment: Seq<char>,
    next_segment: Seq<char>,
    rest: Seq<Seq<char>>,
)
    requires
        opens_pair(key_segment),
        opens_pair(next_segment),
        key_of(key_segment) is Ok,
    ensures
        pairs_of(seq![key_segment, next_segment] + rest) == after(
            seq![TokenPairView { key: key_of(key_segment)->Ok_0, mods: None }],
            pairs_from(seq![next_segment] + rest),
        ),
{
    let segments = seq![key_segment, next_segment] + rest;
    assert(segments[0] == key_segment);
    assert(segments[1] == next_segment);
    assert(segments.skip(1) =~= seq![next_segment] + rest);
}

/// Two modifier expressions in a row are refused.
pub proof fn lemma_second_clause_is_refused(
    key_segment: Seq<char>,
    modifier_segment: Seq<char>,
    second: Seq<char>,
    rest: Seq<Seq<char>>,
)
    requires
        opens_pair(key_segment),
        !opens_pair(modifier_segment),
        !opens_pair(second),
        key_of(key_segment) is Ok,
        modifiers_of(modifier_segment) is Ok,
    ensures
        pairs_of(seq![key_segment, modifier_segment, second] + rest) == Err::<
            Seq<TokenPairView>,
            ConvErrorView,
        >(ConvErrorView::MalformedEncoding),
{
    let segments = seq![key_segment, modifier_segment, second] + rest;
    assert(segments[0] == key_segment);
    assert(segments[1] == modifier_segment);
    assert(segments.skip(2)[0] == second);
    assert(pairs_from(segments.skip(2)) == Err::<Seq<TokenPairView>, ConvErrorView>(
        ConvErrorView::MalformedEncoding,
    ));
}

} // verus!

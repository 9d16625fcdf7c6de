//! The two shapes of a rule and the manipulator that each makes of its pairs.

use crate::error::{outcome, ConvError, ConvErrorView};
use crate::json::{
    from_of, to_of, From, KeyOrButtonConv, Manipulator, ManipulatorView, To, ToView,
};
use crate::stream::{pair_tokens, pairs_of, segments_of, TokenPair, TokenPairView};
use crate::text::same_text;
use vstd::prelude::*;

verus! {

/// How the pairs of a rule are laid out.
#[derive(Debug, Clone, Copy, PartialEq, Eq, Structural)]
pub enum RuleShape {
    /// A trigger, then what it sends.
    KeyToKey,
    /// A trigger, what it sends while held, then what it sends when tapped alone.
    KeyOverlaidModifier,
}

/// The shape that a tag names. There are two tags and no others.
pub open spec fn shape_of(tag: Seq<char>) -> Result<RuleShape, ConvErrorView> {
    if tag == "KeyToKey"@ {
        Ok(RuleShape::KeyToKey)
    } else if tag == "KeyOverlaidModifier"@ {
        Ok(RuleShape::KeyOverlaidModifier)
    } else {
        Err(ConvErrorView::UnsupportedShape(tag))
    }
}

/// The outputs that `pairs` make, one for each pair and in their order.
pub open spec fn outputs_of(pairs: Seq<TokenPairView>) -> Seq<ToView> {
    Seq::new(pairs.len(), |i: int| to_of(pairs[i].key, pairs[i].mods))
}

/// The manipulator that `pairs` make in the given shape. The first pair is the
/// trigger. A plain chain sends all the others. An overlay sends the second
/// while held and the others when tapped alone, and needs at least three pairs.
pub open spec fn manipulator_of(shape: RuleShape, pairs: Seq<TokenPairView>) -> Result<
    ManipulatorView,
    ConvErrorView,
> {
    match shape {
        RuleShape::KeyToKey => if pairs.len() < 1 {
            Err(ConvErrorView::MalformedEncoding)
        } else {
            Ok(
                ManipulatorView {
                    type_: "basic"@,
                    from: from_of(pairs[0].key, pairs[0].mods),
                    to: outputs_of(pairs.skip(1)),
                    to_if_alone: Seq::empty(),
                },
            )
        },
        RuleShape::KeyOverlaidModifier => if pairs.len() < 3 {
            Err(ConvErrorView::MalformedEncoding)
        } else {
            Ok(
                ManipulatorView {
                    type_: "basic"@,
                    from: from_of(pairs[0].key, pairs[0].mods),
                    to: seq![to_of(pairs[1].key, pairs[1].mods)],
                    to_if_alone: outputs_of(pairs.skip(2)),
                },
            )
        },
    }
}

/// The manipulator that the contents of a rule make in the given shape.
pub open spec fn translation(shape: RuleShape, contents: Seq<char>) -> Result<
    ManipulatorView,
    ConvErrorView,
> {
    match pairs_of(segments_of(contents)) {
        Ok(pairs) => manipulator_of(shape, pairs),
        Err(error) => Err(error),
    }
}

/// The manipulator that the contents of a rule make under a shape tag. The tag
/// is judged first.
pub open spec fn tagged_translation(tag: Seq<char>, contents: Seq<char>) -> Result<
    ManipulatorView,
    ConvErrorView,
> {
    match shape_of(tag) {
        Ok(shape) => translation(shape, contents),
        Err(error) => Err(error),
    }
}

impl RuleShape {
    /// The shape that `tag` names.
    pub fn from_tag(tag: &str) -> (r: Result<RuleShape, ConvError>)
        ensures
            match r {
                Ok(shape) => shape_of(tag@) == Ok::<RuleShape, ConvErrorView>(shape),
                Err(error) => shape_of(tag@) == Err::<RuleShape, ConvErrorView>(error.deep_view()),
            },
    {
        if same_text(tag, "KeyToKey") {
            Ok(RuleShape::KeyToKey)
        } else if same_text(tag, "KeyOverlaidModifier") {
            Ok(RuleShape::KeyOverlaidModifier)
        } else {
            Err(ConvError::UnsupportedShape(tag.to_owned()))
        }
    }
}

/// `i`, or the nearer end of the range from `low` to `high` where `i` lies
/// outside of it.
spec fn within(i: int, low: int, high: int) -> int {
    if i < low {
        low
    } else if i > high {
        high
    } else {
        i
    }
}

/// Assembles the manipulator that `pairs` make in the given shape.
pub fn build_manipulator(shape: RuleShape, pairs: Vec<TokenPair>) -> (r: Result<
    Manipulator,
    ConvError,
>)
    ensures
        outcome(r) == manipulator_of(shape, pairs.deep_view()),
{
    let n = pairs.len();
    let needed: usize = match shape {
        RuleShape::KeyToKey => 1,
        RuleShape::KeyOverlaidModifier => 3,
    };
    if n < needed {
        return Err(ConvError::MalformedEncoding);
    }
    // The pairs from 1 up to `held_end` are sent while the trigger is held.
    let held_end: usize = match shape {
        RuleShape::KeyToKey => n,
        RuleShape::KeyOverlaidModifier => 2,
    };
    let ghost all = pairs.deep_view();
    let mut from: Option<From> = None;
    let mut to: Vec<To> = Vec::new();
    let mut to_if_alone: Vec<To> = Vec::new();
    let mut i: usize = 0;
    for pair in iter: pairs
        invariant
            i == iter.index(),
            n == all.len() == iter.seq().len(),
            forall|j: int| 0 <= j < n ==> (#[trigger] iter.seq()[j]).deep_view() == all[j],
            1 <= held_end <= n,
            i > 0 ==> from is Some && from->0.deep_view() == from_of(all[0].key, all[0].mods),
            to.deep_view() =~= outputs_of(all.subrange(1, within(i as int, 1, held_end as int))),
            to_if_alone.deep_view() =~= outputs_of(
                all.subrange(held_end as int, within(i as int, held_end as int, n as int)),
            ),
    {
        let ghost sent = to.deep_view();
        let ghost sent_alone = to_if_alone.deep_view();
        let ghost output = to_of(all[i as int].key, all[i as int].mods);
        if i == 0 {
            from = Some(From::conv(pair.key, pair.mods));
        } else if i < held_end {
            to.push(To::conv(pair.key, pair.mods));
            assert(to.deep_view() =~= sent.push(output));
        } else {
            to_if_alone.push(To::conv(pair.key, pair.mods));
            assert(to_if_alone.deep_view() =~= sent_alone.push(output));
        }
        i += 1;
    }
    match from {
        Some(from) => {
            proof {
                match shape {
                    RuleShape::KeyToKey => {
                        assert(all.subrange(1, n as int) =~= all.skip(1));
                        assert(to_if_alone.deep_view() =~= Seq::<ToView>::empty());
                    },
                    RuleShape::KeyOverlaidModifier => {
                        assert(all.subrange(2, n as int) =~= all.skip(2));
                        assert(outputs_of(all.subrange(1, 2)) =~= seq![
                            to_of(all[1].key, all[1].mods),
                        ]);
                    },
                }
            }
            Ok(Manipulator { type_: "basic".to_owned(), from, to, to_if_alone })
        },
        None => Err(ConvError::MalformedEncoding),
    }
}

/// Translates the contents of a rule into a manipulator of the given shape.
pub fn translate(shape: RuleShape, contents: &str) -> (r: Result<Manipulator, ConvError>)
    ensures
        outcome(r) == translation(shape, contents@),
{
    match pair_tokens(contents) {
        Ok(pairs) => build_manipulator(shape, pairs),
        Err(error) => Err(error),
    }
}

/// Translates the contents of a rule into a manipulator, under a shape tag.
pub fn translate_tagged(tag: &str, contents: &str) -> (r: Result<Manipulator, ConvError>)
    ensures
        outcome(r) == tagged_translation(tag@, contents@),
{
    match RuleShape::from_tag(tag) {
        Ok(shape) => translate(shape, contents),
        Err(error) => Err(error),
    }
}

/// An overlay of two pairs is refused; one of three pairs is made, and sends
/// one output when tapped alone.
pub proof fn lemma_overlay_needs_three_pairs(pairs: Seq<TokenPairView>)
    ensures
        pairs.len() == 2 ==> manipulator_of(RuleShape::KeyOverlaidModifier, pairs) == Err::<
            ManipulatorView,
            ConvErrorView,
        >(ConvErrorView::MalformedEncoding),
        pairs.len() == 3 ==> manipulator_of(RuleShape::KeyOverlaidModifier, pairs) is Ok
            && manipulator_of(RuleShape::KeyOverlaidModifier, pairs)->Ok_0.to_if_alone.len() == 1,
{
}

/// A manipulator always sends something while held, unless it is a plain chain
/// of the trigger alone; it sends something when tapped alone if and only if it
/// is an overlay.
pub proof fn lemma_manipulator_outputs(shape: RuleShape, pairs: Seq<TokenPairView>)
    requires
        manipulator_of(shape, pairs) is Ok,
    ensures
        manipulator_of(shape, pairs)->Ok_0.to.len() > 0 || (shape == RuleShape::KeyToKey
            && pairs.len() == 1),
        manipulator_of(shape, pairs)->Ok_0.to_if_alone.len() > 0 <==> shape
            == RuleShape::KeyOverlaidModifier,
{
}

} // verus!

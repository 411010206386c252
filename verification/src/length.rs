//! Sizing policies.
use crate::hasher;
use vstd::prelude::*;

verus! {

/// How a widget wants to be sized along one axis.
#[derive(Debug, Clone, Copy, PartialEq, Eq, Structural)]
pub enum Length {
    /// Take the space that is left, with a weight of one.
    Fill,
    /// Take the space that is left, in proportion to the given weight among
    /// the siblings that fill. A weight of zero takes no part in this.
    FillPortion(u16),
    /// Take as little space as the content needs.
    Shrink,
    /// Take a fixed number of units.
    Units(u16),
}

impl Length {
    /// The weight with which a widget of this sizing policy takes part in the
    /// distribution of the space that is left; zero if it takes no part.
    pub open spec fn spec_fill_factor(&self) -> u16 {
        match self {
            Length::Fill => 1,
            Length::FillPortion(factor) => *factor,
            Length::Shrink => 0,
            Length::Units(_) => 0,
        }
    }

    /// The three bytes that stand for this sizing policy in a digest: its
    /// kind, then the number that it holds, or zero.
    pub open spec fn spec_bytes(&self) -> Seq<u8> {
        match self {
            Length::Fill => seq![0u8] + hasher::u16_bytes(0),
            Length::FillPortion(factor) => seq![1u8] + hasher::u16_bytes(*factor),
            Length::Shrink => seq![2u8] + hasher::u16_bytes(0),
            Length::Units(units) => seq![3u8] + hasher::u16_bytes(*units),
        }
    }

    /// Appends the bytes that stand for this sizing policy to `bytes`.
    pub fn push_bytes(&self, bytes: &mut Vec<u8>)
        ensures
            final(bytes)@ == old(bytes)@ + self.spec_bytes(),
    {
        match self {
            Length::Fill => {
                bytes.push(0);
                hasher::push_u16(bytes, 0);
            },
            Length::FillPortion(factor) => {
                bytes.push(1);
                hasher::push_u16(bytes, *factor);
            },
            Length::Shrink => {
                bytes.push(2);
                hasher::push_u16(bytes, 0);
            },
            Length::Units(units) => {
                bytes.push(3);
                hasher::push_u16(bytes, *units);
            },
        }
        assert(bytes@ =~= old(bytes)@ + self.spec_bytes());
    }

    /// Returns the weight with which a widget of this sizing policy takes
    /// part in the distribution of the space that is left.
    #[verifier::when_used_as_spec(spec_fill_factor)]
    pub fn fill_factor(&self) -> (factor: u16)
        ensures
            factor == self.spec_fill_factor(),
    {
        match self {
            Length::Fill => 1,
            Length::FillPortion(factor) => *factor,
            Length::Shrink => 0,
            Length::Units(_) => 0,
        }
    }
}

/// The three bytes of a sizing policy tell the sizing policy.
pub proof fn lemma_bytes(first: Length, second: Length)
    ensures
        first.spec_bytes().len() == 3,
        first.spec_bytes() == second.spec_bytes() ==> first == second,
{
    let number = |length: Length|
        match length {
            Length::FillPortion(factor) => factor,
            Length::Units(units) => units,
            _ => 0u16,
        };
    hasher::lemma_u16_bytes(number(first), number(second));
    if first.spec_bytes() == second.spec_bytes() {
        assert(first.spec_bytes()[0] == second.spec_bytes()[0]);
        assert(first.spec_bytes().subrange(1, 3) =~= hasher::u16_bytes(number(first)));
        assert(second.spec_bytes().subrange(1, 3) =~= hasher::u16_bytes(number(second)));
    }
}

} // verus!

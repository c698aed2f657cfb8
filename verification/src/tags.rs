use vstd::prelude::*;

use crate::rating::Rating;

verus! {

/// Result of classifying one image: a rating and the optional character and
/// general tag name lists from the service's response.
#[derive(Clone, Debug)]
pub struct Tags {
    pub rating: Rating,
    pub character_tags: Option<Vec<String>>,
    pub general_tags: Option<Vec<String>>,
}

impl Tags {
    /// The character tag names, an absent list reading as empty.
    pub open spec fn character_names(self) -> Seq<Seq<char>> {
        match self.character_tags {
            Some(v) => v.deep_view(),
            None => Seq::empty(),
        }
    }

    /// The general tag names, an absent list reading as empty.
    pub open spec fn general_names(self) -> Seq<Seq<char>> {
        match self.general_tags {
            Some(v) => v.deep_view(),
            None => Seq::empty(),
        }
    }

    pub fn new(
        rating: Rating,
        character_tags: Option<Vec<String>>,
        general_tags: Option<Vec<String>>,
    ) -> (t: Tags)
        ensures
            t.rating == rating,
            t.character_tags == character_tags,
            t.general_tags == general_tags,
    {
        Tags { rating, character_tags, general_tags }
    }
}

} // verus!

//! Catalog metadata: a record that the engine stores and hands on unchanged.

use crate::text::{duplicate_text, text_view};
use vstd::prelude::*;

verus! {

/// One descriptive attribute of an item.
#[derive(Debug, Clone, PartialEq, Eq)]
pub struct Trait {
    pub display_type: Option<String>,
    pub trait_type: String,
    pub value: String,
}

/// Mathematical value of a [`Trait`].
pub struct TraitView {
    pub display_type: Option<Seq<char>>,
    pub trait_type: Seq<char>,
    pub value: Seq<char>,
}

impl View for Trait {
    type V = TraitView;

    open spec fn view(&self) -> TraitView {
        TraitView {
            display_type: text_view(self.display_type),
            trait_type: self.trait_type@,
            value: self.value@,
        }
    }
}

impl Trait {
    /// A copy with the same value.
    pub fn duplicate(&self) -> (copy: Trait)
        ensures
            copy@ == self@,
    {
        Trait {
            display_type: duplicate_text(&self.display_type),
            trait_type: self.trait_type.clone(),
            value: self.value.clone(),
        }
    }
}

/// Values of a list of attributes, in order.
pub open spec fn traits_view(traits: Option<Vec<Trait>>) -> Option<Seq<TraitView>> {
    match traits {
        Some(v) => Some(v@.map_values(|t: Trait| t@)),
        None => None,
    }
}

/// A copy of an optional list of attributes.
pub fn duplicate_traits(traits: &Option<Vec<Trait>>) -> (copy: Option<Vec<Trait>>)
    ensures
        traits_view(copy) == traits_view(*traits),
{
    match traits {
        Some(v) => {
            let mut out: Vec<Trait> = Vec::new();
            let mut i: usize = 0;
            while i < v.len()
                invariant
                    i <= v.len(),
                    out@.len() == i,
                    forall|k: int| 0 <= k < i ==> (#[trigger] out@[k])@ == v@[k]@,
                decreases v.len() - i,
            {
                out.push(v[i].duplicate());
                i += 1;
            }
            assert(out@.map_values(|t: Trait| t@) =~= v@.map_values(|t: Trait| t@));
            Some(out)
        },
        None => None,
    }
}

/// Descriptive record attached to every issued item.
#[derive(Debug, Clone, PartialEq, Eq)]
pub struct Metadata {
    pub image: Option<String>,
    pub image_data: Option<String>,
    pub external_url: Option<String>,
    pub description: Option<String>,
    pub name: Option<String>,
    pub attributes: Option<Vec<Trait>>,
    pub background_color: Option<String>,
    pub animation_url: Option<String>,
    pub youtube_url: Option<String>,
}

/// Mathematical value of a [`Metadata`].
pub struct MetadataView {
    pub image: Option<Seq<char>>,
    pub image_data: Option<Seq<char>>,
    pub external_url: Option<Seq<char>>,
    pub description: Option<Seq<char>>,
    pub name: Option<Seq<char>>,
    pub attributes: Option<Seq<TraitView>>,
    pub background_color: Option<Seq<char>>,
    pub animation_url: Option<Seq<char>>,
    pub youtube_url: Option<Seq<char>>,
}

impl View for Metadata {
    type V = MetadataView;

    open spec fn view(&self) -> MetadataView {
        MetadataView {
            image: text_view(self.image),
            image_data: text_view(self.image_data),
            external_url: text_view(self.external_url),
            description: text_view(self.description),
            name: text_view(self.name),
            attributes: traits_view(self.attributes),
            background_color: text_view(self.background_color),
            animation_url: text_view(self.animation_url),
            youtube_url: text_view(self.youtube_url),
        }
    }
}

/// The record with every field absent.
pub open spec fn empty_metadata() -> MetadataView {
    MetadataView {
        image: None,
        image_data: None,
        external_url: None,
        description: None,
        name: None,
        attributes: None,
        background_color: None,
        animation_url: None,
        youtube_url: None,
    }
}

impl Default for Metadata {
    fn default() -> (m: Metadata)
        ensures
            m@ == empty_metadata(),
    {
        Metadata {
            image: None,
            image_data: None,
            external_url: None,
            description: None,
            name: None,
            attributes: None,
            background_color: None,
            animation_url: None,
            youtube_url: None,
        }
    }
}

impl Metadata {
    /// A copy with the same value.
    pub fn duplicate(&self) -> (copy: Metadata)
        ensures
            copy@ == self@,
    {
        Metadata {
            image: duplicate_text(&self.image),
            image_data: duplicate_text(&self.image_data),
            external_url: duplicate_text(&self.external_url),
            description: duplicate_text(&self.description),
            name: duplicate_text(&self.name),
            attributes: duplicate_traits(&self.attributes),
            background_color: duplicate_text(&self.background_color),
            animation_url: duplicate_text(&self.animation_url),
            youtube_url: duplicate_text(&self.youtube_url),
        }
    }
}

} // verus!

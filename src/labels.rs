//! The closed sets of node labels and relationship types.

use vstd::prelude::*;

verus! {

/// The six kinds of entity that become graph nodes.
#[derive(Clone, Copy, Debug, PartialEq, Eq, Structural)]
pub enum EntityLabel {
    Character,
    Film,
    Planet,
    Species,
    Starship,
    Vehicle,
}

impl EntityLabel {
    /// The node label written to the graph store.
    pub open spec fn name_spec(self) -> Seq<char> {
        match self {
            EntityLabel::Character => "Character"@,
            EntityLabel::Film => "Film"@,
            EntityLabel::Planet => "Planet"@,
            EntityLabel::Species => "Species"@,
            EntityLabel::Starship => "Starship"@,
            EntityLabel::Vehicle => "Vehicle"@,
        }
    }

    /// The namespace prefix, underscore included, of every id of this label.
    pub open spec fn prefix_spec(self) -> Seq<char> {
        match self {
            EntityLabel::Character => "char_"@,
            EntityLabel::Film => "film_"@,
            EntityLabel::Planet => "planet_"@,
            EntityLabel::Species => "species_"@,
            EntityLabel::Starship => "starship_"@,
            EntityLabel::Vehicle => "vehicle_"@,
        }
    }

    /// The source collection whose records carry this label.
    pub open spec fn collection_spec(self) -> Seq<char> {
        match self {
            EntityLabel::Character => "characters_raw"@,
            EntityLabel::Film => "movies_raw"@,
            EntityLabel::Planet => "planets_raw"@,
            EntityLabel::Species => "species_raw"@,
            EntityLabel::Starship => "starships_raw"@,
            EntityLabel::Vehicle => "vehicles_raw"@,
        }
    }

    pub fn as_str(&self) -> (r: &'static str)
        ensures
            r@ == self.name_spec(),
    {
        match self {
            EntityLabel::Character => "Character",
            EntityLabel::Film => "Film",
            EntityLabel::Planet => "Planet",
            EntityLabel::Species => "Species",
            EntityLabel::Starship => "Starship",
            EntityLabel::Vehicle => "Vehicle",
        }
    }

    pub fn id_prefix(&self) -> (r: &'static str)
        ensures
            r@ == self.prefix_spec(),
    {
        match self {
            EntityLabel::Character => "char_",
            EntityLabel::Film => "film_",
            EntityLabel::Planet => "planet_",
            EntityLabel::Species => "species_",
            EntityLabel::Starship => "starship_",
            EntityLabel::Vehicle => "vehicle_",
        }
    }

    pub fn collection_name(&self) -> (r: &'static str)
        ensures
            r@ == self.collection_spec(),
    {
        match self {
            EntityLabel::Character => "characters_raw",
            EntityLabel::Film => "movies_raw",
            EntityLabel::Planet => "planets_raw",
            EntityLabel::Species => "species_raw",
            EntityLabel::Starship => "starships_raw",
            EntityLabel::Vehicle => "vehicles_raw",
        }
    }
}

/// The six relationship types of the graph.
#[derive(Clone, Copy, Debug, PartialEq, Eq, Structural)]
pub enum RelationType {
    AppearedIn,
    BornOn,
    BelongsTo,
    Pilots,
    Produced,
    ResidentOf,
}

impl RelationType {
    /// The relationship type written to the graph store.
    pub open spec fn name_spec(self) -> Seq<char> {
        match self {
            RelationType::AppearedIn => "APPEARED_IN"@,
            RelationType::BornOn => "BORN_ON"@,
            RelationType::BelongsTo => "BELONGS_TO"@,
            RelationType::Pilots => "PILOTS"@,
            RelationType::Produced => "PRODUCED"@,
            RelationType::ResidentOf => "RESIDENT_OF"@,
        }
    }

    pub fn as_str(&self) -> (r: &'static str)
        ensures
            r@ == self.name_spec(),
    {
        match self {
            RelationType::AppearedIn => "APPEARED_IN",
            RelationType::BornOn => "BORN_ON",
            RelationType::BelongsTo => "BELONGS_TO",
            RelationType::Pilots => "PILOTS",
            RelationType::Produced => "PRODUCED",
            RelationType::ResidentOf => "RESIDENT_OF",
        }
    }
}

} // verus!

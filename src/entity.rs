//! The closed set of record kinds, the canonical entity, and the laws that
//! hold of every edge the transformation emits.

use vstd::prelude::*;
use vstd::string::*;
use crate::edge::{
    edges_view, has_prefix, is_sentinel, namespaced, reference_edge, reference_edges,
    lemma_reference_edges_single, EdgeView, GraphEdge,
};
use crate::labels::{EntityLabel, RelationType};
use crate::metadata::{MetaValueView, Metadata};
use crate::records::{
    CharacterRaw, GraphableSource, MoviesRaw, PlanetRaw, SpeciesRaw, StarshipRaw, VehicleRaw,
};

verus! {

/// One decoded record of any of the six source collections.
#[derive(Clone, Debug)]
pub enum RawRecord {
    Character(CharacterRaw),
    Film(MoviesRaw),
    Planet(PlanetRaw),
    Species(SpeciesRaw),
    Starship(StarshipRaw),
    Vehicle(VehicleRaw),
}

impl RawRecord {
    pub open spec fn label_spec(&self) -> EntityLabel {
        match self {
            RawRecord::Character(r) => r.label_spec(),
            RawRecord::Film(r) => r.label_spec(),
            RawRecord::Planet(r) => r.label_spec(),
            RawRecord::Species(r) => r.label_spec(),
            RawRecord::Starship(r) => r.label_spec(),
            RawRecord::Vehicle(r) => r.label_spec(),
        }
    }

    pub open spec fn id_view(&self) -> Seq<char> {
        match self {
            RawRecord::Character(r) => r.id_view(),
            RawRecord::Film(r) => r.id_view(),
            RawRecord::Planet(r) => r.id_view(),
            RawRecord::Species(r) => r.id_view(),
            RawRecord::Starship(r) => r.id_view(),
            RawRecord::Vehicle(r) => r.id_view(),
        }
    }

    pub open spec fn name_view(&self) -> Seq<char> {
        match self {
            RawRecord::Character(r) => r.name_view(),
            RawRecord::Film(r) => r.name_view(),
            RawRecord::Planet(r) => r.name_view(),
            RawRecord::Species(r) => r.name_view(),
            RawRecord::Starship(r) => r.name_view(),
            RawRecord::Vehicle(r) => r.name_view(),
        }
    }

    pub open spec fn rich_text_view(&self) -> Seq<char> {
        match self {
            RawRecord::Character(r) => r.rich_text_view(),
            RawRecord::Film(r) => r.rich_text_view(),
            RawRecord::Planet(r) => r.rich_text_view(),
            RawRecord::Species(r) => r.rich_text_view(),
            RawRecord::Starship(r) => r.rich_text_view(),
            RawRecord::Vehicle(r) => r.rich_text_view(),
        }
    }

    pub open spec fn metadata_view(&self) -> Map<Seq<char>, MetaValueView> {
        match self {
            RawRecord::Character(r) => r.metadata_view(),
            RawRecord::Film(r) => r.metadata_view(),
            RawRecord::Planet(r) => r.metadata_view(),
            RawRecord::Species(r) => r.metadata_view(),
            RawRecord::Starship(r) => r.metadata_view(),
            RawRecord::Vehicle(r) => r.metadata_view(),
        }
    }

    pub open spec fn edges_spec(&self) -> Seq<EdgeView> {
        match self {
            RawRecord::Character(r) => r.edges_spec(),
            RawRecord::Film(r) => r.edges_spec(),
            RawRecord::Planet(r) => r.edges_spec(),
            RawRecord::Species(r) => r.edges_spec(),
            RawRecord::Starship(r) => r.edges_spec(),
            RawRecord::Vehicle(r) => r.edges_spec(),
        }
    }

    /// A record is valid when its own id carries its label's prefix.
    pub open spec fn wf(&self) -> bool {
        has_prefix(self.id_view(), self.label_spec().prefix_spec())
    }

    pub fn label(&self) -> (r: EntityLabel)
        ensures
            r == self.label_spec(),
    {
        match self {
            RawRecord::Character(r) => r.get_entity_label(),
            RawRecord::Film(r) => r.get_entity_label(),
            RawRecord::Planet(r) => r.get_entity_label(),
            RawRecord::Species(r) => r.get_entity_label(),
            RawRecord::Starship(r) => r.get_entity_label(),
            RawRecord::Vehicle(r) => r.get_entity_label(),
        }
    }

    pub fn entity_id(&self) -> (r: String)
        ensures
            r@ == self.id_view(),
    {
        match self {
            RawRecord::Character(r) => r.get_entity_id(),
            RawRecord::Film(r) => r.get_entity_id(),
            RawRecord::Planet(r) => r.get_entity_id(),
            RawRecord::Species(r) => r.get_entity_id(),
            RawRecord::Starship(r) => r.get_entity_id(),
            RawRecord::Vehicle(r) => r.get_entity_id(),
        }
    }

    pub fn entity_name(&self) -> (r: String)
        ensures
            r@ == self.name_view(),
    {
        match self {
            RawRecord::Character(r) => r.get_entity_name(),
            RawRecord::Film(r) => r.get_entity_name(),
            RawRecord::Planet(r) => r.get_entity_name(),
            RawRecord::Species(r) => r.get_entity_name(),
            RawRecord::Starship(r) => r.get_entity_name(),
            RawRecord::Vehicle(r) => r.get_entity_name(),
        }
    }

    pub fn rich_text(&self) -> (r: String)
        ensures
            r@ == self.rich_text_view(),
    {
        match self {
            RawRecord::Character(r) => r.get_rich_text(),
            RawRecord::Film(r) => r.get_rich_text(),
            RawRecord::Planet(r) => r.get_rich_text(),
            RawRecord::Species(r) => r.get_rich_text(),
            RawRecord::Starship(r) => r.get_rich_text(),
            RawRecord::Vehicle(r) => r.get_rich_text(),
        }
    }

    pub fn metadata(&self) -> (r: Metadata)
        ensures
            r.wf(),
            r@ == self.metadata_view(),
    {
        match self {
            RawRecord::Character(r) => r.get_metadata_as_map(),
            RawRecord::Film(r) => r.get_metadata_as_map(),
            RawRecord::Planet(r) => r.get_metadata_as_map(),
            RawRecord::Species(r) => r.get_metadata_as_map(),
            RawRecord::Starship(r) => r.get_metadata_as_map(),
            RawRecord::Vehicle(r) => r.get_metadata_as_map(),
        }
    }

    pub fn edges(&self) -> (r: Vec<GraphEdge>)
        ensures
            edges_view(r@) == self.edges_spec(),
    {
        match self {
            RawRecord::Character(r) => r.get_edges(),
            RawRecord::Film(r) => r.get_edges(),
            RawRecord::Planet(r) => r.get_edges(),
            RawRecord::Species(r) => r.get_edges(),
            RawRecord::Starship(r) => r.get_edges(),
            RawRecord::Vehicle(r) => r.get_edges(),
        }
    }
}

/// The uniform description of one record as a node.
#[derive(Clone, Debug)]
pub struct CanonicalEntity {
    pub entity_id: String,
    pub entity_label: EntityLabel,
    pub name: String,
    pub rich_text: String,
    pub metadata: Metadata,
}

/// The node description and the edges of one record.
pub fn transform(record: &RawRecord) -> (r: (CanonicalEntity, Vec<GraphEdge>))
    ensures
        r.0.entity_id@ == record.id_view(),
        r.0.entity_label == record.label_spec(),
        r.0.name@ == record.name_view(),
        r.0.rich_text@ == record.rich_text_view(),
        r.0.metadata.wf(),
        r.0.metadata@ == record.metadata_view(),
        edges_view(r.1@) == record.edges_spec(),
{
    let entity = CanonicalEntity {
        entity_id: record.entity_id(),
        entity_label: record.label(),
        name: record.entity_name(),
        rich_text: record.rich_text(),
        metadata: record.metadata(),
    };
    (entity, record.edges())
}

/// The label whose records the named collection holds, if any.
pub open spec fn collection_label_spec(name: Seq<char>) -> Option<EntityLabel> {
    if name == EntityLabel::Character.collection_spec() {
        Some(EntityLabel::Character)
    } else if name == EntityLabel::Film.collection_spec() {
        Some(EntityLabel::Film)
    } else if name == EntityLabel::Planet.collection_spec() {
        Some(EntityLabel::Planet)
    } else if name == EntityLabel::Species.collection_spec() {
        Some(EntityLabel::Species)
    } else if name == EntityLabel::Starship.collection_spec() {
        Some(EntityLabel::Starship)
    } else if name == EntityLabel::Vehicle.collection_spec() {
        Some(EntityLabel::Vehicle)
    } else {
        None
    }
}

fn same_text(a: &str, b: &str) -> (r: bool)
    ensures
        r == (a@ == b@),
{
    String::from_str(a) == String::from_str(b)
}

pub fn label_for_collection(name: &str) -> (r: Option<EntityLabel>)
    ensures
        r == collection_label_spec(name@),
        r matches Some(l) ==> l.collection_spec() == name@,
{
    if same_text(name, EntityLabel::Character.collection_name()) {
        Some(EntityLabel::Character)
    } else if same_text(name, EntityLabel::Film.collection_name()) {
        Some(EntityLabel::Film)
    } else if same_text(name, EntityLabel::Planet.collection_name()) {
        Some(EntityLabel::Planet)
    } else if same_text(name, EntityLabel::Species.collection_name()) {
        Some(EntityLabel::Species)
    } else if same_text(name, EntityLabel::Starship.collection_name()) {
        Some(EntityLabel::Starship)
    } else if same_text(name, EntityLabel::Vehicle.collection_name()) {
        Some(EntityLabel::Vehicle)
    } else {
        None
    }
}

/// Both ends of an edge carry the id prefix of their own label.
pub open spec fn edge_namespaced(e: EdgeView) -> bool {
    has_prefix(e.source_id, e.source_label.prefix_spec()) && has_prefix(
        e.target_id,
        e.target_label.prefix_spec(),
    )
}

pub open spec fn all_namespaced(s: Seq<EdgeView>) -> bool {
    forall|i: int| 0 <= i < s.len() ==> edge_namespaced(#[trigger] s[i])
}

proof fn lemma_namespaced_has_prefix(label: EntityLabel, raw: Seq<char>)
    ensures
        has_prefix(namespaced(label, raw), label.prefix_spec()),
{
    let p = label.prefix_spec();
    assert((p + raw).subrange(0, p.len() as int) =~= p);
}

proof fn lemma_reference_edges_namespaced(
    ids: Seq<Seq<char>>,
    own_id: Seq<char>,
    own_label: EntityLabel,
    other_label: EntityLabel,
    relation: RelationType,
    outgoing: bool,
)
    requires
        has_prefix(own_id, own_label.prefix_spec()),
    ensures
        all_namespaced(reference_edges(ids, own_id, own_label, other_label, relation, outgoing)),
    decreases ids.len(),
{
    if ids.len() > 0 {
        lemma_reference_edges_namespaced(ids.drop_last(), own_id, own_label, other_label, relation, outgoing);
        lemma_namespaced_has_prefix(other_label, ids.last());
    }
}

proof fn lemma_concat_namespaced(a: Seq<EdgeView>, b: Seq<EdgeView>)
    requires
        all_namespaced(a),
        all_namespaced(b),
    ensures
        all_namespaced(a + b),
{
    assert forall|i: int| 0 <= i < (a + b).len() implies edge_namespaced(#[trigger] (a + b)[i]) by {
        if i >= a.len() {
            assert((a + b)[i] == b[i - a.len()]);
        }
    }
}

/// Namespace invariant: every edge that a valid record emits names each end
/// by an id that carries the prefix of that end's own label, whichever kind of
/// record emitted it.
pub proof fn lemma_edges_namespaced(record: RawRecord)
    requires
        record.wf(),
    ensures
        all_namespaced(record.edges_spec()),
{
    let id = record.id_view();
    let own = record.label_spec();
    match record {
        RawRecord::Character(r) => {
            lemma_reference_edges_namespaced(seq![r.homeworld_id@], id, own, EntityLabel::Planet, RelationType::BornOn, true);
            lemma_reference_edges_namespaced(crate::edge::strings_view(r.species_ids@), id, own, EntityLabel::Species, RelationType::BelongsTo, true);
            lemma_reference_edges_namespaced(crate::edge::strings_view(r.film_ids@), id, own, EntityLabel::Film, RelationType::AppearedIn, true);
            lemma_reference_edges_namespaced(crate::edge::strings_view(r.starship_ids@), id, own, EntityLabel::Starship, RelationType::Pilots, true);
            lemma_reference_edges_namespaced(crate::edge::strings_view(r.vehicle_ids@), id, own, EntityLabel::Vehicle, RelationType::Pilots, true);
            let a = reference_edges(seq![r.homeworld_id@], id, own, EntityLabel::Planet, RelationType::BornOn, true);
            let b = reference_edges(crate::edge::strings_view(r.species_ids@), id, own, EntityLabel::Species, RelationType::BelongsTo, true);
            let c = reference_edges(crate::edge::strings_view(r.film_ids@), id, own, EntityLabel::Film, RelationType::AppearedIn, true);
            let d = reference_edges(crate::edge::strings_view(r.starship_ids@), id, own, EntityLabel::Starship, RelationType::Pilots, true);
            let e = reference_edges(crate::edge::strings_view(r.vehicle_ids@), id, own, EntityLabel::Vehicle, RelationType::Pilots, true);
            lemma_concat_namespaced(a, b);
            lemma_concat_namespaced(a + b, c);
            lemma_concat_namespaced(a + b + c, d);
            lemma_concat_namespaced(a + b + c + d, e);
        },
        RawRecord::Film(r) => {
            lemma_reference_edges_namespaced(crate::edge::strings_view(r.character_ids@), id, own, EntityLabel::Character, RelationType::AppearedIn, false);
        },
        RawRecord::Planet(r) => {
            lemma_reference_edges_namespaced(crate::edge::strings_view(r.film_ids@), id, own, EntityLabel::Film, RelationType::AppearedIn, true);
        },
        RawRecord::Species(r) => {
            let ids = crate::records::optional_ids(r.homeworld_id);
            lemma_reference_edges_namespaced(ids, id, own, EntityLabel::Planet, RelationType::ResidentOf, true);
            lemma_reference_edges_namespaced(crate::edge::strings_view(r.film_ids@), id, own, EntityLabel::Film, RelationType::AppearedIn, true);
            lemma_concat_namespaced(
                reference_edges(ids, id, own, EntityLabel::Planet, RelationType::ResidentOf, true),
                reference_edges(crate::edge::strings_view(r.film_ids@), id, own, EntityLabel::Film, RelationType::AppearedIn, true),
            );
        },
        RawRecord::Starship(r) => {
            lemma_reference_edges_namespaced(crate::edge::strings_view(r.pilot_ids@), id, own, EntityLabel::Character, RelationType::Pilots, false);
            lemma_reference_edges_namespaced(crate::edge::strings_view(r.film_ids@), id, own, EntityLabel::Film, RelationType::AppearedIn, true);
            lemma_concat_namespaced(
                reference_edges(crate::edge::strings_view(r.pilot_ids@), id, own, EntityLabel::Character, RelationType::Pilots, false),
                reference_edges(crate::edge::strings_view(r.film_ids@), id, own, EntityLabel::Film, RelationType::AppearedIn, true),
            );
        },
        RawRecord::Vehicle(r) => {
            lemma_reference_edges_namespaced(crate::edge::strings_view(r.pilot_ids@), id, own, EntityLabel::Character, RelationType::Pilots, false);
            lemma_reference_edges_namespaced(crate::edge::strings_view(r.film_ids@), id, own, EntityLabel::Film, RelationType::AppearedIn, true);
            lemma_concat_namespaced(
                reference_edges(crate::edge::strings_view(r.pilot_ids@), id, own, EntityLabel::Character, RelationType::Pilots, false),
                reference_edges(crate::edge::strings_view(r.film_ids@), id, own, EntityLabel::Film, RelationType::AppearedIn, true),
            );
        },
    }
}

/// Sentinel suppression, for any list of foreign keys: every edge comes from
/// an id of the list that is neither empty nor `unknown`.
pub proof fn lemma_reference_edges_skip_sentinels(
    ids: Seq<Seq<char>>,
    own_id: Seq<char>,
    own_label: EntityLabel,
    other_label: EntityLabel,
    relation: RelationType,
    outgoing: bool,
)
    ensures
        forall|i: int|
            0 <= i < reference_edges(ids, own_id, own_label, other_label, relation, outgoing).len()
                ==> exists|k: int|
                0 <= k < ids.len() && !is_sentinel(ids[k])
                    && #[trigger] reference_edges(ids, own_id, own_label, other_label, relation, outgoing)[i]
                    == reference_edge(own_id, own_label, other_label, relation, outgoing, ids[k]),
    decreases ids.len(),
{
    if ids.len() > 0 {
        let rest = ids.drop_last();
        lemma_reference_edges_skip_sentinels(rest, own_id, own_label, other_label, relation, outgoing);
        let all = reference_edges(ids, own_id, own_label, other_label, relation, outgoing);
        let prev = reference_edges(rest, own_id, own_label, other_label, relation, outgoing);
        assert forall|i: int| 0 <= i < all.len() implies exists|k: int|
            0 <= k < ids.len() && !is_sentinel(ids[k]) && #[trigger] all[i]
                == reference_edge(own_id, own_label, other_label, relation, outgoing, ids[k]) by {
            if i < prev.len() {
                let k = choose|k: int|
                    0 <= k < rest.len() && !is_sentinel(rest[k]) && prev[i]
                        == reference_edge(own_id, own_label, other_label, relation, outgoing, rest[k]);
                assert(ids[k] == rest[k]);
            } else {
                assert(ids[ids.len() - 1] == ids.last());
            }
        }
    }
}

proof fn lemma_reference_edges_relation(
    ids: Seq<Seq<char>>,
    own_id: Seq<char>,
    own_label: EntityLabel,
    other_label: EntityLabel,
    relation: RelationType,
    outgoing: bool,
)
    ensures
        forall|i: int|
            0 <= i < reference_edges(ids, own_id, own_label, other_label, relation, outgoing).len()
                ==> (#[trigger] reference_edges(ids, own_id, own_label, other_label, relation, outgoing)[i]).relation
                == relation,
    decreases ids.len(),
{
    if ids.len() > 0 {
        lemma_reference_edges_relation(ids.drop_last(), own_id, own_label, other_label, relation, outgoing);
    }
}

pub open spec fn lacks_relation(s: Seq<EdgeView>, relation: RelationType) -> bool {
    forall|i: int| 0 <= i < s.len() ==> (#[trigger] s[i]).relation != relation
}

proof fn lemma_concat_lacks(a: Seq<EdgeView>, b: Seq<EdgeView>, relation: RelationType)
    requires
        lacks_relation(a, relation),
        lacks_relation(b, relation),
    ensures
        lacks_relation(a + b, relation),
{
    assert forall|i: int| 0 <= i < (a + b).len() implies (#[trigger] (a + b)[i]).relation != relation by {
        if i >= a.len() {
            assert((a + b)[i] == b[i - a.len()]);
        }
    }
}

/// Sentinel suppression for a character: a homeworld that is empty or
/// `unknown` gives no BORN_ON edge.
pub proof fn lemma_character_sentinel_homeworld(r: CharacterRaw)
    requires
        is_sentinel(r.homeworld_id@),
    ensures
        lacks_relation(r.edges_spec(), RelationType::BornOn),
{
    let id = r.id@;
    let own = EntityLabel::Character;
    lemma_reference_edges_single(r.homeworld_id@, id, own, EntityLabel::Planet, RelationType::BornOn, true);
    let a = reference_edges(seq![r.homeworld_id@], id, own, EntityLabel::Planet, RelationType::BornOn, true);
    let b = reference_edges(crate::edge::strings_view(r.species_ids@), id, own, EntityLabel::Species, RelationType::BelongsTo, true);
    let c = reference_edges(crate::edge::strings_view(r.film_ids@), id, own, EntityLabel::Film, RelationType::AppearedIn, true);
    let d = reference_edges(crate::edge::strings_view(r.starship_ids@), id, own, EntityLabel::Starship, RelationType::Pilots, true);
    let e = reference_edges(crate::edge::strings_view(r.vehicle_ids@), id, own, EntityLabel::Vehicle, RelationType::Pilots, true);
    lemma_reference_edges_relation(crate::edge::strings_view(r.species_ids@), id, own, EntityLabel::Species, RelationType::BelongsTo, true);
    lemma_reference_edges_relation(crate::edge::strings_view(r.film_ids@), id, own, EntityLabel::Film, RelationType::AppearedIn, true);
    lemma_reference_edges_relation(crate::edge::strings_view(r.starship_ids@), id, own, EntityLabel::Starship, RelationType::Pilots, true);
    lemma_reference_edges_relation(crate::edge::strings_view(r.vehicle_ids@), id, own, EntityLabel::Vehicle, RelationType::Pilots, true);
    lemma_concat_lacks(a, b, RelationType::BornOn);
    lemma_concat_lacks(a + b, c, RelationType::BornOn);
    lemma_concat_lacks(a + b + c, d, RelationType::BornOn);
    lemma_concat_lacks(a + b + c + d, e, RelationType::BornOn);
}

/// Sentinel suppression for a species: a homeworld that is absent, empty or
/// `unknown` gives no RESIDENT_OF edge.
pub proof fn lemma_species_sentinel_homeworld(r: SpeciesRaw)
    requires
        match r.homeworld_id {
            Some(h) => is_sentinel(h@),
            None => true,
        },
    ensures
        lacks_relation(r.edges_spec(), RelationType::ResidentOf),
{
    let id = r.id@;
    let own = EntityLabel::Species;
    let ids = crate::records::optional_ids(r.homeworld_id);
    match r.homeworld_id {
        Some(h) => {
            lemma_reference_edges_single(h@, id, own, EntityLabel::Planet, RelationType::ResidentOf, true);
        },
        None => {
            assert(reference_edges(ids, id, own, EntityLabel::Planet, RelationType::ResidentOf, true) == Seq::<EdgeView>::empty());
        },
    }
    lemma_reference_edges_relation(crate::edge::strings_view(r.film_ids@), id, own, EntityLabel::Film, RelationType::AppearedIn, true);
    lemma_concat_lacks(
        reference_edges(ids, id, own, EntityLabel::Planet, RelationType::ResidentOf, true),
        reference_edges(crate::edge::strings_view(r.film_ids@), id, own, EntityLabel::Film, RelationType::AppearedIn, true),
        RelationType::ResidentOf,
    );
}

proof fn lemma_filter_keeps_all(s: Seq<EdgeView>, pred: spec_fn(EdgeView) -> bool)
    requires
        forall|i: int| 0 <= i < s.len() ==> pred(#[trigger] s[i]),
    ensures
        s.filter(pred) == s,
    decreases s.len(),
{
    reveal(Seq::filter);
    if s.len() > 0 {
        lemma_filter_keeps_all(s.drop_last(), pred);
        assert(s.drop_last().push(s.last()) =~= s);
    }
}

proof fn lemma_filter_drops_all(s: Seq<EdgeView>, pred: spec_fn(EdgeView) -> bool)
    requires
        forall|i: int| 0 <= i < s.len() ==> !pred(#[trigger] s[i]),
    ensures
        s.filter(pred) == Seq::<EdgeView>::empty(),
    decreases s.len(),
{
    reveal(Seq::filter);
    if s.len() > 0 {
        lemma_filter_drops_all(s.drop_last(), pred);
    }
}

/// A character whose homeworld is a sentinel has exactly the edges of the same
/// character with any homeworld, less its BORN_ON edges.
pub proof fn lemma_unknown_homeworld_drops_born_on(r: CharacterRaw, r2: CharacterRaw)
    requires
        r2.id@ == r.id@,
        crate::edge::strings_view(r2.species_ids@) == crate::edge::strings_view(r.species_ids@),
        crate::edge::strings_view(r2.film_ids@) == crate::edge::strings_view(r.film_ids@),
        crate::edge::strings_view(r2.starship_ids@) == crate::edge::strings_view(r.starship_ids@),
        crate::edge::strings_view(r2.vehicle_ids@) == crate::edge::strings_view(r.vehicle_ids@),
        is_sentinel(r2.homeworld_id@),
    ensures
        r2.edges_spec() == r.edges_spec().filter(|e: EdgeView| e.relation != RelationType::BornOn),
{
    let pred = |e: EdgeView| e.relation != RelationType::BornOn;
    let id = r.id@;
    let own = EntityLabel::Character;
    let a = reference_edges(seq![r.homeworld_id@], id, own, EntityLabel::Planet, RelationType::BornOn, true);
    let a2 = reference_edges(seq![r2.homeworld_id@], id, own, EntityLabel::Planet, RelationType::BornOn, true);
    let b = reference_edges(crate::edge::strings_view(r.species_ids@), id, own, EntityLabel::Species, RelationType::BelongsTo, true);
    let c = reference_edges(crate::edge::strings_view(r.film_ids@), id, own, EntityLabel::Film, RelationType::AppearedIn, true);
    let d = reference_edges(crate::edge::strings_view(r.starship_ids@), id, own, EntityLabel::Starship, RelationType::Pilots, true);
    let e = reference_edges(crate::edge::strings_view(r.vehicle_ids@), id, own, EntityLabel::Vehicle, RelationType::Pilots, true);
    lemma_reference_edges_single(r2.homeworld_id@, id, own, EntityLabel::Planet, RelationType::BornOn, true);
    lemma_reference_edges_relation(seq![r.homeworld_id@], id, own, EntityLabel::Planet, RelationType::BornOn, true);
    lemma_reference_edges_relation(crate::edge::strings_view(r.species_ids@), id, own, EntityLabel::Species, RelationType::BelongsTo, true);
    lemma_reference_edges_relation(crate::edge::strings_view(r.film_ids@), id, own, EntityLabel::Film, RelationType::AppearedIn, true);
    lemma_reference_edges_relation(crate::edge::strings_view(r.starship_ids@), id, own, EntityLabel::Starship, RelationType::Pilots, true);
    lemma_reference_edges_relation(crate::edge::strings_view(r.vehicle_ids@), id, own, EntityLabel::Vehicle, RelationType::Pilots, true);
    lemma_filter_drops_all(a, pred);
    lemma_filter_keeps_all(b, pred);
    lemma_filter_keeps_all(c, pred);
    lemma_filter_keeps_all(d, pred);
    lemma_filter_keeps_all(e, pred);
    Seq::filter_distributes_over_add(a + b + c + d, e, pred);
    Seq::filter_distributes_over_add(a + b + c, d, pred);
    Seq::filter_distributes_over_add(a + b, c, pred);
    Seq::filter_distributes_over_add(a, b, pred);
    assert(a2 == Seq::<EdgeView>::empty());
    assert(r2.edges_spec() == a2 + b + c + d + e);
    assert(a2 + b =~= b);
    assert(Seq::<EdgeView>::empty() + b =~= b);
}

/// Every foreign id that is not a sentinel gives its edge.
pub proof fn lemma_reference_edges_cover(
    ids: Seq<Seq<char>>,
    own_id: Seq<char>,
    own_label: EntityLabel,
    other_label: EntityLabel,
    relation: RelationType,
    outgoing: bool,
    k: int,
)
    requires
        0 <= k < ids.len(),
        !is_sentinel(ids[k]),
    ensures
        reference_edges(ids, own_id, own_label, other_label, relation, outgoing).contains(
            reference_edge(own_id, own_label, other_label, relation, outgoing, ids[k]),
        ),
    decreases ids.len(),
{
    let rest = ids.drop_last();
    let all = reference_edges(ids, own_id, own_label, other_label, relation, outgoing);
    let prev = reference_edges(rest, own_id, own_label, other_label, relation, outgoing);
    let x = reference_edge(own_id, own_label, other_label, relation, outgoing, ids[k]);
    if k < ids.len() - 1 {
        assert(rest[k] == ids[k]);
        lemma_reference_edges_cover(rest, own_id, own_label, other_label, relation, outgoing, k);
        let i = choose|i: int| 0 <= i < prev.len() && prev[i] == x;
        assert(all[i] == x);
    } else {
        assert(ids.last() == ids[k]);
        assert(all[all.len() - 1] == x);
    }
}

pub proof fn lemma_contains_concat(a: Seq<EdgeView>, b: Seq<EdgeView>, x: EdgeView)
    requires
        a.contains(x) || b.contains(x),
    ensures
        (a + b).contains(x),
{
    if a.contains(x) {
        let i = choose|i: int| 0 <= i < a.len() && a[i] == x;
        assert((a + b)[i] == x);
    } else {
        let i = choose|i: int| 0 <= i < b.len() && b[i] == x;
        assert((a + b)[a.len() + i] == x);
    }
}

} // verus!

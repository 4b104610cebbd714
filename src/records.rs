//! The six raw record shapes of the source collections, and how each becomes
//! a node description and a list of edges.

use vstd::prelude::*;
use vstd::string::*;
use crate::edge::{
    edges_view, push_reference_edge, push_reference_edges, reference_edges, strings_view,
    EdgeView, GraphEdge,
};
use crate::labels::{EntityLabel, RelationType};
use crate::metadata::{MetaValue, MetaValueView, Metadata};

verus! {

pub open spec fn hex_digit(n: int) -> char {
    seq!['0', '1', '2', '3', '4', '5', '6', '7', '8', '9', 'a', 'b', 'c', 'd', 'e', 'f'][n]
}

/// Two lowercase hex digits per byte, high nibble first.
pub open spec fn lower_hex(b: Seq<u8>) -> Seq<char>
    decreases b.len(),
{
    if b.len() == 0 {
        Seq::empty()
    } else {
        seq![hex_digit(b[0] as int / 16), hex_digit(b[0] as int % 16)] + lower_hex(b.drop_first())
    }
}

/// Relies on bson's `ObjectId::from_bytes` and `ObjectId::to_hex`, which
/// hex-encodes the twelve bytes with lowercase digits.
#[verifier::external_body]
fn object_id_hex(bytes: &[u8; 12]) -> (r: String)
    ensures
        r@ == lower_hex(bytes@),
{
    mongodb::bson::oid::ObjectId::from_bytes(*bytes).to_hex()
}

/// The foreign ids that an optional field holds: none when it is absent.
pub open spec fn optional_ids(o: Option<String>) -> Seq<Seq<char>> {
    match o {
        Some(s) => seq![s@],
        None => Seq::empty(),
    }
}

/// An absent optional text, written as the token `unknown`.
pub open spec fn text_or_unknown(o: Option<String>) -> Seq<char> {
    match o {
        Some(s) => s@,
        None => "unknown"@,
    }
}

fn text(s: &String) -> (r: MetaValue)
    ensures
        r@ == MetaValueView::Text(s@),
{
    MetaValue::Text(s.clone())
}

fn text_or_unknown_value(o: &Option<String>) -> (r: MetaValue)
    ensures
        r@ == MetaValueView::Text(text_or_unknown(*o)),
{
    match o {
        Some(s) => MetaValue::Text(s.clone()),
        None => MetaValue::Text(String::from_str("unknown")),
    }
}

fn text_list(v: &Vec<String>) -> (r: MetaValue)
    ensures
        r@ == MetaValueView::TextList(strings_view(v@)),
{
    let mut out: Vec<String> = Vec::new();
    let mut i: usize = 0;
    while i < v.len()
        invariant
            i <= v@.len(),
            out@.len() == i,
            forall|j: int| 0 <= j < i ==> #[trigger] out@[j]@ == v@[j]@,
        decreases v@.len() - i,
    {
        out.push(v[i].clone());
        i = i + 1;
    }
    assert(strings_view(out@) =~= strings_view(v@));
    MetaValue::TextList(out)
}

/// What every raw record offers to the pipeline: its node and its edges.
pub trait GraphableSource {
    spec fn label_spec(&self) -> EntityLabel;

    spec fn id_view(&self) -> Seq<char>;

    spec fn name_view(&self) -> Seq<char>;

    spec fn rich_text_view(&self) -> Seq<char>;

    spec fn metadata_view(&self) -> Map<Seq<char>, MetaValueView>;

    spec fn edges_spec(&self) -> Seq<EdgeView>;

    fn get_entity_id(&self) -> (r: String)
        ensures
            r@ == self.id_view(),
    ;

    fn get_entity_label(&self) -> (r: EntityLabel)
        ensures
            r == self.label_spec(),
    ;

    fn get_entity_name(&self) -> (r: String)
        ensures
            r@ == self.name_view(),
    ;

    fn get_metadata_as_map(&self) -> (r: Metadata)
        ensures
            r.wf(),
            r@ == self.metadata_view(),
    ;

    fn get_rich_text(&self) -> (r: String)
        ensures
            r@ == self.rich_text_view(),
    ;

    fn get_edges(&self) -> (r: Vec<GraphEdge>)
        ensures
            edges_view(r@) == self.edges_spec(),
    ;
}

/// A person of the saga.
#[derive(Clone, Debug)]
pub struct CharacterRaw {
    /// The twelve bytes of the source document's object id.
    pub object_id: [u8; 12],
    pub id: String,
    pub original_swapi_id: String,
    pub name: String,
    pub wiki_description: String,
    pub birth_year: String,
    pub gender: String,
    pub height: String,
    pub mass: String,
    pub homeworld_id: String,
    pub species_ids: Vec<String>,
    pub source: String,
    pub film_ids: Vec<String>,
    pub starship_ids: Vec<String>,
    pub vehicle_ids: Vec<String>,
}

impl GraphableSource for CharacterRaw {
    open spec fn label_spec(&self) -> EntityLabel {
        EntityLabel::Character
    }

    open spec fn id_view(&self) -> Seq<char> {
        self.id@
    }

    open spec fn name_view(&self) -> Seq<char> {
        self.name@
    }

    open spec fn rich_text_view(&self) -> Seq<char> {
        self.wiki_description@
    }

    open spec fn metadata_view(&self) -> Map<Seq<char>, MetaValueView> {
        map![
            "name"@ => MetaValueView::Text(self.name@),
            "birth_year"@ => MetaValueView::Text(self.birth_year@),
            "gender"@ => MetaValueView::Text(self.gender@),
            "height"@ => MetaValueView::Text(self.height@),
            "mass"@ => MetaValueView::Text(self.mass@),
            "homeworld_id"@ => MetaValueView::Text(self.homeworld_id@),
            "species_ids"@ => MetaValueView::TextList(strings_view(self.species_ids@)),
            "source"@ => MetaValueView::Text(self.source@),
            "original_swapi_id"@ => MetaValueView::Text(self.original_swapi_id@),
            "original_oid"@ => MetaValueView::Text(lower_hex(self.object_id@)),
        ]
    }

    open spec fn edges_spec(&self) -> Seq<EdgeView> {
        reference_edges(
            seq![self.homeworld_id@],
            self.id@,
            EntityLabel::Character,
            EntityLabel::Planet,
            RelationType::BornOn,
            true,
        ) + reference_edges(
            strings_view(self.species_ids@),
            self.id@,
            EntityLabel::Character,
            EntityLabel::Species,
            RelationType::BelongsTo,
            true,
        ) + reference_edges(
            strings_view(self.film_ids@),
            self.id@,
            EntityLabel::Character,
            EntityLabel::Film,
            RelationType::AppearedIn,
            true,
        ) + reference_edges(
            strings_view(self.starship_ids@),
            self.id@,
            EntityLabel::Character,
            EntityLabel::Starship,
            RelationType::Pilots,
            true,
        ) + reference_edges(
            strings_view(self.vehicle_ids@),
            self.id@,
            EntityLabel::Character,
            EntityLabel::Vehicle,
            RelationType::Pilots,
            true,
        )
    }

    fn get_entity_id(&self) -> (r: String) {
        self.id.clone()
    }

    fn get_entity_label(&self) -> (r: EntityLabel) {
        EntityLabel::Character
    }

    fn get_entity_name(&self) -> (r: String) {
        self.name.clone()
    }

    fn get_metadata_as_map(&self) -> (r: Metadata) {
        let mut map = Metadata::new();
        map.insert_str("name", text(&self.name));
        map.insert_str("birth_year", text(&self.birth_year));
        map.insert_str("gender", text(&self.gender));
        map.insert_str("height", text(&self.height));
        map.insert_str("mass", text(&self.mass));
        map.insert_str("homeworld_id", text(&self.homeworld_id));
        map.insert_str("species_ids", text_list(&self.species_ids));
        map.insert_str("source", text(&self.source));
        map.insert_str("original_swapi_id", text(&self.original_swapi_id));
        map.insert_str("original_oid", MetaValue::Text(object_id_hex(&self.object_id)));
        map
    }

    fn get_rich_text(&self) -> (r: String) {
        self.wiki_description.clone()
    }

    fn get_edges(&self) -> (r: Vec<GraphEdge>) {
        let mut edges: Vec<GraphEdge> = Vec::new();
        assert(edges_view(edges@) =~= Seq::<EdgeView>::empty());
        push_reference_edge(&mut edges, &self.homeworld_id, &self.id, EntityLabel::Character, EntityLabel::Planet, RelationType::BornOn, true);
        push_reference_edges(&mut edges, &self.species_ids, &self.id, EntityLabel::Character, EntityLabel::Species, RelationType::BelongsTo, true);
        push_reference_edges(&mut edges, &self.film_ids, &self.id, EntityLabel::Character, EntityLabel::Film, RelationType::AppearedIn, true);
        push_reference_edges(&mut edges, &self.starship_ids, &self.id, EntityLabel::Character, EntityLabel::Starship, RelationType::Pilots, true);
        push_reference_edges(&mut edges, &self.vehicle_ids, &self.id, EntityLabel::Character, EntityLabel::Vehicle, RelationType::Pilots, true);
        assert(edges_view(edges@) =~= self.edges_spec());
        edges
    }
}

/// A film; its edges point from each character to it.
#[derive(Clone, Debug)]
pub struct MoviesRaw {
    /// The twelve bytes of the source document's object id.
    pub object_id: [u8; 12],
    pub id: String,
    pub title: String,
    pub episode_id: i32,
    pub director: String,
    pub release_date: String,
    pub opening_crawl: String,
    pub wiki_plot: String,
    pub character_ids: Vec<String>,
    pub source: String,
}

impl GraphableSource for MoviesRaw {
    open spec fn label_spec(&self) -> EntityLabel {
        EntityLabel::Film
    }

    open spec fn id_view(&self) -> Seq<char> {
        self.id@
    }

    open spec fn name_view(&self) -> Seq<char> {
        self.title@
    }

    open spec fn rich_text_view(&self) -> Seq<char> {
        self.wiki_plot@
    }

    open spec fn metadata_view(&self) -> Map<Seq<char>, MetaValueView> {
        map![
            "title"@ => MetaValueView::Text(self.title@),
            "episode_id"@ => MetaValueView::Integer(self.episode_id as int),
            "director"@ => MetaValueView::Text(self.director@),
            "release_date"@ => MetaValueView::Text(self.release_date@),
            "opening_crawl"@ => MetaValueView::Text(self.opening_crawl@),
            "character_ids"@ => MetaValueView::TextList(strings_view(self.character_ids@)),
            "source"@ => MetaValueView::Text(self.source@),
            "original_oid"@ => MetaValueView::Text(lower_hex(self.object_id@)),
        ]
    }

    open spec fn edges_spec(&self) -> Seq<EdgeView> {
        reference_edges(
            strings_view(self.character_ids@),
            self.id@,
            EntityLabel::Film,
            EntityLabel::Character,
            RelationType::AppearedIn,
            false,
        )
    }

    fn get_entity_id(&self) -> (r: String) {
        self.id.clone()
    }

    fn get_entity_label(&self) -> (r: EntityLabel) {
        EntityLabel::Film
    }

    fn get_entity_name(&self) -> (r: String) {
        self.title.clone()
    }

    fn get_metadata_as_map(&self) -> (r: Metadata) {
        let mut map = Metadata::new();
        map.insert_str("title", text(&self.title));
        map.insert_str("episode_id", MetaValue::Integer(self.episode_id as i64));
        map.insert_str("director", text(&self.director));
        map.insert_str("release_date", text(&self.release_date));
        map.insert_str("opening_crawl", text(&self.opening_crawl));
        map.insert_str("character_ids", text_list(&self.character_ids));
        map.insert_str("source", text(&self.source));
        map.insert_str("original_oid", MetaValue::Text(object_id_hex(&self.object_id)));
        map
    }

    fn get_rich_text(&self) -> (r: String) {
        self.wiki_plot.clone()
    }

    fn get_edges(&self) -> (r: Vec<GraphEdge>) {
        let mut edges: Vec<GraphEdge> = Vec::new();
        assert(edges_view(edges@) =~= Seq::<EdgeView>::empty());
        push_reference_edges(&mut edges, &self.character_ids, &self.id, EntityLabel::Film, EntityLabel::Character, RelationType::AppearedIn, false);
        assert(edges_view(edges@) =~= self.edges_spec());
        edges
    }
}

/// A planet.
#[derive(Clone, Debug)]
pub struct PlanetRaw {
    /// The twelve bytes of the source document's object id.
    pub object_id: [u8; 12],
    pub id: String,
    pub original_swapi_id: String,
    pub name: String,
    pub rotation_period: String,
    pub orbital_period: String,
    pub diameter: String,
    pub climate: String,
    pub gravity: String,
    pub terrain: String,
    pub surface_water: String,
    pub population: String,
    pub wiki_description: String,
    pub film_ids: Vec<String>,
    pub resident_ids: Vec<String>,
    pub source: String,
}

impl GraphableSource for PlanetRaw {
    open spec fn label_spec(&self) -> EntityLabel {
        EntityLabel::Planet
    }

    open spec fn id_view(&self) -> Seq<char> {
        self.id@
    }

    open spec fn name_view(&self) -> Seq<char> {
        self.name@
    }

    open spec fn rich_text_view(&self) -> Seq<char> {
        self.wiki_description@
    }

    open spec fn metadata_view(&self) -> Map<Seq<char>, MetaValueView> {
        map![
            "name"@ => MetaValueView::Text(self.name@),
            "rotation_period"@ => MetaValueView::Text(self.rotation_period@),
            "orbital_period"@ => MetaValueView::Text(self.orbital_period@),
            "diameter"@ => MetaValueView::Text(self.diameter@),
            "climate"@ => MetaValueView::Text(self.climate@),
            "gravity"@ => MetaValueView::Text(self.gravity@),
            "terrain"@ => MetaValueView::Text(self.terrain@),
            "surface_water"@ => MetaValueView::Text(self.surface_water@),
            "population"@ => MetaValueView::Text(self.population@),
            "film_ids"@ => MetaValueView::TextList(strings_view(self.film_ids@)),
            "resident_ids"@ => MetaValueView::TextList(strings_view(self.resident_ids@)),
            "source"@ => MetaValueView::Text(self.source@),
            "original_swapi_id"@ => MetaValueView::Text(self.original_swapi_id@),
            "original_oid"@ => MetaValueView::Text(lower_hex(self.object_id@)),
        ]
    }

    open spec fn edges_spec(&self) -> Seq<EdgeView> {
        reference_edges(
            strings_view(self.film_ids@),
            self.id@,
            EntityLabel::Planet,
            EntityLabel::Film,
            RelationType::AppearedIn,
            true,
        )
    }

    fn get_entity_id(&self) -> (r: String) {
        self.id.clone()
    }

    fn get_entity_label(&self) -> (r: EntityLabel) {
        EntityLabel::Planet
    }

    fn get_entity_name(&self) -> (r: String) {
        self.name.clone()
    }

    fn get_metadata_as_map(&self) -> (r: Metadata) {
        let mut map = Metadata::new();
        map.insert_str("name", text(&self.name));
        map.insert_str("rotation_period", text(&self.rotation_period));
        map.insert_str("orbital_period", text(&self.orbital_period));
        map.insert_str("diameter", text(&self.diameter));
        map.insert_str("climate", text(&self.climate));
        map.insert_str("gravity", text(&self.gravity));
        map.insert_str("terrain", text(&self.terrain));
        map.insert_str("surface_water", text(&self.surface_water));
        map.insert_str("population", text(&self.population));
        map.insert_str("film_ids", text_list(&self.film_ids));
        map.insert_str("resident_ids", text_list(&self.resident_ids));
        map.insert_str("source", text(&self.source));
        map.insert_str("original_swapi_id", text(&self.original_swapi_id));
        map.insert_str("original_oid", MetaValue::Text(object_id_hex(&self.object_id)));
        map
    }

    fn get_rich_text(&self) -> (r: String) {
        self.wiki_description.clone()
    }

    fn get_edges(&self) -> (r: Vec<GraphEdge>) {
        let mut edges: Vec<GraphEdge> = Vec::new();
        assert(edges_view(edges@) =~= Seq::<EdgeView>::empty());
        push_reference_edges(&mut edges, &self.film_ids, &self.id, EntityLabel::Planet, EntityLabel::Film, RelationType::AppearedIn, true);
        assert(edges_view(edges@) =~= self.edges_spec());
        edges
    }
}

/// A species; its homeworld may be absent.
#[derive(Clone, Debug)]
pub struct SpeciesRaw {
    /// The twelve bytes of the source document's object id.
    pub object_id: [u8; 12],
    pub id: String,
    pub original_swapi_id: String,
    pub name: String,
    pub classification: Option<String>,
    pub designation: String,
    pub average_height: String,
    pub average_lifespan: String,
    pub language: String,
    pub skin_colors: String,
    pub wiki_description: String,
    pub homeworld_id: Option<String>,
    pub people_ids: Vec<String>,
    pub film_ids: Vec<String>,
    pub source: String,
}

impl GraphableSource for SpeciesRaw {
    open spec fn label_spec(&self) -> EntityLabel {
        EntityLabel::Species
    }

    open spec fn id_view(&self) -> Seq<char> {
        self.id@
    }

    open spec fn name_view(&self) -> Seq<char> {
        self.name@
    }

    open spec fn rich_text_view(&self) -> Seq<char> {
        self.wiki_description@
    }

    open spec fn metadata_view(&self) -> Map<Seq<char>, MetaValueView> {
        map![
            "name"@ => MetaValueView::Text(self.name@),
            "designation"@ => MetaValueView::Text(self.designation@),
            "average_height"@ => MetaValueView::Text(self.average_height@),
            "average_lifespan"@ => MetaValueView::Text(self.average_lifespan@),
            "language"@ => MetaValueView::Text(self.language@),
            "skin_colors"@ => MetaValueView::Text(self.skin_colors@),
            "source"@ => MetaValueView::Text(self.source@),
            "original_swapi_id"@ => MetaValueView::Text(self.original_swapi_id@),
            "original_oid"@ => MetaValueView::Text(lower_hex(self.object_id@)),
            "people_ids"@ => MetaValueView::TextList(strings_view(self.people_ids@)),
            "film_ids"@ => MetaValueView::TextList(strings_view(self.film_ids@)),
            "classification"@ => MetaValueView::Text(text_or_unknown(self.classification)),
            "homeworld_id"@ => MetaValueView::Text(text_or_unknown(self.homeworld_id)),
        ]
    }

    open spec fn edges_spec(&self) -> Seq<EdgeView> {
        reference_edges(
            optional_ids(self.homeworld_id),
            self.id@,
            EntityLabel::Species,
            EntityLabel::Planet,
            RelationType::ResidentOf,
            true,
        ) + reference_edges(
            strings_view(self.film_ids@),
            self.id@,
            EntityLabel::Species,
            EntityLabel::Film,
            RelationType::AppearedIn,
            true,
        )
    }

    fn get_entity_id(&self) -> (r: String) {
        self.id.clone()
    }

    fn get_entity_label(&self) -> (r: EntityLabel) {
        EntityLabel::Species
    }

    fn get_entity_name(&self) -> (r: String) {
        self.name.clone()
    }

    fn get_metadata_as_map(&self) -> (r: Metadata) {
        let mut map = Metadata::new();
        map.insert_str("name", text(&self.name));
        map.insert_str("designation", text(&self.designation));
        map.insert_str("average_height", text(&self.average_height));
        map.insert_str("average_lifespan", text(&self.average_lifespan));
        map.insert_str("language", text(&self.language));
        map.insert_str("skin_colors", text(&self.skin_colors));
        map.insert_str("source", text(&self.source));
        map.insert_str("original_swapi_id", text(&self.original_swapi_id));
        map.insert_str("original_oid", MetaValue::Text(object_id_hex(&self.object_id)));
        map.insert_str("people_ids", text_list(&self.people_ids));
        map.insert_str("film_ids", text_list(&self.film_ids));
        map.insert_str("classification", text_or_unknown_value(&self.classification));
        map.insert_str("homeworld_id", text_or_unknown_value(&self.homeworld_id));
        map
    }

    fn get_rich_text(&self) -> (r: String) {
        self.wiki_description.clone()
    }

    fn get_edges(&self) -> (r: Vec<GraphEdge>) {
        let mut edges: Vec<GraphEdge> = Vec::new();
        assert(edges_view(edges@) =~= Seq::<EdgeView>::empty());
        if let Some(h) = &self.homeworld_id {
            push_reference_edge(&mut edges, h, &self.id, EntityLabel::Species, EntityLabel::Planet, RelationType::ResidentOf, true);
        }
        assert(reference_edges(Seq::empty(), self.id@, EntityLabel::Species, EntityLabel::Planet, RelationType::ResidentOf, true) == Seq::<EdgeView>::empty());
        push_reference_edges(&mut edges, &self.film_ids, &self.id, EntityLabel::Species, EntityLabel::Film, RelationType::AppearedIn, true);
        assert(edges_view(edges@) =~= self.edges_spec());
        edges
    }
}

/// A starship; its pilot edges point from each pilot to it.
#[derive(Clone, Debug)]
pub struct StarshipRaw {
    /// The twelve bytes of the source document's object id.
    pub object_id: [u8; 12],
    pub id: String,
    pub original_swapi_id: String,
    pub name: String,
    pub model: String,
    pub manufacturer: String,
    pub wiki_description: String,
    pub cost_in_credits: String,
    pub length: String,
    pub max_atmosphering_speed: String,
    pub crew: String,
    pub passengers: String,
    pub cargo_capacity: String,
    pub hyperdrive_rating: String,
    pub starship_class: String,
    pub pilot_ids: Vec<String>,
    pub film_ids: Vec<String>,
    pub source: String,
}

impl GraphableSource for StarshipRaw {
    open spec fn label_spec(&self) -> EntityLabel {
        EntityLabel::Starship
    }

    open spec fn id_view(&self) -> Seq<char> {
        self.id@
    }

    open spec fn name_view(&self) -> Seq<char> {
        self.name@
    }

    open spec fn rich_text_view(&self) -> Seq<char> {
        self.wiki_description@
    }

    open spec fn metadata_view(&self) -> Map<Seq<char>, MetaValueView> {
        map![
            "name"@ => MetaValueView::Text(self.name@),
            "model"@ => MetaValueView::Text(self.model@),
            "manufacturer"@ => MetaValueView::Text(self.manufacturer@),
            "cost_in_credits"@ => MetaValueView::Text(self.cost_in_credits@),
            "length"@ => MetaValueView::Text(self.length@),
            "max_atmosphering_speed"@ => MetaValueView::Text(self.max_atmosphering_speed@),
            "crew"@ => MetaValueView::Text(self.crew@),
            "passengers"@ => MetaValueView::Text(self.passengers@),
            "cargo_capacity"@ => MetaValueView::Text(self.cargo_capacity@),
            "hyperdrive_rating"@ => MetaValueView::Text(self.hyperdrive_rating@),
            "starship_class"@ => MetaValueView::Text(self.starship_class@),
            "pilot_ids"@ => MetaValueView::TextList(strings_view(self.pilot_ids@)),
            "film_ids"@ => MetaValueView::TextList(strings_view(self.film_ids@)),
            "source"@ => MetaValueView::Text(self.source@),
            "original_swapi_id"@ => MetaValueView::Text(self.original_swapi_id@),
            "original_oid"@ => MetaValueView::Text(lower_hex(self.object_id@)),
        ]
    }

    open spec fn edges_spec(&self) -> Seq<EdgeView> {
        reference_edges(
            strings_view(self.pilot_ids@),
            self.id@,
            EntityLabel::Starship,
            EntityLabel::Character,
            RelationType::Pilots,
            false,
        ) + reference_edges(
            strings_view(self.film_ids@),
            self.id@,
            EntityLabel::Starship,
            EntityLabel::Film,
            RelationType::AppearedIn,
            true,
        )
    }

    fn get_entity_id(&self) -> (r: String) {
        self.id.clone()
    }

    fn get_entity_label(&self) -> (r: EntityLabel) {
        EntityLabel::Starship
    }

    fn get_entity_name(&self) -> (r: String) {
        self.name.clone()
    }

    fn get_metadata_as_map(&self) -> (r: Metadata) {
        let mut map = Metadata::new();
        map.insert_str("name", text(&self.name));
        map.insert_str("model", text(&self.model));
        map.insert_str("manufacturer", text(&self.manufacturer));
        map.insert_str("cost_in_credits", text(&self.cost_in_credits));
        map.insert_str("length", text(&self.length));
        map.insert_str("max_atmosphering_speed", text(&self.max_atmosphering_speed));
        map.insert_str("crew", text(&self.crew));
        map.insert_str("passengers", text(&self.passengers));
        map.insert_str("cargo_capacity", text(&self.cargo_capacity));
        map.insert_str("hyperdrive_rating", text(&self.hyperdrive_rating));
        map.insert_str("starship_class", text(&self.starship_class));
        map.insert_str("pilot_ids", text_list(&self.pilot_ids));
        map.insert_str("film_ids", text_list(&self.film_ids));
        map.insert_str("source", text(&self.source));
        map.insert_str("original_swapi_id", text(&self.original_swapi_id));
        map.insert_str("original_oid", MetaValue::Text(object_id_hex(&self.object_id)));
        map
    }

    fn get_rich_text(&self) -> (r: String) {
        self.wiki_description.clone()
    }

    fn get_edges(&self) -> (r: Vec<GraphEdge>) {
        let mut edges: Vec<GraphEdge> = Vec::new();
        assert(edges_view(edges@) =~= Seq::<EdgeView>::empty());
        push_reference_edges(&mut edges, &self.pilot_ids, &self.id, EntityLabel::Starship, EntityLabel::Character, RelationType::Pilots, false);
        push_reference_edges(&mut edges, &self.film_ids, &self.id, EntityLabel::Starship, EntityLabel::Film, RelationType::AppearedIn, true);
        assert(edges_view(edges@) =~= self.edges_spec());
        edges
    }
}

/// A vehicle; its pilot edges point from each pilot to it.
#[derive(Clone, Debug)]
pub struct VehicleRaw {
    /// The twelve bytes of the source document's object id.
    pub object_id: [u8; 12],
    pub id: String,
    pub original_swapi_id: String,
    pub name: String,
    pub model: String,
    pub manufacturer: String,
    pub wiki_description: String,
    pub cost_in_credits: String,
    pub length: String,
    pub max_atmosphering_speed: String,
    pub crew: String,
    pub passengers: String,
    pub cargo_capacity: String,
    pub vehicle_class: String,
    pub pilot_ids: Vec<String>,
    pub film_ids: Vec<String>,
    pub source: String,
}

impl GraphableSource for VehicleRaw {
    open spec fn label_spec(&self) -> EntityLabel {
        EntityLabel::Vehicle
    }

    open spec fn id_view(&self) -> Seq<char> {
        self.id@
    }

    open spec fn name_view(&self) -> Seq<char> {
        self.name@
    }

    open spec fn rich_text_view(&self) -> Seq<char> {
        self.wiki_description@
    }

    open spec fn metadata_view(&self) -> Map<Seq<char>, MetaValueView> {
        map![
            "name"@ => MetaValueView::Text(self.name@),
            "model"@ => MetaValueView::Text(self.model@),
            "manufacturer"@ => MetaValueView::Text(self.manufacturer@),
            "cost_in_credits"@ => MetaValueView::Text(self.cost_in_credits@),
            "length"@ => MetaValueView::Text(self.length@),
            "max_atmosphering_speed"@ => MetaValueView::Text(self.max_atmosphering_speed@),
            "crew"@ => MetaValueView::Text(self.crew@),
            "passengers"@ => MetaValueView::Text(self.passengers@),
            "cargo_capacity"@ => MetaValueView::Text(self.cargo_capacity@),
            "vehicle_class"@ => MetaValueView::Text(self.vehicle_class@),
            "pilot_ids"@ => MetaValueView::TextList(strings_view(self.pilot_ids@)),
            "film_ids"@ => MetaValueView::TextList(strings_view(self.film_ids@)),
            "source"@ => MetaValueView::Text(self.source@),
            "original_swapi_id"@ => MetaValueView::Text(self.original_swapi_id@),
            "original_oid"@ => MetaValueView::Text(lower_hex(self.object_id@)),
        ]
    }

    open spec fn edges_spec(&self) -> Seq<EdgeView> {
        reference_edges(
            strings_view(self.pilot_ids@),
            self.id@,
            EntityLabel::Vehicle,
            EntityLabel::Character,
            RelationType::Pilots,
            false,
        ) + reference_edges(
            strings_view(self.film_ids@),
            self.id@,
            EntityLabel::Vehicle,
            EntityLabel::Film,
            RelationType::AppearedIn,
            true,
        )
    }

    fn get_entity_id(&self) -> (r: String) {
        self.id.clone()
    }

    fn get_entity_label(&self) -> (r: EntityLabel) {
        EntityLabel::Vehicle
    }

    fn get_entity_name(&self) -> (r: String) {
        self.name.clone()
    }

    fn get_metadata_as_map(&self) -> (r: Metadata) {
        let mut map = Metadata::new();
        map.insert_str("name", text(&self.name));
        map.insert_str("model", text(&self.model));
        map.insert_str("manufacturer", text(&self.manufacturer));
        map.insert_str("cost_in_credits", text(&self.cost_in_credits));
        map.insert_str("length", text(&self.length));
        map.insert_str("max_atmosphering_speed", text(&self.max_atmosphering_speed));
        map.insert_str("crew", text(&self.crew));
        map.insert_str("passengers", text(&self.passengers));
        map.insert_str("cargo_capacity", text(&self.cargo_capacity));
        map.insert_str("vehicle_class", text(&self.vehicle_class));
        map.insert_str("pilot_ids", text_list(&self.pilot_ids));
        map.insert_str("film_ids", text_list(&self.film_ids));
        map.insert_str("source", text(&self.source));
        map.insert_str("original_swapi_id", text(&self.original_swapi_id));
        map.insert_str("original_oid", MetaValue::Text(object_id_hex(&self.object_id)));
        map
    }

    fn get_rich_text(&self) -> (r: String) {
        self.wiki_description.clone()
    }

    fn get_edges(&self) -> (r: Vec<GraphEdge>) {
        let mut edges: Vec<GraphEdge> = Vec::new();
        assert(edges_view(edges@) =~= Seq::<EdgeView>::empty());
        push_reference_edges(&mut edges, &self.pilot_ids, &self.id, EntityLabel::Vehicle, EntityLabel::Character, RelationType::Pilots, false);
        push_reference_edges(&mut edges, &self.film_ids, &self.id, EntityLabel::Vehicle, EntityLabel::Film, RelationType::AppearedIn, true);
        assert(edges_view(edges@) =~= self.edges_spec());
        edges
    }
}

} // verus!

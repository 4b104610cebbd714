use srv_darth_vader::edge::GraphEdge;
use srv_darth_vader::entity::{label_for_collection, transform, RawRecord};
use srv_darth_vader::labels::{EntityLabel, RelationType};
use srv_darth_vader::metadata::{MetaValue, Metadata, StoreParam};
use srv_darth_vader::records::{
    CharacterRaw, GraphableSource, MoviesRaw, PlanetRaw, SpeciesRaw, StarshipRaw, VehicleRaw,
};

fn s(x: &str) -> String {
    x.to_string()
}

fn ids(xs: &[&str]) -> Vec<String> {
    xs.iter().map(|x| x.to_string()).collect()
}

fn oid() -> [u8; 12] {
    [0x5f, 0x00, 0x0a, 0xff, 0x10, 0x01, 0x23, 0x45, 0x67, 0x89, 0xab, 0xcd]
}

fn character(homeworld: &str) -> CharacterRaw {
    CharacterRaw {
        object_id: oid(),
        id: s("char_1"),
        original_swapi_id: s("1"),
        name: s("Luke Skywalker"),
        wiki_description: s("A farm boy from Tatooine who became a Jedi."),
        birth_year: s("19BBY"),
        gender: s("male"),
        height: s("172"),
        mass: s("77"),
        homeworld_id: s(homeworld),
        species_ids: ids(&["1"]),
        source: s("swapi"),
        film_ids: ids(&["1"]),
        starship_ids: vec![],
        vehicle_ids: vec![],
    }
}

fn species(homeworld: Option<&str>) -> SpeciesRaw {
    SpeciesRaw {
        object_id: oid(),
        id: s("species_2"),
        original_swapi_id: s("2"),
        name: s("Droid"),
        classification: None,
        designation: s("sentient"),
        average_height: s("n/a"),
        average_lifespan: s("indefinite"),
        language: s("n/a"),
        skin_colors: s("n/a"),
        wiki_description: s("Mechanical beings."),
        homeworld_id: homeworld.map(|h| h.to_string()),
        people_ids: ids(&["2", "3"]),
        film_ids: ids(&["1", "2"]),
        source: s("swapi"),
    }
}

fn starship() -> StarshipRaw {
    StarshipRaw {
        object_id: oid(),
        id: s("starship_1"),
        original_swapi_id: s("1"),
        name: s("X-wing"),
        model: s("T-65 X-wing"),
        manufacturer: s("Incom"),
        wiki_description: s("A starfighter."),
        cost_in_credits: s("149999"),
        length: s("12.5"),
        max_atmosphering_speed: s("1050"),
        crew: s("1"),
        passengers: s("0"),
        cargo_capacity: s("110"),
        hyperdrive_rating: s("1.0"),
        starship_class: s("Starfighter"),
        pilot_ids: ids(&["1"]),
        film_ids: vec![],
        source: s("swapi"),
    }
}

fn edge(
    source_id: &str,
    source_label: EntityLabel,
    relation: RelationType,
    target_id: &str,
    target_label: EntityLabel,
) -> GraphEdge {
    GraphEdge {
        source_id: s(source_id),
        source_label,
        target_id: s(target_id),
        relation_type: relation,
        target_label,
    }
}

#[test]
fn character_scenario_edges() {
    let c = character("1");
    assert_eq!(
        c.get_edges(),
        vec![
            edge("char_1", EntityLabel::Character, RelationType::BornOn, "planet_1", EntityLabel::Planet),
            edge("char_1", EntityLabel::Character, RelationType::BelongsTo, "species_1", EntityLabel::Species),
            edge("char_1", EntityLabel::Character, RelationType::AppearedIn, "film_1", EntityLabel::Film),
        ]
    );
    let (entity, _) = transform(&RawRecord::Character(c));
    assert_eq!(entity.entity_label, EntityLabel::Character);
    assert_eq!(entity.entity_id, "char_1");
}

#[test]
fn character_unknown_homeworld_drops_born_on() {
    let c = character("unknown");
    assert_eq!(
        c.get_edges(),
        vec![
            edge("char_1", EntityLabel::Character, RelationType::BelongsTo, "species_1", EntityLabel::Species),
            edge("char_1", EntityLabel::Character, RelationType::AppearedIn, "film_1", EntityLabel::Film),
        ]
    );
}

#[test]
fn character_empty_homeworld_drops_born_on() {
    let edges = character("").get_edges();
    assert!(edges.iter().all(|e| e.relation_type != RelationType::BornOn));
    assert_eq!(edges.len(), 2);
}

#[test]
fn species_homeworld_sentinels() {
    for hw in [None, Some(""), Some("unknown")] {
        let edges = species(hw).get_edges();
        assert!(edges.iter().all(|e| e.relation_type != RelationType::ResidentOf));
        assert_eq!(edges.len(), 2);
    }
    let edges = species(Some("8")).get_edges();
    assert_eq!(
        edges[0],
        edge("species_2", EntityLabel::Species, RelationType::ResidentOf, "planet_8", EntityLabel::Planet)
    );
    assert_eq!(edges.len(), 3);
}

#[test]
fn sentinel_ids_in_lists_are_skipped() {
    let mut c = character("1");
    c.film_ids = ids(&["", "2", "unknown", "3"]);
    let films: Vec<String> = c
        .get_edges()
        .into_iter()
        .filter(|e| e.relation_type == RelationType::AppearedIn)
        .map(|e| e.target_id)
        .collect();
    assert_eq!(films, vec![s("film_2"), s("film_3")]);
}

#[test]
fn starship_pilot_edge_points_to_ship() {
    let edges = starship().get_edges();
    assert_eq!(
        edges,
        vec![edge("char_1", EntityLabel::Character, RelationType::Pilots, "starship_1", EntityLabel::Starship)]
    );
}

#[test]
fn vehicle_pilot_and_film_edges() {
    let v = VehicleRaw {
        object_id: oid(),
        id: s("vehicle_4"),
        original_swapi_id: s("4"),
        name: s("Sand Crawler"),
        model: s("Digger Crawler"),
        manufacturer: s("Corellia Mining Corporation"),
        wiki_description: s("A huge tracked vehicle."),
        cost_in_credits: s("150000"),
        length: s("36.8"),
        max_atmosphering_speed: s("30"),
        crew: s("46"),
        passengers: s("30"),
        cargo_capacity: s("50000"),
        vehicle_class: s("wheeled"),
        pilot_ids: ids(&["7"]),
        film_ids: ids(&["1"]),
        source: s("swapi"),
    };
    assert_eq!(
        v.get_edges(),
        vec![
            edge("char_7", EntityLabel::Character, RelationType::Pilots, "vehicle_4", EntityLabel::Vehicle),
            edge("vehicle_4", EntityLabel::Vehicle, RelationType::AppearedIn, "film_1", EntityLabel::Film),
        ]
    );
}

#[test]
fn film_edges_point_from_characters() {
    let m = MoviesRaw {
        object_id: oid(),
        id: s("film_1"),
        title: s("A New Hope"),
        episode_id: 4,
        director: s("George Lucas"),
        release_date: s("1977-05-25"),
        opening_crawl: s("It is a period of civil war."),
        wiki_plot: s("The rebels steal the plans."),
        character_ids: ids(&["1", "2"]),
        source: s("swapi"),
    };
    assert_eq!(
        m.get_edges(),
        vec![
            edge("char_1", EntityLabel::Character, RelationType::AppearedIn, "film_1", EntityLabel::Film),
            edge("char_2", EntityLabel::Character, RelationType::AppearedIn, "film_1", EntityLabel::Film),
        ]
    );
    let meta = m.get_metadata_as_map();
    assert_eq!(meta.get("episode_id"), Some(&MetaValue::Integer(4)));
    assert_eq!(meta.get("title"), Some(&MetaValue::Text(s("A New Hope"))));
    assert_eq!(meta.len(), 8);
    assert_eq!(m.get_entity_name(), "A New Hope");
    assert_eq!(m.get_rich_text(), "The rebels steal the plans.");
}

#[test]
fn planet_edges_and_metadata() {
    let p = PlanetRaw {
        object_id: oid(),
        id: s("planet_1"),
        original_swapi_id: s("1"),
        name: s("Tatooine"),
        rotation_period: s("23"),
        orbital_period: s("304"),
        diameter: s("10465"),
        climate: s("arid"),
        gravity: s("1 standard"),
        terrain: s("desert"),
        surface_water: s("1"),
        population: s("200000"),
        wiki_description: s("A desert world."),
        film_ids: ids(&["1", "3"]),
        resident_ids: ids(&["1"]),
        source: s("swapi"),
    };
    assert_eq!(
        p.get_edges(),
        vec![
            edge("planet_1", EntityLabel::Planet, RelationType::AppearedIn, "film_1", EntityLabel::Film),
            edge("planet_1", EntityLabel::Planet, RelationType::AppearedIn, "film_3", EntityLabel::Film),
        ]
    );
    let meta = p.get_metadata_as_map();
    assert_eq!(meta.len(), 14);
    assert_eq!(meta.get("resident_ids"), Some(&MetaValue::TextList(ids(&["1"]))));
    assert_eq!(meta.get("wiki_description"), None);
}

#[test]
fn character_metadata_values() {
    let meta = character("1").get_metadata_as_map();
    assert_eq!(meta.len(), 10);
    assert_eq!(meta.get("name"), Some(&MetaValue::Text(s("Luke Skywalker"))));
    assert_eq!(meta.get("homeworld_id"), Some(&MetaValue::Text(s("1"))));
    assert_eq!(meta.get("species_ids"), Some(&MetaValue::TextList(ids(&["1"]))));
    assert_eq!(meta.get("original_oid"), Some(&MetaValue::Text(s("5f000aff100123456789abcd"))));
    assert_eq!(meta.get("film_ids"), None);
}

#[test]
fn species_metadata_fills_unknown() {
    let meta = species(None).get_metadata_as_map();
    assert_eq!(meta.get("classification"), Some(&MetaValue::Text(s("unknown"))));
    assert_eq!(meta.get("homeworld_id"), Some(&MetaValue::Text(s("unknown"))));
    assert_eq!(meta.len(), 13);
}

#[test]
fn metadata_insert_replaces() {
    let mut m = Metadata::new();
    m.insert(s("k"), MetaValue::Integer(1));
    m.insert(s("j"), MetaValue::Flag(true));
    m.insert(s("k"), MetaValue::Integer(2));
    assert_eq!(m.len(), 2);
    assert_eq!(m.get("k"), Some(&MetaValue::Integer(2)));
}

#[test]
fn store_params_keep_lists_as_json_text() {
    let mut m = Metadata::new();
    m.insert(s("ids"), MetaValue::TextList(ids(&["1", "a\"b"])));
    m.insert(s("n"), MetaValue::Integer(-3));
    m.insert(s("ok"), MetaValue::Flag(false));
    m.insert(s("t"), MetaValue::Text(s("x")));
    let params = m.store_params();
    assert_eq!(
        params,
        vec![
            (s("ids"), StoreParam::Text(s("[\"1\",\"a\\\"b\"]"))),
            (s("n"), StoreParam::Integer(-3)),
            (s("ok"), StoreParam::Flag(false)),
            (s("t"), StoreParam::Text(s("x"))),
        ]
    );
}

#[test]
fn every_edge_is_namespaced() {
    let records = vec![
        RawRecord::Character(character("5")),
        RawRecord::Species(species(Some("8"))),
        RawRecord::Starship(starship()),
    ];
    for r in records {
        let (_, edges) = transform(&r);
        for e in edges {
            assert!(e.source_id.starts_with(e.source_label.id_prefix()));
            assert!(e.target_id.starts_with(e.target_label.id_prefix()));
        }
    }
}

#[test]
fn collection_names() {
    assert_eq!(label_for_collection("characters_raw"), Some(EntityLabel::Character));
    assert_eq!(label_for_collection("movies_raw"), Some(EntityLabel::Film));
    assert_eq!(label_for_collection("vehicles_raw"), Some(EntityLabel::Vehicle));
    assert_eq!(label_for_collection("films_raw"), None);
    assert_eq!(label_for_collection(""), None);
}

#[test]
fn relation_names() {
    assert_eq!(RelationType::AppearedIn.as_str(), "APPEARED_IN");
    assert_eq!(RelationType::ResidentOf.as_str(), "RESIDENT_OF");
    assert_eq!(RelationType::Produced.as_str(), "PRODUCED");
    assert_eq!(EntityLabel::Starship.as_str(), "Starship");
}

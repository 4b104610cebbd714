use srv_darth_vader::enrich::{blank, plan_embedding, reply_has_vector, EmbeddingPlan, DEFAULT_MIN_TEXT_LEN};
use srv_darth_vader::entity::RawRecord;
use srv_darth_vader::job::{start_job, Job, JobAction, JobEvent, JobPhase, JobWarning, TriggerError};
use srv_darth_vader::labels::{EntityLabel, RelationType};
use srv_darth_vader::metadata::StoreParam;
use srv_darth_vader::records::CharacterRaw;
use srv_darth_vader::entity::transform;
use srv_darth_vader::writer::{edge_upsert_query, ingest_entity_to_graph, node_upsert_query};

fn s(x: &str) -> String {
    x.to_string()
}

fn character(id: &str, text: &str) -> RawRecord {
    RawRecord::Character(CharacterRaw {
        object_id: [0; 12],
        id: s(id),
        original_swapi_id: s("1"),
        name: s("Luke Skywalker"),
        wiki_description: s(text),
        birth_year: s("19BBY"),
        gender: s("male"),
        height: s("172"),
        mass: s("77"),
        homeworld_id: s("1"),
        species_ids: vec![s("1")],
        source: s("swapi"),
        film_ids: vec![s("1")],
        starship_ids: vec![],
        vehicle_ids: vec![],
    })
}

fn step(job: Job, event: JobEvent) -> (Job, JobAction, Option<JobWarning>) {
    assert!(job.accepts(&event));
    let (job, st) = job.step(event);
    (job, st.action, st.warning)
}

#[test]
fn unsupported_collection_is_rejected() {
    assert!(matches!(start_job("droids_raw", s("key"), 10), Err(TriggerError::UnsupportedCollection)));
    let job = start_job("planets_raw", s("key"), 10).unwrap();
    assert_eq!(job.phase(), JobPhase::Pending);
    assert_eq!(job.label(), EntityLabel::Planet);
}

#[test]
fn short_text_skips_embedding() {
    assert_eq!(plan_embedding("key", "Luke", EntityLabel::Character, "short", 10), EmbeddingPlan::Skip);
    assert_eq!(plan_embedding("key", "Luke", EntityLabel::Character, "123456789", 10), EmbeddingPlan::Skip);
    assert_eq!(plan_embedding("", "Luke", EntityLabel::Character, "a long enough description", 10), EmbeddingPlan::Skip);
    assert_eq!(
        plan_embedding("key", "Luke", EntityLabel::Character, "1234567890", DEFAULT_MIN_TEXT_LEN),
        EmbeddingPlan::Request(s("About Luke (Character): 1234567890"))
    );
}

#[test]
fn reply_decides_vector() {
    assert!(reply_has_vector(Some(200), Some(768)));
    assert!(!reply_has_vector(Some(500), Some(768)));
    assert!(!reply_has_vector(Some(200), None));
    assert!(!reply_has_vector(Some(200), Some(0)));
    assert!(!reply_has_vector(None, None));
}

#[test]
fn query_texts() {
    assert_eq!(
        node_upsert_query(EntityLabel::Film),
        "MERGE (n:Film {id: $id}) SET n += $props, n.embedding = $vector, n.name = $name, n.last_updated = timestamp()"
    );
    assert_eq!(
        edge_upsert_query(EntityLabel::Character, EntityLabel::Starship, RelationType::Pilots),
        "MERGE (source:Character {id: $source_id}) MERGE (target:Starship {id: $target_id}) MERGE (source)-[r:PILOTS]->(target)"
    );
}

#[test]
fn provider_failure_still_writes_node() {
    let job = start_job("characters_raw", s("key"), 10).unwrap();
    let (job, a, w) = step(job, JobEvent::CursorOpened);
    assert!(matches!(a, JobAction::FetchNext));
    assert_eq!(w, None);
    assert_eq!(job.phase(), JobPhase::Running);
    let (job, a, _) = step(job, JobEvent::Record(character("char_1", "A farm boy who became a Jedi.")));
    match a {
        JobAction::Embed(text) => assert_eq!(text, "About Luke Skywalker (Character): A farm boy who became a Jedi."),
        other => panic!("unexpected {:?}", other),
    }
    let (job, a, w) = step(job, JobEvent::Embedded(false));
    assert_eq!(w, Some(JobWarning::EmbeddingAbsent));
    match a {
        JobAction::WriteNode(nw, with_vector) => {
            assert!(!with_vector);
            assert_eq!(nw.id, "char_1");
            assert_eq!(nw.label, EntityLabel::Character);
            assert!(nw.props.contains(&(s("gender"), StoreParam::Text(s("male")))));
        }
        other => panic!("unexpected {:?}", other),
    }
    let (job, a, _) = step(job, JobEvent::NodeWritten(true));
    let mut targets = vec![];
    let mut job = job;
    let mut action = a;
    loop {
        match action {
            JobAction::WriteEdge(ew) => {
                assert_eq!(ew.source_id, "char_1");
                targets.push(ew.target_id.clone());
                let (j, a, w) = step(job, JobEvent::EdgeWritten(true));
                assert_eq!(w, None);
                job = j;
                action = a;
            }
            JobAction::FetchNext => break,
            other => panic!("unexpected {:?}", other),
        }
    }
    assert_eq!(targets, vec![s("planet_1"), s("species_1"), s("film_1")]);
    let (job, a, _) = step(job, JobEvent::Exhausted);
    assert!(matches!(a, JobAction::Stop));
    assert_eq!(job.phase(), JobPhase::Completed);
}

#[test]
fn short_record_goes_straight_to_node_write() {
    let job = start_job("characters_raw", s("key"), 10).unwrap();
    let (job, _, _) = step(job, JobEvent::CursorOpened);
    let (job, a, _) = step(job, JobEvent::Record(character("char_2", "tiny")));
    assert!(matches!(a, JobAction::WriteNode(_, false)));
    let (_, a, _) = step(job, JobEvent::NodeWritten(true));
    assert!(matches!(a, JobAction::WriteEdge(_)));
}

#[test]
fn node_failure_skips_edges() {
    let job = start_job("characters_raw", s(""), 10).unwrap();
    let (job, _, _) = step(job, JobEvent::CursorOpened);
    let (job, a, _) = step(job, JobEvent::Record(character("char_3", "A long description here.")));
    assert!(matches!(a, JobAction::WriteNode(_, false)));
    let (job, a, w) = step(job, JobEvent::NodeWritten(false));
    assert!(matches!(a, JobAction::FetchNext));
    assert_eq!(w, Some(JobWarning::NodeWriteFailed));
    assert_eq!(job.phase(), JobPhase::Running);
}

#[test]
fn edge_failure_continues() {
    let job = start_job("characters_raw", s(""), 10).unwrap();
    let (job, _, _) = step(job, JobEvent::CursorOpened);
    let (job, _, _) = step(job, JobEvent::Record(character("char_4", "x")));
    let (job, _, _) = step(job, JobEvent::NodeWritten(true));
    let (job, a, w) = step(job, JobEvent::EdgeWritten(false));
    assert_eq!(w, Some(JobWarning::EdgeWriteFailed));
    match a {
        JobAction::WriteEdge(ew) => assert_eq!(ew.target_id, "species_1"),
        other => panic!("unexpected {:?}", other),
    }
    assert!(!job.accepts(&JobEvent::Exhausted));
}

#[test]
fn decode_error_skips_record_only() {
    let job = start_job("movies_raw", s("key"), 10).unwrap();
    let (job, _, _) = step(job, JobEvent::CursorOpened);
    let (job, a, w) = step(job, JobEvent::RecordUndecodable);
    assert!(matches!(a, JobAction::FetchNext));
    assert_eq!(w, Some(JobWarning::RecordSkipped));
    assert_eq!(job.phase(), JobPhase::Running);
}

#[test]
fn source_errors_fail_the_job() {
    let job = start_job("movies_raw", s("key"), 10).unwrap();
    let (job, a, _) = step(job, JobEvent::CursorFailed);
    assert!(matches!(a, JobAction::Stop));
    assert_eq!(job.phase(), JobPhase::Failed);
    let job = start_job("movies_raw", s("key"), 10).unwrap();
    let (job, _, _) = step(job, JobEvent::CursorOpened);
    let (job, _, _) = step(job, JobEvent::StreamFailed);
    assert_eq!(job.phase(), JobPhase::Failed);
    assert!(!job.accepts(&JobEvent::Exhausted));
}

#[test]
fn same_record_twice_gives_same_writes() {
    let job = start_job("characters_raw", s(""), 10).unwrap();
    let (job, _, _) = step(job, JobEvent::CursorOpened);
    let (job, a1, _) = step(job, JobEvent::Record(character("char_1", "x")));
    let (job, _, _) = step(job, JobEvent::NodeWritten(false));
    let (_, a2, _) = step(job, JobEvent::Record(character("char_1", "x")));
    match (a1, a2) {
        (JobAction::WriteNode(w1, _), JobAction::WriteNode(w2, _)) => {
            assert_eq!(w1.query, w2.query);
            assert_eq!(w1.id, w2.id);
            assert_eq!(w1.props, w2.props);
        }
        _ => panic!("expected node writes"),
    }
}

#[test]
fn entity_writes_node_then_each_edge() {
    let record = character("char_9", "x");
    let (node, writes) = ingest_entity_to_graph(&record);
    let (entity, _) = transform(&record);
    assert_eq!(node.name, entity.name);
    assert_eq!(node.id, "char_9");
    assert_eq!(node.name, "Luke Skywalker");
    assert_eq!(node.query, node_upsert_query(EntityLabel::Character));
    assert_eq!(node.props.len(), 10);
    assert!(node.props.contains(&(s("species_ids"), StoreParam::Text(s("[\"1\"]")))));
    assert_eq!(writes.len(), 3);
    assert_eq!(
        writes[0].query,
        "MERGE (source:Character {id: $source_id}) MERGE (target:Planet {id: $target_id}) MERGE (source)-[r:BORN_ON]->(target)"
    );
    assert_eq!(writes[0].source_id, "char_9");
    assert_eq!(writes[0].target_id, "planet_1");
    assert_eq!(writes[0].relation, RelationType::BornOn);
    assert_eq!(writes[0].target_label, EntityLabel::Planet);
    assert_eq!(writes[2].target_id, "film_1");
}

#[test]
fn blank_credential_skips_embedding() {
    let text = "a long enough description";
    assert_eq!(plan_embedding(" ", "Luke", EntityLabel::Character, text, 10), EmbeddingPlan::Skip);
    assert_eq!(plan_embedding("\t \n\u{3000}", "Luke", EntityLabel::Character, text, 10), EmbeddingPlan::Skip);
    assert_eq!(
        plan_embedding(" k ", "Luke", EntityLabel::Character, text, 10),
        EmbeddingPlan::Request(s("About Luke (Character): a long enough description"))
    );
    assert!(blank(""));
    assert!(blank("\u{a0}\u{2009}"));
    assert!(!blank(" x"));
}

#[test]
fn blank_credential_job_writes_without_request() {
    let job = start_job("characters_raw", s("   "), 10).unwrap();
    let (job, _, _) = step(job, JobEvent::CursorOpened);
    let (_, a, _) = step(job, JobEvent::Record(character("char_5", "A long description here.")));
    assert!(matches!(a, JobAction::WriteNode(_, false)));
}

//! What the graph writer sends to the store, and a model of what the store's
//! merge-by-key semantics make of it.

use vstd::prelude::*;
use vstd::string::*;
use crate::edge::{is_sentinel, namespaced, reference_edge, reference_edges, strings_view, EdgeView, GraphEdge};
use crate::entity::{lemma_contains_concat, lemma_reference_edges_cover, transform, CanonicalEntity, RawRecord};
use crate::records::{CharacterRaw, GraphableSource};
use crate::labels::{EntityLabel, RelationType};
use crate::metadata::{
    param_keys_unique, params_map, store_param_of, MetaValueView, StoreParam, StoreParamView,
};

verus! {

/// The node query: find or create the node by label and id, then overwrite
/// its properties. Only the label, from a closed set, enters the text.
pub open spec fn node_query_spec(label: EntityLabel) -> Seq<char> {
    "MERGE (n:"@ + label.name_spec()
        + " {id: $id}) SET n += $props, n.embedding = $vector, n.name = $name, n.last_updated = timestamp()"@
}

/// The edge query: find or create both endpoints, then the relationship.
pub open spec fn edge_query_spec(
    source_label: EntityLabel,
    target_label: EntityLabel,
    relation: RelationType,
) -> Seq<char> {
    "MERGE (source:"@ + source_label.name_spec() + " {id: $source_id}) MERGE (target:"@
        + target_label.name_spec() + " {id: $target_id}) MERGE (source)-[r:"@ + relation.name_spec()
        + "]->(target)"@
}

pub fn node_upsert_query(label: EntityLabel) -> (r: String)
    ensures
        r@ == node_query_spec(label),
{
    String::from_str("MERGE (n:").concat(label.as_str()).concat(
        " {id: $id}) SET n += $props, n.embedding = $vector, n.name = $name, n.last_updated = timestamp()",
    )
}

pub fn edge_upsert_query(
    source_label: EntityLabel,
    target_label: EntityLabel,
    relation: RelationType,
) -> (r: String)
    ensures
        r@ == edge_query_spec(source_label, target_label, relation),
{
    String::from_str("MERGE (source:").concat(source_label.as_str()).concat(
        " {id: $source_id}) MERGE (target:",
    ).concat(target_label.as_str()).concat(" {id: $target_id}) MERGE (source)-[r:").concat(
        relation.as_str(),
    ).concat("]->(target)")
}

/// One node upsert: the query text and its named parameters. The embedding
/// vector, when there is one, is bound as `$vector` beside these.
#[derive(Clone, Debug)]
pub struct NodeWrite {
    pub query: String,
    pub label: EntityLabel,
    pub id: String,
    pub name: String,
    pub props: Vec<(String, StoreParam)>,
}

/// One edge upsert: the query text and its two id parameters, beside the
/// labels and relation type that the text names.
#[derive(Clone, Debug)]
pub struct EdgeWrite {
    pub query: String,
    pub source_id: String,
    pub target_id: String,
    pub source_label: EntityLabel,
    pub target_label: EntityLabel,
    pub relation: RelationType,
}

pub struct NodeWriteView {
    pub query: Seq<char>,
    pub label: EntityLabel,
    pub id: Seq<char>,
    pub name: Seq<char>,
    pub props: Map<Seq<char>, StoreParamView>,
}

impl View for NodeWrite {
    type V = NodeWriteView;

    open spec fn view(&self) -> NodeWriteView {
        NodeWriteView {
            query: self.query@,
            label: self.label,
            id: self.id@,
            name: self.name@,
            props: params_map(self.props@),
        }
    }
}

pub struct EdgeWriteView {
    pub query: Seq<char>,
    pub source_id: Seq<char>,
    pub target_id: Seq<char>,
    pub source_label: EntityLabel,
    pub target_label: EntityLabel,
    pub relation: RelationType,
}

impl View for EdgeWrite {
    type V = EdgeWriteView;

    open spec fn view(&self) -> EdgeWriteView {
        EdgeWriteView {
            query: self.query@,
            source_id: self.source_id@,
            target_id: self.target_id@,
            source_label: self.source_label,
            target_label: self.target_label,
            relation: self.relation,
        }
    }
}

/// The node upsert of a record.
pub open spec fn node_write_spec(record: RawRecord) -> NodeWriteView {
    NodeWriteView {
        query: node_query_spec(record.label_spec()),
        label: record.label_spec(),
        id: record.id_view(),
        name: record.name_view(),
        props: record.metadata_view().map_values(|v: MetaValueView| store_param_of(v)),
    }
}

/// The upsert of one edge.
pub open spec fn edge_write_spec(e: EdgeView) -> EdgeWriteView {
    EdgeWriteView {
        query: edge_query_spec(e.source_label, e.target_label, e.relation),
        source_id: e.source_id,
        target_id: e.target_id,
        source_label: e.source_label,
        target_label: e.target_label,
        relation: e.relation,
    }
}

pub fn node_write(entity: &CanonicalEntity) -> (r: NodeWrite)
    requires
        entity.metadata.wf(),
    ensures
        r.query@ == node_query_spec(entity.entity_label),
        r.label == entity.entity_label,
        r.id@ == entity.entity_id@,
        r.name@ == entity.name@,
        param_keys_unique(r.props@),
        params_map(r.props@) == entity.metadata@.map_values(|v: MetaValueView| store_param_of(v)),
{
    NodeWrite {
        query: node_upsert_query(entity.entity_label),
        label: entity.entity_label,
        id: entity.entity_id.clone(),
        name: entity.name.clone(),
        props: entity.metadata.store_params(),
    }
}

pub fn edge_write(edge: &GraphEdge) -> (r: EdgeWrite)
    ensures
        r@ == edge_write_spec(edge@),
        r.query@ == edge_query_spec(edge.source_label, edge.target_label, edge.relation_type),
        r.source_id@ == edge.source_id@,
        r.target_id@ == edge.target_id@,
{
    EdgeWrite {
        query: edge_upsert_query(edge.source_label, edge.target_label, edge.relation_type),
        source_id: edge.source_id.clone(),
        target_id: edge.target_id.clone(),
        source_label: edge.source_label,
        target_label: edge.target_label,
        relation: edge.relation_type,
    }
}

impl EdgeWrite {
    pub fn copy(&self) -> (r: EdgeWrite)
        ensures
            r@ == self@,
    {
        EdgeWrite {
            query: self.query.clone(),
            source_id: self.source_id.clone(),
            target_id: self.target_id.clone(),
            source_label: self.source_label,
            target_label: self.target_label,
            relation: self.relation,
        }
    }
}

pub open spec fn edge_writes_spec(es: Seq<EdgeView>) -> Seq<EdgeWriteView> {
    es.map_values(|e: EdgeView| edge_write_spec(e))
}

pub open spec fn edge_writes_view(ws: Seq<EdgeWrite>) -> Seq<EdgeWriteView> {
    ws.map_values(|w: EdgeWrite| w@)
}

/// Everything one record sends to the store, in order: its node upsert, then
/// one upsert per edge. Applied in that order, these writes take the store
/// from `g` to `ingest_spec(g, record, ..)`.
pub fn ingest_entity_to_graph(record: &RawRecord) -> (r: (NodeWrite, Vec<EdgeWrite>))
    ensures
        r.0@ == node_write_spec(*record),
        param_keys_unique(r.0.props@),
        edge_writes_view(r.1@) == edge_writes_spec(record.edges_spec()),
{
    let (entity, edges) = transform(record);
    let node = node_write(&entity);
    let mut writes: Vec<EdgeWrite> = Vec::new();
    let mut i: usize = 0;
    while i < edges.len()
        invariant
            i <= edges@.len(),
            writes@.len() == i,
            forall|j: int| 0 <= j < i ==> (#[trigger] writes@[j])@ == edge_write_spec(edges@[j]@),
        decreases edges@.len() - i,
    {
        writes.push(edge_write(&edges[i]));
        i = i + 1;
    }
    assert(edge_writes_view(writes@) =~= edge_writes_spec(crate::edge::edges_view(edges@)));
    (node, writes)
}

/// A node of the store, keyed by label and id.
pub struct NodeState {
    pub props: Map<Seq<char>, StoreParamView>,
    pub name: Option<Seq<char>>,
    pub has_embedding: bool,
    pub last_updated: Option<int>,
}

/// The graph store: at most one node per key, at most one relationship of a
/// type between two nodes.
pub struct GraphState {
    pub nodes: Map<(EntityLabel, Seq<char>), NodeState>,
    pub rels: Set<((EntityLabel, Seq<char>), RelationType, (EntityLabel, Seq<char>))>,
}

/// A node created only to anchor an edge: its key and nothing else.
pub open spec fn stub_node() -> NodeState {
    NodeState { props: Map::empty(), name: None, has_embedding: false, last_updated: None }
}

/// The node query's effect: find or create by key, then overwrite.
pub open spec fn upsert_node(
    g: GraphState,
    label: EntityLabel,
    id: Seq<char>,
    name: Seq<char>,
    props: Map<Seq<char>, StoreParamView>,
    has_embedding: bool,
    stamp: int,
) -> GraphState {
    let key = (label, id);
    let old = if g.nodes.contains_key(key) {
        g.nodes[key]
    } else {
        stub_node()
    };
    GraphState {
        nodes: g.nodes.insert(
            key,
            NodeState {
                props: old.props.union_prefer_right(props),
                name: Some(name),
                has_embedding,
                last_updated: Some(stamp),
            },
        ),
        rels: g.rels,
    }
}

pub open spec fn source_key(e: EdgeView) -> (EntityLabel, Seq<char>) {
    (e.source_label, e.source_id)
}

pub open spec fn target_key(e: EdgeView) -> (EntityLabel, Seq<char>) {
    (e.target_label, e.target_id)
}

pub open spec fn ensure_node(g: GraphState, key: (EntityLabel, Seq<char>)) -> GraphState {
    if g.nodes.contains_key(key) {
        g
    } else {
        GraphState { nodes: g.nodes.insert(key, stub_node()), rels: g.rels }
    }
}

/// The edge query's effect: stub endpoints where missing, then the
/// relationship, once.
pub open spec fn merge_edge(g: GraphState, e: EdgeView) -> GraphState {
    let g2 = ensure_node(ensure_node(g, source_key(e)), target_key(e));
    GraphState { nodes: g2.nodes, rels: g2.rels.insert((source_key(e), e.relation, target_key(e))) }
}

pub open spec fn merge_edges(g: GraphState, es: Seq<EdgeView>) -> GraphState
    decreases es.len(),
{
    if es.len() == 0 {
        g
    } else {
        merge_edge(merge_edges(g, es.drop_last()), es.last())
    }
}

/// What the store makes of a node write.
pub open spec fn apply_node_write(g: GraphState, w: NodeWriteView, has_embedding: bool, stamp: int) -> GraphState {
    upsert_node(g, w.label, w.id, w.name, w.props, has_embedding, stamp)
}

/// The edge that an edge write merges.
pub open spec fn written_edge(w: EdgeWriteView) -> EdgeView {
    EdgeView {
        source_id: w.source_id,
        source_label: w.source_label,
        target_id: w.target_id,
        relation: w.relation,
        target_label: w.target_label,
    }
}

/// What the store makes of a sequence of edge writes, applied in order.
pub open spec fn apply_edge_writes(g: GraphState, ws: Seq<EdgeWriteView>) -> GraphState
    decreases ws.len(),
{
    if ws.len() == 0 {
        g
    } else {
        merge_edge(apply_edge_writes(g, ws.drop_last()), written_edge(ws.last()))
    }
}

/// One record written successfully: the writes of `ingest_entity_to_graph`,
/// node first, applied to the store.
pub open spec fn ingest_spec(g: GraphState, record: RawRecord, has_embedding: bool, stamp: int) -> GraphState {
    apply_edge_writes(
        apply_node_write(g, node_write_spec(record), has_embedding, stamp),
        edge_writes_spec(record.edges_spec()),
    )
}

proof fn lemma_edge_writes_merge(g: GraphState, es: Seq<EdgeView>)
    ensures
        apply_edge_writes(g, edge_writes_spec(es)) == merge_edges(g, es),
    decreases es.len(),
{
    if es.len() > 0 {
        assert(edge_writes_spec(es).drop_last() =~= edge_writes_spec(es.drop_last()));
        lemma_edge_writes_merge(g, es.drop_last());
        assert(written_edge(edge_writes_spec(es).last()) == es.last());
    }
}

/// The store after a record, in closed form: the record's node overwritten,
/// a stub for each endpoint not yet present, and the record's relationships
/// added once.
pub proof fn lemma_ingest_contents(g: GraphState, record: RawRecord, has_embedding: bool, stamp: int)
    ensures
        ({
            let key = (record.label_spec(), record.id_view());
            let old = if g.nodes.contains_key(key) {
                g.nodes[key]
            } else {
                stub_node()
            };
            let after = ingest_spec(g, record, has_embedding, stamp);
            &&& after.nodes.contains_key(key)
            &&& after.nodes[key] == NodeState {
                props: old.props.union_prefer_right(
                    record.metadata_view().map_values(|v: MetaValueView| store_param_of(v)),
                ),
                name: Some(record.name_view()),
                has_embedding,
                last_updated: Some(stamp),
            }
            &&& forall|k: (EntityLabel, Seq<char>)|
                #[trigger] after.nodes.contains_key(k) <==> (k == key || g.nodes.contains_key(k)
                    || is_endpoint(record.edges_spec(), k))
            &&& forall|k: (EntityLabel, Seq<char>)|
                k != key && #[trigger] after.nodes.contains_key(k) ==> after.nodes[k] == if g.nodes.contains_key(k) {
                    g.nodes[k]
                } else {
                    stub_node()
                }
            &&& after.rels == g.rels + edge_triples(record.edges_spec())
        }),
{
    let key = (record.label_spec(), record.id_view());
    let es = record.edges_spec();
    let a = apply_node_write(g, node_write_spec(record), has_embedding, stamp);
    let after = ingest_spec(g, record, has_embedding, stamp);
    lemma_edge_writes_merge(a, es);
    lemma_merge_edges_closed_form(a, es);
    assert(after == merge_edges(a, es));
    assert(a.nodes.contains_key(key));
    assert(after.nodes.contains_key(key));
    assert forall|k: (EntityLabel, Seq<char>)|
        #[trigger] after.nodes.contains_key(k) <==> (k == key || g.nodes.contains_key(k)
            || is_endpoint(es, k)) by {
        assert(a.nodes.contains_key(k) <==> (k == key || g.nodes.contains_key(k)));
    }
    assert forall|k: (EntityLabel, Seq<char>)|
        k != key && #[trigger] after.nodes.contains_key(k) implies after.nodes[k] == if g.nodes.contains_key(k) {
            g.nodes[k]
        } else {
            stub_node()
        } by {
        assert(a.nodes.contains_key(k) <==> g.nodes.contains_key(k));
    }
}

pub open spec fn is_endpoint(es: Seq<EdgeView>, key: (EntityLabel, Seq<char>)) -> bool {
    exists|i: int| 0 <= i < es.len() && (source_key(es[i]) == key || target_key(es[i]) == key)
}

pub open spec fn edge_triples(es: Seq<EdgeView>) -> Set<
    ((EntityLabel, Seq<char>), RelationType, (EntityLabel, Seq<char>)),
> {
    Set::new(
        |t: ((EntityLabel, Seq<char>), RelationType, (EntityLabel, Seq<char>))|
            exists|i: int|
                0 <= i < es.len() && t == (source_key(es[i]), es[i].relation, target_key(es[i])),
    )
}

proof fn lemma_merge_edges_closed_form(g: GraphState, es: Seq<EdgeView>)
    ensures
        forall|k: (EntityLabel, Seq<char>)|
            #[trigger] merge_edges(g, es).nodes.contains_key(k) <==> (g.nodes.contains_key(k)
                || is_endpoint(es, k)),
        forall|k: (EntityLabel, Seq<char>)|
            #[trigger] merge_edges(g, es).nodes.contains_key(k) ==> merge_edges(g, es).nodes[k] == if g.nodes.contains_key(k) {
                g.nodes[k]
            } else {
                stub_node()
            },
        merge_edges(g, es).rels == g.rels + edge_triples(es),
    decreases es.len(),
{
    if es.len() == 0 {
        assert(edge_triples(es) =~= Set::empty());
        assert(g.rels + edge_triples(es) =~= g.rels);
    } else {
        let rest = es.drop_last();
        lemma_merge_edges_closed_form(g, rest);
        let e = es.last();
        assert forall|k: (EntityLabel, Seq<char>)| is_endpoint(es, k) <==> (is_endpoint(rest, k)
            || source_key(e) == k || target_key(e) == k) by {
            if is_endpoint(es, k) {
                let i = choose|i: int|
                    0 <= i < es.len() && (source_key(es[i]) == k || target_key(es[i]) == k);
                if i < es.len() - 1 {
                    assert(rest[i] == es[i]);
                }
            }
            if is_endpoint(rest, k) {
                let i = choose|i: int|
                    0 <= i < rest.len() && (source_key(rest[i]) == k || target_key(rest[i]) == k);
                assert(rest[i] == es[i]);
            }
            if source_key(e) == k || target_key(e) == k {
                assert(es[es.len() - 1] == e);
            }
        }
        let t = (source_key(e), e.relation, target_key(e));
        assert(edge_triples(es) =~= edge_triples(rest).insert(t)) by {
            assert forall|x| edge_triples(es).contains(x) implies edge_triples(rest).insert(t).contains(x) by {
                let i = choose|i: int|
                    0 <= i < es.len() && x == (source_key(es[i]), es[i].relation, target_key(es[i]));
                if i < es.len() - 1 {
                    assert(rest[i] == es[i]);
                }
            }
            assert forall|x| edge_triples(rest).insert(t).contains(x) implies edge_triples(es).contains(x) by {
                if x == t {
                    assert(es[es.len() - 1] == e);
                } else {
                    let i = choose|i: int|
                        0 <= i < rest.len() && x == (source_key(rest[i]), rest[i].relation, target_key(rest[i]));
                    assert(rest[i] == es[i]);
                }
            }
        }
        assert(merge_edges(g, es).rels =~= g.rels + edge_triples(es));
    }
}

/// Idempotence: writing the same record a second time leaves the store as a
/// single write with the later embedding outcome and timestamp would: one
/// node per key holding the latest properties, and no relationship twice.
pub proof fn lemma_ingest_idempotent(
    g: GraphState,
    record: RawRecord,
    first_embedding: bool,
    first_stamp: int,
    second_embedding: bool,
    second_stamp: int,
)
    ensures
        ingest_spec(ingest_spec(g, record, first_embedding, first_stamp), record, second_embedding, second_stamp)
            == ingest_spec(g, record, second_embedding, second_stamp),
{
    let label = record.label_spec();
    let id = record.id_view();
    let name = record.name_view();
    let props = record.metadata_view().map_values(|v: MetaValueView| store_param_of(v));
    let es = record.edges_spec();
    let key = (label, id);
    let a = upsert_node(g, label, id, name, props, first_embedding, first_stamp);
    let g1 = merge_edges(a, es);
    let b = upsert_node(g1, label, id, name, props, second_embedding, second_stamp);
    let g2 = merge_edges(b, es);
    let c = upsert_node(g, label, id, name, props, second_embedding, second_stamp);
    let h = merge_edges(c, es);
    lemma_edge_writes_merge(a, es);
    lemma_edge_writes_merge(b, es);
    lemma_edge_writes_merge(c, es);
    lemma_merge_edges_closed_form(a, es);
    lemma_merge_edges_closed_form(b, es);
    lemma_merge_edges_closed_form(c, es);
    let old = if g.nodes.contains_key(key) {
        g.nodes[key]
    } else {
        stub_node()
    };
    assert(old.props.union_prefer_right(props).union_prefer_right(props) =~= old.props.union_prefer_right(props));
    assert(b.nodes[key] == c.nodes[key]);
    assert forall|k: (EntityLabel, Seq<char>)| #[trigger] g2.nodes.contains_key(k) <==> h.nodes.contains_key(k) by {
    }
    assert forall|k: (EntityLabel, Seq<char>)| #[trigger] g2.nodes.contains_key(k) implies g2.nodes[k] == h.nodes[k] by {
        if k != key {
            if a.nodes.contains_key(k) {
            }
        }
    }
    assert(g2.nodes =~= h.nodes);
    assert(g2.rels =~= h.rels);
}

/// Records of one label carry the same property keys.
proof fn lemma_same_label_same_keys(r1: RawRecord, r2: RawRecord)
    requires
        r1.label_spec() == r2.label_spec(),
    ensures
        r1.metadata_view().dom() == r2.metadata_view().dom(),
{
    assert(r1.metadata_view().dom() =~= r2.metadata_view().dom());
}

/// Idempotence with updated fields: ingesting a second record with the same
/// label and id leaves one node under that key, holding the second record's
/// properties, name, embedding outcome and timestamp, exactly as if the first
/// had never been written; the relationships are those of both, each once.
pub proof fn lemma_ingest_latest_wins(
    g: GraphState,
    first: RawRecord,
    first_embedding: bool,
    first_stamp: int,
    second: RawRecord,
    second_embedding: bool,
    second_stamp: int,
)
    requires
        first.label_spec() == second.label_spec(),
        first.id_view() == second.id_view(),
    ensures
        ({
            let key = (second.label_spec(), second.id_view());
            let twice = ingest_spec(ingest_spec(g, first, first_embedding, first_stamp), second, second_embedding, second_stamp);
            let once = ingest_spec(g, second, second_embedding, second_stamp);
            &&& twice.nodes.contains_key(key)
            &&& twice.nodes[key] == once.nodes[key]
            &&& twice.rels == g.rels + edge_triples(first.edges_spec()) + edge_triples(second.edges_spec())
        }),
{
    let key = (second.label_spec(), second.id_view());
    let g1 = ingest_spec(g, first, first_embedding, first_stamp);
    lemma_ingest_contents(g, first, first_embedding, first_stamp);
    lemma_ingest_contents(g1, second, second_embedding, second_stamp);
    lemma_ingest_contents(g, second, second_embedding, second_stamp);
    lemma_same_label_same_keys(first, second);
    let old = if g.nodes.contains_key(key) {
        g.nodes[key]
    } else {
        stub_node()
    };
    let p1 = first.metadata_view().map_values(|v: MetaValueView| store_param_of(v));
    let p2 = second.metadata_view().map_values(|v: MetaValueView| store_param_of(v));
    assert(p1.dom() =~= p2.dom());
    assert(old.props.union_prefer_right(p1).union_prefer_right(p2) =~= old.props.union_prefer_right(p2));
}

/// Writes of different records commute: two records with different keys,
/// ingested in either order, leave the same store.
pub proof fn lemma_ingest_commutes(
    g: GraphState,
    a: RawRecord,
    a_embedding: bool,
    a_stamp: int,
    b: RawRecord,
    b_embedding: bool,
    b_stamp: int,
)
    requires
        (a.label_spec(), a.id_view()) != (b.label_spec(), b.id_view()),
    ensures
        ingest_spec(ingest_spec(g, a, a_embedding, a_stamp), b, b_embedding, b_stamp) == ingest_spec(
            ingest_spec(g, b, b_embedding, b_stamp),
            a,
            a_embedding,
            a_stamp,
        ),
{
    let ka = (a.label_spec(), a.id_view());
    let kb = (b.label_spec(), b.id_view());
    let g1 = ingest_spec(g, a, a_embedding, a_stamp);
    let g2 = ingest_spec(g1, b, b_embedding, b_stamp);
    let h1 = ingest_spec(g, b, b_embedding, b_stamp);
    let h2 = ingest_spec(h1, a, a_embedding, a_stamp);
    lemma_ingest_contents(g, a, a_embedding, a_stamp);
    lemma_ingest_contents(g1, b, b_embedding, b_stamp);
    lemma_ingest_contents(g, b, b_embedding, b_stamp);
    lemma_ingest_contents(h1, a, a_embedding, a_stamp);
    let ea = a.edges_spec();
    let eb = b.edges_spec();
    assert forall|k: (EntityLabel, Seq<char>)| #[trigger] g2.nodes.contains_key(k) <==> h2.nodes.contains_key(k) by {
        assert(g2.nodes.contains_key(k) <==> (k == kb || g1.nodes.contains_key(k) || is_endpoint(eb, k)));
        assert(g1.nodes.contains_key(k) <==> (k == ka || g.nodes.contains_key(k) || is_endpoint(ea, k)));
        assert(h2.nodes.contains_key(k) <==> (k == ka || h1.nodes.contains_key(k) || is_endpoint(ea, k)));
        assert(h1.nodes.contains_key(k) <==> (k == kb || g.nodes.contains_key(k) || is_endpoint(eb, k)));
    }
    assert forall|k: (EntityLabel, Seq<char>)| #[trigger] g2.nodes.contains_key(k) implies g2.nodes[k] == h2.nodes[k] by {
        if k == ka {
            assert(g1.nodes.contains_key(ka));
            assert(g2.nodes[ka] == g1.nodes[ka]);
            let old_h1 = if h1.nodes.contains_key(ka) {
                h1.nodes[ka]
            } else {
                stub_node()
            };
            let old_g = if g.nodes.contains_key(ka) {
                g.nodes[ka]
            } else {
                stub_node()
            };
            if h1.nodes.contains_key(ka) {
                assert(h1.nodes[ka] == old_g);
            }
            assert(old_h1.props == old_g.props);
        } else if k == kb {
            assert(h1.nodes.contains_key(kb));
            assert(h2.nodes[kb] == h1.nodes[kb]);
            let old_g1 = if g1.nodes.contains_key(kb) {
                g1.nodes[kb]
            } else {
                stub_node()
            };
            let old_g = if g.nodes.contains_key(kb) {
                g.nodes[kb]
            } else {
                stub_node()
            };
            if g1.nodes.contains_key(kb) {
                assert(g1.nodes[kb] == old_g);
            }
            assert(old_g1.props == old_g.props);
        } else {
            assert(g1.nodes.contains_key(k) ==> g1.nodes[k] == if g.nodes.contains_key(k) {
                g.nodes[k]
            } else {
                stub_node()
            });
            assert(h1.nodes.contains_key(k) ==> h1.nodes[k] == if g.nodes.contains_key(k) {
                g.nodes[k]
            } else {
                stub_node()
            });
        }
    }
    assert(g2.nodes =~= h2.nodes);
    assert(g2.rels =~= h2.rels);
}

proof fn lemma_triples_contain(es: Seq<EdgeView>, e: EdgeView)
    requires
        es.contains(e),
    ensures
        edge_triples(es).contains((source_key(e), e.relation, target_key(e))),
{
    let i = choose|i: int| 0 <= i < es.len() && es[i] == e;
    assert(es[i] == e);
}

/// A character written to the store: its node holds its name, and the store
/// holds, once each, its BORN_ON relationship to the planet of a homeworld
/// that is not a sentinel, and a BELONGS_TO and an APPEARED_IN relationship
/// for each species and film id that is not.
pub proof fn lemma_character_relationships(g: GraphState, r: CharacterRaw, has_embedding: bool, stamp: int)
    ensures
        ({
            let after = ingest_spec(g, RawRecord::Character(r), has_embedding, stamp);
            let me = (EntityLabel::Character, r.id@);
            let species = strings_view(r.species_ids@);
            let films = strings_view(r.film_ids@);
            &&& after.nodes.contains_key(me)
            &&& after.nodes[me].name == Some(r.name@)
            &&& !is_sentinel(r.homeworld_id@) ==> after.rels.contains(
                (me, RelationType::BornOn, (EntityLabel::Planet, namespaced(EntityLabel::Planet, r.homeworld_id@))),
            )
            &&& forall|k: int|
                0 <= k < species.len() && !is_sentinel(#[trigger] species[k]) ==> after.rels.contains(
                    (me, RelationType::BelongsTo, (EntityLabel::Species, namespaced(EntityLabel::Species, species[k]))),
                )
            &&& forall|k: int|
                0 <= k < films.len() && !is_sentinel(#[trigger] films[k]) ==> after.rels.contains(
                    (me, RelationType::AppearedIn, (EntityLabel::Film, namespaced(EntityLabel::Film, films[k]))),
                )
        }),
{
    let rec = RawRecord::Character(r);
    let after = ingest_spec(g, rec, has_embedding, stamp);
    lemma_ingest_contents(g, rec, has_embedding, stamp);
    let id = r.id@;
    let own = EntityLabel::Character;
    let species = strings_view(r.species_ids@);
    let films = strings_view(r.film_ids@);
    let a = reference_edges(seq![r.homeworld_id@], id, own, EntityLabel::Planet, RelationType::BornOn, true);
    let b = reference_edges(species, id, own, EntityLabel::Species, RelationType::BelongsTo, true);
    let c = reference_edges(films, id, own, EntityLabel::Film, RelationType::AppearedIn, true);
    let d = reference_edges(strings_view(r.starship_ids@), id, own, EntityLabel::Starship, RelationType::Pilots, true);
    let e = reference_edges(strings_view(r.vehicle_ids@), id, own, EntityLabel::Vehicle, RelationType::Pilots, true);
    let es = rec.edges_spec();
    assert(es == a + b + c + d + e);
    if !is_sentinel(r.homeworld_id@) {
        let x = reference_edge(id, own, EntityLabel::Planet, RelationType::BornOn, true, r.homeworld_id@);
        lemma_reference_edges_cover(seq![r.homeworld_id@], id, own, EntityLabel::Planet, RelationType::BornOn, true, 0);
        lemma_contains_concat(a, b, x);
        lemma_contains_concat(a + b, c, x);
        lemma_contains_concat(a + b + c, d, x);
        lemma_contains_concat(a + b + c + d, e, x);
        lemma_triples_contain(es, x);
    }
    assert forall|k: int| 0 <= k < species.len() && !is_sentinel(#[trigger] species[k]) implies after.rels.contains(
        (
            (EntityLabel::Character, r.id@),
            RelationType::BelongsTo,
            (EntityLabel::Species, namespaced(EntityLabel::Species, species[k])),
        ),
    ) by {
        let x = reference_edge(id, own, EntityLabel::Species, RelationType::BelongsTo, true, species[k]);
        lemma_reference_edges_cover(species, id, own, EntityLabel::Species, RelationType::BelongsTo, true, k);
        lemma_contains_concat(a, b, x);
        lemma_contains_concat(a + b, c, x);
        lemma_contains_concat(a + b + c, d, x);
        lemma_contains_concat(a + b + c + d, e, x);
        lemma_triples_contain(es, x);
    }
    assert forall|k: int| 0 <= k < films.len() && !is_sentinel(#[trigger] films[k]) implies after.rels.contains(
        (
            (EntityLabel::Character, r.id@),
            RelationType::AppearedIn,
            (EntityLabel::Film, namespaced(EntityLabel::Film, films[k])),
        ),
    ) by {
        let x = reference_edge(id, own, EntityLabel::Film, RelationType::AppearedIn, true, films[k]);
        lemma_reference_edges_cover(films, id, own, EntityLabel::Film, RelationType::AppearedIn, true, k);
        lemma_contains_concat(a + b, c, x);
        lemma_contains_concat(a + b + c, d, x);
        lemma_contains_concat(a + b + c + d, e, x);
        lemma_triples_contain(es, x);
    }
}

} // verus!

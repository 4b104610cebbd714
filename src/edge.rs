//! Edge descriptors, namespaced ids and the sentinel rule for foreign keys.

use vstd::prelude::*;
use vstd::string::*;
use crate::labels::{EntityLabel, RelationType};

verus! {

/// A directed, labelled relationship between two namespaced node ids.
#[derive(Clone, Debug, PartialEq, Eq)]
pub struct GraphEdge {
    pub source_id: String,
    pub source_label: EntityLabel,
    pub target_id: String,
    pub relation_type: RelationType,
    pub target_label: EntityLabel,
}

/// The mathematical value of a [`GraphEdge`].
pub struct EdgeView {
    pub source_id: Seq<char>,
    pub source_label: EntityLabel,
    pub target_id: Seq<char>,
    pub relation: RelationType,
    pub target_label: EntityLabel,
}

impl View for GraphEdge {
    type V = EdgeView;

    open spec fn view(&self) -> EdgeView {
        EdgeView {
            source_id: self.source_id@,
            source_label: self.source_label,
            target_id: self.target_id@,
            relation: self.relation_type,
            target_label: self.target_label,
        }
    }
}

pub open spec fn edges_view(edges: Seq<GraphEdge>) -> Seq<EdgeView> {
    edges.map_values(|e: GraphEdge| e@)
}

pub open spec fn strings_view(v: Seq<String>) -> Seq<Seq<char>> {
    v.map_values(|s: String| s@)
}

pub open spec fn has_prefix(s: Seq<char>, p: Seq<char>) -> bool {
    p.len() <= s.len() && s.subrange(0, p.len() as int) == p
}

/// A raw foreign id rewritten into the namespace of the label it refers to.
pub open spec fn namespaced(label: EntityLabel, raw: Seq<char>) -> Seq<char> {
    label.prefix_spec() + raw
}

/// A foreign key that means "no reference": empty or the token `unknown`.
pub open spec fn is_sentinel(raw: Seq<char>) -> bool {
    raw.len() == 0 || raw == "unknown"@
}

/// The edge between an entity and the entity that a raw foreign id names.
/// With `outgoing` the entity is the source, otherwise the target.
pub open spec fn reference_edge(
    own_id: Seq<char>,
    own_label: EntityLabel,
    other_label: EntityLabel,
    relation: RelationType,
    outgoing: bool,
    raw: Seq<char>,
) -> EdgeView {
    if outgoing {
        EdgeView {
            source_id: own_id,
            source_label: own_label,
            target_id: namespaced(other_label, raw),
            relation,
            target_label: other_label,
        }
    } else {
        EdgeView {
            source_id: namespaced(other_label, raw),
            source_label: other_label,
            target_id: own_id,
            relation,
            target_label: own_label,
        }
    }
}

/// One edge per foreign id, in order, skipping the sentinels.
pub open spec fn reference_edges(
    ids: Seq<Seq<char>>,
    own_id: Seq<char>,
    own_label: EntityLabel,
    other_label: EntityLabel,
    relation: RelationType,
    outgoing: bool,
) -> Seq<EdgeView>
    decreases ids.len(),
{
    if ids.len() == 0 {
        Seq::empty()
    } else {
        let rest = reference_edges(ids.drop_last(), own_id, own_label, other_label, relation, outgoing);
        if is_sentinel(ids.last()) {
            rest
        } else {
            rest.push(reference_edge(own_id, own_label, other_label, relation, outgoing, ids.last()))
        }
    }
}

/// A single foreign id gives one edge, or none when it is a sentinel.
pub proof fn lemma_reference_edges_single(
    raw: Seq<char>,
    own_id: Seq<char>,
    own_label: EntityLabel,
    other_label: EntityLabel,
    relation: RelationType,
    outgoing: bool,
)
    ensures
        reference_edges(seq![raw], own_id, own_label, other_label, relation, outgoing) == if is_sentinel(raw) {
            Seq::<EdgeView>::empty()
        } else {
            seq![reference_edge(own_id, own_label, other_label, relation, outgoing, raw)]
        },
{
    assert(seq![raw].drop_last() =~= Seq::<Seq<char>>::empty());
    assert(reference_edges(Seq::empty(), own_id, own_label, other_label, relation, outgoing) == Seq::<EdgeView>::empty());
    assert(Seq::<EdgeView>::empty().push(reference_edge(own_id, own_label, other_label, relation, outgoing, raw)) =~= seq![reference_edge(own_id, own_label, other_label, relation, outgoing, raw)]);
}

pub fn is_sentinel_id(raw: &String) -> (r: bool)
    ensures
        r == is_sentinel(raw@),
{
    let unknown = String::from_str("unknown");
    raw.as_str().is_empty() || *raw == unknown
}

pub fn namespaced_id(label: EntityLabel, raw: &String) -> (r: String)
    ensures
        r@ == namespaced(label, raw@),
{
    String::from_str(label.id_prefix()).concat(raw.as_str())
}

/// Appends the edge for one foreign id, unless it is a sentinel.
pub fn push_reference_edge(
    edges: &mut Vec<GraphEdge>,
    raw: &String,
    own_id: &String,
    own_label: EntityLabel,
    other_label: EntityLabel,
    relation: RelationType,
    outgoing: bool,
)
    ensures
        edges_view(final(edges)@) == edges_view(old(edges)@) + reference_edges(
            seq![raw@],
            own_id@,
            own_label,
            other_label,
            relation,
            outgoing,
        ),
{
    let ghost before = edges_view(edges@);
    proof {
        lemma_reference_edges_single(raw@, own_id@, own_label, other_label, relation, outgoing);
    }
    if is_sentinel_id(raw) {
        assert(edges_view(edges@) =~= before + Seq::<EdgeView>::empty());
        return;
    }
    let other_id = namespaced_id(other_label, raw);
    let edge = if outgoing {
        GraphEdge {
            source_id: own_id.clone(),
            source_label: own_label,
            target_id: other_id,
            relation_type: relation,
            target_label: other_label,
        }
    } else {
        GraphEdge {
            source_id: other_id,
            source_label: other_label,
            target_id: own_id.clone(),
            relation_type: relation,
            target_label: own_label,
        }
    };
    edges.push(edge);
    assert(edges_view(edges@) =~= before + seq![
        reference_edge(own_id@, own_label, other_label, relation, outgoing, raw@),
    ]);
}

/// Appends one edge per foreign id of `ids`, in order, skipping the sentinels.
pub fn push_reference_edges(
    edges: &mut Vec<GraphEdge>,
    ids: &Vec<String>,
    own_id: &String,
    own_label: EntityLabel,
    other_label: EntityLabel,
    relation: RelationType,
    outgoing: bool,
)
    ensures
        edges_view(final(edges)@) == edges_view(old(edges)@) + reference_edges(
            strings_view(ids@),
            own_id@,
            own_label,
            other_label,
            relation,
            outgoing,
        ),
{
    let ghost before = edges_view(edges@);
    let mut i: usize = 0;
    assert(strings_view(ids@.subrange(0, 0)) =~= Seq::<Seq<char>>::empty());
    assert(edges_view(edges@) =~= before + Seq::<EdgeView>::empty());
    while i < ids.len()
        invariant
            i <= ids@.len(),
            edges_view(edges@) == before + reference_edges(
                strings_view(ids@.subrange(0, i as int)),
                own_id@,
                own_label,
                other_label,
                relation,
                outgoing,
            ),
        decreases ids@.len() - i,
    {
        let ghost mid = edges_view(edges@);
        push_reference_edge(edges, &ids[i], own_id, own_label, other_label, relation, outgoing);
        let ghost done = strings_view(ids@.subrange(0, i as int));
        let ghost next = strings_view(ids@.subrange(0, i + 1));
        assert(next.drop_last() =~= done);
        assert(next.last() == ids@[i as int]@);
        proof {
            lemma_reference_edges_single(ids@[i as int]@, own_id@, own_label, other_label, relation, outgoing);
        }
        i = i + 1;
        assert(edges_view(edges@) =~= before + reference_edges(
            next,
            own_id@,
            own_label,
            other_label,
            relation,
            outgoing,
        ));
    }
    assert(ids@.subrange(0, i as int) =~= ids@);
}

} // verus!

//! Normalises an arbitrary JSON payload into a graph of nodes and edges.
use vstd::prelude::*;

use crate::json::{field, items_of, owned, str_of, Json, JsonValue};
use crate::platform::{new_uuid, now_timestamp};

verus! {

/// A node of the extracted graph. Its `id` is freshly generated.
#[derive(Debug)]
pub struct Node {
    pub id: String,
    pub label: String,
    pub node_type: String,
    pub properties: Json,
}

/// An edge of the extracted graph. `source` and `target` are freshly generated
/// identifiers of their own, not the ids of the nodes of the same payload.
#[derive(Debug)]
pub struct Edge {
    pub source: String,
    pub target: String,
    pub edge_type: String,
    pub properties: Json,
}

/// What is known of one extraction.
#[derive(Debug)]
pub struct DataMetadata {
    pub extracted_at: i64,
    pub source: String,
    pub total_nodes: usize,
    pub total_edges: usize,
}

/// The graph that one payload yields.
#[derive(Debug)]
pub struct ExtractedData {
    pub nodes: Vec<Node>,
    pub edges: Vec<Edge>,
    pub metadata: DataMetadata,
}

/// Failure of an extraction. The extraction policy never produces it: a
/// payload without a usable `data` array yields an empty graph.
#[derive(Debug)]
pub enum ExtractionError {
    Invalid(String),
}

/// Extracts graphs from payloads in the BloodHound shape.
pub struct BloodHoundExtractor;

/// The text `s` if present, else `"unknown"`.
pub open spec fn or_unknown(s: Option<Seq<char>>) -> Seq<char> {
    match s {
        Some(t) => t,
        None => "unknown"@,
    }
}

/// The kind and properties of the node that element `e` of `data` yields, if any.
pub open spec fn element_nodes(e: JsonValue) -> Seq<(Seq<char>, JsonValue)> {
    match field(e, "Properties"@) {
        Some(p) => seq![(or_unknown(str_of(field(e, "ObjectIdentifier"@))), p)],
        None => seq![],
    }
}

/// The kind and properties of the edge that entry `rel` of `Rels` yields.
pub open spec fn edge_of(rel: JsonValue) -> (Seq<char>, JsonValue) {
    (or_unknown(str_of(field(rel, "RelType"@))), rel)
}

/// The edges that the entries `rels` yield, in order.
pub open spec fn rel_edges(rels: Seq<JsonValue>) -> Seq<(Seq<char>, JsonValue)> {
    rels.map_values(|rel: JsonValue| edge_of(rel))
}

/// The edges that element `e` of `data` yields.
pub open spec fn element_edges(e: JsonValue) -> Seq<(Seq<char>, JsonValue)> {
    match items_of(field(e, "Rels"@)) {
        Some(rels) => rel_edges(rels),
        None => seq![],
    }
}

/// The nodes that the elements `es` yield, in order.
pub open spec fn nodes_of_elements(es: Seq<JsonValue>) -> Seq<(Seq<char>, JsonValue)>
    decreases es.len(),
{
    if es.len() == 0 {
        seq![]
    } else {
        nodes_of_elements(es.drop_last()) + element_nodes(es.last())
    }
}

/// The edges that the elements `es` yield, in order.
pub open spec fn edges_of_elements(es: Seq<JsonValue>) -> Seq<(Seq<char>, JsonValue)>
    decreases es.len(),
{
    if es.len() == 0 {
        seq![]
    } else {
        edges_of_elements(es.drop_last()) + element_edges(es.last())
    }
}

/// The kind and properties of each node that `payload` yields: one per
/// element of its top-level `data` array that has `Properties`; none where
/// `data` is missing or not an array.
pub open spec fn graph_nodes(payload: JsonValue) -> Seq<(Seq<char>, JsonValue)> {
    match items_of(field(payload, "data"@)) {
        Some(es) => nodes_of_elements(es),
        None => seq![],
    }
}

/// The kind and properties of each edge that `payload` yields: one per entry
/// of each `Rels` array of an element of `data`.
pub open spec fn graph_edges(payload: JsonValue) -> Seq<(Seq<char>, JsonValue)> {
    match items_of(field(payload, "data"@)) {
        Some(es) => edges_of_elements(es),
        None => seq![],
    }
}

/// `nodes` carry the kinds and properties of `expected`, in order, each with a
/// fresh 36-character id.
pub open spec fn nodes_match(nodes: Seq<Node>, expected: Seq<(Seq<char>, JsonValue)>) -> bool {
    &&& nodes.len() == expected.len()
    &&& forall|k: int|
        0 <= k < nodes.len() ==> {
            &&& (#[trigger] nodes[k]).label@ == expected[k].0
            &&& nodes[k].node_type@ == expected[k].0
            &&& nodes[k].properties@ == expected[k].1
            &&& nodes[k].id@.len() == 36
        }
}

/// `edges` carry the kinds and properties of `expected`, in order, each with
/// fresh 36-character endpoint ids.
pub open spec fn edges_match(edges: Seq<Edge>, expected: Seq<(Seq<char>, JsonValue)>) -> bool {
    &&& edges.len() == expected.len()
    &&& forall|k: int|
        0 <= k < edges.len() ==> {
            &&& (#[trigger] edges[k]).edge_type@ == expected[k].0
            &&& edges[k].properties@ == expected[k].1
            &&& edges[k].source@.len() == 36
            &&& edges[k].target@.len() == 36
        }
}

/// The graph `g` is what `payload` yields.
pub open spec fn extracted_from(g: ExtractedData, payload: JsonValue) -> bool {
    &&& nodes_match(g.nodes@, graph_nodes(payload))
    &&& edges_match(g.edges@, graph_edges(payload))
    &&& g.metadata.source@ == "bloodhound"@
    &&& g.metadata.total_nodes == g.nodes@.len()
    &&& g.metadata.total_edges == g.edges@.len()
}

/// A payload without a `data` array yields no node and no edge.
pub proof fn lemma_no_data_empty_graph(payload: JsonValue)
    requires
        !(field(payload, "data"@) matches Some(JsonValue::Array(_))),
    ensures
        graph_nodes(payload).len() == 0,
        graph_edges(payload).len() == 0,
{
}

fn text_or_unknown(j: Option<&Json>) -> (r: String)
    ensures
        r@ == or_unknown(
            match j {
                Some(v) => str_of(Some(v@)),
                None => None,
            },
        ),
{
    match j {
        Some(v) => match v.as_str() {
            Some(s) => owned(s),
            None => owned("unknown"),
        },
        None => owned("unknown"),
    }
}

impl BloodHoundExtractor {
    /// The graph that `payload` yields. Never fails: a payload without a
    /// usable `data` array yields an empty graph.
    pub fn extract_from_json(payload: &Json) -> (r: Result<ExtractedData, ExtractionError>)
        ensures
            r matches Ok(g) && extracted_from(g, payload@),
    {
        let mut nodes: Vec<Node> = Vec::new();
        let mut edges: Vec<Edge> = Vec::new();
        if let Some(data) = payload.get("data") {
            if let Some(items) = data.as_array() {
                let ghost es = data@->Array_0;
                let mut i: usize = 0;
                while i < items.len()
                    invariant
                        items_of(field(payload@, "data"@)) == Some(es),
                        es.len() == items@.len(),
                        forall|k: int| 0 <= k < items@.len() ==> (#[trigger] items@[k])@ == es[k],
                        0 <= i <= items@.len(),
                        nodes_match(nodes@, nodes_of_elements(es.subrange(0, i as int))),
                        edges_match(edges@, edges_of_elements(es.subrange(0, i as int))),
                    decreases items@.len() - i,
                {
                    let item = &items[i];
                    let ghost e = es[i as int];
                    assert(es.subrange(0, i + 1).drop_last() == es.subrange(0, i as int));
                    assert(es.subrange(0, i + 1).last() == e);
                    let ghost nodes_before = nodes@;
                    let ghost edges_before = edges@;
                    let ghost prior_nodes = nodes_of_elements(es.subrange(0, i as int));
                    let ghost prior_edges = edges_of_elements(es.subrange(0, i as int));
                    if let Some(props) = item.get("Properties") {
                        let kind = text_or_unknown(item.get("ObjectIdentifier"));
                        let node = Node {
                            id: new_uuid(),
                            label: kind.clone(),
                            node_type: kind,
                            properties: props.copy(),
                        };
                        nodes.push(node);
                        assert(nodes_match(nodes@, prior_nodes + element_nodes(e))) by {
                            assert(nodes@ == nodes_before.push(node));
                        }
                    } else {
                        assert(prior_nodes + element_nodes(e) =~= prior_nodes);
                    }
                    let mut rel_items: Option<&Vec<Json>> = None;
                    if let Some(rels) = item.get("Rels") {
                        rel_items = rels.as_array();
                    }
                    if let Some(rels) = rel_items {
                        let ghost rs = items_of(field(e, "Rels"@))->Some_0;
                        let mut j: usize = 0;
                        while j < rels.len()
                            invariant
                                rs.len() == rels@.len(),
                                forall|k: int|
                                    0 <= k < rels@.len() ==> (#[trigger] rels@[k])@ == rs[k],
                                0 <= j <= rels@.len(),
                                edges_match(edges@, prior_edges + rel_edges(rs.subrange(0, j as int))),
                            decreases rels@.len() - j,
                        {
                            let rel = &rels[j];
                            let edge_type = text_or_unknown(rel.get("RelType"));
                            let edge = Edge {
                                source: new_uuid(),
                                target: new_uuid(),
                                edge_type,
                                properties: rel.copy(),
                            };
                            let ghost before = edges@;
                            edges.push(edge);
                            assert(rel_edges(rs.subrange(0, j + 1)) =~= rel_edges(
                                rs.subrange(0, j as int),
                            ).push(edge_of(rs[j as int])));
                            assert(prior_edges + rel_edges(rs.subrange(0, j + 1)) =~= (prior_edges
                                + rel_edges(rs.subrange(0, j as int))).push(edge_of(rs[j as int])));
                            assert(edges@ == before.push(edge));
                            j = j + 1;
                        }
                        assert(rs.subrange(0, rels@.len() as int) == rs);
                    } else {
                        assert(prior_edges + element_edges(e) =~= prior_edges);
                    }
                    i = i + 1;
                }
                assert(es.subrange(0, items@.len() as int) == es);
            }
        }
        let total_nodes = nodes.len();
        let total_edges = edges.len();
        let metadata = DataMetadata {
            extracted_at: now_timestamp(),
            source: owned("bloodhound"),
            total_nodes,
            total_edges,
        };
        Ok(ExtractedData { nodes, edges, metadata })
    }
}

} // verus!

//! Pure builders for the store's query text: similarity lookups and
//! the node-with-relationships fragment.

use vstd::prelude::*;

use crate::text::{i64_to_dec, spec_idec};

verus! {

/// The text of an optional label filter for an id-based similarity
/// query.
pub open spec fn spec_id_label_filter(label: Option<Seq<char>>) -> Seq<char> {
    match label {
        Some(l) => " AND node:"@ + l,
        None => Seq::empty(),
    }
}

/// The similarity query that starts from a reference node id.
pub fn build_node_id_query(label: Option<&str>) -> (r: String)
    ensures
        r@ == "\n        MATCH (n)\n        WHERE elementId(n) = $nodeId\n        CALL db.index.vector.queryNodes('nodeEmbeddings', $limit, n.embedding)\n        YIELD node, score\n        WHERE elementId(node) <> $nodeId"@
            + spec_id_label_filter(
            match label {
                Some(l) => Some(l@),
                None => None,
            },
        )
            + "\n        RETURN node.name as name, node.description as description, elementId(node) as id, score\n        ORDER BY score DESC\n        "@,
{
    let mut s = String::from_str(
        "\n        MATCH (n)\n        WHERE elementId(n) = $nodeId\n        CALL db.index.vector.queryNodes('nodeEmbeddings', $limit, n.embedding)\n        YIELD node, score\n        WHERE elementId(node) <> $nodeId",
    );
    let filter = match label {
        Some(l) => {
            let mut f = String::from_str(" AND node:");
            f.append(l);
            f
        },
        None => String::new(),
    };
    s.append(filter.as_str());
    s.append(
        "\n        RETURN node.name as name, node.description as description, elementId(node) as id, score\n        ORDER BY score DESC\n        ",
    );
    s
}

/// The text of an optional label filter for an embedding-based
/// similarity query.
pub open spec fn spec_embedding_label_filter(label: Option<Seq<char>>) -> Seq<char> {
    match label {
        Some(l) => "WHERE node:"@ + l + "\n            "@,
        None => Seq::empty(),
    }
}

/// The similarity query that starts from an embedding vector.
pub fn build_embedding_query(label: Option<&str>) -> (r: String)
    ensures
        r@ == "\n        CALL db.index.vector.queryNodes('nodeEmbeddings', $limit, $embedding)\n        YIELD node, score\n        "@
            + spec_embedding_label_filter(
            match label {
                Some(l) => Some(l@),
                None => None,
            },
        )
            + "RETURN node.name as name, node.description as description, elementId(node) as id, score\n        ORDER BY score DESC\n        "@,
{
    let mut s = String::from_str(
        "\n        CALL db.index.vector.queryNodes('nodeEmbeddings', $limit, $embedding)\n        YIELD node, score\n        ",
    );
    let filter = match label {
        Some(l) => {
            let mut f = String::from_str("WHERE node:");
            f.append(l);
            f.append("\n            ");
            f
        },
        None => String::new(),
    };
    s.append(filter.as_str());
    s.append(
        "RETURN node.name as name, node.description as description, elementId(node) as id, score\n        ORDER BY score DESC\n        ",
    );
    s
}

/// The query fragment collecting a node, its relationships up to the
/// given depth, and the affiliated nodes.
pub fn node_with_relationships_query_fragment(depth: i32) -> (r: String)
    ensures
        r@ == "\n        OPTIONAL MATCH (node)-[r*1.."@ + spec_idec(depth as int)
            + "]->(m)\n        UNWIND coalesce(r, [null]) AS unwound_relationships\n        UNWIND coalesce(m, [null]) AS unwound_affiliates\n        WITH\n            {\n                id: id(node),\n                elementId: elementId(node),\n                labels: labels(node),\n                props: properties(node)\n            } AS nodeWithMeta,\n            collect(distinct case when unwound_relationships is not null then {\n                id: id(unwound_relationships),\n                elementId: elementId(unwound_relationships),\n                startId: id(startNode(unwound_relationships)),\n                startElementId: elementId(startNode(unwound_relationships)),\n                endId: id(endNode(unwound_relationships)),\n                endElementId: elementId(endNode(unwound_relationships)),\n                type: type(unwound_relationships),\n                props: properties(unwound_relationships)\n            } else null end) AS relationshipsWithMeta,\n            collect(distinct case when unwound_affiliates is not null then {\n                id: id(unwound_affiliates),\n                elementId: elementId(unwound_affiliates),\n                labels: labels(unwound_affiliates),\n                props: properties(unwound_affiliates)\n            } else null end) AS affiliatedNodesWithMeta\n        RETURN\n            nodeWithMeta AS node,\n            relationshipsWithMeta AS relationships,\n            affiliatedNodesWithMeta AS affiliatedNodes\n        "@,
{
    let mut s = String::from_str("\n        OPTIONAL MATCH (node)-[r*1..");
    let d = i64_to_dec(depth as i64);
    s.append(d.as_str());
    s.append(
        "]->(m)\n        UNWIND coalesce(r, [null]) AS unwound_relationships\n        UNWIND coalesce(m, [null]) AS unwound_affiliates\n        WITH\n            {\n                id: id(node),\n                elementId: elementId(node),\n                labels: labels(node),\n                props: properties(node)\n            } AS nodeWithMeta,\n            collect(distinct case when unwound_relationships is not null then {\n                id: id(unwound_relationships),\n                elementId: elementId(unwound_relationships),\n                startId: id(startNode(unwound_relationships)),\n                startElementId: elementId(startNode(unwound_relationships)),\n                endId: id(endNode(unwound_relationships)),\n                endElementId: elementId(endNode(unwound_relationships)),\n                type: type(unwound_relationships),\n                props: properties(unwound_relationships)\n            } else null end) AS relationshipsWithMeta,\n            collect(distinct case when unwound_affiliates is not null then {\n                id: id(unwound_affiliates),\n                elementId: elementId(unwound_affiliates),\n                labels: labels(unwound_affiliates),\n                props: properties(unwound_affiliates)\n            } else null end) AS affiliatedNodesWithMeta\n        RETURN\n            nodeWithMeta AS node,\n            relationshipsWithMeta AS relationships,\n            affiliatedNodesWithMeta AS affiliatedNodes\n        ",
    );
    s
}

} // verus!

//! The domain/level step: the root domain node and the fixed ladder of
//! five mastery levels, created in ascending order and linked to the
//! domain.

use vstd::prelude::*;

use crate::json::JsonValue;
use crate::steps::{CreateNodeRequest, CreateRelationshipRequest};

verus! {

/// One mastery level of the fixed ladder.
#[derive(Clone, Debug)]
pub struct LevelInfo {
    pub level: i32,
    pub name: String,
    pub description: String,
    pub total_points_required: i32,
}

/// The name suffix of each of the five levels, in ascending order.
pub open spec fn spec_level_suffix(k: int) -> Seq<char> {
    if k == 0 {
        " Novice"@
    } else if k == 1 {
        " Developing"@
    } else if k == 2 {
        " Competent"@
    } else if k == 3 {
        " Advanced"@
    } else {
        " Master"@
    }
}

/// The description of each of the five levels, in ascending order.
pub open spec fn spec_level_description(k: int, domain_name: Seq<char>) -> Seq<char> {
    if k == 0 {
        "Beginning your journey in "@ + domain_name
    } else if k == 1 {
        "Building foundational skills in "@ + domain_name
    } else if k == 2 {
        "Demonstrating solid competence in "@ + domain_name
    } else if k == 3 {
        "Achieving advanced mastery in "@ + domain_name
    } else {
        "Expert-level mastery of "@ + domain_name
    }
}

/// The points threshold of each of the five levels, in ascending order.
pub open spec fn spec_level_points(k: int) -> int {
    if k == 0 {
        100
    } else if k == 1 {
        200
    } else if k == 2 {
        400
    } else if k == 3 {
        700
    } else {
        1000
    }
}

/// The fixed five-level structure of a domain: ascending levels, names
/// templated from the domain name, fixed point thresholds.
pub fn get_level_structure(domain_name: &str) -> (r: Vec<LevelInfo>)
    ensures
        r@.len() == 5,
        forall|k: int|
            0 <= k < 5 ==> {
                &&& (#[trigger] r@[k]).level == k + 1
                &&& r@[k].name@ == domain_name@ + spec_level_suffix(k)
                &&& r@[k].description@ == spec_level_description(k, domain_name@)
                &&& r@[k].total_points_required == spec_level_points(k)
            },
{
    let mut r: Vec<LevelInfo> = Vec::new();
    let mut name = String::from_str(domain_name);
    name.append(" Novice");
    let mut description = String::from_str("Beginning your journey in ");
    description.append(domain_name);
    r.push(LevelInfo { level: 1, name, description, total_points_required: 100 });
    let mut name = String::from_str(domain_name);
    name.append(" Developing");
    let mut description = String::from_str("Building foundational skills in ");
    description.append(domain_name);
    r.push(LevelInfo { level: 2, name, description, total_points_required: 200 });
    let mut name = String::from_str(domain_name);
    name.append(" Competent");
    let mut description = String::from_str("Demonstrating solid competence in ");
    description.append(domain_name);
    r.push(LevelInfo { level: 3, name, description, total_points_required: 400 });
    let mut name = String::from_str(domain_name);
    name.append(" Advanced");
    let mut description = String::from_str("Achieving advanced mastery in ");
    description.append(domain_name);
    r.push(LevelInfo { level: 4, name, description, total_points_required: 700 });
    let mut name = String::from_str(domain_name);
    name.append(" Master");
    let mut description = String::from_str("Expert-level mastery of ");
    description.append(domain_name);
    r.push(LevelInfo { level: 5, name, description, total_points_required: 1000 });
    r
}

/// The store write for the domain root node, with the avatar location
/// when one was produced.
pub fn domain_node_request(domain_name: &str, description: &str, avatar_url: Option<&str>) -> (r:
    CreateNodeRequest)
    ensures
        r.labels@.len() == 1 && r.labels@[0]@ == "Domain"@,
        r.properties@.len() == (if avatar_url is Some {
            3int
        } else {
            2int
        }),
        r.properties@[0].0@ == "name"@ && r.properties@[0].1.v() == crate::json::JsonV::Text(
            domain_name@,
        ),
        r.properties@[1].0@ == "description"@ && r.properties@[1].1.v()
            == crate::json::JsonV::Text(description@),
        avatar_url matches Some(url) ==> r.properties@[2].0@ == "avatar_url"@
            && r.properties@[2].1.v() == crate::json::JsonV::Text(url@),
{
    let mut labels: Vec<String> = Vec::new();
    labels.push(String::from_str("Domain"));
    let mut properties: Vec<(String, JsonValue)> = Vec::new();
    properties.push((String::from_str("name"), JsonValue::Text(String::from_str(domain_name))));
    properties.push(
        (String::from_str("description"), JsonValue::Text(String::from_str(description))),
    );
    if let Some(url) = avatar_url {
        properties.push(
            (String::from_str("avatar_url"), JsonValue::Text(String::from_str(url))),
        );
    }
    CreateNodeRequest { labels, properties }
}

/// The store write for one mastery level node.
pub fn level_node_request(info: &LevelInfo) -> (r: CreateNodeRequest)
    ensures
        r.labels@.len() == 1 && r.labels@[0]@ == "Domain_Level"@,
        r.properties@.len() == 4,
        r.properties@[0].0@ == "name"@ && r.properties@[0].1.v() == crate::json::JsonV::Text(
            info.name@,
        ),
        r.properties@[1].0@ == "description"@ && r.properties@[1].1.v()
            == crate::json::JsonV::Text(info.description@),
        r.properties@[2].0@ == "level"@ && r.properties@[2].1.v() == crate::json::JsonV::Int(
            info.level as i64,
        ),
        r.properties@[3].0@ == "total_points_required"@ && r.properties@[3].1.v()
            == crate::json::JsonV::Int(info.total_points_required as i64),
{
    let mut labels: Vec<String> = Vec::new();
    labels.push(String::from_str("Domain_Level"));
    let mut properties: Vec<(String, JsonValue)> = Vec::new();
    properties.push((String::from_str("name"), JsonValue::Text(info.name.clone())));
    properties.push((String::from_str("description"), JsonValue::Text(info.description.clone())));
    properties.push((String::from_str("level"), JsonValue::Int(info.level as i64)));
    properties.push(
        (
            String::from_str("total_points_required"),
            JsonValue::Int(info.total_points_required as i64),
        ),
    );
    CreateNodeRequest { labels, properties }
}

/// The edge write linking the domain to one of its levels.
pub fn has_level_request(domain_id: &str, level_id: &str) -> (r: CreateRelationshipRequest)
    ensures
        r.source_id@ == domain_id@,
        r.target_id@ == level_id@,
        r.relationship_type@ == "HAS_DOMAIN_LEVEL"@,
        r.properties is None,
{
    CreateRelationshipRequest {
        source_id: String::from_str(domain_id),
        target_id: String::from_str(level_id),
        relationship_type: String::from_str("HAS_DOMAIN_LEVEL"),
        properties: None,
    }
}

} // verus!

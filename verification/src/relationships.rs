//! The two relationship steps: assigning components to mastery levels
//! and mapping prerequisites between components.  Both parse one
//! structured answer over a snapshot of the registry and resolve every
//! named component back to a store id; unresolvable entries are
//! dropped, never fatal.

use vstd::prelude::*;

use crate::agents::AgentContext;
use crate::json::{seq_v, sp_get_arr, sp_get_int, sp_get_text, sp_span, JsonV, JsonValue};
use crate::models::{
    first_with_name, CreatedNode, DomainGraphRegistry, LevelRequirement, PrerequisiteLink,
};
use crate::steps::{CreateRelationshipRequest, NodeCategory};
use crate::text::{spec_contains, spec_parse_i64};

verus! {

// ---------------------------------------------------------------------------
// Resolving names against the registry
// ---------------------------------------------------------------------------
/// The registry collection owning one category.
pub open spec fn spec_collection_of(reg: DomainGraphRegistry, cat: NodeCategory) -> Seq<
    CreatedNode,
> {
    match cat {
        NodeCategory::Knowledge => reg.knowledge@,
        NodeCategory::Skill => reg.skills@,
        NodeCategory::Trait => reg.traits@,
        NodeCategory::Milestone => reg.milestones@,
    }
}

/// The id a (name, component type) pair resolves to: the first node of
/// that name in the named category's collection.
pub open spec fn spec_find_element_id(
    reg: DomainGraphRegistry,
    name: Seq<char>,
    node_type: Seq<char>,
) -> Option<Seq<char>> {
    match NodeCategory::spec_of_name(node_type) {
        Some(cat) => match first_with_name(spec_collection_of(reg, cat), name) {
            Some(n) => Some(n.element_id@),
            None => None,
        },
        None => None,
    }
}

/// Resolve a named component of a named category to its store id.
pub fn find_element_id(reg: &DomainGraphRegistry, name: &str, node_type: &str) -> (r: Option<
    String,
>)
    ensures
        match r {
            Some(id) => spec_find_element_id(*reg, name@, node_type@) == Some(id@),
            None => spec_find_element_id(*reg, name@, node_type@) is None,
        },
{
    let cat = match NodeCategory::of_name(node_type) {
        Some(cat) => cat,
        None => {
            return None;
        },
    };
    let nodes = match cat {
        NodeCategory::Knowledge => &reg.knowledge,
        NodeCategory::Skill => &reg.skills,
        NodeCategory::Trait => &reg.traits,
        NodeCategory::Milestone => &reg.milestones,
    };
    match crate::models::find_name_in(nodes, name) {
        Some(n) => Some(n.element_id.clone()),
        None => None,
    }
}

// ---------------------------------------------------------------------------
// Level assignments
// ---------------------------------------------------------------------------
/// The canonical suffix word of a level number; empty outside one to
/// five.
pub open spec fn spec_level_word(level: i64) -> Seq<char> {
    if level == 1 {
        "Novice"@
    } else if level == 2 {
        "Developing"@
    } else if level == 3 {
        "Competent"@
    } else if level == 4 {
        "Advanced"@
    } else if level == 5 {
        "Master"@
    } else {
        ""@
    }
}

/// The first level node whose name holds the needle.
pub open spec fn first_containing(nodes: Seq<CreatedNode>, needle: Seq<char>) -> Option<
    CreatedNode,
>
    decreases nodes.len(),
{
    if nodes.len() == 0 {
        None
    } else if spec_contains(nodes[0].name@, needle) {
        Some(nodes[0])
    } else {
        first_containing(nodes.drop_first(), needle)
    }
}

/// The level id an assignment's numeric level resolves to: the first
/// level whose name holds the level's canonical suffix, else the level
/// at that one-based position.
pub open spec fn spec_level_id(reg: DomainGraphRegistry, level: i64) -> Option<Seq<char>> {
    let needle = " "@ + spec_level_word(level);
    match first_containing(reg.domain_levels@, needle) {
        Some(n) => Some(n.element_id@),
        None => if 1 <= level && level <= reg.domain_levels@.len() {
            Some(reg.domain_levels@[level - 1].element_id@)
        } else {
            None
        },
    }
}

/// Resolve an assignment's numeric level to a level node id.
pub fn resolve_level_id(reg: &DomainGraphRegistry, level: i64) -> (r: Option<String>)
    ensures
        match r {
            Some(id) => spec_level_id(*reg, level) == Some(id@),
            None => spec_level_id(*reg, level) is None,
        },
{
    let word: &'static str = if level == 1 {
        "Novice"
    } else if level == 2 {
        "Developing"
    } else if level == 3 {
        "Competent"
    } else if level == 4 {
        "Advanced"
    } else if level == 5 {
        "Master"
    } else {
        ""
    };
    let mut needle = String::from_str(" ");
    needle.append(word);
    let nodes = &reg.domain_levels;
    proof {
        assert(nodes@.skip(0) =~= nodes@);
    }
    let mut i: usize = 0;
    while i < nodes.len()
        invariant
            i <= nodes@.len(),
            nodes@ == reg.domain_levels@,
            needle@ == " "@ + spec_level_word(level),
            first_containing(nodes@, needle@) == first_containing(nodes@.skip(i as int), needle@),
        decreases nodes@.len() - i,
    {
        proof {
            assert(nodes@.skip(i as int)[0] == nodes@[i as int]);
            assert(nodes@.skip(i as int).drop_first() =~= nodes@.skip(i + 1));
        }
        if crate::text::contains_sub(nodes[i].name.as_str(), needle.as_str()) {
            return Some(nodes[i].element_id.clone());
        }
        i = i + 1;
    }
    if 1 <= level && (level as u64) <= (nodes.len() as u64) {
        let idx: usize = (level - 1) as usize;
        proof {
            assert(idx as int == level - 1);
        }
        Some(nodes[idx].element_id.clone())
    } else {
        None
    }
}

/// One resolved level assignment.
#[derive(Clone, Debug)]
pub struct LevelAssignment {
    pub level_id: String,
    pub component_id: String,
    pub component_name: String,
    pub component_type: String,
    pub proficiency: Option<String>,
}

/// The spec-level content of a resolved assignment.
pub struct AssignV {
    pub level_id: Seq<char>,
    pub component_id: Seq<char>,
    pub component_name: Seq<char>,
    pub component_type: Seq<char>,
    pub proficiency: Option<Seq<char>>,
}

impl LevelAssignment {
    /// The spec-level content of this assignment.
    pub open spec fn v(self) -> AssignV {
        AssignV {
            level_id: self.level_id@,
            component_id: self.component_id@,
            component_name: self.component_name@,
            component_type: self.component_type@,
            proficiency: match self.proficiency {
                Some(p) => Some(p@),
                None => None,
            },
        }
    }
}

/// The assignments a list of answer items denotes: an item missing a
/// required field poisons the whole answer; an item whose component or
/// level cannot be resolved is dropped.
pub open spec fn sp_assignments(items: Seq<JsonV>, reg: DomainGraphRegistry) -> Option<Seq<AssignV>>
    decreases items.len(),
{
    if items.len() == 0 {
        Some(Seq::empty())
    } else {
        match sp_get_text(items[0], "component"@) {
            Some(cname) => match sp_get_text(items[0], "component_type"@) {
                Some(ctype) => match sp_get_int(items[0], "level"@) {
                    Some(level) => {
                        let prof = sp_get_text(items[0], "proficiency"@);
                        match sp_assignments(items.drop_first(), reg) {
                            Some(rest) => match spec_find_element_id(reg, cname, ctype) {
                                Some(cid) => match spec_level_id(reg, level) {
                                    Some(lid) => Some(
                                        seq![
                                            AssignV {
                                                level_id: lid,
                                                component_id: cid,
                                                component_name: cname,
                                                component_type: ctype,
                                                proficiency: prof,
                                            },
                                        ] + rest,
                                    ),
                                    None => Some(rest),
                                },
                                None => Some(rest),
                            },
                            None => None,
                        }
                    },
                    None => None,
                },
                None => None,
            },
            None => None,
        }
    }
}

/// The assignments an answer text denotes: the braced span parsed as an
/// object holding a `level_assignments` array.
pub open spec fn sp_parse_level_assignments(t: Seq<char>, reg: DomainGraphRegistry) -> Option<
    Seq<AssignV>,
> {
    match sp_span(t, '{', '}') {
        Some(doc) => match sp_get_arr(doc, "level_assignments"@) {
            Some(items) => sp_assignments(items, reg),
            None => None,
        },
        None => None,
    }
}

fn assignments_rec(items: &Vec<JsonValue>, idx: usize, reg: &DomainGraphRegistry) -> (r: Result<
    Vec<LevelAssignment>,
    String,
>)
    requires
        idx <= items@.len(),
    ensures
        match r {
            Ok(out) => sp_assignments(seq_v(items@).skip(idx as int), *reg) == Some(
                Seq::new(out@.len(), |k: int| out@[k].v()),
            ),
            Err(_) => sp_assignments(seq_v(items@).skip(idx as int), *reg) is None,
        },
    decreases items@.len() - idx,
{
    if idx == items.len() {
        let out: Vec<LevelAssignment> = Vec::new();
        proof {
            assert(seq_v(items@).skip(idx as int) =~= Seq::<JsonV>::empty());
            assert(Seq::new(out@.len(), |k: int| out@[k].v()) =~= Seq::<AssignV>::empty());
        }
        return Ok(out);
    }
    proof {
        assert(seq_v(items@).skip(idx as int)[0] == seq_v(items@)[idx as int]);
        assert(seq_v(items@).skip(idx as int).drop_first() =~= seq_v(items@).skip(idx + 1));
        assert(seq_v(items@)[idx as int] == items@[idx as int].v());
    }
    let item = &items[idx];
    let cname = match item.get_text("component") {
        Some(c) => c,
        None => {
            return Err(String::from_str("Missing component name"));
        },
    };
    let ctype = match item.get_text("component_type") {
        Some(c) => c,
        None => {
            return Err(String::from_str("Missing component type"));
        },
    };
    let level = match item.get_int("level") {
        Some(l) => l,
        None => {
            return Err(String::from_str("Missing level"));
        },
    };
    let prof = item.get_text("proficiency");
    let rest = match assignments_rec(items, idx + 1, reg) {
        Ok(rest) => rest,
        Err(e) => {
            return Err(e);
        },
    };
    let cid = match find_element_id(reg, cname.as_str(), ctype.as_str()) {
        Some(cid) => cid,
        None => {
            return Ok(rest);
        },
    };
    let lid = match resolve_level_id(reg, level) {
        Some(lid) => lid,
        None => {
            return Ok(rest);
        },
    };
    let mut out = rest;
    let ghost restv = Seq::new(out@.len(), |k: int| out@[k].v());
    out.insert(
        0,
        LevelAssignment {
            level_id: lid,
            component_id: cid,
            component_name: cname,
            component_type: ctype,
            proficiency: prof,
        },
    );
    proof {
        assert(Seq::new(out@.len(), |k: int| out@[k].v()) =~= seq![out@[0].v()] + restv);
    }
    Ok(out)
}

/// Parse a level-assignment answer against the registry: required
/// fields are demanded, unresolvable assignments are dropped.
pub fn parse_level_assignments(response: &str, context: &AgentContext) -> (r: Result<
    Vec<LevelAssignment>,
    String,
>)
    ensures
        match r {
            Ok(out) => sp_parse_level_assignments(response@, context.domain_graph) == Some(
                Seq::new(out@.len(), |k: int| out@[k].v()),
            ),
            Err(_) => sp_parse_level_assignments(response@, context.domain_graph) is None,
        },
{
    let doc = match crate::json::parse_object_span(response) {
        Some(doc) => doc,
        None => {
            return Err(String::from_str("No JSON object found"));
        },
    };
    let items = match doc.get_arr("level_assignments") {
        Some(items) => items,
        None => {
            return Err(String::from_str("Missing level_assignments array"));
        },
    };
    proof {
        assert(seq_v(items@).skip(0) =~= seq_v(items@));
    }
    assignments_rec(items, 0, &context.domain_graph)
}

// ---------------------------------------------------------------------------
// Level requirement writes
// ---------------------------------------------------------------------------
/// The spec view of an optional property list.
pub open spec fn props_v(p: Option<Vec<(String, JsonValue)>>) -> Option<Seq<(Seq<char>, JsonV)>> {
    match p {
        Some(v) => Some(crate::json::fields_v(v@)),
        None => None,
    }
}

/// The edge properties a level requirement carries: the category's
/// proficiency key with the assignment's value — a knowledge Bloom
/// level, a skill Dreyfus level, or a numeric trait minimum (dropped
/// when it does not parse); milestones carry none.
pub open spec fn sp_req_props(cat: NodeCategory, prof: Option<Seq<char>>) -> Option<
    Seq<(Seq<char>, JsonV)>,
> {
    match prof {
        None => None,
        Some(p) => match cat {
            NodeCategory::Knowledge => Some(seq![("bloom_level"@, JsonV::Text(p))]),
            NodeCategory::Skill => Some(seq![("dreyfus_level"@, JsonV::Text(p))]),
            NodeCategory::Trait => match spec_parse_i64(p) {
                Some(n) => Some(seq![("min_score"@, JsonV::Int(n))]),
                None => None,
            },
            NodeCategory::Milestone => None,
        },
    }
}

/// How the level-requirement writes follow from the assignments: one
/// typed edge and one record per assignment of a known category;
/// assignments of unknown categories are dropped.
pub open spec fn sp_level_req_rel(
    assigns: Seq<LevelAssignment>,
    out: Seq<(CreateRelationshipRequest, LevelRequirement)>,
) -> bool
    decreases assigns.len(),
{
    if assigns.len() == 0 {
        out.len() == 0
    } else {
        let a = assigns[0];
        match NodeCategory::spec_of_name(a.component_type@) {
            None => sp_level_req_rel(assigns.drop_first(), out),
            Some(cat) => out.len() > 0 && out[0].0.source_id@ == a.level_id@
                && out[0].0.target_id@ == a.component_id@ && out[0].0.relationship_type@
                == cat.spec_requires_edge() && props_v(out[0].0.properties) == sp_req_props(
                cat,
                a.v().proficiency,
            ) && out[0].1.level_id@ == a.level_id@ && out[0].1.component_id@ == a.component_id@
                && out[0].1.component_name@ == a.component_name@ && out[0].1.component_type@
                == a.component_type@ && (match (out[0].1.proficiency, a.proficiency) {
                (Some(x), Some(y)) => x@ == y@,
                (None, None) => true,
                _ => false,
            }) && sp_level_req_rel(assigns.drop_first(), out.drop_first()),
        }
    }
}

/// Build one typed requirement edge and registry record per resolved
/// assignment of a known category.
pub fn level_requirement_requests(assignments: &Vec<LevelAssignment>) -> (r: Vec<
    (CreateRelationshipRequest, LevelRequirement),
>)
    ensures
        sp_level_req_rel(assignments@, r@),
{
    proof {
        assert(assignments@.skip(0) =~= assignments@);
    }
    level_req_rec(assignments, 0)
}

fn level_req_rec(assignments: &Vec<LevelAssignment>, i: usize) -> (r: Vec<
    (CreateRelationshipRequest, LevelRequirement),
>)
    requires
        i <= assignments@.len(),
    ensures
        sp_level_req_rel(assignments@.skip(i as int), r@),
    decreases assignments@.len() - i,
{
    if i == assignments.len() {
        let r: Vec<(CreateRelationshipRequest, LevelRequirement)> = Vec::new();
        proof {
            assert(assignments@.skip(i as int) =~= Seq::<LevelAssignment>::empty());
        }
        return r;
    }
    proof {
        assert(assignments@.skip(i as int)[0] == assignments@[i as int]);
        assert(assignments@.skip(i as int).drop_first() =~= assignments@.skip(i + 1));
    }
    let a = &assignments[i];
    let cat = match NodeCategory::of_name(a.component_type.as_str()) {
        Some(cat) => cat,
        None => {
            return level_req_rec(assignments, i + 1);
        },
    };
    let properties: Option<Vec<(String, JsonValue)>> = match &a.proficiency {
        None => None,
        Some(p) => match cat {
            NodeCategory::Knowledge => {
                let mut props: Vec<(String, JsonValue)> = Vec::new();
                props.push((String::from_str("bloom_level"), JsonValue::Text(p.clone())));
                proof {
                    assert(crate::json::fields_v(props@) =~= seq![
                        ("bloom_level"@, JsonV::Text(p@)),
                    ]);
                }
                Some(props)
            },
            NodeCategory::Skill => {
                let mut props: Vec<(String, JsonValue)> = Vec::new();
                props.push((String::from_str("dreyfus_level"), JsonValue::Text(p.clone())));
                proof {
                    assert(crate::json::fields_v(props@) =~= seq![
                        ("dreyfus_level"@, JsonV::Text(p@)),
                    ]);
                }
                Some(props)
            },
            NodeCategory::Trait => match crate::text::parse_i64_dec(p.as_str()) {
                Some(n) => {
                    let mut props: Vec<(String, JsonValue)> = Vec::new();
                    props.push((String::from_str("min_score"), JsonValue::Int(n)));
                    proof {
                        assert(crate::json::fields_v(props@) =~= seq![
                            ("min_score"@, JsonV::Int(n)),
                        ]);
                    }
                    Some(props)
                },
                None => None,
            },
            NodeCategory::Milestone => None,
        },
    };
    let pair = (
        CreateRelationshipRequest {
            source_id: a.level_id.clone(),
            target_id: a.component_id.clone(),
            relationship_type: String::from_str(cat.requires_edge()),
            properties,
        },
        LevelRequirement {
            level_id: a.level_id.clone(),
            component_id: a.component_id.clone(),
            component_name: a.component_name.clone(),
            component_type: a.component_type.clone(),
            proficiency: match &a.proficiency {
                Some(p) => Some(p.clone()),
                None => None,
            },
        },
    );
    let rest = level_req_rec(assignments, i + 1);
    let mut out = rest;
    let ghost restv = out@;
    out.insert(0, pair);
    proof {
        assert(out@.drop_first() =~= restv);
    }
    out
}

// ---------------------------------------------------------------------------
// Prerequisites
// ---------------------------------------------------------------------------
/// The spec content of one prerequisite record.
pub open spec fn prereq_v(l: PrerequisiteLink) -> (
    Seq<char>,
    Seq<char>,
    Seq<char>,
    Seq<char>,
    Seq<char>,
) {
    (l.source_id@, l.source_name@, l.target_id@, l.target_name@, l.relationship_type@)
}

/// The prerequisite records one component's `requires` list denotes:
/// entries whose named target cannot be resolved are dropped.
pub open spec fn sp_prereq_entries(
    reqs: Seq<JsonV>,
    reg: DomainGraphRegistry,
    source_id: Seq<char>,
    source_name: Seq<char>,
) -> Seq<(Seq<char>, Seq<char>, Seq<char>, Seq<char>, Seq<char>)>
    decreases reqs.len(),
{
    if reqs.len() == 0 {
        Seq::empty()
    } else {
        let name = match sp_get_text(reqs[0], "name"@) {
            Some(n) => n,
            None => ""@,
        };
        let rtype = match sp_get_text(reqs[0], "type"@) {
            Some(t) => t,
            None => ""@,
        };
        let rest = sp_prereq_entries(reqs.drop_first(), reg, source_id, source_name);
        match spec_find_element_id(reg, name, rtype) {
            None => rest,
            Some(tid) => match NodeCategory::spec_of_name(rtype) {
                Some(cat) => seq![(source_id, source_name, tid, name, cat.spec_requires_edge())]
                    + rest,
                None => rest,
            },
        }
    }
}

/// The prerequisite records a list of answer items denotes: an item
/// missing its component name or type poisons the whole answer; an
/// item whose component cannot be resolved is dropped with its list.
pub open spec fn sp_prereq_items(items: Seq<JsonV>, reg: DomainGraphRegistry) -> Option<
    Seq<(Seq<char>, Seq<char>, Seq<char>, Seq<char>, Seq<char>)>,
>
    decreases items.len(),
{
    if items.len() == 0 {
        Some(Seq::empty())
    } else {
        match sp_get_text(items[0], "component"@) {
            Some(cname) => match sp_get_text(items[0], "component_type"@) {
                Some(ctype) => match sp_prereq_items(items.drop_first(), reg) {
                    Some(rest) => match spec_find_element_id(reg, cname, ctype) {
                        Some(sid) => {
                            let reqs = match sp_get_arr(items[0], "requires"@) {
                                Some(r) => r,
                                None => Seq::empty(),
                            };
                            Some(sp_prereq_entries(reqs, reg, sid, cname) + rest)
                        },
                        None => Some(rest),
                    },
                    None => None,
                },
                None => None,
            },
            None => None,
        }
    }
}

/// The prerequisite records an answer text denotes: the braced span
/// parsed as an object holding a `prerequisites` array.
pub open spec fn sp_parse_prerequisites(t: Seq<char>, reg: DomainGraphRegistry) -> Option<
    Seq<(Seq<char>, Seq<char>, Seq<char>, Seq<char>, Seq<char>)>,
> {
    match sp_span(t, '{', '}') {
        Some(doc) => match sp_get_arr(doc, "prerequisites"@) {
            Some(items) => sp_prereq_items(items, reg),
            None => None,
        },
        None => None,
    }
}

fn prereq_entries_rec(
    reqs: &Vec<JsonValue>,
    idx: usize,
    reg: &DomainGraphRegistry,
    source_id: &String,
    source_name: &String,
) -> (r: Vec<PrerequisiteLink>)
    requires
        idx <= reqs@.len(),
    ensures
        sp_prereq_entries(seq_v(reqs@).skip(idx as int), *reg, source_id@, source_name@)
            == Seq::new(r@.len(), |k: int| prereq_v(r@[k])),
    decreases reqs@.len() - idx,
{
    if idx == reqs.len() {
        let r: Vec<PrerequisiteLink> = Vec::new();
        proof {
            assert(seq_v(reqs@).skip(idx as int) =~= Seq::<JsonV>::empty());
            assert(Seq::new(r@.len(), |k: int| prereq_v(r@[k])) =~= Seq::<
                (Seq<char>, Seq<char>, Seq<char>, Seq<char>, Seq<char>),
            >::empty());
        }
        return r;
    }
    proof {
        assert(seq_v(reqs@).skip(idx as int)[0] == seq_v(reqs@)[idx as int]);
        assert(seq_v(reqs@).skip(idx as int).drop_first() =~= seq_v(reqs@).skip(idx + 1));
        assert(seq_v(reqs@)[idx as int] == reqs@[idx as int].v());
    }
    let item = &reqs[idx];
    let name = match item.get_text("name") {
        Some(n) => n,
        None => String::from_str(""),
    };
    let rtype = match item.get_text("type") {
        Some(t) => t,
        None => String::from_str(""),
    };
    let rest = prereq_entries_rec(reqs, idx + 1, reg, source_id, source_name);
    let tid = match find_element_id(reg, name.as_str(), rtype.as_str()) {
        Some(tid) => tid,
        None => {
            return rest;
        },
    };
    let cat = match NodeCategory::of_name(rtype.as_str()) {
        Some(cat) => cat,
        None => {
            return rest;
        },
    };
    let link = PrerequisiteLink {
        source_id: source_id.clone(),
        source_name: source_name.clone(),
        target_id: tid,
        target_name: name,
        relationship_type: String::from_str(cat.requires_edge()),
    };
    let mut out = rest;
    let ghost restv = Seq::new(out@.len(), |k: int| prereq_v(out@[k]));
    out.insert(0, link);
    proof {
        assert(Seq::new(out@.len(), |k: int| prereq_v(out@[k])) =~= seq![prereq_v(out@[0])]
            + restv);
    }
    out
}

fn prereq_items_rec(items: &Vec<JsonValue>, idx: usize, reg: &DomainGraphRegistry) -> (r: Result<
    Vec<PrerequisiteLink>,
    String,
>)
    requires
        idx <= items@.len(),
    ensures
        match r {
            Ok(out) => sp_prereq_items(seq_v(items@).skip(idx as int), *reg) == Some(
                Seq::new(out@.len(), |k: int| prereq_v(out@[k])),
            ),
            Err(_) => sp_prereq_items(seq_v(items@).skip(idx as int), *reg) is None,
        },
    decreases items@.len() - idx,
{
    if idx == items.len() {
        let out: Vec<PrerequisiteLink> = Vec::new();
        proof {
            assert(seq_v(items@).skip(idx as int) =~= Seq::<JsonV>::empty());
            assert(Seq::new(out@.len(), |k: int| prereq_v(out@[k])) =~= Seq::<
                (Seq<char>, Seq<char>, Seq<char>, Seq<char>, Seq<char>),
            >::empty());
        }
        return Ok(out);
    }
    proof {
        assert(seq_v(items@).skip(idx as int)[0] == seq_v(items@)[idx as int]);
        assert(seq_v(items@).skip(idx as int).drop_first() =~= seq_v(items@).skip(idx + 1));
        assert(seq_v(items@)[idx as int] == items@[idx as int].v());
    }
    let item = &items[idx];
    let cname = match item.get_text("component") {
        Some(c) => c,
        None => {
            return Err(String::from_str("Missing component name"));
        },
    };
    let ctype = match item.get_text("component_type") {
        Some(c) => c,
        None => {
            return Err(String::from_str("Missing component type"));
        },
    };
    let rest = match prereq_items_rec(items, idx + 1, reg) {
        Ok(rest) => rest,
        Err(e) => {
            return Err(e);
        },
    };
    let sid = match find_element_id(reg, cname.as_str(), ctype.as_str()) {
        Some(sid) => sid,
        None => {
            return Ok(rest);
        },
    };
    let entries = match item.get_arr("requires") {
        Some(reqs) => {
            proof {
                assert(seq_v(reqs@).skip(0) =~= seq_v(reqs@));
            }
            prereq_entries_rec(reqs, 0, reg, &sid, &cname)
        },
        None => {
            let empty: Vec<PrerequisiteLink> = Vec::new();
            proof {
                assert(sp_prereq_entries(Seq::<JsonV>::empty(), *reg, sid@, cname@) =~= Seq::<
                    (Seq<char>, Seq<char>, Seq<char>, Seq<char>, Seq<char>),
                >::empty());
            }
            empty
        },
    };
    let ghost entriesv = Seq::new(entries@.len(), |k: int| prereq_v(entries@[k]));
    let ghost restv = Seq::new(rest@.len(), |k: int| prereq_v(rest@[k]));
    let mut out = entries;
    let mut tail = rest;
    out.append(&mut tail);
    proof {
        assert(Seq::new(out@.len(), |k: int| prereq_v(out@[k])) =~= entriesv + restv);
    }
    Ok(out)
}

/// Parse a prerequisite answer against the registry: each component's
/// named prerequisites are resolved to ids, unresolvable entries are
/// dropped.
pub fn parse_prerequisites(response: &str, context: &AgentContext) -> (r: Result<
    Vec<PrerequisiteLink>,
    String,
>)
    ensures
        match r {
            Ok(out) => sp_parse_prerequisites(response@, context.domain_graph) == Some(
                Seq::new(out@.len(), |k: int| prereq_v(out@[k])),
            ),
            Err(_) => sp_parse_prerequisites(response@, context.domain_graph) is None,
        },
{
    let doc = match crate::json::parse_object_span(response) {
        Some(doc) => doc,
        None => {
            return Err(String::from_str("No JSON object found"));
        },
    };
    let items = match doc.get_arr("prerequisites") {
        Some(items) => items,
        None => {
            return Err(String::from_str("Missing prerequisites array"));
        },
    };
    proof {
        assert(seq_v(items@).skip(0) =~= seq_v(items@));
    }
    prereq_items_rec(items, 0, &context.domain_graph)
}

/// Build one edge write per prerequisite record, pairing each with the
/// record to register on success.
pub fn prerequisite_requests(prereqs: &Vec<PrerequisiteLink>) -> (r: Vec<
    (CreateRelationshipRequest, PrerequisiteLink),
>)
    ensures
        r@.len() == prereqs@.len(),
        forall|k: int|
            0 <= k < r@.len() ==> {
                &&& (#[trigger] r@[k]).0.source_id@ == prereqs@[k].source_id@
                &&& r@[k].0.target_id@ == prereqs@[k].target_id@
                &&& r@[k].0.relationship_type@ == prereqs@[k].relationship_type@
                &&& r@[k].0.properties is None
                &&& r@[k].1 == prereqs@[k]
            },
{
    let mut r: Vec<(CreateRelationshipRequest, PrerequisiteLink)> = Vec::new();
    let mut i: usize = 0;
    while i < prereqs.len()
        invariant
            i <= prereqs@.len(),
            r@.len() == i,
            forall|k: int|
                0 <= k < i ==> {
                    &&& (#[trigger] r@[k]).0.source_id@ == prereqs@[k].source_id@
                    &&& r@[k].0.target_id@ == prereqs@[k].target_id@
                    &&& r@[k].0.relationship_type@ == prereqs@[k].relationship_type@
                    &&& r@[k].0.properties is None
                    &&& r@[k].1 == prereqs@[k]
                },
        decreases prereqs@.len() - i,
    {
        let p = &prereqs[i];
        r.push(
            (
                CreateRelationshipRequest {
                    source_id: p.source_id.clone(),
                    target_id: p.target_id.clone(),
                    relationship_type: p.relationship_type.clone(),
                    properties: None,
                },
                p.clone(),
            ),
        );
        i = i + 1;
    }
    r
}

// ---------------------------------------------------------------------------
// The registry snapshot handed to the relationship steps
// ---------------------------------------------------------------------------
/// One line per node, with its name and store id.
pub open spec fn sp_id_lines(nodes: Seq<CreatedNode>) -> Seq<char>
    decreases nodes.len(),
{
    if nodes.len() == 0 {
        Seq::empty()
    } else {
        "- "@ + nodes[0].name@ + " (ID: "@ + nodes[0].element_id@ + ")\n"@ + sp_id_lines(
            nodes.drop_first(),
        )
    }
}

/// The snapshot layout: the domain name, then one section per
/// collection listing names and ids.
pub open spec fn sp_build_context(ctx: AgentContext) -> Seq<char> {
    "Domain: "@ + ctx.domain_name@ + "\n\n"@ + "Domain Levels:\n"@ + sp_id_lines(
        ctx.domain_graph.domain_levels@,
    ) + "\nKnowledge Nodes:\n"@ + sp_id_lines(ctx.domain_graph.knowledge@) + "\nSkill Nodes:\n"@
        + sp_id_lines(ctx.domain_graph.skills@) + "\nTrait Nodes:\n"@ + sp_id_lines(
        ctx.domain_graph.traits@,
    ) + "\nMilestone Nodes:\n"@ + sp_id_lines(ctx.domain_graph.milestones@)
}

fn id_lines(nodes: &Vec<CreatedNode>) -> (r: String)
    ensures
        r@ == sp_id_lines(nodes@),
{
    let mut r = String::new();
    let mut i: usize = 0;
    proof {
        assert(nodes@.skip(0) =~= nodes@);
    }
    while i < nodes.len()
        invariant
            i <= nodes@.len(),
            sp_id_lines(nodes@) == r@ + sp_id_lines(nodes@.skip(i as int)),
        decreases nodes@.len() - i,
    {
        proof {
            assert(nodes@.skip(i as int)[0] == nodes@[i as int]);
            assert(nodes@.skip(i as int).drop_first() =~= nodes@.skip(i + 1));
        }
        let ghost pre = r@;
        let ghost head = "- "@ + nodes@[i as int].name@ + " (ID: "@ + nodes@[i as int].element_id@
            + ")\n"@;
        r.append("- ");
        r.append(nodes[i].name.as_str());
        r.append(" (ID: ");
        r.append(nodes[i].element_id.as_str());
        r.append(")\n");
        proof {
            assert(r@ =~= pre + head);
            assert(pre + head + sp_id_lines(nodes@.skip(i + 1)) =~= pre + (head + sp_id_lines(
                nodes@.skip(i + 1),
            )));
        }
        i = i + 1;
    }
    proof {
        assert(sp_id_lines(nodes@.skip(nodes@.len() as int)) =~= Seq::<char>::empty());
        assert(r@ + Seq::<char>::empty() =~= r@);
    }
    r
}

/// Render the registry snapshot both relationship steps show the
/// generator.
pub fn build_context(context: &AgentContext) -> (r: String)
    ensures
        r@ == sp_build_context(*context),
{
    let mut s = String::from_str("Domain: ");
    s.append(context.domain_name.as_str());
    s.append("\n\n");
    s.append("Domain Levels:\n");
    s.append(id_lines(&context.domain_graph.domain_levels).as_str());
    s.append("\nKnowledge Nodes:\n");
    s.append(id_lines(&context.domain_graph.knowledge).as_str());
    s.append("\nSkill Nodes:\n");
    s.append(id_lines(&context.domain_graph.skills).as_str());
    s.append("\nTrait Nodes:\n");
    s.append(id_lines(&context.domain_graph.traits).as_str());
    s.append("\nMilestone Nodes:\n");
    s.append(id_lines(&context.domain_graph.milestones).as_str());
    s
}

} // verus!

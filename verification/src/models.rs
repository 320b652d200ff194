//! The data model of one generation run: created nodes, relationship
//! records, and the registry that accumulates them.

use vstd::prelude::*;

verus! {

/// A node that was created in the store, or reused from it.
#[derive(Debug)]
pub struct CreatedNode {
    pub name: String,
    pub element_id: String,
    pub label: String,
    pub was_reused: bool,
}

impl Clone for CreatedNode {
    /// An equal copy.
    fn clone(&self) -> (r: Self)
        ensures
            r == *self,
    {
        CreatedNode {
            name: self.name.clone(),
            element_id: self.element_id.clone(),
            label: self.label.clone(),
            was_reused: self.was_reused,
        }
    }
}

impl CreatedNode {
    /// A node freshly written to the store.
    pub fn new(name: String, element_id: String, label: String) -> (r: CreatedNode)
        ensures
            r.name@ == name@,
            r.element_id@ == element_id@,
            r.label@ == label@,
            r.was_reused == false,
    {
        CreatedNode { name, element_id, label, was_reused: false }
    }

    /// An existing node accepted without a write.
    pub fn reused(name: String, element_id: String, label: String) -> (r: CreatedNode)
        ensures
            r.name@ == name@,
            r.element_id@ == element_id@,
            r.label@ == label@,
            r.was_reused == true,
    {
        CreatedNode { name, element_id, label, was_reused: true }
    }
}

/// A level-to-component requirement record.
#[derive(Debug)]
pub struct LevelRequirement {
    pub level_id: String,
    pub component_id: String,
    pub component_name: String,
    pub component_type: String,
    pub proficiency: Option<String>,
}

/// A generalization record from a domain-specific node to a broader one.
#[derive(Debug)]
pub struct GeneralizationLink {
    pub specific_id: String,
    pub specific_name: String,
    pub general_id: String,
    pub general_name: String,
    pub node_type: String,
}

/// A prerequisite record between two component nodes.
#[derive(Debug)]
pub struct PrerequisiteLink {
    pub source_id: String,
    pub source_name: String,
    pub target_id: String,
    pub target_name: String,
    pub relationship_type: String,
}

impl Clone for LevelRequirement {
    /// An equal copy.
    fn clone(&self) -> (r: Self)
        ensures
            r == *self,
    {
        LevelRequirement {
            level_id: self.level_id.clone(),
            component_id: self.component_id.clone(),
            component_name: self.component_name.clone(),
            component_type: self.component_type.clone(),
            proficiency: match &self.proficiency {
                Some(p) => Some(p.clone()),
                None => None,
            },
        }
    }
}

impl Clone for GeneralizationLink {
    /// An equal copy.
    fn clone(&self) -> (r: Self)
        ensures
            r == *self,
    {
        GeneralizationLink {
            specific_id: self.specific_id.clone(),
            specific_name: self.specific_name.clone(),
            general_id: self.general_id.clone(),
            general_name: self.general_name.clone(),
            node_type: self.node_type.clone(),
        }
    }
}

impl Clone for PrerequisiteLink {
    /// An equal copy.
    fn clone(&self) -> (r: Self)
        ensures
            r == *self,
    {
        PrerequisiteLink {
            source_id: self.source_id.clone(),
            source_name: self.source_name.clone(),
            target_id: self.target_id.clone(),
            target_name: self.target_name.clone(),
            relationship_type: self.relationship_type.clone(),
        }
    }
}

/// Copy a vector of nodes element by element.
pub fn clone_nodes(v: &Vec<CreatedNode>) -> (r: Vec<CreatedNode>)
    ensures
        r@ == v@,
{
    let mut r: Vec<CreatedNode> = Vec::new();
    let mut i: usize = 0;
    while i < v.len()
        invariant
            i <= v@.len(),
            r@ == v@.subrange(0, i as int),
        decreases v@.len() - i,
    {
        r.push(v[i].clone());
        proof {
            assert(r@ =~= v@.subrange(0, i + 1 as int));
        }
        i = i + 1;
    }
    proof {
        assert(r@ =~= v@);
    }
    r
}

// ---------------------------------------------------------------------------
// Spec helpers over node sequences
// ---------------------------------------------------------------------------
/// Whether some node in the sequence carries the given store id.
pub open spec fn has_id(nodes: Seq<CreatedNode>, id: Seq<char>) -> bool {
    exists|k: int| 0 <= k < nodes.len() && #[trigger] nodes[k].element_id@ == id
}

/// The first node carrying the given name, scanning left to right.
pub open spec fn first_with_name(nodes: Seq<CreatedNode>, name: Seq<char>) -> Option<CreatedNode>
    decreases nodes.len(),
{
    if nodes.len() == 0 {
        None
    } else if nodes[0].name@ == name {
        Some(nodes[0])
    } else {
        first_with_name(nodes.drop_first(), name)
    }
}

/// The first node carrying the given store id, scanning left to right.
pub open spec fn first_with_id(nodes: Seq<CreatedNode>, id: Seq<char>) -> Option<CreatedNode>
    decreases nodes.len(),
{
    if nodes.len() == 0 {
        None
    } else if nodes[0].element_id@ == id {
        Some(nodes[0])
    } else {
        first_with_id(nodes.drop_first(), id)
    }
}

/// How many nodes have the given reuse flag.
pub open spec fn count_flag(nodes: Seq<CreatedNode>, reused: bool) -> nat
    decreases nodes.len(),
{
    if nodes.len() == 0 {
        0
    } else {
        count_flag(nodes.drop_first(), reused) + if nodes[0].was_reused == reused {
            1nat
        } else {
            0nat
        }
    }
}

/// The registry of one run: every node and relationship record the steps
/// have produced, grouped by category.  Relationship records are only
/// appended once their referenced ids are resolved, so the registry never
/// holds a dangling reference (`wf`).
#[derive(Debug)]
pub struct DomainGraphRegistry {
    pub domain: Option<CreatedNode>,
    pub domain_levels: Vec<CreatedNode>,
    pub knowledge: Vec<CreatedNode>,
    pub skills: Vec<CreatedNode>,
    pub traits: Vec<CreatedNode>,
    pub milestones: Vec<CreatedNode>,
    pub level_requirements: Vec<LevelRequirement>,
    pub generalizations: Vec<GeneralizationLink>,
    pub prerequisites: Vec<PrerequisiteLink>,
}

impl DomainGraphRegistry {
    /// Every node of the registry, in presentation order: the domain
    /// first, then levels, knowledge, skills, traits and milestones.
    pub open spec fn all_nodes_seq(self) -> Seq<CreatedNode> {
        (match self.domain {
            Some(d) => seq![d],
            None => Seq::empty(),
        }) + self.domain_levels@ + self.knowledge@ + self.skills@ + self.traits@
            + self.milestones@
    }

    /// The search order of `find_by_name`: concept collections first,
    /// then the domain levels.
    pub open spec fn named_nodes_seq(self) -> Seq<CreatedNode> {
        self.knowledge@ + self.skills@ + self.traits@ + self.milestones@ + self.domain_levels@
    }

    /// Referential integrity: every relationship record points at nodes
    /// that exist in the registry; a generalization's target id may have
    /// been resolved against the outside store, but is never left empty.
    pub open spec fn wf(self) -> bool {
        &&& forall|k: int|
            0 <= k < self.level_requirements@.len() ==> {
                &&& has_id(self.domain_levels@, #[trigger] self.level_requirements@[k].level_id@)
                &&& has_id(self.all_nodes_seq(), self.level_requirements@[k].component_id@)
            }
        &&& forall|k: int|
            0 <= k < self.generalizations@.len() ==> {
                &&& has_id(self.all_nodes_seq(), #[trigger] self.generalizations@[k].specific_id@)
                &&& self.generalizations@[k].general_id@.len() > 0
            }
        &&& forall|k: int|
            0 <= k < self.prerequisites@.len() ==> {
                &&& has_id(self.all_nodes_seq(), #[trigger] self.prerequisites@[k].source_id@)
                &&& has_id(self.all_nodes_seq(), self.prerequisites@[k].target_id@)
            }
    }

    /// An empty registry.
    pub fn empty() -> (r: DomainGraphRegistry)
        ensures
            r.domain is None,
            r.domain_levels@.len() == 0,
            r.knowledge@.len() == 0,
            r.skills@.len() == 0,
            r.traits@.len() == 0,
            r.milestones@.len() == 0,
            r.level_requirements@.len() == 0,
            r.generalizations@.len() == 0,
            r.prerequisites@.len() == 0,
            r.wf(),
    {
        DomainGraphRegistry {
            domain: None,
            domain_levels: Vec::new(),
            knowledge: Vec::new(),
            skills: Vec::new(),
            traits: Vec::new(),
            milestones: Vec::new(),
            level_requirements: Vec::new(),
            generalizations: Vec::new(),
            prerequisites: Vec::new(),
        }
    }
}

/// The first matching node within one collection.
pub(crate) fn find_name_in<'a>(nodes: &'a Vec<CreatedNode>, name: &str) -> (r: Option<&'a CreatedNode>)
    ensures
        match r {
            Some(n) => first_with_name(nodes@, name@) == Some(*n),
            None => first_with_name(nodes@, name@) is None,
        },
{
    proof {
        assert(nodes@.skip(0) =~= nodes@);
    }
    let mut i: usize = 0;
    while i < nodes.len()
        invariant
            i <= nodes@.len(),
            first_with_name(nodes@, name@) == first_with_name(nodes@.skip(i as int), name@),
        decreases nodes@.len() - i,
    {
        proof {
            assert(nodes@.skip(i as int)[0] == nodes@[i as int]);
            assert(nodes@.skip(i as int).drop_first() =~= nodes@.skip(i + 1));
        }
        if crate::text::str_eq_str(nodes[i].name.as_str(), name) {
            return Some(&nodes[i]);
        }
        i = i + 1;
    }
    None
}

/// The first node with a matching id within one collection.
fn find_id_in<'a>(nodes: &'a Vec<CreatedNode>, id: &str) -> (r: Option<&'a CreatedNode>)
    ensures
        match r {
            Some(n) => first_with_id(nodes@, id@) == Some(*n),
            None => first_with_id(nodes@, id@) is None,
        },
{
    proof {
        assert(nodes@.skip(0) =~= nodes@);
    }
    let mut i: usize = 0;
    while i < nodes.len()
        invariant
            i <= nodes@.len(),
            first_with_id(nodes@, id@) == first_with_id(nodes@.skip(i as int), id@),
        decreases nodes@.len() - i,
    {
        proof {
            assert(nodes@.skip(i as int)[0] == nodes@[i as int]);
            assert(nodes@.skip(i as int).drop_first() =~= nodes@.skip(i + 1));
        }
        if crate::text::str_eq_str(nodes[i].element_id.as_str(), id) {
            return Some(&nodes[i]);
        }
        i = i + 1;
    }
    None
}

/// Searching a concatenation finds the left part's hit first.
proof fn lemma_first_name_concat(a: Seq<CreatedNode>, b: Seq<CreatedNode>, name: Seq<char>)
    ensures
        first_with_name(a + b, name) == match first_with_name(a, name) {
            Some(n) => Some(n),
            None => first_with_name(b, name),
        },
    decreases a.len(),
{
    if a.len() == 0 {
        assert(a + b =~= b);
    } else {
        lemma_first_name_concat(a.drop_first(), b, name);
        assert((a + b).drop_first() =~= a.drop_first() + b);
    }
}

/// Searching a concatenation finds the left part's hit first.
proof fn lemma_first_id_concat(a: Seq<CreatedNode>, b: Seq<CreatedNode>, id: Seq<char>)
    ensures
        first_with_id(a + b, id) == match first_with_id(a, id) {
            Some(n) => Some(n),
            None => first_with_id(b, id),
        },
    decreases a.len(),
{
    if a.len() == 0 {
        assert(a + b =~= b);
    } else {
        lemma_first_id_concat(a.drop_first(), b, id);
        assert((a + b).drop_first() =~= a.drop_first() + b);
    }
}

/// Count the nodes of one collection carrying the given reuse flag.
pub(crate) fn count_flag_in(nodes: &Vec<CreatedNode>, reused: bool) -> (r: usize)
    ensures
        r == count_flag(nodes@, reused),
{
    proof {
        assert(nodes@.skip(0) =~= nodes@);
    }
    let mut c: usize = 0;
    let mut i: usize = 0;
    while i < nodes.len()
        invariant
            i <= nodes@.len(),
            c <= i,
            count_flag(nodes@, reused) == c + count_flag(nodes@.skip(i as int), reused),
        decreases nodes@.len() - i,
    {
        proof {
            assert(nodes@.skip(i as int)[0] == nodes@[i as int]);
            assert(nodes@.skip(i as int).drop_first() =~= nodes@.skip(i + 1));
        }
        if nodes[i].was_reused == reused {
            c = c + 1;
        }
        i = i + 1;
    }
    c
}

impl DomainGraphRegistry {
    /// Find a node by name, searching the concept collections first and
    /// the domain levels last.
    pub fn find_by_name<'a>(&'a self, name: &str) -> (r: Option<&'a CreatedNode>)
        ensures
            match r {
                Some(n) => first_with_name(self.named_nodes_seq(), name@) == Some(*n),
                None => first_with_name(self.named_nodes_seq(), name@) is None,
            },
    {
        proof {
            lemma_first_name_concat(
                self.knowledge@ + self.skills@ + self.traits@ + self.milestones@,
                self.domain_levels@,
                name@,
            );
            lemma_first_name_concat(
                self.knowledge@ + self.skills@ + self.traits@,
                self.milestones@,
                name@,
            );
            lemma_first_name_concat(self.knowledge@ + self.skills@, self.traits@, name@);
            lemma_first_name_concat(self.knowledge@, self.skills@, name@);
            assert(self.named_nodes_seq() == self.knowledge@ + self.skills@ + self.traits@
                + self.milestones@ + self.domain_levels@);
        }
        if let Some(n) = find_name_in(&self.knowledge, name) {
            return Some(n);
        }
        if let Some(n) = find_name_in(&self.skills, name) {
            return Some(n);
        }
        if let Some(n) = find_name_in(&self.traits, name) {
            return Some(n);
        }
        if let Some(n) = find_name_in(&self.milestones, name) {
            return Some(n);
        }
        if let Some(n) = find_name_in(&self.domain_levels, name) {
            return Some(n);
        }
        None
    }

    /// Find a node by store id, searching in presentation order.
    pub fn find_by_id<'a>(&'a self, element_id: &str) -> (r: Option<&'a CreatedNode>)
        ensures
            match r {
                Some(n) => first_with_id(self.all_nodes_seq(), element_id@) == Some(*n),
                None => first_with_id(self.all_nodes_seq(), element_id@) is None,
            },
    {
        proof {
            let d = if self.domain is Some {
                seq![self.domain->Some_0]
            } else {
                Seq::<CreatedNode>::empty()
            };
            lemma_first_id_concat(
                d + self.domain_levels@ + self.knowledge@ + self.skills@ + self.traits@,
                self.milestones@,
                element_id@,
            );
            lemma_first_id_concat(
                d + self.domain_levels@ + self.knowledge@ + self.skills@,
                self.traits@,
                element_id@,
            );
            lemma_first_id_concat(
                d + self.domain_levels@ + self.knowledge@,
                self.skills@,
                element_id@,
            );
            lemma_first_id_concat(d + self.domain_levels@, self.knowledge@, element_id@);
            lemma_first_id_concat(d, self.domain_levels@, element_id@);
        }
        if let Some(dn) = &self.domain {
            if crate::text::str_eq_str(dn.element_id.as_str(), element_id) {
                proof {
                    let d = seq![self.domain->Some_0];
                    assert(first_with_id(d, element_id@) == Some(d[0]));
                }
                return Some(dn);
            }
            proof {
                let d = seq![self.domain->Some_0];
                assert(d.drop_first() =~= Seq::<CreatedNode>::empty());
                assert(first_with_id(d, element_id@) is None);
            }
        } else {
            proof {
                assert(first_with_id(Seq::<CreatedNode>::empty(), element_id@) is None);
            }
        }
        if let Some(n) = find_id_in(&self.domain_levels, element_id) {
            return Some(n);
        }
        if let Some(n) = find_id_in(&self.knowledge, element_id) {
            return Some(n);
        }
        if let Some(n) = find_id_in(&self.skills, element_id) {
            return Some(n);
        }
        if let Some(n) = find_id_in(&self.traits, element_id) {
            return Some(n);
        }
        if let Some(n) = find_id_in(&self.milestones, element_id) {
            return Some(n);
        }
        None
    }

    /// All nodes as one flat list, in presentation order.
    pub fn all_nodes(&self) -> (r: Vec<CreatedNode>)
        ensures
            r@ == self.all_nodes_seq(),
    {
        let mut r: Vec<CreatedNode> = Vec::new();
        if let Some(d) = &self.domain {
            r.push(d.clone());
        }
        let mut part = clone_nodes(&self.domain_levels);
        r.append(&mut part);
        let mut part = clone_nodes(&self.knowledge);
        r.append(&mut part);
        let mut part = clone_nodes(&self.skills);
        r.append(&mut part);
        let mut part = clone_nodes(&self.traits);
        r.append(&mut part);
        let mut part = clone_nodes(&self.milestones);
        r.append(&mut part);
        proof {
            assert(r@ =~= self.all_nodes_seq());
        }
        r
    }

    /// How many nodes were freshly created, over all collections.
    pub fn count_created(&self) -> (r: usize)
        ensures
            r == count_flag(self.all_nodes_seq(), false),
    {
        self.count_with_flag(false)
    }

    /// How many nodes were reused, over all collections.
    pub fn count_reused(&self) -> (r: usize)
        ensures
            r == count_flag(self.all_nodes_seq(), true),
    {
        self.count_with_flag(true)
    }

    fn count_with_flag(&self, reused: bool) -> (r: usize)
        ensures
            r == count_flag(self.all_nodes_seq(), reused),
    {
        let nodes = self.all_nodes();
        count_flag_in(&nodes, reused)
    }

    /// Append a level requirement whose ids are already resolved.
    pub fn add_level_requirement(&mut self, req: LevelRequirement)
        requires
            has_id(old(self).domain_levels@, req.level_id@),
            has_id(old(self).all_nodes_seq(), req.component_id@),
        ensures
            final(self).level_requirements@ == old(self).level_requirements@.push(req),
            final(self).domain == old(self).domain,
            final(self).domain_levels@ == old(self).domain_levels@,
            final(self).knowledge@ == old(self).knowledge@,
            final(self).skills@ == old(self).skills@,
            final(self).traits@ == old(self).traits@,
            final(self).milestones@ == old(self).milestones@,
            final(self).generalizations@ == old(self).generalizations@,
            final(self).prerequisites@ == old(self).prerequisites@,
            old(self).wf() ==> final(self).wf(),
    {
        self.level_requirements.push(req);
        proof {
            if old(self).wf() {
                assert(self.all_nodes_seq() =~= old(self).all_nodes_seq());
                assert forall|k: int| 0 <= k < self.level_requirements@.len() implies {
                    &&& has_id(self.domain_levels@, #[trigger] self.level_requirements@[k].level_id@)
                    &&& has_id(self.all_nodes_seq(), self.level_requirements@[k].component_id@)
                } by {
                    if k < old(self).level_requirements@.len() {
                        assert(has_id(
                            old(self).domain_levels@,
                            old(self).level_requirements@[k].level_id@,
                        ));
                        assert(has_id(
                            old(self).all_nodes_seq(),
                            old(self).level_requirements@[k].component_id@,
                        ));
                    }
                }
                assert forall|k: int| 0 <= k < self.generalizations@.len() implies {
                    &&& has_id(self.all_nodes_seq(), #[trigger] self.generalizations@[k].specific_id@)
                    &&& self.generalizations@[k].general_id@.len() > 0
                } by {
                    assert(has_id(
                        old(self).all_nodes_seq(),
                        old(self).generalizations@[k].specific_id@,
                    ));
                }
                assert forall|k: int| 0 <= k < self.prerequisites@.len() implies {
                    &&& has_id(self.all_nodes_seq(), #[trigger] self.prerequisites@[k].source_id@)
                    &&& has_id(self.all_nodes_seq(), self.prerequisites@[k].target_id@)
                } by {
                    assert(has_id(old(self).all_nodes_seq(), old(self).prerequisites@[k].source_id@));
                    assert(has_id(old(self).all_nodes_seq(), old(self).prerequisites@[k].target_id@));
                }
            }
        }
    }

    /// Append a generalization record whose specific node is registered
    /// and whose target id is resolved.
    pub fn add_generalization(&mut self, link: GeneralizationLink)
        requires
            has_id(old(self).all_nodes_seq(), link.specific_id@),
            link.general_id@.len() > 0,
        ensures
            final(self).generalizations@ == old(self).generalizations@.push(link),
            final(self).domain == old(self).domain,
            final(self).domain_levels@ == old(self).domain_levels@,
            final(self).knowledge@ == old(self).knowledge@,
            final(self).skills@ == old(self).skills@,
            final(self).traits@ == old(self).traits@,
            final(self).milestones@ == old(self).milestones@,
            final(self).level_requirements@ == old(self).level_requirements@,
            final(self).prerequisites@ == old(self).prerequisites@,
            old(self).wf() ==> final(self).wf(),
    {
        self.generalizations.push(link);
        proof {
            if old(self).wf() {
                assert(self.all_nodes_seq() =~= old(self).all_nodes_seq());
                assert forall|k: int| 0 <= k < self.level_requirements@.len() implies {
                    &&& has_id(self.domain_levels@, #[trigger] self.level_requirements@[k].level_id@)
                    &&& has_id(self.all_nodes_seq(), self.level_requirements@[k].component_id@)
                } by {
                    assert(has_id(
                        old(self).domain_levels@,
                        old(self).level_requirements@[k].level_id@,
                    ));
                    assert(has_id(
                        old(self).all_nodes_seq(),
                        old(self).level_requirements@[k].component_id@,
                    ));
                }
                assert forall|k: int| 0 <= k < self.generalizations@.len() implies {
                    &&& has_id(self.all_nodes_seq(), #[trigger] self.generalizations@[k].specific_id@)
                    &&& self.generalizations@[k].general_id@.len() > 0
                } by {
                    if k < old(self).generalizations@.len() {
                        assert(has_id(
                            old(self).all_nodes_seq(),
                            old(self).generalizations@[k].specific_id@,
                        ));
                    }
                }
                assert forall|k: int| 0 <= k < self.prerequisites@.len() implies {
                    &&& has_id(self.all_nodes_seq(), #[trigger] self.prerequisites@[k].source_id@)
                    &&& has_id(self.all_nodes_seq(), self.prerequisites@[k].target_id@)
                } by {
                    assert(has_id(old(self).all_nodes_seq(), old(self).prerequisites@[k].source_id@));
                    assert(has_id(old(self).all_nodes_seq(), old(self).prerequisites@[k].target_id@));
                }
            }
        }
    }

    /// Append a prerequisite record whose endpoints are registered.
    pub fn add_prerequisite(&mut self, link: PrerequisiteLink)
        requires
            has_id(old(self).all_nodes_seq(), link.source_id@),
            has_id(old(self).all_nodes_seq(), link.target_id@),
        ensures
            final(self).prerequisites@ == old(self).prerequisites@.push(link),
            final(self).domain == old(self).domain,
            final(self).domain_levels@ == old(self).domain_levels@,
            final(self).knowledge@ == old(self).knowledge@,
            final(self).skills@ == old(self).skills@,
            final(self).traits@ == old(self).traits@,
            final(self).milestones@ == old(self).milestones@,
            final(self).level_requirements@ == old(self).level_requirements@,
            final(self).generalizations@ == old(self).generalizations@,
            old(self).wf() ==> final(self).wf(),
    {
        self.prerequisites.push(link);
        proof {
            if old(self).wf() {
                assert(self.all_nodes_seq() =~= old(self).all_nodes_seq());
                assert forall|k: int| 0 <= k < self.level_requirements@.len() implies {
                    &&& has_id(self.domain_levels@, #[trigger] self.level_requirements@[k].level_id@)
                    &&& has_id(self.all_nodes_seq(), self.level_requirements@[k].component_id@)
                } by {
                    assert(has_id(
                        old(self).domain_levels@,
                        old(self).level_requirements@[k].level_id@,
                    ));
                    assert(has_id(
                        old(self).all_nodes_seq(),
                        old(self).level_requirements@[k].component_id@,
                    ));
                }
                assert forall|k: int| 0 <= k < self.generalizations@.len() implies {
                    &&& has_id(self.all_nodes_seq(), #[trigger] self.generalizations@[k].specific_id@)
                    &&& self.generalizations@[k].general_id@.len() > 0
                } by {
                    assert(has_id(
                        old(self).all_nodes_seq(),
                        old(self).generalizations@[k].specific_id@,
                    ));
                }
                assert forall|k: int| 0 <= k < self.prerequisites@.len() implies {
                    &&& has_id(self.all_nodes_seq(), #[trigger] self.prerequisites@[k].source_id@)
                    &&& has_id(self.all_nodes_seq(), self.prerequisites@[k].target_id@)
                } by {
                    if k < old(self).prerequisites@.len() {
                        assert(has_id(
                            old(self).all_nodes_seq(),
                            old(self).prerequisites@[k].source_id@,
                        ));
                        assert(has_id(
                            old(self).all_nodes_seq(),
                            old(self).prerequisites@[k].target_id@,
                        ));
                    }
                }
            }
        }
    }
}

// ---------------------------------------------------------------------------
// Deduplication
// ---------------------------------------------------------------------------
/// Deduplication by store id, keeping the first occurrence of each id in
/// order.
pub open spec fn sp_dedup(s: Seq<CreatedNode>) -> Seq<CreatedNode>
    decreases s.len(),
{
    if s.len() == 0 {
        Seq::empty()
    } else {
        let prefix = sp_dedup(s.drop_last());
        if has_id(prefix, s.last().element_id@) {
            prefix
        } else {
            prefix.push(s.last())
        }
    }
}

/// Whether any two distinct positions carry distinct store ids.
pub open spec fn distinct_ids(s: Seq<CreatedNode>) -> bool {
    forall|k1: int, k2: int|
        0 <= k1 < k2 < s.len() ==> #[trigger] s[k1].element_id@ != #[trigger] s[k2].element_id@
}

/// Deduplication keeps exactly the ids that were present.
pub proof fn lemma_dedup_has_id(s: Seq<CreatedNode>, id: Seq<char>)
    ensures
        has_id(sp_dedup(s), id) == has_id(s, id),
    decreases s.len(),
{
    if s.len() == 0 {
    } else {
        lemma_dedup_has_id(s.drop_last(), id);
        let prefix = sp_dedup(s.drop_last());
        if has_id(s, id) {
            let k = choose|k: int| 0 <= k < s.len() && #[trigger] s[k].element_id@ == id;
            if k < s.len() - 1 {
                assert(s.drop_last()[k].element_id@ == id);
                assert(has_id(s.drop_last(), id));
                if !has_id(prefix, s.last().element_id@) {
                    let j = choose|j: int|
                        0 <= j < prefix.len() && #[trigger] prefix[j].element_id@ == id;
                    assert(prefix.push(s.last())[j].element_id@ == id);
                }
            } else {
                if has_id(prefix, s.last().element_id@) {
                } else {
                    assert(prefix.push(s.last()).last().element_id@ == id);
                }
            }
        }
        if has_id(sp_dedup(s), id) {
            let k = choose|k: int|
                0 <= k < sp_dedup(s).len() && #[trigger] sp_dedup(s)[k].element_id@ == id;
            if has_id(prefix, s.last().element_id@) {
                assert(has_id(prefix, id));
                assert(has_id(s.drop_last(), id));
                let j = choose|j: int|
                    0 <= j < s.drop_last().len() && #[trigger] s.drop_last()[j].element_id@ == id;
                assert(s[j].element_id@ == id);
            } else {
                if k < prefix.len() {
                    assert(has_id(prefix, id));
                    let j = choose|j: int|
                        0 <= j < s.drop_last().len() && #[trigger] s.drop_last()[j].element_id@
                            == id;
                    assert(s[j].element_id@ == id);
                } else {
                    assert(sp_dedup(s)[k] == s.last());
                    assert(s[s.len() - 1].element_id@ == id);
                }
            }
        }
    }
}

/// The result of deduplication never repeats a store id.
pub proof fn lemma_dedup_distinct(s: Seq<CreatedNode>)
    ensures
        distinct_ids(sp_dedup(s)),
    decreases s.len(),
{
    if s.len() == 0 {
    } else {
        lemma_dedup_distinct(s.drop_last());
        let prefix = sp_dedup(s.drop_last());
        if !has_id(prefix, s.last().element_id@) {
            assert forall|k1: int, k2: int|
                0 <= k1 < k2 < prefix.push(s.last()).len() implies #[trigger] prefix.push(
                s.last(),
            )[k1].element_id@ != #[trigger] prefix.push(s.last())[k2].element_id@ by {
                if k2 == prefix.len() {
                    assert(prefix.push(s.last())[k1] == prefix[k1]);
                    if prefix[k1].element_id@ == s.last().element_id@ {
                        assert(has_id(prefix, s.last().element_id@));
                    }
                } else {
                    assert(prefix.push(s.last())[k1] == prefix[k1]);
                    assert(prefix.push(s.last())[k2] == prefix[k2]);
                }
            }
        }
    }
}

/// Deduplication leaves a sequence of distinct ids untouched.
pub proof fn lemma_dedup_of_distinct(s: Seq<CreatedNode>)
    requires
        distinct_ids(s),
    ensures
        sp_dedup(s) == s,
    decreases s.len(),
{
    if s.len() == 0 {
        assert(sp_dedup(s) =~= s);
    } else {
        assert(distinct_ids(s.drop_last())) by {
            assert forall|k1: int, k2: int|
                0 <= k1 < k2 < s.drop_last().len() implies #[trigger] s.drop_last()[k1].element_id@
                != #[trigger] s.drop_last()[k2].element_id@ by {
                assert(s[k1].element_id@ != s[k2].element_id@);
            }
        }
        lemma_dedup_of_distinct(s.drop_last());
        if has_id(s.drop_last(), s.last().element_id@) {
            let j = choose|j: int|
                0 <= j < s.drop_last().len() && #[trigger] s.drop_last()[j].element_id@ == s.last().element_id@;
            assert(s[j].element_id@ == s[s.len() - 1].element_id@);
            assert(false);
        }
        assert(sp_dedup(s) =~= s.drop_last().push(s.last()));
        assert(s.drop_last().push(s.last()) =~= s);
    }
}

/// Deduplicating twice gives what deduplicating once gives.
pub proof fn lemma_dedup_idempotent(s: Seq<CreatedNode>)
    ensures
        sp_dedup(sp_dedup(s)) == sp_dedup(s),
{
    lemma_dedup_distinct(s);
    lemma_dedup_of_distinct(sp_dedup(s));
}

/// A node whose id no earlier node carries survives deduplication.
pub proof fn lemma_dedup_keeps_first(s: Seq<CreatedNode>, k: int)
    requires
        0 <= k < s.len(),
        forall|j: int| 0 <= j < k ==> #[trigger] s[j].element_id@ != s[k].element_id@,
    ensures
        sp_dedup(s).contains(s[k]),
    decreases s.len(),
{
    let prefix = sp_dedup(s.drop_last());
    if k < s.len() - 1 {
        assert forall|j: int|
            0 <= j < k implies #[trigger] s.drop_last()[j].element_id@
            != s.drop_last()[k].element_id@ by {
            assert(s[j].element_id@ != s[k].element_id@);
        }
        lemma_dedup_keeps_first(s.drop_last(), k);
        let w = choose|w: int| 0 <= w < prefix.len() && prefix[w] == s.drop_last()[k];
        if has_id(prefix, s.last().element_id@) {
            assert(sp_dedup(s)[w] == s[k]);
        } else {
            assert(prefix.push(s.last())[w] == s[k]);
        }
    } else {
        lemma_dedup_has_id(s.drop_last(), s.last().element_id@);
        if has_id(s.drop_last(), s.last().element_id@) {
            let j = choose|j: int|
                0 <= j < s.drop_last().len() && #[trigger] s.drop_last()[j].element_id@ == s.last().element_id@;
            assert(s[j].element_id@ == s[k].element_id@);
            assert(false);
        }
        assert(prefix.push(s.last()).last() == s[k]);
    }
}

/// Whether any node of the collection carries the given id.
fn contains_id(nodes: &Vec<CreatedNode>, id: &str) -> (r: bool)
    ensures
        r == has_id(nodes@, id@),
{
    let mut i: usize = 0;
    while i < nodes.len()
        invariant
            i <= nodes@.len(),
            forall|k: int| 0 <= k < i ==> #[trigger] nodes@[k].element_id@ != id@,
        decreases nodes@.len() - i,
    {
        if crate::text::str_eq_str(nodes[i].element_id.as_str(), id) {
            return true;
        }
        i = i + 1;
    }
    false
}

/// Drop every node whose store id already occurred earlier in the
/// collection.
fn dedup_nodes(v: &Vec<CreatedNode>) -> (r: Vec<CreatedNode>)
    ensures
        r@ == sp_dedup(v@),
{
    let mut out: Vec<CreatedNode> = Vec::new();
    let mut i: usize = 0;
    proof {
        assert(v@.take(0) =~= Seq::<CreatedNode>::empty());
    }
    while i < v.len()
        invariant
            i <= v@.len(),
            out@ == sp_dedup(v@.take(i as int)),
        decreases v@.len() - i,
    {
        proof {
            assert(v@.take(i + 1 as int).drop_last() =~= v@.take(i as int));
            assert(v@.take(i + 1 as int).last() == v@[i as int]);
        }
        if !contains_id(&out, v[i].element_id.as_str()) {
            out.push(v[i].clone());
        }
        i = i + 1;
    }
    proof {
        assert(v@.take(v@.len() as int) =~= v@);
    }
    out
}

/// Membership in a concatenation is membership in either part.
proof fn lemma_has_id_concat(a: Seq<CreatedNode>, b: Seq<CreatedNode>, id: Seq<char>)
    ensures
        has_id(a + b, id) == (has_id(a, id) || has_id(b, id)),
{
    if has_id(a + b, id) {
        let k = choose|k: int| 0 <= k < (a + b).len() && #[trigger] (a + b)[k].element_id@ == id;
        if k < a.len() {
            assert(a[k].element_id@ == id);
        } else {
            assert(b[k - a.len()].element_id@ == id);
        }
    }
    if has_id(a, id) {
        let k = choose|k: int| 0 <= k < a.len() && #[trigger] a[k].element_id@ == id;
        assert((a + b)[k].element_id@ == id);
    }
    if has_id(b, id) {
        let k = choose|k: int| 0 <= k < b.len() && #[trigger] b[k].element_id@ == id;
        assert((a + b)[a.len() + k].element_id@ == id);
    }
}

/// Membership among all the registry's nodes, split by collection.
proof fn lemma_has_id_all(r: DomainGraphRegistry, id: Seq<char>)
    ensures
        has_id(r.all_nodes_seq(), id) == ((match r.domain {
            Some(d) => d.element_id@ == id,
            None => false,
        }) || has_id(r.domain_levels@, id) || has_id(r.knowledge@, id) || has_id(r.skills@, id)
            || has_id(r.traits@, id) || has_id(r.milestones@, id)),
{
    let d = match r.domain {
        Some(d) => seq![d],
        None => Seq::<CreatedNode>::empty(),
    };
    lemma_has_id_concat(d + r.domain_levels@ + r.knowledge@ + r.skills@ + r.traits@,
        r.milestones@, id);
    lemma_has_id_concat(d + r.domain_levels@ + r.knowledge@ + r.skills@, r.traits@, id);
    lemma_has_id_concat(d + r.domain_levels@ + r.knowledge@, r.skills@, id);
    lemma_has_id_concat(d + r.domain_levels@, r.knowledge@, id);
    lemma_has_id_concat(d, r.domain_levels@, id);
    match r.domain {
        Some(dn) => {
            if dn.element_id@ == id {
                assert(d[0].element_id@ == id);
            }
            if has_id(d, id) {
                let k = choose|k: int| 0 <= k < d.len() && #[trigger] d[k].element_id@ == id;
                assert(d[k] == dn);
            }
        },
        None => {
            assert(!has_id(d, id));
        },
    }
}

impl DomainGraphRegistry {
    /// Collapse duplicate entries that arise when a node is registered
    /// both as a generalization target and as a plain concept: within
    /// each collection, only the first node with a given store id stays.
    /// No store id disappears, so referential integrity carries over.
    pub fn deduplicate(&mut self)
        ensures
            final(self).knowledge@ == sp_dedup(old(self).knowledge@),
            final(self).skills@ == sp_dedup(old(self).skills@),
            final(self).traits@ == sp_dedup(old(self).traits@),
            final(self).milestones@ == sp_dedup(old(self).milestones@),
            final(self).domain_levels@ == sp_dedup(old(self).domain_levels@),
            final(self).domain == old(self).domain,
            final(self).level_requirements@ == old(self).level_requirements@,
            final(self).generalizations@ == old(self).generalizations@,
            final(self).prerequisites@ == old(self).prerequisites@,
            old(self).wf() ==> final(self).wf(),
    {
        self.knowledge = dedup_nodes(&self.knowledge);
        self.skills = dedup_nodes(&self.skills);
        self.traits = dedup_nodes(&self.traits);
        self.milestones = dedup_nodes(&self.milestones);
        self.domain_levels = dedup_nodes(&self.domain_levels);
        proof {
            if old(self).wf() {
                let r1 = *old(self);
                let r2 = *self;
                assert forall|id: Seq<char>| has_id(r1.domain_levels@, id) implies has_id(
                    r2.domain_levels@,
                    id,
                ) by {
                    lemma_dedup_has_id(r1.domain_levels@, id);
                }
                assert forall|id: Seq<char>| has_id(r1.all_nodes_seq(), id) implies has_id(
                    r2.all_nodes_seq(),
                    id,
                ) by {
                    lemma_has_id_all(r1, id);
                    lemma_has_id_all(r2, id);
                    lemma_dedup_has_id(r1.domain_levels@, id);
                    lemma_dedup_has_id(r1.knowledge@, id);
                    lemma_dedup_has_id(r1.skills@, id);
                    lemma_dedup_has_id(r1.traits@, id);
                    lemma_dedup_has_id(r1.milestones@, id);
                }
                crate::agents::lemma_wf_after_node_growth(r1, r2);
            }
        }
    }
}

// ---------------------------------------------------------------------------
// Relationship filters
// ---------------------------------------------------------------------------
/// The generalization records of one specific node, in order.
pub open spec fn sp_gens_for(links: Seq<GeneralizationLink>, id: Seq<char>) -> Seq<
    GeneralizationLink,
>
    decreases links.len(),
{
    if links.len() == 0 {
        Seq::empty()
    } else {
        let rest = sp_gens_for(links.drop_first(), id);
        if links[0].specific_id@ == id {
            seq![links[0]] + rest
        } else {
            rest
        }
    }
}

/// The requirement records of one level, in order.
pub open spec fn sp_reqs_for(links: Seq<LevelRequirement>, id: Seq<char>) -> Seq<LevelRequirement>
    decreases links.len(),
{
    if links.len() == 0 {
        Seq::empty()
    } else {
        let rest = sp_reqs_for(links.drop_first(), id);
        if links[0].level_id@ == id {
            seq![links[0]] + rest
        } else {
            rest
        }
    }
}

/// The prerequisite records of one source node, in order.
pub open spec fn sp_prereqs_for(links: Seq<PrerequisiteLink>, id: Seq<char>) -> Seq<
    PrerequisiteLink,
>
    decreases links.len(),
{
    if links.len() == 0 {
        Seq::empty()
    } else {
        let rest = sp_prereqs_for(links.drop_first(), id);
        if links[0].source_id@ == id {
            seq![links[0]] + rest
        } else {
            rest
        }
    }
}

impl DomainGraphRegistry {
    /// Every generalization record of the given specific node.
    pub fn get_generalizations_for(&self, specific_id: &str) -> (r: Vec<GeneralizationLink>)
        ensures
            r@ == sp_gens_for(self.generalizations@, specific_id@),
    {
        let links = &self.generalizations;
        let mut out: Vec<GeneralizationLink> = Vec::new();
        let mut i: usize = 0;
        proof {
            assert(links@.skip(0) =~= links@);
        }
        while i < links.len()
            invariant
                i <= links@.len(),
                sp_gens_for(links@, specific_id@) == out@ + sp_gens_for(
                    links@.skip(i as int),
                    specific_id@,
                ),
            decreases links@.len() - i,
        {
            proof {
                assert(links@.skip(i as int)[0] == links@[i as int]);
                assert(links@.skip(i as int).drop_first() =~= links@.skip(i + 1));
            }
            let ghost pre = out@;
            if crate::text::str_eq_str(links[i].specific_id.as_str(), specific_id) {
                out.push(links[i].clone());
                proof {
                    assert(out@ + sp_gens_for(links@.skip(i + 1), specific_id@) =~= pre + (seq![
                        links@[i as int],
                    ] + sp_gens_for(links@.skip(i + 1), specific_id@)));
                }
            }
            i = i + 1;
        }
        proof {
            assert(sp_gens_for(links@.skip(links@.len() as int), specific_id@)
                =~= Seq::<GeneralizationLink>::empty());
            assert(out@ =~= out@ + Seq::<GeneralizationLink>::empty());
        }
        out
    }

    /// Every requirement record of the given level.
    pub fn get_requirements_for_level(&self, level_id: &str) -> (r: Vec<LevelRequirement>)
        ensures
            r@ == sp_reqs_for(self.level_requirements@, level_id@),
    {
        let links = &self.level_requirements;
        let mut out: Vec<LevelRequirement> = Vec::new();
        let mut i: usize = 0;
        proof {
            assert(links@.skip(0) =~= links@);
        }
        while i < links.len()
            invariant
                i <= links@.len(),
                sp_reqs_for(links@, level_id@) == out@ + sp_reqs_for(
                    links@.skip(i as int),
                    level_id@,
                ),
            decreases links@.len() - i,
        {
            proof {
                assert(links@.skip(i as int)[0] == links@[i as int]);
                assert(links@.skip(i as int).drop_first() =~= links@.skip(i + 1));
            }
            let ghost pre = out@;
            if crate::text::str_eq_str(links[i].level_id.as_str(), level_id) {
                out.push(links[i].clone());
                proof {
                    assert(out@ + sp_reqs_for(links@.skip(i + 1), level_id@) =~= pre + (seq![
                        links@[i as int],
                    ] + sp_reqs_for(links@.skip(i + 1), level_id@)));
                }
            }
            i = i + 1;
        }
        proof {
            assert(sp_reqs_for(links@.skip(links@.len() as int), level_id@)
                =~= Seq::<LevelRequirement>::empty());
            assert(out@ =~= out@ + Seq::<LevelRequirement>::empty());
        }
        out
    }

    /// Every prerequisite record of the given source node.
    pub fn get_prerequisites_for(&self, source_id: &str) -> (r: Vec<PrerequisiteLink>)
        ensures
            r@ == sp_prereqs_for(self.prerequisites@, source_id@),
    {
        let links = &self.prerequisites;
        let mut out: Vec<PrerequisiteLink> = Vec::new();
        let mut i: usize = 0;
        proof {
            assert(links@.skip(0) =~= links@);
        }
        while i < links.len()
            invariant
                i <= links@.len(),
                sp_prereqs_for(links@, source_id@) == out@ + sp_prereqs_for(
                    links@.skip(i as int),
                    source_id@,
                ),
            decreases links@.len() - i,
        {
            proof {
                assert(links@.skip(i as int)[0] == links@[i as int]);
                assert(links@.skip(i as int).drop_first() =~= links@.skip(i + 1));
            }
            let ghost pre = out@;
            if crate::text::str_eq_str(links[i].source_id.as_str(), source_id) {
                out.push(links[i].clone());
                proof {
                    assert(out@ + sp_prereqs_for(links@.skip(i + 1), source_id@) =~= pre + (seq![
                        links@[i as int],
                    ] + sp_prereqs_for(links@.skip(i + 1), source_id@)));
                }
            }
            i = i + 1;
        }
        proof {
            assert(sp_prereqs_for(links@.skip(links@.len() as int), source_id@)
                =~= Seq::<PrerequisiteLink>::empty());
            assert(out@ =~= out@ + Seq::<PrerequisiteLink>::empty());
        }
        out
    }
}

impl Clone for DomainGraphRegistry {
    /// A copy with the same nodes and records.
    fn clone(&self) -> (r: Self)
        ensures
            r.domain == self.domain,
            r.domain_levels@ == self.domain_levels@,
            r.knowledge@ == self.knowledge@,
            r.skills@ == self.skills@,
            r.traits@ == self.traits@,
            r.milestones@ == self.milestones@,
            r.level_requirements@ == self.level_requirements@,
            r.generalizations@ == self.generalizations@,
            r.prerequisites@ == self.prerequisites@,
    {
        let mut lr: Vec<LevelRequirement> = Vec::new();
        let mut i: usize = 0;
        while i < self.level_requirements.len()
            invariant
                i <= self.level_requirements@.len(),
                lr@ == self.level_requirements@.subrange(0, i as int),
            decreases self.level_requirements@.len() - i,
        {
            lr.push(self.level_requirements[i].clone());
            proof {
                assert(lr@ =~= self.level_requirements@.subrange(0, i + 1 as int));
            }
            i = i + 1;
        }
        let mut ge: Vec<GeneralizationLink> = Vec::new();
        let mut i: usize = 0;
        while i < self.generalizations.len()
            invariant
                i <= self.generalizations@.len(),
                ge@ == self.generalizations@.subrange(0, i as int),
            decreases self.generalizations@.len() - i,
        {
            ge.push(self.generalizations[i].clone());
            proof {
                assert(ge@ =~= self.generalizations@.subrange(0, i + 1 as int));
            }
            i = i + 1;
        }
        let mut pr: Vec<PrerequisiteLink> = Vec::new();
        let mut i: usize = 0;
        while i < self.prerequisites.len()
            invariant
                i <= self.prerequisites@.len(),
                pr@ == self.prerequisites@.subrange(0, i as int),
            decreases self.prerequisites@.len() - i,
        {
            pr.push(self.prerequisites[i].clone());
            proof {
                assert(pr@ =~= self.prerequisites@.subrange(0, i + 1 as int));
            }
            i = i + 1;
        }
        let r = DomainGraphRegistry {
            domain: match &self.domain {
                Some(d) => Some(d.clone()),
                None => None,
            },
            domain_levels: clone_nodes(&self.domain_levels),
            knowledge: clone_nodes(&self.knowledge),
            skills: clone_nodes(&self.skills),
            traits: clone_nodes(&self.traits),
            milestones: clone_nodes(&self.milestones),
            level_requirements: lr,
            generalizations: ge,
            prerequisites: pr,
        };
        proof {
            assert(lr@ =~= self.level_requirements@);
            assert(ge@ =~= self.generalizations@);
            assert(pr@ =~= self.prerequisites@);
        }
        r
    }
}

// ---------------------------------------------------------------------------
// The registry summary handed to the text generator
// ---------------------------------------------------------------------------
/// The names of a node sequence, in order.
pub open spec fn names_of(nodes: Seq<CreatedNode>) -> Seq<Seq<char>> {
    Seq::new(
        nodes.len(),
        |k: int|
            if 0 <= k < nodes.len() {
                nodes[k].name@
            } else {
                Seq::<char>::empty()
            },
    )
}

/// Names joined as a quoted, comma-separated list.
pub open spec fn sp_qlist(names: Seq<Seq<char>>, first: bool) -> Seq<char>
    decreases names.len(),
{
    if names.len() == 0 {
        Seq::empty()
    } else {
        (if first {
            Seq::<char>::empty()
        } else {
            seq![',', ' ']
        }) + seq!['"'] + names[0] + seq!['"'] + sp_qlist(names.drop_first(), false)
    }
}

/// A bracketed, quoted list of the nodes' names.
pub open spec fn sp_bracketed(nodes: Seq<CreatedNode>) -> Seq<char> {
    seq!['['] + sp_qlist(names_of(nodes), true) + seq![']']
}

/// The summary layout: one line per collection, each a bracketed list.
pub open spec fn sp_summary(reg: DomainGraphRegistry) -> Seq<char> {
    "Created nodes:\n- Domain Levels: "@ + sp_bracketed(reg.domain_levels@) + "\n- Knowledge: "@
        + sp_bracketed(reg.knowledge@) + "\n- Skills: "@ + sp_bracketed(reg.skills@)
        + "\n- Traits: "@ + sp_bracketed(reg.traits@) + "\n- Milestones: "@ + sp_bracketed(
        reg.milestones@,
    )
}

/// Render the nodes' names as a quoted, comma-separated list.
fn quoted_names(nodes: &Vec<CreatedNode>) -> (r: String)
    ensures
        r@ == sp_qlist(names_of(nodes@), true),
{
    let mut r = String::new();
    let mut i: usize = 0;
    proof {
        assert(names_of(nodes@).skip(0) =~= names_of(nodes@));
    }
    while i < nodes.len()
        invariant
            i <= nodes@.len(),
            sp_qlist(names_of(nodes@), true) == r@ + sp_qlist(
                names_of(nodes@).skip(i as int),
                i == 0,
            ),
        decreases nodes@.len() - i,
    {
        proof {
            assert(names_of(nodes@).skip(i as int)[0] == names_of(nodes@)[i as int]);
            assert(names_of(nodes@).skip(i as int).drop_first() =~= names_of(nodes@).skip(i + 1));
        }
        let ghost pre = r@;
        let ghost head = (if i == 0 {
            Seq::<char>::empty()
        } else {
            seq![',', ' ']
        }) + seq!['"'] + nodes@[i as int].name@ + seq!['"'];
        if i > 0 {
            crate::text::push_char(&mut r, ',');
            crate::text::push_char(&mut r, ' ');
        }
        crate::text::push_char(&mut r, '"');
        r.append(nodes[i].name.as_str());
        crate::text::push_char(&mut r, '"');
        proof {
            assert(r@ =~= pre + head);
            assert(pre + head + sp_qlist(names_of(nodes@).skip(i + 1), false) =~= pre + (head
                + sp_qlist(names_of(nodes@).skip(i + 1), false)));
        }
        i = i + 1;
    }
    proof {
        assert(sp_qlist(names_of(nodes@).skip(nodes@.len() as int), nodes@.len() == 0)
            =~= Seq::<char>::empty());
        assert(r@ + Seq::<char>::empty() =~= r@);
    }
    r
}

impl DomainGraphRegistry {
    /// A text snapshot of the created node names, by collection, for
    /// inclusion in generator prompts.
    pub fn summary_for_llm(&self) -> (r: String)
        ensures
            r@ == sp_summary(*self),
    {
        let mut s = String::new();
        s.append("Created nodes:\n- Domain Levels: ");
        crate::text::push_char(&mut s, '[');
        s.append(quoted_names(&self.domain_levels).as_str());
        crate::text::push_char(&mut s, ']');
        s.append("\n- Knowledge: ");
        crate::text::push_char(&mut s, '[');
        s.append(quoted_names(&self.knowledge).as_str());
        crate::text::push_char(&mut s, ']');
        s.append("\n- Skills: ");
        crate::text::push_char(&mut s, '[');
        s.append(quoted_names(&self.skills).as_str());
        crate::text::push_char(&mut s, ']');
        s.append("\n- Traits: ");
        crate::text::push_char(&mut s, '[');
        s.append(quoted_names(&self.traits).as_str());
        crate::text::push_char(&mut s, ']');
        s.append("\n- Milestones: ");
        crate::text::push_char(&mut s, '[');
        s.append(quoted_names(&self.milestones).as_str());
        crate::text::push_char(&mut s, ']');
        proof {
            assert(s@ =~= sp_summary(*self));
        }
        s
    }
}

impl Default for DomainGraphRegistry {
    /// An empty registry.
    fn default() -> (r: DomainGraphRegistry)
        ensures
            r.domain is None,
            r.domain_levels@.len() == 0,
            r.knowledge@.len() == 0,
            r.skills@.len() == 0,
            r.traits@.len() == 0,
            r.milestones@.len() == 0,
            r.level_requirements@.len() == 0,
            r.generalizations@.len() == 0,
            r.prerequisites@.len() == 0,
            r.wf(),
    {
        DomainGraphRegistry::empty()
    }
}

} // verus!

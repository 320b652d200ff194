//! Prompt construction for every pass of the pipeline.  Each template's
//! spec function is the exact layout of the prompt; the builders are
//! proved to produce it.

use vstd::prelude::*;

use crate::decisions::SimilarNodeResult;
use crate::text::{push_char, score_to_dec, spec_score_dec};

verus! {

/// A section that is present only when its text is non-empty.
pub open spec fn sp_opt_section(header: Seq<char>, text: Seq<char>) -> Seq<char> {
    if text.len() == 0 {
        Seq::empty()
    } else {
        header + text
    }
}

fn opt_section(header: &str, text: &str) -> (r: String)
    ensures
        r@ == sp_opt_section(header@, text@),
{
    if text.unicode_len() == 0 {
        String::new()
    } else {
        let mut s = String::from_str(header);
        s.append(text);
        s
    }
}

/// One line of the similar-node list shown to the verifier.
pub open spec fn sp_similar_line(n: SimilarNodeResult) -> Seq<char> {
    "- "@ + n.name@ + " (similarity: "@ + spec_score_dec(n.score as nat) + "): "@ + (match n
        .description {
        Some(d) => d@,
        None => "No description"@,
    })
}

fn similar_line(n: &SimilarNodeResult) -> (r: String)
    ensures
        r@ == sp_similar_line(*n),
{
    let mut s = String::from_str("- ");
    s.append(n.name.as_str());
    s.append(" (similarity: ");
    let sc = score_to_dec(n.score);
    s.append(sc.as_str());
    s.append("): ");
    match &n.description {
        Some(d) => s.append(d.as_str()),
        None => s.append("No description"),
    }
    s
}

/// The similar-node lines joined by line breaks.
pub open spec fn sp_similar_list(nodes: Seq<SimilarNodeResult>, first: bool) -> Seq<char>
    decreases nodes.len(),
{
    if nodes.len() == 0 {
        Seq::empty()
    } else {
        (if first {
            Seq::<char>::empty()
        } else {
            seq!['\n']
        }) + sp_similar_line(nodes[0]) + sp_similar_list(nodes.drop_first(), false)
    }
}

fn similar_list_text(nodes: &Vec<SimilarNodeResult>) -> (r: String)
    ensures
        r@ == sp_similar_list(nodes@, true),
{
    let mut r = String::new();
    let mut i: usize = 0;
    proof {
        assert(nodes@.skip(0) =~= nodes@);
    }
    while i < nodes.len()
        invariant
            i <= nodes@.len(),
            sp_similar_list(nodes@, true) == r@ + sp_similar_list(nodes@.skip(i as int), i == 0),
        decreases nodes@.len() - i,
    {
        proof {
            assert(nodes@.skip(i as int)[0] == nodes@[i as int]);
            assert(nodes@.skip(i as int).drop_first() =~= nodes@.skip(i + 1));
        }
        let ghost pre = r@;
        let ghost head = (if i == 0 {
            Seq::<char>::empty()
        } else {
            seq!['\n']
        }) + sp_similar_line(nodes@[i as int]);
        if i > 0 {
            push_char(&mut r, '\n');
        }
        let line = similar_line(&nodes[i]);
        r.append(line.as_str());
        proof {
            assert(r@ =~= pre + head);
            assert(pre + head + sp_similar_list(nodes@.skip(i + 1), false) =~= pre + (head
                + sp_similar_list(nodes@.skip(i + 1), false)));
        }
        i = i + 1;
    }
    proof {
        assert(sp_similar_list(nodes@.skip(nodes@.len() as int), nodes@.len() == 0)
            =~= Seq::<char>::empty());
        assert(r@ + Seq::<char>::empty() =~= r@);
    }
    r
}

/// Names joined by comma and space.
pub open spec fn sp_comma_join(names: Seq<String>, first: bool) -> Seq<char>
    decreases names.len(),
{
    if names.len() == 0 {
        Seq::empty()
    } else {
        (if first {
            Seq::<char>::empty()
        } else {
            seq![',', ' ']
        }) + names[0]@ + sp_comma_join(names.drop_first(), false)
    }
}

/// The skill pass's note naming the knowledge generated so far.
pub open spec fn sp_knowledge_context(names: Seq<String>) -> Seq<char> {
    if names.len() == 0 {
        Seq::empty()
    } else {
        "\nExisting knowledge in this domain: "@ + sp_comma_join(names, true)
    }
}

fn knowledge_context(names: &Vec<String>) -> (r: String)
    ensures
        r@ == sp_knowledge_context(names@),
{
    if names.len() == 0 {
        return String::new();
    }
    let mut j = String::new();
    let mut i: usize = 0;
    proof {
        assert(names@.skip(0) =~= names@);
    }
    while i < names.len()
        invariant
            i <= names@.len(),
            sp_comma_join(names@, true) == j@ + sp_comma_join(names@.skip(i as int), i == 0),
        decreases names@.len() - i,
    {
        proof {
            assert(names@.skip(i as int)[0] == names@[i as int]);
            assert(names@.skip(i as int).drop_first() =~= names@.skip(i + 1));
        }
        let ghost pre = j@;
        let ghost head = (if i == 0 {
            Seq::<char>::empty()
        } else {
            seq![',', ' ']
        }) + names@[i as int]@;
        if i > 0 {
            push_char(&mut j, ',');
            push_char(&mut j, ' ');
        }
        j.append(names[i].as_str());
        proof {
            assert(j@ =~= pre + head);
            assert(pre + head + sp_comma_join(names@.skip(i + 1), false) =~= pre + (head
                + sp_comma_join(names@.skip(i + 1), false)));
        }
        i = i + 1;
    }
    proof {
        assert(sp_comma_join(names@.skip(names@.len() as int), names@.len() == 0)
            =~= Seq::<char>::empty());
        assert(j@ + Seq::<char>::empty() =~= j@);
    }
    let mut s = String::from_str("\nExisting knowledge in this domain: ");
    s.append(j.as_str());
    s
}

/// The note naming a generalization target, when there is one.
pub open spec fn sp_generalization_note(generalizes_to: Option<Seq<char>>) -> Seq<char> {
    match generalizes_to {
        Some(g) => "\nNote: This is a domain-specific version that generalizes to '"@ + g + "'."@,
        None => Seq::empty(),
    }
}

fn generalization_note(generalizes_to: Option<&str>) -> (r: String)
    ensures
        r@ == sp_generalization_note(
            match generalizes_to {
                Some(g) => Some(g@),
                None => None,
            },
        ),
{
    match generalizes_to {
        Some(g) => {
            let mut s = String::from_str(
                "\nNote: This is a domain-specific version that generalizes to '",
            );
            s.append(g);
            s.append("'.");
            s
        },
        None => String::new(),
    }
}

/// The prompt of every generation pass, one builder per template.
pub struct PromptTemplates;

impl PromptTemplates {
    /// The domain-structure request: a described domain and five ordered levels.
    pub open spec fn sp_domain_structure(domain_name: Seq<char>, description: Seq<char>) -> Seq<char> {
        r#"You are designing the structure for the domain ""#@ + domain_name + r#"".
"#@ + sp_opt_section("Description provided: "@, description) + r#"

Generate a JSON object with the following structure:
{
    "domain": {
        "name": ""#@ + domain_name + r#"",
        "description": "A comprehensive description of the domain"
    },
    "levels": [
        {
            "level": 1,
            "name": ""#@ + domain_name + r#" Novice",
            "description": "Description of novice level"
        },
        {
            "level": 2,
            "name": ""#@ + domain_name + r#" Developing",
            "description": "Description of developing level"
        },
        {
            "level": 3,
            "name": ""#@ + domain_name + r#" Competent",
            "description": "Description of competent level"
        },
        {
            "level": 4,
            "name": ""#@ + domain_name + r#" Advanced",
            "description": "Description of advanced level"
        },
        {
            "level": 5,
            "name": ""#@ + domain_name + r#" Master",
            "description": "Description of master level"
        }
    ]
}

Output ONLY valid JSON, no explanation or markdown."#@
    }

    /// The domain-structure request: a described domain and five ordered levels.
    pub fn domain_structure(domain_name: &str, description: &str) -> (r: String)
        ensures
            r@ == Self::sp_domain_structure(domain_name@, description@),
    {
        let mut s = String::from_str(r#"You are designing the structure for the domain ""#);
        s.append(domain_name);
        s.append(r#"".
"#);
        let sec = opt_section("Description provided: ", description);
        s.append(sec.as_str());
        s.append(r#"

Generate a JSON object with the following structure:
{
    "domain": {
        "name": ""#);
        s.append(domain_name);
        s.append(r#"",
        "description": "A comprehensive description of the domain"
    },
    "levels": [
        {
            "level": 1,
            "name": ""#);
        s.append(domain_name);
        s.append(r#" Novice",
            "description": "Description of novice level"
        },
        {
            "level": 2,
            "name": ""#);
        s.append(domain_name);
        s.append(r#" Developing",
            "description": "Description of developing level"
        },
        {
            "level": 3,
            "name": ""#);
        s.append(domain_name);
        s.append(r#" Competent",
            "description": "Description of competent level"
        },
        {
            "level": 4,
            "name": ""#);
        s.append(domain_name);
        s.append(r#" Advanced",
            "description": "Description of advanced level"
        },
        {
            "level": 5,
            "name": ""#);
        s.append(domain_name);
        s.append(r#" Master",
            "description": "Description of master level"
        }
    ]
}

Output ONLY valid JSON, no explanation or markdown."#);
        s
    }

    /// The first knowledge pass: ask for a candidate list of concepts.
    pub open spec fn sp_knowledge_concepts(domain_name: Seq<char>, description: Seq<char>) -> Seq<char> {
        r#"For the domain ""#@ + domain_name + r#"", identify the essential knowledge concepts someone would need to master.
"#@ + sp_opt_section(r#"
Domain description: "#@, description) + r#"

Consider knowledge at all levels from novice to master. Focus on:
- Foundational theoretical knowledge
- Technical/specialized knowledge
- Contextual/cultural knowledge
- Safety and best practices knowledge

CRITICAL RULES:
1. ATOMIC: Each concept must be a SINGLE concept. Never combine with "and".
   BAD: "Variables and Data Types" → GOOD: "Variables", "Data Types"
   BAD: "Opening Principles and Strategies" → GOOD: "Opening Principles", "Opening Strategies"

2. DOMAIN-SPECIFIC NAMING: Prefix concepts with the domain name ""#@ + domain_name + r#"".
   Example: ""#@ + domain_name + r#" Opening Principles", ""#@ + domain_name + r#" Tactics"
   NOT: "Opening Principles", "Tactics"

   Only omit prefix for universal concepts identical across all domains:
   - "Boolean Algebra", "Newton's Laws" (exact same content everywhere)

Output ONLY a JSON array of concept names (10-20 items), no explanation:
["Concept 1", "Concept 2", "Concept 3", ...]"#@
    }

    /// The first knowledge pass: ask for a candidate list of concepts.
    pub fn knowledge_concepts(domain_name: &str, description: &str) -> (r: String)
        ensures
            r@ == Self::sp_knowledge_concepts(domain_name@, description@),
    {
        let mut s = String::from_str(r#"For the domain ""#);
        s.append(domain_name);
        s.append(r#"", identify the essential knowledge concepts someone would need to master.
"#);
        let sec = opt_section(r#"
Domain description: "#, description);
        s.append(sec.as_str());
        s.append(r#"

Consider knowledge at all levels from novice to master. Focus on:
- Foundational theoretical knowledge
- Technical/specialized knowledge
- Contextual/cultural knowledge
- Safety and best practices knowledge

CRITICAL RULES:
1. ATOMIC: Each concept must be a SINGLE concept. Never combine with "and".
   BAD: "Variables and Data Types" → GOOD: "Variables", "Data Types"
   BAD: "Opening Principles and Strategies" → GOOD: "Opening Principles", "Opening Strategies"

2. DOMAIN-SPECIFIC NAMING: Prefix concepts with the domain name ""#);
        s.append(domain_name);
        s.append(r#"".
   Example: ""#);
        s.append(domain_name);
        s.append(r#" Opening Principles", ""#);
        s.append(domain_name);
        s.append(r#" Tactics"
   NOT: "Opening Principles", "Tactics"

   Only omit prefix for universal concepts identical across all domains:
   - "Boolean Algebra", "Newton's Laws" (exact same content everywhere)

Output ONLY a JSON array of concept names (10-20 items), no explanation:
["Concept 1", "Concept 2", "Concept 3", ...]"#);
        s
    }

    /// The knowledge verification request for one ambiguous candidate.
    pub open spec fn sp_verify_similar_knowledge(concept: Seq<char>, domain_name: Seq<char>, similar_nodes: Seq<SimilarNodeResult>) -> Seq<char> {
        r#"I'm creating knowledge nodes for the domain ""#@ + domain_name + r#"".

For the concept ""#@ + concept + r#"", I found these similar existing nodes:
"#@ + sp_similar_list(similar_nodes, true) + r#"

Decision guide:
1. "use_existing" - The existing node represents essentially the same knowledge
2. "create_new" - This is a distinct concept, no good match exists
3. "create_and_generalize" - Create a domain-specific node that links to a broader concept:
   - Use when your knowledge is domain-specific but relates to a general concept
   - Example: ""#@ + domain_name + r#" Opening Principles" → GENERALIZES_TO → "Opening Principles"
   - The domain-specific version has DIFFERENT actual content than the general version
   - If the general concept exists in the list above, use "existing_node_name"
   - If the general concept doesn't exist, suggest it in "suggested_target"

Output ONLY a JSON object:
{
    "decision": "use_existing" | "create_new" | "create_and_generalize",
    "existing_node_name": "Name from list above (for use_existing, or if generalizing to a listed node)",
    "suggested_target": "Name of a new general concept to generalize to (only if not in list above, null otherwise)",
    "reason": "Brief explanation"
}"#@
    }

    /// The knowledge verification request for one ambiguous candidate.
    pub fn verify_similar_knowledge(concept: &str, domain_name: &str, similar_nodes: &Vec<SimilarNodeResult>) -> (r: String)
        ensures
            r@ == Self::sp_verify_similar_knowledge(concept@, domain_name@, similar_nodes@),
    {
        let mut s = String::from_str(r#"I'm creating knowledge nodes for the domain ""#);
        s.append(domain_name);
        s.append(r#"".

For the concept ""#);
        s.append(concept);
        s.append(r#"", I found these similar existing nodes:
"#);
        let lst = similar_list_text(similar_nodes);
        s.append(lst.as_str());
        s.append(r#"

Decision guide:
1. "use_existing" - The existing node represents essentially the same knowledge
2. "create_new" - This is a distinct concept, no good match exists
3. "create_and_generalize" - Create a domain-specific node that links to a broader concept:
   - Use when your knowledge is domain-specific but relates to a general concept
   - Example: ""#);
        s.append(domain_name);
        s.append(r#" Opening Principles" → GENERALIZES_TO → "Opening Principles"
   - The domain-specific version has DIFFERENT actual content than the general version
   - If the general concept exists in the list above, use "existing_node_name"
   - If the general concept doesn't exist, suggest it in "suggested_target"

Output ONLY a JSON object:
{
    "decision": "use_existing" | "create_new" | "create_and_generalize",
    "existing_node_name": "Name from list above (for use_existing, or if generalizing to a listed node)",
    "suggested_target": "Name of a new general concept to generalize to (only if not in list above, null otherwise)",
    "reason": "Brief explanation"
}"#);
        s
    }

    /// The property request for one knowledge concept.
    pub open spec fn sp_knowledge_properties(domain_name: Seq<char>, concept: Seq<char>, generalizes_to: Option<Seq<char>>) -> Seq<char> {
        r#"Generate full properties for the knowledge concept ""#@ + concept + r#"" in the domain ""#@ + domain_name + r#""."#@ + sp_generalization_note(generalizes_to) + r#"

Output ONLY a JSON object with these fields:
{
    "name": ""#@ + concept + r#"",
    "description": "Clear, concise description of what this knowledge encompasses",
    "how_to_learn": "Practical guidance on how to acquire this knowledge",
    "remember_level": "What to memorize/recall at Remember level (Bloom's)",
    "understand_level": "What to comprehend at Understand level",
    "apply_level": "How to apply this knowledge practically",
    "analyze_level": "How to break down and examine this knowledge",
    "evaluate_level": "How to judge and assess using this knowledge",
    "create_level": "How to synthesize and create with this knowledge"
}"#@
    }

    /// The property request for one knowledge concept.
    pub fn knowledge_properties(domain_name: &str, concept: &str, generalizes_to: Option<&str>) -> (r: String)
        ensures
            r@ == Self::sp_knowledge_properties(domain_name@, concept@, match generalizes_to { Some(g) => Some(g@), None => None }),
    {
        let mut s = String::from_str(r#"Generate full properties for the knowledge concept ""#);
        s.append(concept);
        s.append(r#"" in the domain ""#);
        s.append(domain_name);
        s.append(r#""."#);
        let note = generalization_note(generalizes_to);
        s.append(note.as_str());
        s.append(r#"

Output ONLY a JSON object with these fields:
{
    "name": ""#);
        s.append(concept);
        s.append(r#"",
    "description": "Clear, concise description of what this knowledge encompasses",
    "how_to_learn": "Practical guidance on how to acquire this knowledge",
    "remember_level": "What to memorize/recall at Remember level (Bloom's)",
    "understand_level": "What to comprehend at Understand level",
    "apply_level": "How to apply this knowledge practically",
    "analyze_level": "How to break down and examine this knowledge",
    "evaluate_level": "How to judge and assess using this knowledge",
    "create_level": "How to synthesize and create with this knowledge"
}"#);
        s
    }

    /// The property request for a generic generalization target.
    pub open spec fn sp_generic_knowledge_properties(concept: Seq<char>) -> Seq<char> {
        r#"Generate properties for a GENERIC knowledge concept ""#@ + concept + r#"".

This is a general-purpose knowledge node that is NOT domain-specific. It should be applicable across multiple domains.

Output ONLY a JSON object with these fields:
{
    "name": ""#@ + concept + r#"",
    "description": "Clear, concise description of what this general knowledge encompasses",
    "how_to_learn": "General guidance on how to acquire this knowledge",
    "remember_level": "What to memorize/recall at Remember level (Bloom's)",
    "understand_level": "What to comprehend at Understand level",
    "apply_level": "How to apply this knowledge practically",
    "analyze_level": "How to break down and examine this knowledge",
    "evaluate_level": "How to judge and assess using this knowledge",
    "create_level": "How to synthesize and create with this knowledge"
}"#@
    }

    /// The property request for a generic generalization target.
    pub fn generic_knowledge_properties(concept: &str) -> (r: String)
        ensures
            r@ == Self::sp_generic_knowledge_properties(concept@),
    {
        let mut s = String::from_str(r#"Generate properties for a GENERIC knowledge concept ""#);
        s.append(concept);
        s.append(r#"".

This is a general-purpose knowledge node that is NOT domain-specific. It should be applicable across multiple domains.

Output ONLY a JSON object with these fields:
{
    "name": ""#);
        s.append(concept);
        s.append(r#"",
    "description": "Clear, concise description of what this general knowledge encompasses",
    "how_to_learn": "General guidance on how to acquire this knowledge",
    "remember_level": "What to memorize/recall at Remember level (Bloom's)",
    "understand_level": "What to comprehend at Understand level",
    "apply_level": "How to apply this knowledge practically",
    "analyze_level": "How to break down and examine this knowledge",
    "evaluate_level": "How to judge and assess using this knowledge",
    "create_level": "How to synthesize and create with this knowledge"
}"#);
        s
    }

    /// The first skill pass: ask for a candidate list, knowing the knowledge already generated.
    pub open spec fn sp_skill_concepts(domain_name: Seq<char>, description: Seq<char>, existing_knowledge: Seq<String>) -> Seq<char> {
        r#"For the domain ""#@ + domain_name + r#"", identify the essential skills someone would need to develop.
"#@ + sp_opt_section(r#"
Domain description: "#@, description) + sp_knowledge_context(existing_knowledge) + r#"

Consider skills at all levels from novice to expert. Focus on:
- Physical/technical skills
- Cognitive/analytical skills
- Social/communication skills
- Decision-making skills

CRITICAL RULES:
1. ATOMIC: Each skill must be a SINGLE ability. Never combine with "and".
   BAD: "Debugging and Testing" → GOOD: "Debugging", "Testing"
   BAD: "Planning and Execution" → GOOD: "Planning", "Execution"

2. DOMAIN-SPECIFIC NAMING: Prefix skills with the domain name ""#@ + domain_name + r#"".
   Example: ""#@ + domain_name + r#" Tactical Calculation", ""#@ + domain_name + r#" Position Evaluation"
   NOT: "Tactical Calculation", "Position Evaluation"

   Only omit prefix for universal skills that work identically across domains:
   - "Problem Solving", "Time Management", "Decision Making" (same practice everywhere)

Output ONLY a JSON array of skill names (8-15 items), no explanation:
["Skill 1", "Skill 2", "Skill 3", ...]"#@
    }

    /// The first skill pass: ask for a candidate list, knowing the knowledge already generated.
    pub fn skill_concepts(domain_name: &str, description: &str, existing_knowledge: &Vec<String>) -> (r: String)
        ensures
            r@ == Self::sp_skill_concepts(domain_name@, description@, existing_knowledge@),
    {
        let mut s = String::from_str(r#"For the domain ""#);
        s.append(domain_name);
        s.append(r#"", identify the essential skills someone would need to develop.
"#);
        let sec = opt_section(r#"
Domain description: "#, description);
        s.append(sec.as_str());
        let kc = knowledge_context(existing_knowledge);
        s.append(kc.as_str());
        s.append(r#"

Consider skills at all levels from novice to expert. Focus on:
- Physical/technical skills
- Cognitive/analytical skills
- Social/communication skills
- Decision-making skills

CRITICAL RULES:
1. ATOMIC: Each skill must be a SINGLE ability. Never combine with "and".
   BAD: "Debugging and Testing" → GOOD: "Debugging", "Testing"
   BAD: "Planning and Execution" → GOOD: "Planning", "Execution"

2. DOMAIN-SPECIFIC NAMING: Prefix skills with the domain name ""#);
        s.append(domain_name);
        s.append(r#"".
   Example: ""#);
        s.append(domain_name);
        s.append(r#" Tactical Calculation", ""#);
        s.append(domain_name);
        s.append(r#" Position Evaluation"
   NOT: "Tactical Calculation", "Position Evaluation"

   Only omit prefix for universal skills that work identically across domains:
   - "Problem Solving", "Time Management", "Decision Making" (same practice everywhere)

Output ONLY a JSON array of skill names (8-15 items), no explanation:
["Skill 1", "Skill 2", "Skill 3", ...]"#);
        s
    }

    /// The skill verification request for one ambiguous candidate.
    pub open spec fn sp_verify_similar_skill(concept: Seq<char>, domain_name: Seq<char>, similar_nodes: Seq<SimilarNodeResult>) -> Seq<char> {
        r#"I'm creating skill nodes for the domain ""#@ + domain_name + r#"".

For the skill ""#@ + concept + r#"", I found these similar existing nodes:
"#@ + sp_similar_list(similar_nodes, true) + r#"

Decision guide:
1. "use_existing" - The existing node represents essentially the same skill
2. "create_new" - This is a distinct skill, no good match exists
3. "create_and_generalize" - Create a domain-specific skill that links to a broader skill:
   - Use when your skill is domain-specific but relates to a general ability
   - Example: ""#@ + domain_name + r#" Tactical Calculation" → GENERALIZES_TO → "Tactical Calculation"
   - The domain-specific version has DIFFERENT practice methods than the general version
   - If the general skill exists in the list above, use "existing_node_name"
   - If the general skill doesn't exist, suggest it in "suggested_target"

Output ONLY a JSON object:
{
    "decision": "use_existing" | "create_new" | "create_and_generalize",
    "existing_node_name": "Name from list above (for use_existing, or if generalizing to a listed node)",
    "suggested_target": "Name of a new general skill to generalize to (only if not in list above, null otherwise)",
    "reason": "Brief explanation"
}"#@
    }

    /// The skill verification request for one ambiguous candidate.
    pub fn verify_similar_skill(concept: &str, domain_name: &str, similar_nodes: &Vec<SimilarNodeResult>) -> (r: String)
        ensures
            r@ == Self::sp_verify_similar_skill(concept@, domain_name@, similar_nodes@),
    {
        let mut s = String::from_str(r#"I'm creating skill nodes for the domain ""#);
        s.append(domain_name);
        s.append(r#"".

For the skill ""#);
        s.append(concept);
        s.append(r#"", I found these similar existing nodes:
"#);
        let lst = similar_list_text(similar_nodes);
        s.append(lst.as_str());
        s.append(r#"

Decision guide:
1. "use_existing" - The existing node represents essentially the same skill
2. "create_new" - This is a distinct skill, no good match exists
3. "create_and_generalize" - Create a domain-specific skill that links to a broader skill:
   - Use when your skill is domain-specific but relates to a general ability
   - Example: ""#);
        s.append(domain_name);
        s.append(r#" Tactical Calculation" → GENERALIZES_TO → "Tactical Calculation"
   - The domain-specific version has DIFFERENT practice methods than the general version
   - If the general skill exists in the list above, use "existing_node_name"
   - If the general skill doesn't exist, suggest it in "suggested_target"

Output ONLY a JSON object:
{
    "decision": "use_existing" | "create_new" | "create_and_generalize",
    "existing_node_name": "Name from list above (for use_existing, or if generalizing to a listed node)",
    "suggested_target": "Name of a new general skill to generalize to (only if not in list above, null otherwise)",
    "reason": "Brief explanation"
}"#);
        s
    }

    /// The property request for one skill.
    pub open spec fn sp_skill_properties(domain_name: Seq<char>, concept: Seq<char>, generalizes_to: Option<Seq<char>>) -> Seq<char> {
        r#"Generate full properties for the skill ""#@ + concept + r#"" in the domain ""#@ + domain_name + r#""."#@ + sp_generalization_note(generalizes_to) + r#"

Output ONLY a JSON object with these fields:
{
    "name": ""#@ + concept + r#"",
    "description": "Clear description of this skill and what it enables",
    "how_to_develop": "Practical guidance on developing this skill",
    "novice_level": "What novice performance looks like (Dreyfus model)",
    "advanced_beginner_level": "What advanced beginner performance looks like",
    "competent_level": "What competent performance looks like",
    "proficient_level": "What proficient performance looks like",
    "expert_level": "What expert performance looks like"
}"#@
    }

    /// The property request for one skill.
    pub fn skill_properties(domain_name: &str, concept: &str, generalizes_to: Option<&str>) -> (r: String)
        ensures
            r@ == Self::sp_skill_properties(domain_name@, concept@, match generalizes_to { Some(g) => Some(g@), None => None }),
    {
        let mut s = String::from_str(r#"Generate full properties for the skill ""#);
        s.append(concept);
        s.append(r#"" in the domain ""#);
        s.append(domain_name);
        s.append(r#""."#);
        let note = generalization_note(generalizes_to);
        s.append(note.as_str());
        s.append(r#"

Output ONLY a JSON object with these fields:
{
    "name": ""#);
        s.append(concept);
        s.append(r#"",
    "description": "Clear description of this skill and what it enables",
    "how_to_develop": "Practical guidance on developing this skill",
    "novice_level": "What novice performance looks like (Dreyfus model)",
    "advanced_beginner_level": "What advanced beginner performance looks like",
    "competent_level": "What competent performance looks like",
    "proficient_level": "What proficient performance looks like",
    "expert_level": "What expert performance looks like"
}"#);
        s
    }

    /// The property request for a generic skill target.
    pub open spec fn sp_generic_skill_properties(concept: Seq<char>) -> Seq<char> {
        r#"Generate properties for a GENERIC skill ""#@ + concept + r#"".

This is a general-purpose skill that is NOT domain-specific. It should be applicable across multiple domains.

Output ONLY a JSON object with these fields:
{
    "name": ""#@ + concept + r#"",
    "description": "Clear description of this general skill and what it enables",
    "how_to_develop": "General guidance on developing this skill",
    "novice_level": "What novice performance looks like (Dreyfus model)",
    "advanced_beginner_level": "What advanced beginner performance looks like",
    "competent_level": "What competent performance looks like",
    "proficient_level": "What proficient performance looks like",
    "expert_level": "What expert performance looks like"
}"#@
    }

    /// The property request for a generic skill target.
    pub fn generic_skill_properties(concept: &str) -> (r: String)
        ensures
            r@ == Self::sp_generic_skill_properties(concept@),
    {
        let mut s = String::from_str(r#"Generate properties for a GENERIC skill ""#);
        s.append(concept);
        s.append(r#"".

This is a general-purpose skill that is NOT domain-specific. It should be applicable across multiple domains.

Output ONLY a JSON object with these fields:
{
    "name": ""#);
        s.append(concept);
        s.append(r#"",
    "description": "Clear description of this general skill and what it enables",
    "how_to_develop": "General guidance on developing this skill",
    "novice_level": "What novice performance looks like (Dreyfus model)",
    "advanced_beginner_level": "What advanced beginner performance looks like",
    "competent_level": "What competent performance looks like",
    "proficient_level": "What proficient performance looks like",
    "expert_level": "What expert performance looks like"
}"#);
        s
    }

    /// The first trait pass: ask for a candidate list of generic traits.
    pub open spec fn sp_trait_concepts(domain_name: Seq<char>, description: Seq<char>) -> Seq<char> {
        r#"For the domain ""#@ + domain_name + r#"", identify inherent traits that contribute to success.
"#@ + sp_opt_section(r#"
Domain description: "#@, description) + r#"

Traits are inherent characteristics (not teachable skills or learnable knowledge):
- Physical traits (strength, endurance, flexibility)
- Cognitive traits (spatial reasoning, pattern recognition)
- Personality traits (risk tolerance, persistence, competitive drive)
- Temperament traits (patience, emotional stability)

CRITICAL RULES:
1. ATOMIC: Each trait must be a SINGLE characteristic. Never combine with "and".
   BAD: "Patience and Perseverance" → GOOD: "Patience", "Perseverance"
   BAD: "Logical and Analytical Thinking" → GOOD: "Logical Thinking", "Analytical Thinking"

2. GENERIC NAMING: Traits should NOT have domain prefixes.
   Traits are fundamental cognitive/personality characteristics that manifest across ALL domains.

   CORRECT: "Pattern Recognition", "Logical Thinking", "Focus", "Mental Endurance", "Risk Tolerance"
   WRONG: ""#@ + domain_name + r#" Pattern Recognition", ""#@ + domain_name + r#" Focus"

   If you're tempted to add a domain prefix, it's probably a SKILL, not a trait.

Only list traits that are genuinely relevant to this domain.

Output ONLY a JSON array of trait names (3-8 items), no explanation:
["Trait 1", "Trait 2", "Trait 3", ...]"#@
    }

    /// The first trait pass: ask for a candidate list of generic traits.
    pub fn trait_concepts(domain_name: &str, description: &str) -> (r: String)
        ensures
            r@ == Self::sp_trait_concepts(domain_name@, description@),
    {
        let mut s = String::from_str(r#"For the domain ""#);
        s.append(domain_name);
        s.append(r#"", identify inherent traits that contribute to success.
"#);
        let sec = opt_section(r#"
Domain description: "#, description);
        s.append(sec.as_str());
        s.append(r#"

Traits are inherent characteristics (not teachable skills or learnable knowledge):
- Physical traits (strength, endurance, flexibility)
- Cognitive traits (spatial reasoning, pattern recognition)
- Personality traits (risk tolerance, persistence, competitive drive)
- Temperament traits (patience, emotional stability)

CRITICAL RULES:
1. ATOMIC: Each trait must be a SINGLE characteristic. Never combine with "and".
   BAD: "Patience and Perseverance" → GOOD: "Patience", "Perseverance"
   BAD: "Logical and Analytical Thinking" → GOOD: "Logical Thinking", "Analytical Thinking"

2. GENERIC NAMING: Traits should NOT have domain prefixes.
   Traits are fundamental cognitive/personality characteristics that manifest across ALL domains.

   CORRECT: "Pattern Recognition", "Logical Thinking", "Focus", "Mental Endurance", "Risk Tolerance"
   WRONG: ""#);
        s.append(domain_name);
        s.append(r#" Pattern Recognition", ""#);
        s.append(domain_name);
        s.append(r#" Focus"

   If you're tempted to add a domain prefix, it's probably a SKILL, not a trait.

Only list traits that are genuinely relevant to this domain.

Output ONLY a JSON array of trait names (3-8 items), no explanation:
["Trait 1", "Trait 2", "Trait 3", ...]"#);
        s
    }

    /// The trait verification request for one ambiguous candidate.
    pub open spec fn sp_verify_similar_trait(concept: Seq<char>, domain_name: Seq<char>, similar_nodes: Seq<SimilarNodeResult>) -> Seq<char> {
        r#"I'm identifying relevant traits for the domain ""#@ + domain_name + r#"".

For the trait ""#@ + concept + r#"", I found these similar existing trait nodes:
"#@ + sp_similar_list(similar_nodes, true) + r#"

Traits should be generic (shared across domains), not domain-specific.

Should I:
1. "use_existing" - Use one of the existing trait nodes
2. "create_new" - Create a new generic trait (only if truly distinct)

Output ONLY a JSON object:
{
    "decision": "use_existing" | "create_new",
    "existing_node_name": "Name of existing node (null if create_new)",
    "reason": "Brief explanation"
}"#@
    }

    /// The trait verification request for one ambiguous candidate.
    pub fn verify_similar_trait(concept: &str, domain_name: &str, similar_nodes: &Vec<SimilarNodeResult>) -> (r: String)
        ensures
            r@ == Self::sp_verify_similar_trait(concept@, domain_name@, similar_nodes@),
    {
        let mut s = String::from_str(r#"I'm identifying relevant traits for the domain ""#);
        s.append(domain_name);
        s.append(r#"".

For the trait ""#);
        s.append(concept);
        s.append(r#"", I found these similar existing trait nodes:
"#);
        let lst = similar_list_text(similar_nodes);
        s.append(lst.as_str());
        s.append(r#"

Traits should be generic (shared across domains), not domain-specific.

Should I:
1. "use_existing" - Use one of the existing trait nodes
2. "create_new" - Create a new generic trait (only if truly distinct)

Output ONLY a JSON object:
{
    "decision": "use_existing" | "create_new",
    "existing_node_name": "Name of existing node (null if create_new)",
    "reason": "Brief explanation"
}"#);
        s
    }

    /// The property request for one trait.
    pub open spec fn sp_trait_properties(concept: Seq<char>) -> Seq<char> {
        r#"Generate full properties for the trait ""#@ + concept + r#"".

Note: Traits are generic (not domain-specific) and measured on a 0-100 scale.

Measurement bands to describe in measurement_criteria:
- 0-25 (Low): Significant challenges or minimal natural ability
- 26-50 (Moderate): Average or developing capability
- 51-75 (High): Strong natural ability or well-developed capacity
- 76-100 (Exceptional): Outstanding or rare capability

Output ONLY a JSON object with these fields:
{
    "name": ""#@ + concept + r#"",
    "description": "Clear description of this inherent trait",
    "measurement_criteria": "How this trait is assessed, with descriptions for Low (0-25), Moderate (26-50), High (51-75), and Exceptional (76-100) ranges"
}"#@
    }

    /// The property request for one trait.
    pub fn trait_properties(concept: &str) -> (r: String)
        ensures
            r@ == Self::sp_trait_properties(concept@),
    {
        let mut s = String::from_str(r#"Generate full properties for the trait ""#);
        s.append(concept);
        s.append(r#"".

Note: Traits are generic (not domain-specific) and measured on a 0-100 scale.

Measurement bands to describe in measurement_criteria:
- 0-25 (Low): Significant challenges or minimal natural ability
- 26-50 (Moderate): Average or developing capability
- 51-75 (High): Strong natural ability or well-developed capacity
- 76-100 (Exceptional): Outstanding or rare capability

Output ONLY a JSON object with these fields:
{
    "name": ""#);
        s.append(concept);
        s.append(r#"",
    "description": "Clear description of this inherent trait",
    "measurement_criteria": "How this trait is assessed, with descriptions for Low (0-25), Moderate (26-50), High (51-75), and Exceptional (76-100) ranges"
}"#);
        s
    }

    /// The first milestone pass: ask for a candidate list of achievements.
    pub open spec fn sp_milestone_concepts(domain_name: Seq<char>, description: Seq<char>, context: Seq<char>) -> Seq<char> {
        r#"For the domain ""#@ + domain_name + r#"", identify concrete milestones/achievements across all mastery levels.
"#@ + sp_opt_section(r#"
Domain description: "#@, description) + r#"

"#@ + context + r#"

Milestones should be:
- Binary (achieved or not achieved)
- Concrete and measurable
- Distributed across all 5 levels (novice to master)
- Types: performance, achievement, participation, creation, recognition

CRITICAL RULES:
1. ATOMIC: Each milestone must be a SINGLE achievement. Never combine with "and".
   BAD: "Win Tournament and Reach 2000 ELO" → GOOD: "Win Tournament", "Reach 2000 ELO"
   BAD: "Complete Project and Deploy" → GOOD: "Complete Project", "Deploy to Production"

2. DOMAIN-SPECIFIC: Milestones are achievements within this domain.
   Use clear, measurable descriptions specific to ""#@ + domain_name + r#"".

Output ONLY a JSON array of milestone names (12-20 items), no explanation:
["Milestone 1", "Milestone 2", "Milestone 3", ...]"#@
    }

    /// The first milestone pass: ask for a candidate list of achievements.
    pub fn milestone_concepts(domain_name: &str, description: &str, context: &str) -> (r: String)
        ensures
            r@ == Self::sp_milestone_concepts(domain_name@, description@, context@),
    {
        let mut s = String::from_str(r#"For the domain ""#);
        s.append(domain_name);
        s.append(r#"", identify concrete milestones/achievements across all mastery levels.
"#);
        let sec = opt_section(r#"
Domain description: "#, description);
        s.append(sec.as_str());
        s.append(r#"

"#);
        s.append(context);
        s.append(r#"

Milestones should be:
- Binary (achieved or not achieved)
- Concrete and measurable
- Distributed across all 5 levels (novice to master)
- Types: performance, achievement, participation, creation, recognition

CRITICAL RULES:
1. ATOMIC: Each milestone must be a SINGLE achievement. Never combine with "and".
   BAD: "Win Tournament and Reach 2000 ELO" → GOOD: "Win Tournament", "Reach 2000 ELO"
   BAD: "Complete Project and Deploy" → GOOD: "Complete Project", "Deploy to Production"

2. DOMAIN-SPECIFIC: Milestones are achievements within this domain.
   Use clear, measurable descriptions specific to ""#);
        s.append(domain_name);
        s.append(r#"".

Output ONLY a JSON array of milestone names (12-20 items), no explanation:
["Milestone 1", "Milestone 2", "Milestone 3", ...]"#);
        s
    }

    /// The milestone verification request for one ambiguous candidate.
    pub open spec fn sp_verify_similar_milestone(concept: Seq<char>, domain_name: Seq<char>, similar_nodes: Seq<SimilarNodeResult>) -> Seq<char> {
        r#"I'm creating milestone nodes for the domain ""#@ + domain_name + r#"".

For the milestone ""#@ + concept + r#"", I found these similar existing nodes:
"#@ + sp_similar_list(similar_nodes, true) + r#"

Should I:
1. "use_existing" - Use one of the existing nodes
2. "create_new" - Create a brand new node
3. "create_and_generalize" - Create a new domain-specific milestone that GENERALIZES_TO the existing one

Output ONLY a JSON object:
{
    "decision": "use_existing" | "create_new" | "create_and_generalize",
    "existing_node_name": "Name of existing node (null if create_new)",
    "reason": "Brief explanation"
}"#@
    }

    /// The milestone verification request for one ambiguous candidate.
    pub fn verify_similar_milestone(concept: &str, domain_name: &str, similar_nodes: &Vec<SimilarNodeResult>) -> (r: String)
        ensures
            r@ == Self::sp_verify_similar_milestone(concept@, domain_name@, similar_nodes@),
    {
        let mut s = String::from_str(r#"I'm creating milestone nodes for the domain ""#);
        s.append(domain_name);
        s.append(r#"".

For the milestone ""#);
        s.append(concept);
        s.append(r#"", I found these similar existing nodes:
"#);
        let lst = similar_list_text(similar_nodes);
        s.append(lst.as_str());
        s.append(r#"

Should I:
1. "use_existing" - Use one of the existing nodes
2. "create_new" - Create a brand new node
3. "create_and_generalize" - Create a new domain-specific milestone that GENERALIZES_TO the existing one

Output ONLY a JSON object:
{
    "decision": "use_existing" | "create_new" | "create_and_generalize",
    "existing_node_name": "Name of existing node (null if create_new)",
    "reason": "Brief explanation"
}"#);
        s
    }

    /// The property request for one milestone.
    pub open spec fn sp_milestone_properties(domain_name: Seq<char>, concept: Seq<char>, generalizes_to: Option<Seq<char>>) -> Seq<char> {
        r#"Generate full properties for the milestone ""#@ + concept + r#"" in the domain ""#@ + domain_name + r#""."#@ + sp_generalization_note(generalizes_to) + r#"

Output ONLY a JSON object with these fields:
{
    "name": ""#@ + concept + r#"",
    "description": "Clear description of this achievement",
    "how_to_achieve": "Practical guidance on how to achieve this milestone"
}"#@
    }

    /// The property request for one milestone.
    pub fn milestone_properties(domain_name: &str, concept: &str, generalizes_to: Option<&str>) -> (r: String)
        ensures
            r@ == Self::sp_milestone_properties(domain_name@, concept@, match generalizes_to { Some(g) => Some(g@), None => None }),
    {
        let mut s = String::from_str(r#"Generate full properties for the milestone ""#);
        s.append(concept);
        s.append(r#"" in the domain ""#);
        s.append(domain_name);
        s.append(r#""."#);
        let note = generalization_note(generalizes_to);
        s.append(note.as_str());
        s.append(r#"

Output ONLY a JSON object with these fields:
{
    "name": ""#);
        s.append(concept);
        s.append(r#"",
    "description": "Clear description of this achievement",
    "how_to_achieve": "Practical guidance on how to achieve this milestone"
}"#);
        s
    }

    /// The prerequisite-analysis request over the full registry snapshot.
    pub open spec fn sp_prerequisite_analysis(domain_name: Seq<char>, context: Seq<char>) -> Seq<char> {
        r#"Analyze the prerequisite relationships for the domain ""#@ + domain_name + r#"".

"#@ + context + r#"

For each Knowledge, Skill, and Milestone, identify what prerequisites it requires:
- Knowledge can require other Knowledge
- Skills can require Knowledge, other Skills, or Traits
- Milestones can require Knowledge, Skills, Traits, or other Milestones

Output a JSON object mapping component names to their prerequisites:
{
    "prerequisites": [
        {
            "component": "Component Name",
            "component_type": "Knowledge" | "Skill" | "Milestone",
            "requires": [
                {"name": "Prerequisite Name", "type": "Knowledge" | "Skill" | "Trait" | "Milestone"}
            ]
        }
    ]
}"#@
    }

    /// The prerequisite-analysis request over the full registry snapshot.
    pub fn prerequisite_analysis(domain_name: &str, context: &str) -> (r: String)
        ensures
            r@ == Self::sp_prerequisite_analysis(domain_name@, context@),
    {
        let mut s = String::from_str(r#"Analyze the prerequisite relationships for the domain ""#);
        s.append(domain_name);
        s.append(r#"".

"#);
        s.append(context);
        s.append(r#"

For each Knowledge, Skill, and Milestone, identify what prerequisites it requires:
- Knowledge can require other Knowledge
- Skills can require Knowledge, other Skills, or Traits
- Milestones can require Knowledge, Skills, Traits, or other Milestones

Output a JSON object mapping component names to their prerequisites:
{
    "prerequisites": [
        {
            "component": "Component Name",
            "component_type": "Knowledge" | "Skill" | "Milestone",
            "requires": [
                {"name": "Prerequisite Name", "type": "Knowledge" | "Skill" | "Trait" | "Milestone"}
            ]
        }
    ]
}"#);
        s
    }

    /// The level-assignment request over the full registry snapshot.
    pub open spec fn sp_level_assignment(domain_name: Seq<char>, context: Seq<char>) -> Seq<char> {
        r#"Assign components to domain levels for ""#@ + domain_name + r#"".

"#@ + context + r#"

For each component, determine:
1. Which level (1-5) it should be required at
2. The proficiency level required:
   - For Knowledge: bloom_level = "Remember" | "Understand" | "Apply" | "Analyze" | "Evaluate" | "Create"
   - For Skills: dreyfus_level = "Novice" | "Advanced Beginner" | "Competent" | "Proficient" | "Expert"
   - For Traits: min_score = integer 0-100 (e.g., 40, 60, 75)
   - For Milestones: no proficiency needed, just level assignment

Level distribution guidelines:
- Level 1 (Novice): Basic knowledge at Remember, skills at Novice, no trait requirements
- Level 2 (Developing): Knowledge at Understand, skills at Advanced Beginner, traits ~40
- Level 3 (Competent): Knowledge at Apply, skills at Competent, traits ~50-60
- Level 4 (Advanced): Knowledge at Analyze, skills at Proficient, traits ~70-75
- Level 5 (Master): Knowledge at Evaluate/Create, skills at Expert, traits ~85+

Output a JSON object:
{
    "level_assignments": [
        {
            "component": "Component Name",
            "component_type": "Knowledge" | "Skill" | "Trait" | "Milestone",
            "level": 1-5,
            "proficiency": "bloom/dreyfus level string or min_score integer"
        }
    ]
}"#@
    }

    /// The level-assignment request over the full registry snapshot.
    pub fn level_assignment(domain_name: &str, context: &str) -> (r: String)
        ensures
            r@ == Self::sp_level_assignment(domain_name@, context@),
    {
        let mut s = String::from_str(r#"Assign components to domain levels for ""#);
        s.append(domain_name);
        s.append(r#"".

"#);
        s.append(context);
        s.append(r#"

For each component, determine:
1. Which level (1-5) it should be required at
2. The proficiency level required:
   - For Knowledge: bloom_level = "Remember" | "Understand" | "Apply" | "Analyze" | "Evaluate" | "Create"
   - For Skills: dreyfus_level = "Novice" | "Advanced Beginner" | "Competent" | "Proficient" | "Expert"
   - For Traits: min_score = integer 0-100 (e.g., 40, 60, 75)
   - For Milestones: no proficiency needed, just level assignment

Level distribution guidelines:
- Level 1 (Novice): Basic knowledge at Remember, skills at Novice, no trait requirements
- Level 2 (Developing): Knowledge at Understand, skills at Advanced Beginner, traits ~40
- Level 3 (Competent): Knowledge at Apply, skills at Competent, traits ~50-60
- Level 4 (Advanced): Knowledge at Analyze, skills at Proficient, traits ~70-75
- Level 5 (Master): Knowledge at Evaluate/Create, skills at Expert, traits ~85+

Output a JSON object:
{
    "level_assignments": [
        {
            "component": "Component Name",
            "component_type": "Knowledge" | "Skill" | "Trait" | "Milestone",
            "level": 1-5,
            "proficiency": "bloom/dreyfus level string or min_score integer"
        }
    ]
}"#);
        s
    }
}

/// The fixed system instructions, one per expert persona.
pub struct SystemPrompts;

impl SystemPrompts {
    /// The persona of the domain-structure step.
    pub fn domain_architect() -> (r: &'static str)
        ensures
            r@ == "You are an expert domain architect. Your role is to design comprehensive domain structures for learning and skill development. You output only valid JSON."@,
    {
        "You are an expert domain architect. Your role is to design comprehensive domain structures for learning and skill development. You output only valid JSON."
    }

    /// The persona of the knowledge step.
    pub fn knowledge_expert() -> (r: &'static str)
        ensures
            r@ == "You are an expert in knowledge organization and Bloom's Taxonomy. Your role is to identify and structure knowledge components. You output only valid JSON."@,
    {
        "You are an expert in knowledge organization and Bloom's Taxonomy. Your role is to identify and structure knowledge components. You output only valid JSON."
    }

    /// The persona of the skill step.
    pub fn skill_expert() -> (r: &'static str)
        ensures
            r@ == "You are an expert in skill development and the Dreyfus model of skill acquisition. Your role is to identify and structure skill components. You output only valid JSON."@,
    {
        "You are an expert in skill development and the Dreyfus model of skill acquisition. Your role is to identify and structure skill components. You output only valid JSON."
    }

    /// The persona of the trait step.
    pub fn trait_analyst() -> (r: &'static str)
        ensures
            r@ == "You are an expert in human traits and aptitudes. Your role is to identify inherent traits relevant to domain success. You output only valid JSON."@,
    {
        "You are an expert in human traits and aptitudes. Your role is to identify inherent traits relevant to domain success. You output only valid JSON."
    }

    /// The persona of the milestone step.
    pub fn milestone_designer() -> (r: &'static str)
        ensures
            r@ == "You are an expert in achievement and milestone design. Your role is to create meaningful, measurable achievements. You output only valid JSON."@,
    {
        "You are an expert in achievement and milestone design. Your role is to create meaningful, measurable achievements. You output only valid JSON."
    }

    /// The persona of the two relationship steps.
    pub fn relationship_architect() -> (r: &'static str)
        ensures
            r@ == "You are an expert in curriculum design and prerequisite mapping. Your role is to create logical learning pathways. You output only valid JSON."@,
    {
        "You are an expert in curriculum design and prerequisite mapping. Your role is to create logical learning pathways. You output only valid JSON."
    }
}

} // verus!

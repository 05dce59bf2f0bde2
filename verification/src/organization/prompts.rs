//! The system prompts of the roles, with what every role is told about
//! learning as an organization.

use vstd::prelude::*;
use crate::text::{chars_of, contains_seq, join_seqs, join_strings, occurs_at, push_char, push_str, views};
use super::roles::{category_spec, role_name_spec, written_prompt, OrganizationRole, RoleCategory};

verus! {

/// What every role is told about learning as an organization.
pub const LEARNING_CONTEXT: &'static str = "\nORGANIZATIONAL LEARNING:\nYou are part of a learning organization. Before performing tasks:\n1. Query organizational memory for relevant past experiences, best practices, and lessons learned\n2. Apply learned patterns and successful approaches from similar past work\n3. After completing tasks, document key learnings, decisions, and outcomes for future reference\n4. Share insights with collaborators to build collective organizational knowledge\n\nUse the available memory and knowledge management tools to:\n- Retrieve relevant organizational knowledge before starting work\n- Store successful approaches and best practices after completion\n- Reference past failures to avoid repeating mistakes\n- Contribute to the organization's evolving knowledge base\n";

/// The prompt of a role for which none is written.
pub open spec fn default_prompt(name: Seq<char>) -> Seq<char> {
    "You are a "@ + name + " in a robotics organization. Apply your specialized expertise to advance organizational goals. Collaborate effectively with team members. Maintain high standards of quality and excellence. Contribute your unique perspective to solve complex problems."@
}

/// The prompt that describes a role.
pub open spec fn specific_prompt_spec(r: OrganizationRole) -> Seq<char> {
    match written_prompt(r) {
        Some(t) => t,
        None => default_prompt(role_name_spec(r)),
    }
}

/// The capabilities of a role.
pub open spec fn capabilities_spec(r: OrganizationRole) -> Seq<Seq<char>> {
    match r {
        OrganizationRole::ResearchEngineerScaling => seq!["distributed_systems"@, "ml_infrastructure"@, "scaling_optimization"@],
        OrganizationRole::SoftwareEngineerSimulation => seq!["python"@, "robotics_simulation"@, "physics_engines"@],
        OrganizationRole::ManufacturingEngineer => seq!["process_optimization"@, "automation"@, "quality_control"@],
        _ => seq!["general_engineering"@],
    }
}

/// The roles a role usually works with.
pub open spec fn collaborators_spec(r: OrganizationRole) -> Seq<OrganizationRole> {
    match r {
        OrganizationRole::ResearchEngineerScaling => seq![
            OrganizationRole::ResearchEngineerAutonomy,
            OrganizationRole::SoftwareEngineerPlatforms,
            OrganizationRole::DataAnalyst,
        ],
        OrganizationRole::ManufacturingEngineer => seq![
            OrganizationRole::AutomationEngineerManufacturing,
            OrganizationRole::QualityEngineerManufacturing,
            OrganizationRole::ProductionLead,
        ],
        OrganizationRole::SoftwareEngineerSimulation => seq![
            OrganizationRole::ResearchEngineerAutonomy,
            OrganizationRole::RoboticsEngineerControlsTesting,
            OrganizationRole::MechanicalEngineerAllLevels,
        ],
        _ => Seq::empty(),
    }
}

/// `s` with each underscore turned into a space.
pub open spec fn spaced(s: Seq<char>) -> Seq<char> {
    Seq::new(s.len(), |i: int| if s[i] == '_' { ' ' } else { s[i] })
}

/// Each item behind a dash.
pub open spec fn bullets(items: Seq<Seq<char>>) -> Seq<Seq<char>> {
    items.map_values(|x: Seq<char>| "- "@ + x)
}

/// The description of a role's capabilities: none for general engineering,
/// else a list of them with spaces for underscores.
pub open spec fn capability_description_spec(r: OrganizationRole) -> Seq<char> {
    let caps = capabilities_spec(r);
    if caps == seq!["general_engineering"@] {
        Seq::empty()
    } else {
        "CORE CAPABILITIES:\n"@ + join_seqs(bullets(caps.map_values(|c: Seq<char>| spaced(c))), "\n"@)
    }
}

/// How the roles of a category learn.
pub open spec fn behaviors_spec(c: RoleCategory) -> Seq<Seq<char>> {
    match c {
        RoleCategory::ExecutiveLeadership => seq![
            "Document strategic decisions and their rationale"@,
            "Record outcomes of strategic initiatives"@,
            "Share leadership insights and lessons"@,
            "Build organizational pattern library"@,
        ],
        RoleCategory::ResearchAI => seq![
            "Document experimental results and findings"@,
            "Share successful architectures and approaches"@,
            "Record failure modes and their solutions"@,
            "Build repository of research methodologies"@,
        ],
        RoleCategory::SoftwareEngineering => seq![
            "Document code patterns and best practices"@,
            "Share successful architectures and solutions"@,
            "Record technical debt and resolutions"@,
            "Build library of reusable components"@,
        ],
        RoleCategory::Manufacturing => seq![
            "Document process improvements and efficiency gains"@,
            "Share quality issue resolutions"@,
            "Record successful troubleshooting approaches"@,
            "Build process optimization knowledge base"@,
        ],
        RoleCategory::CustomerSuccessSales => seq![
            "Document customer pain points and solutions"@,
            "Share successful sales approaches and objection handling"@,
            "Record customer success patterns"@,
            "Build customer insights repository"@,
        ],
        RoleCategory::DesignUX => seq![
            "Document user research findings and insights"@,
            "Share successful design patterns"@,
            "Record usability test outcomes"@,
            "Build design system knowledge base"@,
        ],
        _ => seq![
            "Document successful approaches and outcomes"@,
            "Share learnings with collaborators"@,
            "Record challenges and their solutions"@,
            "Build domain knowledge repository"@,
        ],
    }
}

/// The learning behaviors of a role's category, as a list.
pub open spec fn learning_behaviors_spec(r: OrganizationRole) -> Seq<char> {
    "LEARNING BEHAVIORS:\n"@ + join_seqs(bullets(behaviors_spec(category_spec(r))), "\n"@)
}

/// The system prompt of a role: what it does, its capabilities, the
/// learning context and its learning behaviors, apart by blank lines.
pub open spec fn system_prompt_spec(r: OrganizationRole) -> Seq<char> {
    specific_prompt_spec(r) + "\n\n"@ + capability_description_spec(r) + "\n\n"@ + LEARNING_CONTEXT@ + "\n\n"@
        + learning_behaviors_spec(r)
}

/// `s` with each underscore turned into a space.
pub fn underscores_to_spaces(s: &str) -> (r: String)
    ensures
        r@ == spaced(s@),
{
    let chars = chars_of(s);
    let mut r = String::new();
    let mut i: usize = 0;
    while i < chars.len()
        invariant
            chars@ == s@,
            i <= chars@.len(),
            r@ == spaced(s@).take(i as int),
        decreases chars@.len() - i,
    {
        let c = chars[i];
        push_char(&mut r, if c == '_' { ' ' } else { c });
        proof {
            assert(r@ =~= spaced(s@).take(i + 1));
        }
        i = i + 1;
    }
    assert(spaced(s@).take(chars@.len() as int) =~= spaced(s@));
    r
}

/// `heading` followed by the items, each behind a dash, one per line.
pub fn bulleted(heading: &str, items: &Vec<String>) -> (r: String)
    ensures
        r@ == heading@ + join_seqs(bullets(views(items@)), "\n"@),
{
    let mut lines: Vec<String> = Vec::new();
    let mut i: usize = 0;
    while i < items.len()
        invariant
            i <= items@.len(),
            views(lines@) == bullets(views(items@)).take(i as int),
        decreases items@.len() - i,
    {
        let mut line = String::from_str("- ");
        push_str(&mut line, items[i].as_str());
        let ghost before = lines@;
        lines.push(line);
        proof {
            assert(views(lines@) =~= views(before).push(line@));
            assert(views(items@)[i as int] == items@[i as int]@);
            assert(bullets(views(items@))[i as int] == "- "@ + items@[i as int]@);
            assert(views(lines@) =~= bullets(views(items@)).take(i + 1));
        }
        i = i + 1;
    }
    assert(bullets(views(items@)).take(items@.len() as int) =~= bullets(views(items@)));
    let mut r = String::from_str(heading);
    push_str(&mut r, join_strings(lines.as_slice(), "\n").as_str());
    r
}

impl OrganizationRole {
    /// The prompt that describes this role.
    pub fn role_specific_prompt(&self) -> (r: String)
        ensures
            r@ == specific_prompt_spec(*self),
    {
        match self.written_prompt() {
            Some(t) => String::from_str(t),
            None => {
                let mut r = String::from_str("You are a ");
                push_str(&mut r, self.role_name());
                push_str(&mut r, " in a robotics organization. Apply your specialized expertise to advance organizational goals. Collaborate effectively with team members. Maintain high standards of quality and excellence. Contribute your unique perspective to solve complex problems.");
                r
            },
        }
    }

    /// The capabilities of this role.
    pub fn capabilities(&self) -> (r: Vec<String>)
        ensures
            views(r@) == capabilities_spec(*self),
    {
        let mut r: Vec<String> = Vec::new();
        match self {
            OrganizationRole::ResearchEngineerScaling => {
                r.push(String::from_str("distributed_systems"));
                r.push(String::from_str("ml_infrastructure"));
                r.push(String::from_str("scaling_optimization"));
            },
            OrganizationRole::SoftwareEngineerSimulation => {
                r.push(String::from_str("python"));
                r.push(String::from_str("robotics_simulation"));
                r.push(String::from_str("physics_engines"));
            },
            OrganizationRole::ManufacturingEngineer => {
                r.push(String::from_str("process_optimization"));
                r.push(String::from_str("automation"));
                r.push(String::from_str("quality_control"));
            },
            _ => {
                r.push(String::from_str("general_engineering"));
            },
        }
        assert(views(r@) =~= capabilities_spec(*self));
        r
    }

    /// The roles this role usually works with.
    pub fn typical_collaborators(&self) -> (r: Vec<OrganizationRole>)
        ensures
            r@ == collaborators_spec(*self),
    {
        let mut r: Vec<OrganizationRole> = Vec::new();
        match self {
            OrganizationRole::ResearchEngineerScaling => {
                r.push(OrganizationRole::ResearchEngineerAutonomy);
                r.push(OrganizationRole::SoftwareEngineerPlatforms);
                r.push(OrganizationRole::DataAnalyst);
            },
            OrganizationRole::ManufacturingEngineer => {
                r.push(OrganizationRole::AutomationEngineerManufacturing);
                r.push(OrganizationRole::QualityEngineerManufacturing);
                r.push(OrganizationRole::ProductionLead);
            },
            OrganizationRole::SoftwareEngineerSimulation => {
                r.push(OrganizationRole::ResearchEngineerAutonomy);
                r.push(OrganizationRole::RoboticsEngineerControlsTesting);
                r.push(OrganizationRole::MechanicalEngineerAllLevels);
            },
            _ => {},
        }
        assert(r@ =~= collaborators_spec(*self));
        r
    }

    /// The description of this role's capabilities.
    pub fn capability_description(&self) -> (r: String)
        ensures
            r@ == capability_description_spec(*self),
    {
        let caps = self.capabilities();
        proof {
            reveal_strlit("general_engineering");
        }
        if caps.len() == 1 && crate::text::str_eq(caps[0].as_str(), "general_engineering") {
            proof {
                assert(views(caps@) =~= seq!["general_engineering"@]);
            }
            return String::new();
        }
        let mut items: Vec<String> = Vec::new();
        let mut i: usize = 0;
        while i < caps.len()
            invariant
                i <= caps@.len(),
                views(items@) == views(caps@).map_values(|c: Seq<char>| spaced(c)).take(i as int),
            decreases caps@.len() - i,
        {
            let ghost before = items@;
            items.push(underscores_to_spaces(caps[i].as_str()));
            proof {
                assert(views(items@) =~= views(before).push(spaced(caps@[i as int]@)));
                assert(views(caps@)[i as int] == caps@[i as int]@);
                assert(views(items@) =~= views(caps@).map_values(|c: Seq<char>| spaced(c)).take(i + 1));
            }
            i = i + 1;
        }
        proof {
            assert(views(caps@).map_values(|c: Seq<char>| spaced(c)).take(caps@.len() as int)
                =~= views(caps@).map_values(|c: Seq<char>| spaced(c)));
            if views(caps@) == seq!["general_engineering"@] {
                assert(caps@[0]@ == "general_engineering"@);
            }
        }
        bulleted("CORE CAPABILITIES:\n", &items)
    }

    /// The learning behaviors of this role's category.
    pub fn learning_behaviors(&self) -> (r: String)
        ensures
            r@ == learning_behaviors_spec(*self),
    {
        let mut b: Vec<String> = Vec::new();
        match self.category() {
            RoleCategory::ExecutiveLeadership => {
                b.push(String::from_str("Document strategic decisions and their rationale"));
                b.push(String::from_str("Record outcomes of strategic initiatives"));
                b.push(String::from_str("Share leadership insights and lessons"));
                b.push(String::from_str("Build organizational pattern library"));
            },
            RoleCategory::ResearchAI => {
                b.push(String::from_str("Document experimental results and findings"));
                b.push(String::from_str("Share successful architectures and approaches"));
                b.push(String::from_str("Record failure modes and their solutions"));
                b.push(String::from_str("Build repository of research methodologies"));
            },
            RoleCategory::SoftwareEngineering => {
                b.push(String::from_str("Document code patterns and best practices"));
                b.push(String::from_str("Share successful architectures and solutions"));
                b.push(String::from_str("Record technical debt and resolutions"));
                b.push(String::from_str("Build library of reusable components"));
            },
            RoleCategory::Manufacturing => {
                b.push(String::from_str("Document process improvements and efficiency gains"));
                b.push(String::from_str("Share quality issue resolutions"));
                b.push(String::from_str("Record successful troubleshooting approaches"));
                b.push(String::from_str("Build process optimization knowledge base"));
            },
            RoleCategory::CustomerSuccessSales => {
                b.push(String::from_str("Document customer pain points and solutions"));
                b.push(String::from_str("Share successful sales approaches and objection handling"));
                b.push(String::from_str("Record customer success patterns"));
                b.push(String::from_str("Build customer insights repository"));
            },
            RoleCategory::DesignUX => {
                b.push(String::from_str("Document user research findings and insights"));
                b.push(String::from_str("Share successful design patterns"));
                b.push(String::from_str("Record usability test outcomes"));
                b.push(String::from_str("Build design system knowledge base"));
            },
            _ => {
                b.push(String::from_str("Document successful approaches and outcomes"));
                b.push(String::from_str("Share learnings with collaborators"));
                b.push(String::from_str("Record challenges and their solutions"));
                b.push(String::from_str("Build domain knowledge repository"));
            },
        }
        assert(views(b@) =~= behaviors_spec(category_spec(*self)));
        bulleted("LEARNING BEHAVIORS:\n", &b)
    }

    /// The system prompt of this role. Every role's prompt holds the
    /// learning context.
    pub fn system_prompt(&self) -> (r: String)
        ensures
            r@ == system_prompt_spec(*self),
            contains_seq(r@, LEARNING_CONTEXT@),
    {
        let mut r = self.role_specific_prompt();
        push_str(&mut r, "\n\n");
        push_str(&mut r, self.capability_description().as_str());
        push_str(&mut r, "\n\n");
        let ghost head = r@;
        push_str(&mut r, LEARNING_CONTEXT);
        push_str(&mut r, "\n\n");
        push_str(&mut r, self.learning_behaviors().as_str());
        proof {
            assert(r@ =~= system_prompt_spec(*self));
            assert(r@.subrange(head.len() as int, (head.len() + LEARNING_CONTEXT@.len()) as int) =~= LEARNING_CONTEXT@);
            assert(occurs_at(r@, LEARNING_CONTEXT@, head.len() as int));
        }
        r
    }
}

/// The learning context tells each role of the organization's learning.
pub proof fn lemma_learning_context_heading()
    ensures
        contains_seq(LEARNING_CONTEXT@, "ORGANIZATIONAL LEARNING"@),
        contains_seq(LEARNING_CONTEXT@, "organizational memory"@),
{
    reveal_strlit("\nORGANIZATIONAL LEARNING:\nYou are part of a learning organization. Before performing tasks:\n1. Query organizational memory for relevant past experiences, best practices, and lessons learned\n2. Apply learned patterns and successful approaches from similar past work\n3. After completing tasks, document key learnings, decisions, and outcomes for future reference\n4. Share insights with collaborators to build collective organizational knowledge\n\nUse the available memory and knowledge management tools to:\n- Retrieve relevant organizational knowledge before starting work\n- Store successful approaches and best practices after completion\n- Reference past failures to avoid repeating mistakes\n- Contribute to the organization's evolving knowledge base\n");
    reveal_strlit("ORGANIZATIONAL LEARNING");
    reveal_strlit("organizational memory");
    assert(LEARNING_CONTEXT@.subrange(1, 24) =~= "ORGANIZATIONAL LEARNING"@);
    assert(occurs_at(LEARNING_CONTEXT@, "ORGANIZATIONAL LEARNING"@, 1));
    assert(LEARNING_CONTEXT@.subrange(101, 122) =~= "organizational memory"@);
    assert(occurs_at(LEARNING_CONTEXT@, "organizational memory"@, 101));
}

} // verus!

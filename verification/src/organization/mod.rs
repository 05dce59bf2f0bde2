//! An organization of agents with roles, who work together in workspaces.

pub mod coordinator;
pub mod knowledge_helpers;
pub mod prompts;
pub mod roles;

use vstd::prelude::*;
use crate::ids::{clock_now, is_uuid_v4_text, new_uuid_string};
use crate::strmap::StrMap;
use crate::text::{contains_seq, lowercased, str_contains, str_eq, to_lowercase, views};
pub use roles::{OrganizationRole, RoleCategory};
use prompts::capabilities_spec;

verus! {

/// Whether an agent can take work.
#[derive(Debug, Clone, Copy, PartialEq, Eq, Structural)]
pub enum AgentStatus {
    Available,
    Busy,
    Offline,
}

/// An agent of the organization.
#[derive(Debug, Clone)]
pub struct OrganizationAgent {
    pub id: String,
    pub name: String,
    pub role: OrganizationRole,
    pub workspace_memberships: Vec<String>,
    pub current_tasks: Vec<String>,
    pub status: AgentStatus,
    pub capabilities: Vec<String>,
}

/// Whether `s` holds `x`.
pub open spec fn holds(s: Seq<String>, x: Seq<char>) -> bool {
    views(s).contains(x)
}

fn holds_exec(s: &Vec<String>, x: &str) -> (r: bool)
    ensures
        r == holds(s@, x@),
{
    let mut i: usize = 0;
    while i < s.len()
        invariant
            i <= s@.len(),
            forall|j: int| 0 <= j < i ==> s@[j]@ != x@,
        decreases s@.len() - i,
    {
        if str_eq(s[i].as_str(), x) {
            proof {
                assert(views(s@)[i as int] == x@);
            }
            return true;
        }
        i = i + 1;
    }
    proof {
        if views(s@).contains(x@) {
            let j = choose|j: int| 0 <= j < views(s@).len() && views(s@)[j] == x@;
            assert(s@[j]@ == x@);
        }
    }
    false
}

/// The tasks of `tasks` other than `id`, in order.
pub open spec fn without(tasks: Seq<Seq<char>>, id: Seq<char>) -> Seq<Seq<char>>
    decreases tasks.len(),
{
    if tasks.len() == 0 {
        tasks
    } else if tasks.last() == id {
        without(tasks.drop_last(), id)
    } else {
        without(tasks.drop_last(), id).push(tasks.last())
    }
}

impl OrganizationAgent {
    /// An available agent with a fresh identifier and its role's
    /// capabilities.
    pub fn new(name: String, role: OrganizationRole) -> (a: Self)
        ensures
            a.name == name,
            a.role == role,
            is_uuid_v4_text(a.id@),
            a.workspace_memberships@.len() == 0,
            a.current_tasks@.len() == 0,
            a.status == AgentStatus::Available,
            views(a.capabilities@) == capabilities_spec(role),
    {
        OrganizationAgent {
            id: new_uuid_string(),
            name,
            capabilities: role.capabilities(),
            role,
            workspace_memberships: Vec::new(),
            current_tasks: Vec::new(),
            status: AgentStatus::Available,
        }
    }

    /// Joins a workspace, once.
    pub fn join_workspace(&mut self, workspace_id: String)
        ensures
            holds(old(self).workspace_memberships@, workspace_id@) ==> final(self).workspace_memberships@ == old(self).workspace_memberships@,
            !holds(old(self).workspace_memberships@, workspace_id@) ==> final(self).workspace_memberships@ == old(self).workspace_memberships@.push(workspace_id),
            views(old(self).workspace_memberships@).no_duplicates() ==> views(final(self).workspace_memberships@).no_duplicates(),
            final(self).current_tasks@ == old(self).current_tasks@,
            final(self).status == old(self).status,
            final(self).id == old(self).id,
            final(self).name == old(self).name,
            final(self).role == old(self).role,
            final(self).capabilities == old(self).capabilities,
    {
        if !holds_exec(&self.workspace_memberships, workspace_id.as_str()) {
            let ghost before = self.workspace_memberships@;
            self.workspace_memberships.push(workspace_id);
            proof {
                assert(views(self.workspace_memberships@) =~= views(before).push(workspace_id@));
            }
        }
    }

    /// Takes on a task; the agent is then busy.
    pub fn assign_task(&mut self, task_id: String)
        ensures
            final(self).current_tasks@ == old(self).current_tasks@.push(task_id),
            final(self).status == AgentStatus::Busy,
            final(self).workspace_memberships@ == old(self).workspace_memberships@,
            final(self).id == old(self).id,
            final(self).name == old(self).name,
            final(self).role == old(self).role,
            final(self).capabilities == old(self).capabilities,
    {
        self.current_tasks.push(task_id);
        self.status = AgentStatus::Busy;
    }

    /// Drops every occurrence of a task; with no task left the agent is
    /// available again.
    pub fn complete_task(&mut self, task_id: &str)
        ensures
            views(final(self).current_tasks@) == without(views(old(self).current_tasks@), task_id@),
            final(self).current_tasks@.len() == 0 ==> final(self).status == AgentStatus::Available,
            final(self).current_tasks@.len() > 0 ==> final(self).status == old(self).status,
            final(self).workspace_memberships@ == old(self).workspace_memberships@,
            final(self).id == old(self).id,
            final(self).name == old(self).name,
            final(self).role == old(self).role,
            final(self).capabilities == old(self).capabilities,
    {
        let mut kept: Vec<String> = Vec::new();
        let mut i: usize = 0;
        while i < self.current_tasks.len()
            invariant
                i <= self.current_tasks@.len(),
                views(kept@) == without(views(self.current_tasks@).take(i as int), task_id@),
            decreases self.current_tasks@.len() - i,
        {
            proof {
                assert(views(self.current_tasks@).take(i + 1).drop_last() =~= views(self.current_tasks@).take(i as int));
            }
            if !str_eq(self.current_tasks[i].as_str(), task_id) {
                let ghost before = kept@;
                kept.push(self.current_tasks[i].clone());
                proof {
                    assert(views(kept@) =~= views(before).push(self.current_tasks@[i as int]@));
                }
            }
            i = i + 1;
        }
        proof {
            assert(views(self.current_tasks@).take(self.current_tasks@.len() as int) =~= views(self.current_tasks@));
        }
        self.current_tasks = kept;
        if self.current_tasks.len() == 0 {
            self.status = AgentStatus::Available;
        }
    }
}

/// The state of a workspace task.
#[derive(Debug, Clone, Copy, PartialEq, Eq, Structural)]
pub enum TaskStatus {
    Pending,
    InProgress,
    Blocked,
    UnderReview,
    Completed,
}

/// How urgent a task is, from low to critical.
#[derive(Debug, Clone, Copy, PartialEq, Eq, PartialOrd, Ord, Structural)]
pub enum TaskPriority {
    Low,
    Medium,
    High,
    Critical,
}

/// A task within a workspace. Instants are RFC 3339 texts.
#[derive(Debug, Clone)]
pub struct WorkspaceTask {
    pub id: String,
    pub title: String,
    pub description: String,
    pub assigned_to: Vec<String>,
    pub dependencies: Vec<String>,
    pub status: TaskStatus,
    pub priority: TaskPriority,
    pub created_at: String,
    pub completed_at: Option<String>,
}

impl WorkspaceTask {
    /// A pending task of medium priority, created now.
    pub fn new(title: String, description: String, assigned_to: Vec<String>) -> (t: Self)
        ensures
            t.title == title,
            t.description == description,
            t.assigned_to == assigned_to,
            is_uuid_v4_text(t.id@),
            t.dependencies@.len() == 0,
            t.status == TaskStatus::Pending,
            t.priority == TaskPriority::Medium,
            t.completed_at is None,
    {
        WorkspaceTask {
            id: new_uuid_string(),
            title,
            description,
            assigned_to,
            dependencies: Vec::new(),
            status: TaskStatus::Pending,
            priority: TaskPriority::Medium,
            created_at: clock_now().rfc3339,
            completed_at: None,
        }
    }

    /// The same task with another priority.
    pub fn with_priority(self, priority: TaskPriority) -> (t: Self)
        ensures
            t == (WorkspaceTask { priority, ..self }),
    {
        WorkspaceTask { priority, ..self }
    }

    /// The same task with other dependencies.
    pub fn with_dependencies(self, dependencies: Vec<String>) -> (t: Self)
        ensures
            t == (WorkspaceTask { dependencies, ..self }),
    {
        WorkspaceTask { dependencies, ..self }
    }

    /// Starts the task.
    pub fn start(&mut self)
        ensures
            *final(self) == (WorkspaceTask { status: TaskStatus::InProgress, ..*old(self) }),
    {
        self.status = TaskStatus::InProgress;
    }

    /// Completes the task now.
    pub fn complete(&mut self)
        ensures
            final(self).status == TaskStatus::Completed,
            final(self).completed_at is Some,
            final(self).id == old(self).id,
            final(self).title == old(self).title,
            final(self).priority == old(self).priority,
    {
        self.status = TaskStatus::Completed;
        self.completed_at = Some(clock_now().rfc3339);
    }
}

/// A workspace where agents work together.
#[derive(Debug, Clone)]
pub struct CollaborativeWorkspace {
    pub id: String,
    pub name: String,
    pub description: String,
    pub member_agents: Vec<String>,
    pub tasks: Vec<WorkspaceTask>,
    pub artifacts: Vec<String>,
    pub shared_context: StrMap<String>,
}

impl CollaborativeWorkspace {
    /// An empty workspace with a fresh identifier.
    pub fn new(name: String, description: String) -> (w: Self)
        ensures
            w.name == name,
            w.description == description,
            is_uuid_v4_text(w.id@),
            w.member_agents@.len() == 0,
            w.tasks@.len() == 0,
            w.artifacts@.len() == 0,
            w.shared_context@ == Map::<Seq<char>, String>::empty(),
    {
        CollaborativeWorkspace {
            id: new_uuid_string(),
            name,
            description,
            member_agents: Vec::new(),
            tasks: Vec::new(),
            artifacts: Vec::new(),
            shared_context: StrMap::new(),
        }
    }

    /// Adds a member, once.
    pub fn add_member(&mut self, agent_id: String)
        ensures
            holds(old(self).member_agents@, agent_id@) ==> final(self).member_agents@ == old(self).member_agents@,
            !holds(old(self).member_agents@, agent_id@) ==> final(self).member_agents@ == old(self).member_agents@.push(agent_id),
            views(old(self).member_agents@).no_duplicates() ==> views(final(self).member_agents@).no_duplicates(),
            final(self).tasks@ == old(self).tasks@,
            final(self).id == old(self).id,
            final(self).shared_context@ == old(self).shared_context@,
    {
        if !holds_exec(&self.member_agents, agent_id.as_str()) {
            let ghost before = self.member_agents@;
            self.member_agents.push(agent_id);
            proof {
                assert(views(self.member_agents@) =~= views(before).push(agent_id@));
            }
        }
    }

    /// Adds a task.
    pub fn add_task(&mut self, task: WorkspaceTask)
        ensures
            final(self).tasks@ == old(self).tasks@.push(task),
            final(self).member_agents@ == old(self).member_agents@,
            final(self).id == old(self).id,
            final(self).shared_context@ == old(self).shared_context@,
    {
        self.tasks.push(task);
    }

    /// Sets a value of the shared context.
    pub fn update_context(&mut self, key: String, value: String)
        ensures
            final(self).shared_context@ == old(self).shared_context@.insert(key@, value),
            final(self).member_agents@ == old(self).member_agents@,
            final(self).tasks@ == old(self).tasks@,
            final(self).id == old(self).id,
    {
        self.shared_context.insert(key, value);
    }
}

/// The kind of a task, from the words of its lowercased title.
pub open spec fn task_type_spec(title: Seq<char>) -> Seq<char> {
    let l = lowercased(title);
    if contains_seq(l, "design"@) || contains_seq(l, "architect"@) {
        "design"@
    } else if contains_seq(l, "implement"@) || contains_seq(l, "build"@) || contains_seq(l, "develop"@) {
        "implementation"@
    } else if contains_seq(l, "test"@) || contains_seq(l, "qa"@) {
        "testing"@
    } else if contains_seq(l, "optimize"@) || contains_seq(l, "improve"@) {
        "optimization"@
    } else if contains_seq(l, "debug"@) || contains_seq(l, "fix"@) {
        "debugging"@
    } else if contains_seq(l, "refactor"@) {
        "refactoring"@
    } else if contains_seq(l, "research"@) || contains_seq(l, "investigate"@) {
        "research"@
    } else if contains_seq(l, "document"@) {
        "documentation"@
    } else {
        "general"@
    }
}

/// The kind of a task, from the words of its title.
pub fn extract_task_type(title: &str) -> (r: String)
    ensures
        r@ == task_type_spec(title@),
{
    let lower = to_lowercase(title);
    let l = lower.as_str();
    let t = if str_contains(l, "design") || str_contains(l, "architect") {
        "design"
    } else if str_contains(l, "implement") || str_contains(l, "build") || str_contains(l, "develop") {
        "implementation"
    } else if str_contains(l, "test") || str_contains(l, "qa") {
        "testing"
    } else if str_contains(l, "optimize") || str_contains(l, "improve") {
        "optimization"
    } else if str_contains(l, "debug") || str_contains(l, "fix") {
        "debugging"
    } else if str_contains(l, "refactor") {
        "refactoring"
    } else if str_contains(l, "research") || str_contains(l, "investigate") {
        "research"
    } else if str_contains(l, "document") {
        "documentation"
    } else {
        "general"
    };
    String::from_str(t)
}

/// An organization: its agents and workspaces, by identifier.
#[derive(Debug)]
pub struct Organization {
    pub name: String,
    pub agents: StrMap<OrganizationAgent>,
    pub workspaces: StrMap<CollaborativeWorkspace>,
}

/// Whether an agent is available and, where a role is asked for, has it.
pub open spec fn is_available_for(a: OrganizationAgent, role: Option<OrganizationRole>) -> bool {
    a.status == AgentStatus::Available && (role is None || role == Some(a.role))
}

/// The agents of `agents` that are available for `role`, in order.
pub open spec fn available_among(agents: Seq<OrganizationAgent>, role: Option<OrganizationRole>) -> Seq<OrganizationAgent>
    decreases agents.len(),
{
    if agents.len() == 0 {
        Seq::empty()
    } else {
        let rest = available_among(agents.drop_last(), role);
        if is_available_for(agents.last(), role) { rest.push(agents.last()) } else { rest }
    }
}

/// The agents that the identifiers `ids` name, in order, skipping unknown
/// identifiers.
pub open spec fn agents_named(ids: Seq<Seq<char>>, agents: Map<Seq<char>, OrganizationAgent>) -> Seq<OrganizationAgent>
    decreases ids.len(),
{
    if ids.len() == 0 {
        Seq::empty()
    } else {
        let rest = agents_named(ids.drop_last(), agents);
        if agents.contains_key(ids.last()) { rest.push(agents[ids.last()]) } else { rest }
    }
}

/// The values that a sequence of references points to.
pub open spec fn derefs<T>(s: Seq<&T>) -> Seq<T> {
    s.map_values(|x: &T| *x)
}

impl Organization {
    /// An organization without agents or workspaces.
    pub fn new(name: String) -> (o: Self)
        ensures
            o.name == name,
            o.agents@ == Map::<Seq<char>, OrganizationAgent>::empty(),
            o.workspaces@ == Map::<Seq<char>, CollaborativeWorkspace>::empty(),
    {
        Organization { name, agents: StrMap::new(), workspaces: StrMap::new() }
    }

    /// Adds an agent under its identifier, which is returned.
    pub fn add_agent(&mut self, agent: OrganizationAgent) -> (id: String)
        ensures
            id@ == agent.id@,
            final(self).agents@ == old(self).agents@.insert(agent.id@, agent),
            final(self).workspaces@ == old(self).workspaces@,
            final(self).name == old(self).name,
    {
        let id = agent.id.clone();
        self.agents.insert(agent.id.clone(), agent);
        id
    }

    /// Adds a workspace under its identifier, which is returned.
    pub fn create_workspace(&mut self, workspace: CollaborativeWorkspace) -> (id: String)
        ensures
            id@ == workspace.id@,
            final(self).workspaces@ == old(self).workspaces@.insert(workspace.id@, workspace),
            final(self).agents@ == old(self).agents@,
            final(self).name == old(self).name,
    {
        let id = workspace.id.clone();
        self.workspaces.insert(workspace.id.clone(), workspace);
        id
    }

    /// Makes an agent a member of a workspace: the agent joins it, where
    /// the agent is known, and the workspace takes the agent in, where the
    /// workspace is known.
    pub fn assign_agent_to_workspace(&mut self, agent_id: &str, workspace_id: &str) -> (r: Result<(), crate::error::AgentError>)
        ensures
            r is Ok,
            final(self).agents@.dom() == old(self).agents@.dom(),
            final(self).workspaces@.dom() == old(self).workspaces@.dom(),
            forall|k: Seq<char>| k != agent_id@ && old(self).agents@.contains_key(k) ==> final(self).agents@[k] == old(self).agents@[k],
            forall|k: Seq<char>| k != workspace_id@ && old(self).workspaces@.contains_key(k) ==> final(self).workspaces@[k] == old(self).workspaces@[k],
            old(self).agents@.contains_key(agent_id@) ==> {
                let a = old(self).agents@[agent_id@];
                let b = final(self).agents@[agent_id@];
                &&& b.workspace_memberships@ == (if holds(a.workspace_memberships@, workspace_id@) {
                        a.workspace_memberships@
                    } else {
                        a.workspace_memberships@.push(b.workspace_memberships@.last())
                    })
                &&& !holds(a.workspace_memberships@, workspace_id@) ==> b.workspace_memberships@.last()@ == workspace_id@
                &&& b.id == a.id && b.role == a.role && b.status == a.status && b.current_tasks@ == a.current_tasks@
            },
            old(self).workspaces@.contains_key(workspace_id@) ==> {
                let w = old(self).workspaces@[workspace_id@];
                let v = final(self).workspaces@[workspace_id@];
                &&& v.member_agents@ == (if holds(w.member_agents@, agent_id@) {
                        w.member_agents@
                    } else {
                        w.member_agents@.push(v.member_agents@.last())
                    })
                &&& !holds(w.member_agents@, agent_id@) ==> v.member_agents@.last()@ == agent_id@
                &&& v.id == w.id && v.tasks@ == w.tasks@
            },
            final(self).name == old(self).name,
    {
        match self.agents.remove(agent_id) {
            Some(agent) => {
                let mut agent = agent;
                agent.join_workspace(String::from_str(workspace_id));
                self.agents.insert(String::from_str(agent_id), agent);
            },
            None => {},
        }
        match self.workspaces.remove(workspace_id) {
            Some(ws) => {
                let mut ws = ws;
                ws.add_member(String::from_str(agent_id));
                self.workspaces.insert(String::from_str(workspace_id), ws);
            },
            None => {},
        }
        proof {
            assert(self.agents@.dom() =~= old(self).agents@.dom());
            assert(self.workspaces@.dom() =~= old(self).workspaces@.dom());
        }
        Ok(())
    }

    /// The available agents, of the given role where one is given, in the
    /// order of the organization's agents.
    pub fn get_available_agents(&self, role: Option<OrganizationRole>) -> (r: Vec<&OrganizationAgent>)
        ensures
            derefs(r@) == available_among(self.agents.value_seq(), role),
    {
        let n = self.agents.len();
        let mut r: Vec<&OrganizationAgent> = Vec::new();
        let mut i: usize = 0;
        while i < n
            invariant
                n == self.agents.value_seq().len(),
                i <= n,
                derefs(r@) == available_among(self.agents.value_seq().take(i as int), role),
            decreases n - i,
        {
            proof {
                assert(self.agents.value_seq().take(i + 1).drop_last() =~= self.agents.value_seq().take(i as int));
            }
            let (_, a) = self.agents.entry_at(i);
            let wanted = match role {
                Some(ro) => a.role == ro,
                None => true,
            };
            if a.status == AgentStatus::Available && wanted {
                let ghost before = r@;
                r.push(a);
                proof {
                    assert(derefs(r@) =~= derefs(before).push(*a));
                }
            }
            i = i + 1;
        }
        proof {
            assert(self.agents.value_seq().take(n as int) =~= self.agents.value_seq());
        }
        r
    }

    /// The known agents among the members of a workspace, in member order;
    /// none for an unknown workspace.
    pub fn get_workspace_agents(&self, workspace_id: &str) -> (r: Vec<&OrganizationAgent>)
        ensures
            self.workspaces@.contains_key(workspace_id@) ==> derefs(r@)
                == agents_named(views(self.workspaces@[workspace_id@].member_agents@), self.agents@),
            !self.workspaces@.contains_key(workspace_id@) ==> r@.len() == 0,
    {
        let mut r: Vec<&OrganizationAgent> = Vec::new();
        match self.workspaces.get(workspace_id) {
            Some(ws) => {
                let mut i: usize = 0;
                while i < ws.member_agents.len()
                    invariant
                        i <= ws.member_agents@.len(),
                        derefs(r@) == agents_named(views(ws.member_agents@).take(i as int), self.agents@),
                    decreases ws.member_agents@.len() - i,
                {
                    proof {
                        assert(views(ws.member_agents@).take(i + 1).drop_last() =~= views(ws.member_agents@).take(i as int));
                    }
                    match self.agents.get(ws.member_agents[i].as_str()) {
                        Some(a) => {
                            let ghost before = r@;
                            r.push(a);
                            proof {
                                assert(derefs(r@) =~= derefs(before).push(*a));
                            }
                        },
                        None => {},
                    }
                    i = i + 1;
                }
                proof {
                    assert(views(ws.member_agents@).take(ws.member_agents@.len() as int) =~= views(ws.member_agents@));
                }
            },
            None => {},
        }
        r
    }
}

/// Law: the agents available for a role are exactly the agents whose
/// status is `Available` and whose role is the one asked for (any role where
/// none is asked for), in their order; so a busy agent is never listed, and
/// never gets a task routed to it.
pub proof fn lemma_available_agents_are_idle(agents: Seq<OrganizationAgent>, role: Option<OrganizationRole>)
    ensures
        forall|i: int| 0 <= i < available_among(agents, role).len() ==> {
            let a = #[trigger] available_among(agents, role)[i];
            &&& a.status == AgentStatus::Available
            &&& (role matches Some(ro) ==> a.role == ro)
            &&& agents.contains(a)
        },
        forall|a: OrganizationAgent| agents.contains(a) && a.status == AgentStatus::Available
            && (role matches Some(ro) ==> a.role == ro) ==> #[trigger] available_among(agents, role).contains(a),
        available_among(agents, role).len() <= agents.len(),
    decreases agents.len(),
{
    if agents.len() > 0 {
        let rest = agents.drop_last();
        let last = agents.last();
        lemma_available_agents_are_idle(rest, role);
        let r = available_among(agents, role);
        let rr = available_among(rest, role);
        assert forall|i: int| 0 <= i < r.len() implies {
            let a = #[trigger] r[i];
            &&& a.status == AgentStatus::Available
            &&& (role matches Some(ro) ==> a.role == ro)
            &&& agents.contains(a)
        } by {
            if i < rr.len() {
                assert(r[i] == rr[i]);
                let a = rr[i];
                let j = choose|j: int| 0 <= j < rest.len() && rest[j] == a;
                assert(agents[j] == a);
            } else {
                assert(r[i] == last);
                assert(agents[agents.len() - 1] == last);
            }
        }
        assert forall|a: OrganizationAgent| agents.contains(a) && a.status == AgentStatus::Available
            && (role matches Some(ro) ==> a.role == ro) implies #[trigger] r.contains(a) by {
            let j = choose|j: int| 0 <= j < agents.len() && agents[j] == a;
            if j < rest.len() {
                assert(rest[j] == a);
                assert(rr.contains(a));
                let i = choose|i: int| 0 <= i < rr.len() && rr[i] == a;
                assert(r[i] == a);
            } else {
                assert(a == last);
                assert(r[r.len() - 1] == a);
            }
        }
    }
}

} // verus!

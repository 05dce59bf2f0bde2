//! How the coordinator hands tasks to agents: in order of priority, to a
//! workspace's first member, and how it records assignments and
//! completions.

use vstd::prelude::*;
use crate::text::{push_str, str_eq, views};
use super::{
    available_among, holds, is_available_for, without, AgentStatus, CollaborativeWorkspace, Organization,
    OrganizationAgent, OrganizationRole, TaskPriority, TaskStatus, WorkspaceTask,
};

verus! {

/// The rank of a priority, from 0 for low to 3 for critical.
pub open spec fn rank(p: TaskPriority) -> int {
    match p {
        TaskPriority::Low => 0,
        TaskPriority::Medium => 1,
        TaskPriority::High => 2,
        TaskPriority::Critical => 3,
    }
}

fn rank_of(p: TaskPriority) -> (r: u8)
    ensures
        r == rank(p),
{
    match p {
        TaskPriority::Low => 0,
        TaskPriority::Medium => 1,
        TaskPriority::High => 2,
        TaskPriority::Critical => 3,
    }
}

/// Whether the tasks go from the most to the least urgent.
pub open spec fn by_priority(s: Seq<WorkspaceTask>) -> bool {
    forall|i: int, j: int| 0 <= i < j < s.len() ==> rank(s[i].priority) >= rank(s[j].priority)
}

/// Whether a task's priority has rank `k`.
pub open spec fn rank_is(k: int) -> spec_fn(WorkspaceTask) -> bool {
    |t: WorkspaceTask| rank(t.priority) == k
}

/// The tasks of `s` whose priority has rank `k`, in their order in `s`.
pub open spec fn of_rank(s: Seq<WorkspaceTask>, k: int) -> Seq<WorkspaceTask> {
    s.filter(rank_is(k))
}

proof fn lemma_of_rank_push(s: Seq<WorkspaceTask>, t: WorkspaceTask, k: int)
    ensures
        of_rank(s.push(t), k) == (if rank(t.priority) == k { of_rank(s, k).push(t) } else { of_rank(s, k) }),
{
    reveal(Seq::filter);
    assert(s.push(t).drop_last() =~= s);
}

proof fn lemma_of_rank_none(s: Seq<WorkspaceTask>, k: int)
    requires
        forall|m: int| 0 <= m < s.len() ==> rank(#[trigger] s[m].priority) != k,
    ensures
        of_rank(s, k) == Seq::<WorkspaceTask>::empty(),
    decreases s.len(),
{
    reveal(Seq::filter);
    if s.len() > 0 {
        lemma_of_rank_none(s.drop_last(), k);
    }
}

/// The tasks of a project from the most to the least urgent; tasks of equal
/// priority keep their order.
pub fn sort_by_priority(tasks: Vec<WorkspaceTask>) -> (r: Vec<WorkspaceTask>)
    ensures
        by_priority(r@),
        forall|k: int| #[trigger] of_rank(r@, k) == of_rank(tasks@, k),
        r@.to_multiset() == tasks@.to_multiset(),
        r@.len() == tasks@.len(),
{
    broadcast use vstd::seq_lib::group_to_multiset_ensures;
    let mut r: Vec<WorkspaceTask> = Vec::new();
    let mut rest = tasks;
    let ghost orig = rest@;
    proof {
        assert(orig.skip(0) =~= orig);
        assert forall|k: int| #[trigger] of_rank(r@, k) == of_rank(orig.take(0), k) by {
            assert(orig.take(0) =~= r@);
        }
    }
    while rest.len() > 0
        invariant
            by_priority(r@),
            r@.to_multiset().add(rest@.to_multiset()) == orig.to_multiset(),
            r@.len() + rest@.len() == orig.len(),
            rest@ == orig.skip(orig.len() - rest@.len()),
            forall|k: int| #[trigger] of_rank(r@, k) == of_rank(orig.take(orig.len() - rest@.len()), k),
        decreases rest@.len(),
    {
        let ghost rest_old = rest@;
        let ghost c = orig.len() - rest_old.len();
        let t = rest.remove(0);
        proof {
            vstd::seq_lib::to_multiset_remove(rest_old, 0);
            assert(rest@ == rest_old.remove(0));
            assert(rest_old[0] == t);
            assert(rest_old.contains(t));
            rest_old.to_multiset_ensures();
            assert(rest_old.to_multiset().count(t) > 0);
        }
        let k = rank_of(t.priority);
        let mut j: usize = 0;
        while j < r.len() && rank_of(r[j].priority) >= k
            invariant
                j <= r@.len(),
                forall|m: int| 0 <= m < j ==> rank(r@[m].priority) >= k,
            decreases r@.len() - j,
        {
            j = j + 1;
        }
        let ghost old_r = r@;
        proof {
            assert(forall|m: int| j <= m < old_r.len() ==> rank(old_r[m].priority) < k) by {
                if j < old_r.len() {
                    assert forall|m: int| j <= m < old_r.len() implies rank(old_r[m].priority) < k by {
                        assert(rank(old_r[j as int].priority) >= rank(old_r[m].priority) || m == j);
                    }
                }
            }
        }
        r.insert(j, t);
        proof {
            assert(r@ == old_r.insert(j as int, t));
            vstd::seq_lib::to_multiset_insert(old_r, j as int, t);
            broadcast use vstd::multiset::group_multiset_axioms;
            assert(r@.to_multiset().add(rest@.to_multiset()) =~= old_r.to_multiset().add(rest_old.to_multiset()));
            assert forall|a: int, b: int| 0 <= a < b < r@.len() implies rank(r@[a].priority) >= rank(r@[b].priority) by {
                if a < j && b < j {
                } else if a < j && b == j {
                } else if a < j && b > j {
                    assert(r@[b] == old_r[b - 1]);
                } else if a == j {
                    assert(r@[b] == old_r[b - 1]);
                } else {
                    assert(r@[a] == old_r[a - 1]);
                    assert(r@[b] == old_r[b - 1]);
                }
            }
            assert(rest_old[0] == orig[c]);
            assert(orig.take(c + 1) =~= orig.take(c).push(t));
            assert(rest@ =~= orig.skip(c + 1));
            let front = old_r.take(j as int);
            let back = old_r.skip(j as int);
            assert(r@ =~= front + seq![t] + back);
            assert(old_r =~= front + back);
            assert(Seq::<WorkspaceTask>::empty().push(t) =~= seq![t]);
            assert forall|q: int| #[trigger] of_rank(r@, q) == of_rank(orig.take(c + 1), q) by {
                assert(of_rank(old_r, q) == of_rank(orig.take(c), q));
                lemma_of_rank_push(orig.take(c), t, q);
                lemma_of_rank_push(Seq::<WorkspaceTask>::empty(), t, q);
                lemma_of_rank_none(Seq::<WorkspaceTask>::empty(), q);
                Seq::filter_distributes_over_add(front + seq![t], back, rank_is(q));
                Seq::filter_distributes_over_add(front, seq![t], rank_is(q));
                Seq::filter_distributes_over_add(front, back, rank_is(q));
                if q == rank(t.priority) {
                    assert forall|m: int| 0 <= m < back.len() implies rank(#[trigger] back[m].priority) != q by {
                        assert(back[m] == old_r[j + m]);
                    }
                    lemma_of_rank_none(back, q);
                    assert(of_rank(front, q) + seq![t] + Seq::<WorkspaceTask>::empty() =~= (of_rank(front, q) + Seq::<WorkspaceTask>::empty()).push(t));
                } else {
                    assert(of_rank(front, q) + Seq::<WorkspaceTask>::empty() + of_rank(back, q) =~= of_rank(front, q) + of_rank(back, q));
                }
            }
        }
    }
    proof {
        assert(orig.take(orig.len() as int) =~= orig);
    }
    r
}

/// The member to whom the tasks of a workspace go: its first one.
pub fn project_agent(workspace: &CollaborativeWorkspace) -> (r: Option<String>)
    ensures
        workspace.member_agents@.len() > 0 ==> r == Some(workspace.member_agents@[0]),
        workspace.member_agents@.len() == 0 ==> r is None,
{
    if workspace.member_agents.len() > 0 {
        Some(workspace.member_agents[0].clone())
    } else {
        None
    }
}

/// The prompt with which an agent is asked to carry out a task.
pub fn task_prompt(task: &WorkspaceTask) -> (r: String)
    ensures
        r@ == "Task: "@ + task.title@ + "\n\nDescription: "@ + task.description@ + "\n\nPlease provide a solution."@,
{
    let mut r = String::from_str("Task: ");
    push_str(&mut r, task.title.as_str());
    push_str(&mut r, "\n\nDescription: ");
    push_str(&mut r, task.description.as_str());
    push_str(&mut r, "\n\nPlease provide a solution.");
    r
}

/// `b` is the agent `a` after it completed the task `task_id`: every
/// occurrence of the task is gone, the agent is available once no task is
/// left and keeps its status otherwise, and nothing else changed.
pub open spec fn finished_task(a: OrganizationAgent, b: OrganizationAgent, task_id: Seq<char>) -> bool {
    &&& views(b.current_tasks@) == without(views(a.current_tasks@), task_id)
    &&& b.current_tasks@.len() == 0 ==> b.status == AgentStatus::Available
    &&& b.current_tasks@.len() > 0 ==> b.status == a.status
    &&& b.id == a.id
    &&& b.name == a.name
    &&& b.role == a.role
    &&& b.capabilities == a.capabilities
    &&& b.workspace_memberships@ == a.workspace_memberships@
}

impl Organization {
    /// The agent a task goes to: the first available agent of the
    /// required role, or of any role where none is required.
    pub fn route_task(&self, required_role: Option<OrganizationRole>) -> (r: Option<String>)
        ensures
            available_among(self.agents.value_seq(), required_role).len() > 0 ==>
                r == Some(available_among(self.agents.value_seq(), required_role)[0].id),
            available_among(self.agents.value_seq(), required_role).len() == 0 ==> r is None,
    {
        let available = self.get_available_agents(required_role);
        if available.len() > 0 {
            proof {
                assert(super::derefs(available@)[0] == *available@[0]);
            }
            Some(available[0].id.clone())
        } else {
            None
        }
    }

    /// Records that a task was assigned: the agent takes it on, where the
    /// agent is known, and the workspace holds it, where the workspace is
    /// known.
    pub fn record_assignment(&mut self, agent_id: &str, workspace_id: &str, task: WorkspaceTask)
        ensures
            final(self).agents@.dom() == old(self).agents@.dom(),
            final(self).workspaces@.dom() == old(self).workspaces@.dom(),
            old(self).agents@.contains_key(agent_id@) ==> {
                let a = old(self).agents@[agent_id@];
                let b = final(self).agents@[agent_id@];
                &&& b.current_tasks@ == a.current_tasks@.push(b.current_tasks@.last())
                &&& b.current_tasks@.last()@ == task.id@
                &&& b.status == AgentStatus::Busy
                &&& b.id == a.id
                &&& b.name == a.name
                &&& b.role == a.role
                &&& b.capabilities == a.capabilities
                &&& b.workspace_memberships@ == a.workspace_memberships@
            },
            old(self).workspaces@.contains_key(workspace_id@) ==>
                final(self).workspaces@[workspace_id@].tasks@ == old(self).workspaces@[workspace_id@].tasks@.push(task),
            forall|k: Seq<char>| k != agent_id@ && old(self).agents@.contains_key(k) ==> final(self).agents@[k] == old(self).agents@[k],
            forall|k: Seq<char>| k != workspace_id@ && old(self).workspaces@.contains_key(k) ==> final(self).workspaces@[k] == old(self).workspaces@[k],
    {
        match self.agents.remove(agent_id) {
            Some(agent) => {
                let mut agent = agent;
                agent.assign_task(task.id.clone());
                self.agents.insert(String::from_str(agent_id), agent);
            },
            None => {},
        }
        match self.workspaces.remove(workspace_id) {
            Some(ws) => {
                let mut ws = ws;
                ws.add_task(task);
                self.workspaces.insert(String::from_str(workspace_id), ws);
            },
            None => {},
        }
        proof {
            assert(self.agents@.dom() =~= old(self).agents@.dom());
            assert(self.workspaces@.dom() =~= old(self).workspaces@.dom());
        }
    }

    /// Records that an agent completed a task: the agent drops every
    /// occurrence of it, and is available again once it has no task left; in
    /// every workspace the first task with that identifier is completed.
    pub fn record_completion(&mut self, agent_id: &str, task_id: &str)
        ensures
            final(self).agents@.dom() == old(self).agents@.dom(),
            final(self).workspaces@.dom() == old(self).workspaces@.dom(),
            old(self).agents@.contains_key(agent_id@) ==>
                finished_task(old(self).agents@[agent_id@], final(self).agents@[agent_id@], task_id@),
            forall|k: Seq<char>| k != agent_id@ && old(self).agents@.contains_key(k) ==> final(self).agents@[k] == old(self).agents@[k],
            forall|k: Seq<char>| #[trigger] old(self).workspaces@.contains_key(k) ==>
                completed_first(old(self).workspaces@[k], final(self).workspaces@[k], task_id@),
    {
        match self.agents.remove(agent_id) {
            Some(agent) => {
                let mut agent = agent;
                agent.complete_task(task_id);
                self.agents.insert(String::from_str(agent_id), agent);
            },
            None => {},
        }
        let keys = self.workspaces.keys();
        let ghost old_ws = self.workspaces@;
        let ghost old_keys = self.workspaces.key_seq();
        self.workspaces.entry_facts();
        let mut i: usize = 0;
        while i < keys.len()
            invariant
                keys@.len() == old_keys.len(),
                forall|j: int| 0 <= j < keys@.len() ==> keys@[j]@ == old_keys[j],
                old_keys.no_duplicates(),
                forall|k: Seq<char>| old_ws.contains_key(k) ==> old_keys.contains(k),
                forall|j: int| 0 <= j < old_keys.len() ==> old_ws.contains_key(#[trigger] old_keys[j]),
                i <= keys@.len(),
                self.workspaces@.dom() == old_ws.dom(),
                self.agents@.dom() == old(self).agents@.dom(),
                old(self).agents@.contains_key(agent_id@) ==>
                    finished_task(old(self).agents@[agent_id@], self.agents@[agent_id@], task_id@),
                forall|k: Seq<char>| k != agent_id@ && old(self).agents@.contains_key(k) ==> self.agents@[k] == old(self).agents@[k],
                old_ws == old(self).workspaces@,
                forall|j: int| i <= j < old_keys.len() ==> self.workspaces@[#[trigger] old_keys[j]] == old_ws[old_keys[j]],
                forall|j: int| 0 <= j < i ==> completed_first(old_ws[#[trigger] old_keys[j]], self.workspaces@[old_keys[j]], task_id@),
            decreases keys@.len() - i,
        {
            let ghost key = old_keys[i as int];
            match self.workspaces.remove(keys[i].as_str()) {
                Some(ws) => {
                    let mut ws = ws;
                    complete_first(&mut ws, task_id);
                    self.workspaces.insert(keys[i].clone(), ws);
                    proof {
                        assert forall|j: int| i < j < old_keys.len() implies self.workspaces@[#[trigger] old_keys[j]] == old_ws[old_keys[j]] by {
                            assert(old_keys[j] != key);
                        }
                        assert forall|j: int| 0 <= j < i implies completed_first(old_ws[#[trigger] old_keys[j]], self.workspaces@[old_keys[j]], task_id@) by {
                            assert(old_keys[j] != key);
                        }
                    }
                },
                None => {
                    proof {
                        assert(old_ws.contains_key(old_keys[i as int]));
                    }
                },
            }
            proof {
                assert(self.workspaces@.dom() =~= old_ws.dom());
            }
            i = i + 1;
        }
        proof {
            assert forall|k: Seq<char>| #[trigger] old_ws.contains_key(k) implies completed_first(old_ws[k], self.workspaces@[k], task_id@) by {
                let j = choose|j: int| 0 <= j < old_keys.len() && old_keys[j] == k;
            }
        }
    }
}

/// The position of the first task with identifier `id`, or the number of
/// tasks where there is none.
pub open spec fn first_with_id(tasks: Seq<WorkspaceTask>, id: Seq<char>) -> int
    decreases tasks.len(),
{
    if tasks.len() == 0 {
        0
    } else if tasks[0].id@ == id {
        0
    } else {
        1 + first_with_id(tasks.skip(1), id)
    }
}

/// Whether `after` is `before` with its first task of identifier `id`
/// completed.
pub open spec fn completed_first(before: CollaborativeWorkspace, after: CollaborativeWorkspace, id: Seq<char>) -> bool {
    &&& after.tasks@.len() == before.tasks@.len()
    &&& forall|i: int| 0 <= i < before.tasks@.len() ==> (#[trigger] after.tasks@[i]).id == before.tasks@[i].id
        && (if first_with_id(before.tasks@, id) == i {
            after.tasks@[i].status == TaskStatus::Completed && after.tasks@[i].completed_at is Some
        } else {
            after.tasks@[i] == before.tasks@[i]
        })
}

proof fn lemma_first_with_id(tasks: Seq<WorkspaceTask>, id: Seq<char>, j: int)
    requires
        0 <= j <= tasks.len(),
        forall|m: int| 0 <= m < j ==> tasks[m].id@ != id,
    ensures
        j < tasks.len() && tasks[j].id@ == id ==> first_with_id(tasks, id) == j,
        j == tasks.len() ==> first_with_id(tasks, id) == tasks.len(),
    decreases j,
{
    if j > 0 {
        assert forall|m: int| 0 <= m < j - 1 implies tasks.skip(1)[m].id@ != id by {
            assert(tasks.skip(1)[m] == tasks[m + 1]);
        }
        lemma_first_with_id(tasks.skip(1), id, j - 1);
    } else if tasks.len() > 0 {
    }
}

fn complete_first(ws: &mut CollaborativeWorkspace, task_id: &str)
    ensures
        completed_first(*old(ws), *final(ws), task_id@),
        final(ws).id == old(ws).id,
        final(ws).member_agents@ == old(ws).member_agents@,
{
    let ghost before = ws.tasks@;
    let mut j: usize = 0;
    while j < ws.tasks.len()
        invariant
            ws.tasks@ == before,
            *ws == *old(ws),
            j <= before.len(),
            forall|m: int| 0 <= m < j ==> before[m].id@ != task_id@,
        decreases before.len() - j,
    {
        if str_eq(ws.tasks[j].id.as_str(), task_id) {
            proof {
                lemma_first_with_id(before, task_id@, j as int);
            }
            let mut tasks: Vec<WorkspaceTask> = Vec::new();
            std::mem::swap(&mut tasks, &mut ws.tasks);
            let mut t = tasks.remove(j);
            t.complete();
            tasks.insert(j, t);
            ws.tasks = tasks;
            return;
        }
        j = j + 1;
    }
    proof {
        lemma_first_with_id(before, task_id@, j as int);
    }
}

} // verus!

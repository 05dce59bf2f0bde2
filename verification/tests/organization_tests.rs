use the_agency::organization::coordinator::{project_agent, sort_by_priority, task_prompt};
use the_agency::organization::knowledge_helpers::{find_similar_tasks, split_words, TaskMemory};
use the_agency::organization::prompts::LEARNING_CONTEXT;
use the_agency::organization::{
    extract_task_type, AgentStatus, CollaborativeWorkspace, Organization, OrganizationAgent, OrganizationRole,
    RoleCategory, TaskPriority, TaskStatus, WorkspaceTask,
};

#[test]
fn organization_test_agent_creation() {
    let agent = OrganizationAgent::new("Alice".to_string(), OrganizationRole::ResearchEngineerScaling);
    assert_eq!(agent.name, "Alice");
    assert_eq!(agent.role.category(), RoleCategory::ResearchAI);
    assert_eq!(agent.status, AgentStatus::Available);
}

#[test]
fn test_organization_creation() {
    let org = Organization::new("RoboTech Industries".to_string());
    assert_eq!(org.name, "RoboTech Industries");
    assert_eq!(org.agents.len(), 0);
    assert_eq!(org.workspaces.len(), 0);
}

#[test]
fn test_workspace_task_management() {
    let mut task = WorkspaceTask::new(
        "Implement feature".to_string(),
        "Build new simulation".to_string(),
        vec!["agent1".to_string()],
    );

    assert_eq!(task.status, TaskStatus::Pending);
    task.start();
    assert_eq!(task.status, TaskStatus::InProgress);
    task.complete();
    assert_eq!(task.status, TaskStatus::Completed);
    assert!(task.completed_at.is_some());
}

#[test]
fn test_extract_task_type() {
    assert_eq!(extract_task_type("Design System Architecture"), "design");
    assert_eq!(extract_task_type("Implement Feature X"), "implementation");
    assert_eq!(extract_task_type("Optimize Performance"), "optimization");
    assert_eq!(extract_task_type("Debug Issue"), "debugging");
}

#[test]
fn extract_task_type_other_kinds() {
    assert_eq!(extract_task_type("QA pass"), "testing");
    assert_eq!(extract_task_type("Refactor module"), "refactoring");
    assert_eq!(extract_task_type("Investigate crash"), "research");
    assert_eq!(extract_task_type("Document API"), "documentation");
    assert_eq!(extract_task_type("Lunch"), "general");
}

#[test]
fn test_executive_prompts() {
    let ceo = OrganizationRole::ChiefExecutiveOfficer;
    let prompt = ceo.system_prompt();

    assert!(prompt.contains("Chief Executive Officer"));
    assert!(prompt.contains("ORGANIZATIONAL LEARNING"));
    assert!(prompt.contains("LEARNING BEHAVIORS"));
}

#[test]
fn test_engineering_prompts() {
    let engineer = OrganizationRole::SoftwareEngineerSimulation;
    let prompt = engineer.system_prompt();

    assert!(prompt.contains("Simulation"));
    assert!(prompt.contains("CORE CAPABILITIES"));
    assert!(prompt.contains("organizational memory"));
}

#[test]
fn test_all_roles_have_prompts() {
    let roles = vec![
        OrganizationRole::ChiefExecutiveOfficer,
        OrganizationRole::ProductManager,
        OrganizationRole::SoftwareEngineerPlatforms,
        OrganizationRole::ManufacturingEngineer,
        OrganizationRole::CustomerSuccessManager,
        OrganizationRole::DesignDirector,
    ];

    for role in roles {
        let prompt = role.system_prompt();
        assert!(!prompt.is_empty());
        assert!(prompt.contains("ORGANIZATIONAL LEARNING"));
    }
}

#[test]
fn default_prompt_names_the_role() {
    let p = OrganizationRole::CNCOperator.role_specific_prompt();
    assert!(p.starts_with("You are a CNCOperator in a robotics organization."));
    assert_eq!(OrganizationRole::CNCOperator.capability_description(), "");
    assert!(OrganizationRole::CNCOperator.system_prompt().contains(LEARNING_CONTEXT));
}

#[test]
fn capability_description_lists_capabilities() {
    assert_eq!(
        OrganizationRole::ManufacturingEngineer.capability_description(),
        "CORE CAPABILITIES:\n- process optimization\n- automation\n- quality control"
    );
    assert_eq!(
        OrganizationRole::ChiefExecutiveOfficer.learning_behaviors(),
        "LEARNING BEHAVIORS:\n- Document strategic decisions and their rationale\n- Record outcomes of strategic initiatives\n- Share leadership insights and lessons\n- Build organizational pattern library"
    );
    assert_eq!(OrganizationRole::ResearchEngineerScaling.typical_collaborators().len(), 3);
    assert!(OrganizationRole::DataAnalyst.typical_collaborators().is_empty());
}

#[test]
fn agent_joins_once_and_completes_tasks() {
    let mut a = OrganizationAgent::new("Bob".to_string(), OrganizationRole::DataAnalyst);
    a.join_workspace("w1".to_string());
    a.join_workspace("w1".to_string());
    assert_eq!(a.workspace_memberships, vec!["w1".to_string()]);
    a.assign_task("t1".to_string());
    a.assign_task("t2".to_string());
    assert_eq!(a.status, AgentStatus::Busy);
    a.complete_task("t1");
    assert_eq!(a.current_tasks, vec!["t2".to_string()]);
    assert_eq!(a.status, AgentStatus::Busy);
    a.complete_task("t2");
    assert!(a.current_tasks.is_empty());
    assert_eq!(a.status, AgentStatus::Available);
}

#[test]
fn organization_assigns_and_routes() {
    let mut org = Organization::new("Org".to_string());
    let a = OrganizationAgent::new("Ann".to_string(), OrganizationRole::ProductManager);
    let aid = org.add_agent(a);
    let ws = CollaborativeWorkspace::new("W".to_string(), "D".to_string());
    let wid = org.create_workspace(ws);
    org.assign_agent_to_workspace(&aid, &wid).unwrap();
    assert_eq!(org.get_workspace_agents(&wid).len(), 1);
    assert_eq!(org.route_task(Some(OrganizationRole::ProductManager)), Some(aid.clone()));
    assert_eq!(org.route_task(Some(OrganizationRole::DataAnalyst)), None);
    let task = WorkspaceTask::new("T".to_string(), "D".to_string(), vec![]);
    let tid = task.id.clone();
    org.record_assignment(&aid, &wid, task);
    assert!(org.get_available_agents(None).is_empty());
    org.record_completion(&aid, &tid);
    assert_eq!(org.workspaces.get(&wid).unwrap().tasks[0].status, TaskStatus::Completed);
    assert_eq!(org.get_available_agents(None).len(), 1);
    assert_eq!(project_agent(org.workspaces.get(&wid).unwrap()), Some(aid));
}

#[test]
fn tasks_sorted_by_priority_stably() {
    let mk = |t: &str, p: TaskPriority| WorkspaceTask::new(t.to_string(), String::new(), vec![]).with_priority(p);
    let sorted = sort_by_priority(vec![
        mk("a", TaskPriority::Low),
        mk("b", TaskPriority::Critical),
        mk("c", TaskPriority::Medium),
        mk("d", TaskPriority::Critical),
    ]);
    let titles: Vec<&str> = sorted.iter().map(|t| t.title.as_str()).collect();
    assert_eq!(titles, vec!["b", "d", "c", "a"]);
    assert_eq!(task_prompt(&sorted[0]), "Task: b\n\nDescription: \n\nPlease provide a solution.");
}

fn memory(content: &str, task_type: Option<&str>) -> TaskMemory {
    TaskMemory { content: content.to_string(), task_type: task_type.map(|t| t.to_string()) }
}

#[test]
fn similar_tasks_rank_by_shared_words() {
    let memories = vec![
        memory("Design the API gateway", Some("design")),
        memory("api design review", Some("general")),
        memory("Design database", Some("testing")),
        memory("gateway", Some("design")),
        memory("nothing here", None),
    ];
    assert_eq!(find_similar_tasks(&memories, "API Design", "design", 5), vec![0, 1]);
    assert_eq!(find_similar_tasks(&memories, "API Design", "design", 1), vec![0]);
    assert_eq!(find_similar_tasks(&memories, "gateway design", "design", 5), vec![0, 1, 3]);
    assert_eq!(find_similar_tasks(&memories, "review api", "design", 5), vec![1, 0]);
    assert!(find_similar_tasks(&memories, "", "design", 5).is_empty());
    assert!(find_similar_tasks(&memories, "API Design", "design", 0).is_empty());
}

#[test]
fn similar_tasks_need_more_than_a_tenth_of_the_words() {
    let memories = vec![memory("alpha", Some("general"))];
    let ten = "alpha bb cc dd ee ff gg kk mm nn";
    assert!(find_similar_tasks(&memories, ten, "x", 5).is_empty());
    let nine = "alpha bb cc dd ee ff gg kk mm";
    assert_eq!(find_similar_tasks(&memories, nine, "x", 5), vec![0]);
}

#[test]
fn words_split_at_white_space() {
    assert_eq!(split_words("  a  bc\td\n"), vec!["a", "bc", "d"]);
    assert!(split_words(" \t ").is_empty());
}

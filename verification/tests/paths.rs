use command_bridge::paths::{locate_agent, project_root_from, AgentLocation};

#[test]
fn agent_is_two_levels_up_and_one_down() {
    let location = locate_agent("/home/user/project/frontend/src-tauri").unwrap();
    assert_eq!(location.root, "/home/user/project/agent");
    assert_eq!(location.entry_script, "/home/user/project/agent/run-agent.js");
}

#[test]
fn agent_can_sit_right_under_the_root_directory() {
    let location = locate_agent("/frontend/src-tauri").unwrap();
    assert_eq!(location.root, "/agent");
    assert_eq!(location.entry_script, "/agent/run-agent.js");
}

#[test]
fn trailing_separator_does_not_count_as_a_level() {
    let location = locate_agent("/srv/app/frontend/src-tauri/").unwrap();
    assert_eq!(location.root, "/srv/app/agent");
}

#[test]
fn relative_working_dir_is_resolved_as_given() {
    let location = locate_agent("app/frontend/src-tauri").unwrap();
    assert_eq!(location.root, "app/agent");
    assert_eq!(location.entry_script, "app/agent/run-agent.js");
}

#[test]
fn root_directory_has_no_parent() {
    assert_eq!(
        locate_agent("/"),
        Err("[Rust] Failed to get parent of src-tauri".to_string())
    );
}

#[test]
fn empty_working_dir_has_no_parent() {
    assert_eq!(
        locate_agent(""),
        Err("[Rust] Failed to get parent of src-tauri".to_string())
    );
}

#[test]
fn directory_under_root_has_no_grandparent() {
    assert_eq!(
        locate_agent("/src-tauri"),
        Err("[Rust] Failed to get parent of frontend/".to_string())
    );
}

#[test]
fn single_relative_component_has_no_grandparent() {
    assert_eq!(
        locate_agent("src-tauri"),
        Err("[Rust] Failed to get parent of frontend/".to_string())
    );
}

#[test]
fn project_root_is_the_grandparent() {
    let root = project_root_from(Some("/p/frontend".to_string()), Some("/p".to_string()));
    assert_eq!(root, Ok("/p".to_string()));
}

#[test]
fn project_root_needs_a_parent() {
    let root = project_root_from(None, None);
    assert_eq!(root, Err("[Rust] Failed to get parent of src-tauri".to_string()));
    let root = project_root_from(None, Some("/p".to_string()));
    assert_eq!(root, Err("[Rust] Failed to get parent of src-tauri".to_string()));
}

#[test]
fn project_root_needs_a_grandparent() {
    let root = project_root_from(Some("/".to_string()), None);
    assert_eq!(root, Err("[Rust] Failed to get parent of frontend/".to_string()));
}

#[test]
fn location_under_a_project_root() {
    let location = AgentLocation::under("/work/chat");
    assert_eq!(
        location,
        AgentLocation {
            root: "/work/chat/agent".to_string(),
            entry_script: "/work/chat/agent/run-agent.js".to_string(),
        }
    );
}

#[test]
fn location_under_an_empty_root_is_relative() {
    let location = AgentLocation::under("");
    assert_eq!(location.root, "agent");
    assert_eq!(location.entry_script, "agent/run-agent.js");
}

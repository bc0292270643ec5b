use belvedere::agent_discovery::{AgentDirectory, AgentDiscovery, DirEntryInfo, DiscoveryListing, RigEntry};
use belvedere::AgentRole;

fn dir(path: &str) -> DirEntryInfo {
    DirEntryInfo { path: path.to_string(), is_dir: true }
}

fn file(path: &str) -> DirEntryInfo {
    DirEntryInfo { path: path.to_string(), is_dir: false }
}

fn names(agents: &[AgentDirectory]) -> Vec<String> {
    agents.iter().map(|a| a.instance_name.clone()).collect()
}

#[test]
fn test_agent_role_from_name() {
    assert_eq!(AgentRole::from_name("mayor"), AgentRole::Mayor);
    assert_eq!(AgentRole::from_name("MAYOR"), AgentRole::Mayor);
    assert_eq!(AgentRole::from_name("polecat"), AgentRole::Polecat);
    assert_eq!(AgentRole::from_name("crew"), AgentRole::Crew);
    assert_eq!(AgentRole::from_name("witness"), AgentRole::Witness);
    assert_eq!(AgentRole::from_name("deacon"), AgentRole::Deacon);
    assert_eq!(AgentRole::from_name("unknown"), AgentRole::Unknown);
}

#[test]
fn test_agent_directory_from_path_mayor() {
    let path = "/home/user/.gazetown/agents/mayor".to_string();
    let agent = AgentDirectory::from_path(path.clone()).unwrap();

    assert_eq!(agent.path, path);
    assert_eq!(agent.role, AgentRole::Mayor);
    assert_eq!(agent.instance_name, "mayor");
    assert_eq!(agent.instance_id, None);
}

#[test]
fn test_agent_directory_from_path_polecat_with_instance() {
    let path = "/rig/.agents/polecat-1".to_string();
    let agent = AgentDirectory::from_path(path.clone()).unwrap();

    assert_eq!(agent.path, path);
    assert_eq!(agent.role, AgentRole::Polecat);
    assert_eq!(agent.instance_name, "polecat-1");
    assert_eq!(agent.instance_id, Some("1".to_string()));
}

#[test]
fn test_agent_directory_from_path_crew_with_name() {
    let path = "/rig/.agents/crew-alice".to_string();
    let agent = AgentDirectory::from_path(path.clone()).unwrap();

    assert_eq!(agent.path, path);
    assert_eq!(agent.role, AgentRole::Crew);
    assert_eq!(agent.instance_name, "crew-alice");
    assert_eq!(agent.instance_id, Some("alice".to_string()));
}

#[test]
fn test_agent_directory_from_path_witness_with_context() {
    let path = "/rig/.agents/witness-backend".to_string();
    let agent = AgentDirectory::from_path(path.clone()).unwrap();

    assert_eq!(agent.path, path);
    assert_eq!(agent.role, AgentRole::Witness);
    assert_eq!(agent.instance_name, "witness-backend");
    assert_eq!(agent.instance_id, Some("backend".to_string()));
}

#[test]
fn test_agent_directory_from_path_unknown_role() {
    let path = "/rig/.agents/unknown-role".to_string();
    let agent = AgentDirectory::from_path(path.clone()).unwrap();

    assert_eq!(agent.role, AgentRole::Unknown);
    assert_eq!(agent.instance_name, "unknown-role");
    assert_eq!(agent.instance_id, Some("role".to_string()));
}

#[test]
fn test_agent_directory_display() {
    assert_eq!(AgentRole::Mayor.display_name(), "Mayor");
    assert_eq!(AgentRole::Polecat.display_name(), "Polecat");
    assert_eq!(AgentRole::Crew.display_name(), "Crew");
}

#[test]
fn role_display_names_of_other_roles() {
    assert_eq!(AgentRole::Witness.display_name(), "Witness");
    assert_eq!(AgentRole::Deacon.display_name(), "Deacon");
    assert_eq!(AgentRole::Unknown.display_name(), "Unknown");
}

#[test]
fn role_ignores_case_of_name() {
    for s in ["mayor", "PoleCat", "crew", "Witness", "deAcon", "unknown", "", "crew-x"] {
        let role = AgentRole::from_name(s);
        assert_eq!(AgentRole::from_name(&s.to_uppercase()), role);
        assert_eq!(AgentRole::from_name(&s.to_lowercase()), role);
    }
    assert_eq!(AgentRole::from_name("DeAcOn"), AgentRole::Deacon);
    assert_eq!(AgentRole::from_name("WITNESS"), AgentRole::Witness);
}

#[test]
fn role_of_other_names_is_unknown() {
    for s in ["", "may", "mayors", " mayor", "mayor ", "crew-alice", "polecats", "deac0n"] {
        assert_eq!(AgentRole::from_name(s), AgentRole::Unknown);
    }
}

#[test]
fn parse_keeps_text_after_first_separator() {
    let agent = AgentDirectory::from_path("/rig/.agents/crew-alice-2".to_string()).unwrap();
    assert_eq!(agent.role, AgentRole::Crew);
    assert_eq!(agent.instance_name, "crew-alice-2");
    assert_eq!(agent.instance_id, Some("alice-2".to_string()));
}

#[test]
fn parse_edge_names() {
    let agent = AgentDirectory::from_path("crew-".to_string()).unwrap();
    assert_eq!(agent.role, AgentRole::Crew);
    assert_eq!(agent.instance_id, Some(String::new()));

    let agent = AgentDirectory::from_path("/x/-deacon".to_string()).unwrap();
    assert_eq!(agent.role, AgentRole::Unknown);
    assert_eq!(agent.instance_id, Some("deacon".to_string()));

    let agent = AgentDirectory::from_path("/x/MAYOR-Two".to_string()).unwrap();
    assert_eq!(agent.role, AgentRole::Mayor);
    assert_eq!(agent.instance_name, "MAYOR-Two");
    assert_eq!(agent.instance_id, Some("Two".to_string()));
}

#[test]
fn parse_uses_last_component_after_trailing_separators() {
    let agent = AgentDirectory::from_path("/rig/.agents/mayor/".to_string()).unwrap();
    assert_eq!(agent.path, "/rig/.agents/mayor/");
    assert_eq!(agent.instance_name, "mayor");

    let agent = AgentDirectory::from_path("/rig/.agents/polecat-1/.".to_string()).unwrap();
    assert_eq!(agent.instance_name, "polecat-1");
    assert_eq!(agent.role, AgentRole::Polecat);
}

#[test]
fn parse_fails_without_final_name() {
    assert!(AgentDirectory::from_path(String::new()).is_none());
    assert!(AgentDirectory::from_path("/".to_string()).is_none());
    assert!(AgentDirectory::from_path("/rig/..".to_string()).is_none());
    assert!(AgentDirectory::from_path(".".to_string()).is_none());
}

#[test]
fn missing_standalone_folder_gives_no_records() {
    let discovery = AgentDiscovery::new(None);
    let listing = DiscoveryListing { standalone: None, rigs: None };
    assert!(discovery.discover_agents(&listing).is_empty());
}

#[test]
fn rig_without_agents_folder_is_ignored() {
    let discovery = AgentDiscovery::new(Some("/gt".to_string()));
    let listing = DiscoveryListing {
        standalone: None,
        rigs: Some(vec![
            RigEntry {
                is_dir: true,
                agents: Some(vec![dir("/gt/rig1/.agents/mayor"), dir("/gt/rig1/.agents/polecat-1")]),
            },
            RigEntry { is_dir: true, agents: None },
        ]),
    };
    let agents = discovery.discover_agents(&listing);
    assert_eq!(agents.len(), 2);
    assert_eq!(agents[0].role, AgentRole::Mayor);
    assert_eq!(agents[0].path, "/gt/rig1/.agents/mayor");
    assert_eq!(agents[1].role, AgentRole::Polecat);
    assert_eq!(agents[1].instance_id, Some("1".to_string()));
}

#[test]
fn unknown_roles_and_files_are_skipped() {
    let discovery = AgentDiscovery::new(Some("/gt".to_string()));
    let listing = DiscoveryListing {
        standalone: Some(vec![
            dir("/h/.gazetown/agents/unknown-role"),
            file("/h/.gazetown/agents/mayor"),
            dir("/h/.gazetown/agents/crew-bob"),
            dir("/h/.gazetown/agents/notes"),
        ]),
        rigs: Some(vec![RigEntry {
            is_dir: true,
            agents: Some(vec![dir("/gt/r/.agents/helper-1"), dir("/gt/r/.agents/witness")]),
        }]),
    };
    let agents = discovery.discover_agents(&listing);
    assert_eq!(names(&agents), vec!["crew-bob".to_string(), "witness".to_string()]);
    assert!(agents.iter().all(|a| a.role != AgentRole::Unknown));
}

#[test]
fn rig_entries_that_are_not_directories_are_skipped() {
    let discovery = AgentDiscovery::new(Some("/gt".to_string()));
    let listing = DiscoveryListing {
        standalone: None,
        rigs: Some(vec![RigEntry { is_dir: false, agents: Some(vec![dir("/gt/f/.agents/mayor")]) }]),
    };
    assert!(discovery.discover_agents(&listing).is_empty());
}

#[test]
fn rigs_are_not_scanned_without_root() {
    let discovery = AgentDiscovery::new(None);
    let listing = DiscoveryListing {
        standalone: Some(vec![dir("/h/.gazetown/agents/deacon")]),
        rigs: Some(vec![RigEntry { is_dir: true, agents: Some(vec![dir("/gt/r/.agents/mayor")]) }]),
    };
    let agents = discovery.discover_agents(&listing);
    assert_eq!(names(&agents), vec!["deacon".to_string()]);
}

#[test]
fn combined_result_counts_both_sources_without_dedup() {
    let discovery = AgentDiscovery::new(Some("/gt".to_string()));
    let listing = DiscoveryListing {
        standalone: Some(vec![dir("/gt/r/.agents/mayor")]),
        rigs: Some(vec![
            RigEntry { is_dir: true, agents: Some(vec![dir("/gt/r/.agents/mayor")]) },
            RigEntry { is_dir: true, agents: Some(vec![dir("/gt/s/.agents/crew-a")]) },
        ]),
    };
    let agents = discovery.discover_agents(&listing);
    assert_eq!(agents.len(), 1 + 2);
    assert_eq!(agents[0], agents[1]);
    assert_eq!(names(&agents), vec!["mayor".to_string(), "mayor".to_string(), "crew-a".to_string()]);
}

#[test]
fn agents_folders_are_placed_under_home_and_rigs() {
    assert_eq!(AgentDiscovery::standalone_agents_dir("/home/user"), "/home/user/.gazetown/agents");
    assert_eq!(AgentDiscovery::standalone_agents_dir("/home/user/"), "/home/user/.gazetown/agents");
    assert_eq!(AgentDiscovery::rig_agents_dir("/gt/rig1"), "/gt/rig1/.agents");
}

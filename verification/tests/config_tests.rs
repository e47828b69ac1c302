use sc_cli::config::{default_fetch_limit, Config, WorkspaceConfig};

fn workspace(api_key: &str, user_id: &str, fetch_limit: Option<usize>) -> WorkspaceConfig {
    WorkspaceConfig {
        api_key: api_key.to_string(),
        user_id: user_id.to_string(),
        fetch_limit: fetch_limit.unwrap_or(default_fetch_limit()),
    }
}

fn config(names: &[&str], default: Option<&str>, entries: Vec<(&str, WorkspaceConfig)>) -> Config {
    Config {
        workspaces: names.iter().map(|n| n.to_string()).collect(),
        default_workspace: default.map(|d| d.to_string()),
        workspace_configs: entries.into_iter().map(|(n, c)| (n.to_string(), c)).collect(),
    }
}

#[test]
fn test_config_parsing() {
    let config = config(
        &["test", "prod"],
        None,
        vec![
            ("test", workspace("test-key", "test.user", Some(30))),
            ("prod", workspace("prod-key", "prod.user", None)),
        ],
    );

    assert_eq!(config.workspaces.len(), 2);
    assert_eq!(config.workspaces[0], "test");
    assert_eq!(config.workspaces[1], "prod");

    let test_workspace = config.get_workspace("test").unwrap();
    assert_eq!(test_workspace.api_key, "test-key");
    assert_eq!(test_workspace.user_id, "test.user");
    assert_eq!(test_workspace.fetch_limit, 30);

    let prod_workspace = config.get_workspace("prod").unwrap();
    assert_eq!(prod_workspace.api_key, "prod-key");
    assert_eq!(prod_workspace.user_id, "prod.user");
    assert_eq!(prod_workspace.fetch_limit, 50);
}

#[test]
fn test_workspace_not_found() {
    let config = config(&["test"], None, vec![("test", workspace("test-key", "test.user", None))]);

    let result = config.get_workspace("nonexistent");
    assert!(result.is_err());
    assert!(result.unwrap_err().to_string().contains("Workspace 'nonexistent' not found"));
}

#[test]
fn test_default_workspace_single() {
    let config = config(&["only"], None, vec![("only", workspace("only-key", "only.user", None))]);
    assert_eq!(config.get_default_workspace(), Some("only".to_string()));
}

#[test]
fn test_default_workspace_explicit() {
    let config = config(
        &["test", "prod"],
        Some("prod"),
        vec![
            ("test", workspace("test-key", "test.user", None)),
            ("prod", workspace("prod-key", "prod.user", None)),
        ],
    );
    assert_eq!(config.get_default_workspace(), Some("prod".to_string()));
}

#[test]
fn test_default_workspace_multiple_no_default() {
    let config = config(
        &["test", "prod"],
        None,
        vec![
            ("test", workspace("test-key", "test.user", None)),
            ("prod", workspace("prod-key", "prod.user", None)),
        ],
    );
    assert_eq!(config.get_default_workspace(), None);
}

#[test]
fn test_default_workspace_invalid_default() {
    let config = config(&["test"], Some("nonexistent"), vec![("test", workspace("test-key", "test.user", None))]);
    assert_eq!(config.get_default_workspace(), Some("test".to_string()));
}

#[test]
fn test_fetch_limit_various_scenarios() {
    let config1 = config(&["workspace1"], None, vec![("workspace1", workspace("key1", "user1", Some(100)))]);
    assert_eq!(config1.get_workspace("workspace1").unwrap().fetch_limit, 100);

    let config2 = config(&["workspace2"], None, vec![("workspace2", workspace("key2", "user2", None))]);
    assert_eq!(config2.get_workspace("workspace2").unwrap().fetch_limit, 50);

    let config3 = config(&["workspace3"], None, vec![("workspace3", workspace("key3", "user3", Some(0)))]);
    assert_eq!(config3.get_workspace("workspace3").unwrap().fetch_limit, 0);
}

#[test]
fn add_workspace_lists_name_once_and_sets_first_default() {
    let mut c = config(&[], None, vec![]);
    c.add_workspace("alpha", workspace("k1", "u1", None));
    assert_eq!(c.workspaces, vec!["alpha".to_string()]);
    assert_eq!(c.default_workspace, Some("alpha".to_string()));
    c.add_workspace("beta", workspace("k2", "u2", Some(10)));
    c.add_workspace("alpha", workspace("k3", "u3", None));
    assert_eq!(c.workspaces, vec!["alpha".to_string(), "beta".to_string()]);
    assert_eq!(c.default_workspace, Some("alpha".to_string()));
    assert_eq!(c.get_workspace("alpha").unwrap().api_key, "k3");
    assert_eq!(c.get_workspace("beta").unwrap().fetch_limit, 10);
    assert_eq!(c.workspace_configs.len(), 2);
}

#[test]
fn add_workspace_then_get_gives_it_back() {
    let mut c = config(&["x"], Some("x"), vec![("x", workspace("kx", "ux", None))]);
    c.add_workspace("y", workspace("ky", "uy", Some(7)));
    let y = c.get_workspace("y").unwrap();
    assert_eq!(y.api_key, "ky");
    assert_eq!(y.user_id, "uy");
    assert_eq!(y.fetch_limit, 7);
    assert_eq!(c.get_workspace("x").unwrap().api_key, "kx");
    assert!(c.contains_workspace("y"));
    assert!(!c.contains_workspace("z"));
}

#[test]
fn example_config_lists_workspaces() {
    let text = Config::example();
    assert!(text.starts_with("# SC-TUI Configuration File"));
    assert!(text.contains("workspaces = [\"personal\", \"work\", \"client\"]"));
}

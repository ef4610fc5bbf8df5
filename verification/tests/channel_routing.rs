use ironclaw::channel_routing::{ChannelRoutingConfig, ToolDefinition, TRUSTED_DM_METADATA_KEY};
use ironclaw::json::Json;
use ironclaw::names::{NameSet, StringMap};

fn texts(v: &serde_json::Value) -> Vec<String> {
    v.as_array()
        .unwrap()
        .iter()
        .map(|s| s.as_str().unwrap().to_string())
        .collect()
}

fn lists(v: Option<&serde_json::Value>) -> StringMap<Vec<String>> {
    let mut m = StringMap::new();
    if let Some(v) = v {
        for (k, names) in v.as_object().unwrap() {
            m.insert(k.clone(), texts(names));
        }
    }
    m
}

fn config_of(json: &str) -> ChannelRoutingConfig {
    let v: serde_json::Value = serde_json::from_str(json).unwrap();
    let mut channels = StringMap::new();
    for (k, group) in v["channels"].as_object().unwrap() {
        channels.insert(k.clone(), group.as_str().unwrap().to_string());
    }
    ChannelRoutingConfig::from_parts(
        lists(v.get("groups")),
        lists(v.get("builtin_whitelist")),
        channels,
        v["default_group"].as_str().unwrap().to_string(),
    )
}

fn sample_config() -> ChannelRoutingConfig {
    config_of(
        r#"{
            "groups": {
                "minimal": ["Archon"],
                "dev": ["Archon", "Kiro", "Notion"]
            },
            "builtin_whitelist": {
                "minimal": ["memory_search", "create_job"]
            },
            "channels": {
                "agentiffai-dev-issues": "dev"
            },
            "default_group": "minimal"
        }"#,
    )
}

fn no_metadata() -> Json {
    Json::parse("{}").unwrap()
}

fn make_tool_def(name: &str) -> ToolDefinition {
    ToolDefinition {
        name: name.to_string(),
        description: String::new(),
        parameters: Json::parse("{}").unwrap(),
    }
}

fn make_tools(names: &[&str]) -> Vec<ToolDefinition> {
    names.iter().map(|n| make_tool_def(n)).collect()
}

fn name_set(names: &[&str]) -> NameSet {
    let mut set = NameSet::new();
    for n in names {
        set.insert(n.to_string());
    }
    set
}

fn test_builtin_names() -> NameSet {
    name_set(&[
        "memory_search",
        "memory_write",
        "create_job",
        "shell",
        "http_request",
        "web_search",
    ])
}

fn names_of(tools: &[ToolDefinition]) -> Vec<&str> {
    tools.iter().map(|t| t.name.as_str()).collect()
}

#[test]
fn test_deserialize_config() {
    let config = sample_config();
    assert_eq!(config.groups.len(), 2);
    assert_eq!(config.default_group, "minimal");
    assert_eq!(config.channels.get("agentiffai-dev-issues").unwrap(), "dev");
}

#[test]
fn test_resolve_group_mapped_channel() {
    let config = sample_config();
    assert_eq!(config.resolve_group("agentiffai-dev-issues"), "dev");
}

#[test]
fn test_resolve_group_unmapped_falls_to_default() {
    let config = sample_config();
    assert_eq!(config.resolve_group("random-channel"), "minimal");
}

#[test]
fn test_is_dm_exact_matches() {
    let md = no_metadata();
    assert!(ChannelRoutingConfig::is_dm("gateway", &md));
    assert!(ChannelRoutingConfig::is_dm("cli", &md));
    assert!(ChannelRoutingConfig::is_dm("repl", &md));
    assert!(ChannelRoutingConfig::is_dm("tui", &md));
    assert!(ChannelRoutingConfig::is_dm("http", &md));
    // "web" alone should NOT match (use "gateway" for web chat)
    assert!(!ChannelRoutingConfig::is_dm("web", &md));
    // "web-team-standup" must not bypass routing
    assert!(!ChannelRoutingConfig::is_dm("web-team-standup", &md));
    assert!(!ChannelRoutingConfig::is_dm("agentiffai-dev-issues", &md));
}

#[test]
fn test_is_dm_slack_metadata() {
    let dm_meta = Json::parse(r#"{"channel": "D12345"}"#).unwrap();
    assert!(ChannelRoutingConfig::is_dm("slack", &dm_meta));
    assert!(!ChannelRoutingConfig::is_dm("slack-relay", &dm_meta));

    let chan_meta = Json::parse(r#"{"channel": "C12345"}"#).unwrap();
    assert!(!ChannelRoutingConfig::is_dm("slack", &chan_meta));

    let event_meta = Json::parse(r#"{"event_type": "direct_message"}"#).unwrap();
    assert!(ChannelRoutingConfig::is_dm("slack", &event_meta));
}

#[test]
fn test_is_dm_trusted_flag_works_for_any_channel() {
    let untrusted_meta = Json::parse(r#"{"event_type": "direct_message"}"#).unwrap();
    assert!(!ChannelRoutingConfig::is_dm("slack-relay", &untrusted_meta));
    assert!(!ChannelRoutingConfig::is_dm("telegram-relay", &untrusted_meta));

    let trusted_meta = Json::object()
        .with("event_type", Json::of_text("direct_message"))
        .with(TRUSTED_DM_METADATA_KEY, Json::Bool(true));
    assert!(ChannelRoutingConfig::is_dm("slack-relay", &trusted_meta));
    assert!(ChannelRoutingConfig::is_dm("telegram-relay", &trusted_meta));
    assert!(ChannelRoutingConfig::is_dm("some-future-relay", &trusted_meta));
}

#[test]
fn test_is_dm_telegram_metadata() {
    let private_meta = Json::parse(r#"{"chat_type": "private"}"#).unwrap();
    assert!(ChannelRoutingConfig::is_dm("telegram", &private_meta));

    let group_meta = Json::parse(r#"{"chat_type": "group"}"#).unwrap();
    assert!(!ChannelRoutingConfig::is_dm("telegram", &group_meta));
}

#[test]
fn test_filter_dm_returns_all_tools_for_tui_and_http() {
    let config = sample_config();
    let tools = ["Archon_list_tasks", "Smartlead_send", "shell"];
    let md = no_metadata();
    let bn = test_builtin_names();
    assert_eq!(
        config
            .filter_tool_defs("tui", &md, make_tools(&tools), &bn)
            .len(),
        3
    );
    assert_eq!(
        config
            .filter_tool_defs("http", &md, make_tools(&tools), &bn)
            .len(),
        3
    );
}

#[test]
fn test_filter_keeps_allowed_mcp_tools() {
    let config = config_of(
        r#"{
            "groups": {
                "minimal": ["Archon"],
                "dev": ["Archon", "Kiro", "Notion"],
                "leads": ["Archon", "Smartlead"]
            },
            "builtin_whitelist": {
                "minimal": ["memory_search", "create_job"]
            },
            "channels": {
                "agentiffai-dev-issues": "dev"
            },
            "default_group": "minimal"
        }"#,
    );
    let tools = make_tools(&[
        "Archon_list_tasks",
        "Kiro_run_task",
        "Notion_post_search",
        "Smartlead_send",
    ]);
    let md = no_metadata();
    let filtered =
        config.filter_tool_defs("agentiffai-dev-issues", &md, tools, &test_builtin_names());
    let names = names_of(&filtered);
    assert!(names.contains(&"Archon_list_tasks"));
    assert!(names.contains(&"Kiro_run_task"));
    assert!(names.contains(&"Notion_post_search"));
    assert!(!names.contains(&"Smartlead_send"));
}

#[test]
fn test_filter_restricts_builtins_when_whitelisted() {
    let config = sample_config();
    let tools = make_tools(&[
        "Archon_list_tasks",
        "memory_search",
        "create_job",
        "shell",
        "http_request",
    ]);
    let md = no_metadata();
    let filtered = config.filter_tool_defs("unmapped-channel", &md, tools, &test_builtin_names());
    let names = names_of(&filtered);
    assert!(names.contains(&"Archon_list_tasks"));
    assert!(names.contains(&"memory_search"));
    assert!(names.contains(&"create_job"));
    assert!(!names.contains(&"shell"));
    assert!(!names.contains(&"http_request"));
}

#[test]
fn test_filter_allows_all_builtins_when_no_whitelist() {
    let config = sample_config();
    let tools = make_tools(&["Archon_list_tasks", "shell", "memory_search"]);
    let md = no_metadata();
    let filtered =
        config.filter_tool_defs("agentiffai-dev-issues", &md, tools, &test_builtin_names());
    assert_eq!(filtered.len(), 3);
}

#[test]
fn test_filter_dm_returns_all_tools() {
    let config = sample_config();
    let tools = make_tools(&["Archon_list_tasks", "Smartlead_send", "shell"]);
    let md = no_metadata();
    let filtered = config.filter_tool_defs("gateway", &md, tools, &test_builtin_names());
    assert_eq!(filtered.len(), 3);
}

#[test]
fn test_validate_rejects_bad_default_group() {
    let config = config_of(
        r#"{
            "groups": {"minimal": ["Archon"]},
            "channels": {},
            "default_group": "typo"
        }"#,
    );
    assert_eq!(
        config.validate().unwrap_err(),
        "default_group 'typo' not found in groups"
    );
    assert!(config.accept().is_none());
}

#[test]
fn test_validate_rejects_bad_channel_mapping() {
    let config = config_of(
        r#"{
            "groups": {"minimal": ["Archon"]},
            "channels": {"some-channel": "nonexistent"},
            "default_group": "minimal"
        }"#,
    );
    assert_eq!(
        config.validate().unwrap_err(),
        "channel 'some-channel' maps to group 'nonexistent' which does not exist"
    );
    assert!(config.accept().is_none());
}

#[test]
fn test_validate_rejects_bad_builtin_whitelist_key() {
    let config = config_of(
        r#"{
            "groups": {"minimal": ["Archon"]},
            "builtin_whitelist": {"minmal": ["shell"]},
            "channels": {},
            "default_group": "minimal"
        }"#,
    );
    assert_eq!(
        config.validate().unwrap_err(),
        "builtin_whitelist references group 'minmal' which does not exist"
    );
    assert!(config.accept().is_none());
}

#[test]
fn valid_configurations_are_accepted() {
    let config = config_of(
        r#"{
            "groups": {"minimal": ["Archon"]},
            "channels": {},
            "default_group": "minimal"
        }"#,
    );
    assert!(config.validate().is_ok());
    assert_eq!(config.accept().unwrap().default_group, "minimal");
}

#[test]
fn test_prefix_matching_longest_wins() {
    // Kit vs KitchenAI — KitchenAI must match first
    let config = config_of(
        r#"{
            "groups": {
                "all": ["Kit", "KitchenAI"]
            },
            "channels": {},
            "default_group": "all"
        }"#,
    );
    assert_eq!(
        config.extract_mcp_server("KitchenAI_recipe_search"),
        Some("KitchenAI")
    );
    assert_eq!(
        config.extract_mcp_server("Kit_list_subscribers"),
        Some("Kit")
    );
}

#[test]
fn test_deserialize_precomputes_prefixes() {
    let config = config_of(
        r#"{
            "groups": {
                "all": ["Kit", "KitchenAI"]
            },
            "channels": {},
            "default_group": "all"
        }"#,
    );
    assert_eq!(
        config.extract_mcp_server("KitchenAI_recipe_search"),
        Some("KitchenAI")
    );
}

#[test]
fn test_unknown_group_blocks_mcp_and_applies_default_builtin_policy() {
    let mut config = sample_config();
    // Force a channel to map to a nonexistent group
    config
        .channels
        .insert("hacked-channel".to_string(), "nonexistent".to_string());
    let tools = make_tools(&["Archon_list_tasks", "memory_search", "shell"]);
    let md = no_metadata();
    let filtered = config.filter_tool_defs("hacked-channel", &md, tools, &test_builtin_names());
    let names = names_of(&filtered);
    assert!(!names.contains(&"Archon_list_tasks"));
    assert!(names.contains(&"memory_search"));
    assert!(!names.contains(&"shell"));
}

#[test]
fn test_partial_eq_detects_content_changes() {
    let config_a = sample_config();
    let mut config_b = sample_config();
    assert_eq!(config_a, config_b);

    config_b.default_group = "dev".to_string();
    assert_ne!(config_a, config_b);
}

#[test]
fn test_full_routing_scenario() {
    let config = config_of(
        r#"{
            "groups": {
                "minimal": ["Archon"],
                "content": ["Archon", "Notion", "Kit"],
                "dev": ["Archon", "Kiro", "Notion"]
            },
            "builtin_whitelist": {
                "content": ["memory_search", "memory_write", "create_job"]
            },
            "channels": {
                "agentiffai-marketing": "content",
                "agentiffai-dev-issues": "dev"
            },
            "default_group": "minimal"
        }"#,
    );

    let md = no_metadata();
    let all_tools = [
        "Archon_list_tasks",
        "Notion_post_search",
        "Kit_list_subscribers",
        "Kiro_run_task",
        "memory_search",
        "shell",
        "create_job",
    ];

    // Content channel: only Archon+Notion+Kit MCP tools + whitelisted builtins
    let bn = test_builtin_names();
    let content_tools =
        config.filter_tool_defs("agentiffai-marketing", &md, make_tools(&all_tools), &bn);
    assert_eq!(
        names_of(&content_tools),
        vec![
            "Archon_list_tasks",
            "Notion_post_search",
            "Kit_list_subscribers",
            "memory_search",
            "create_job",
        ]
    );

    // Dev channel: Archon+Kiro+Notion MCP tools, all builtins (no whitelist)
    let dev_tools =
        config.filter_tool_defs("agentiffai-dev-issues", &md, make_tools(&all_tools), &bn);
    assert_eq!(
        names_of(&dev_tools),
        vec![
            "Archon_list_tasks",
            "Notion_post_search",
            "Kiro_run_task",
            "memory_search",
            "shell",
            "create_job",
        ]
    );

    // DM (gateway): everything
    let dm_tools = config.filter_tool_defs("gateway", &md, make_tools(&all_tools), &bn);
    assert_eq!(dm_tools.len(), 7);

    // Slack DM via metadata: everything
    let slack_dm_meta = Json::parse(r#"{"channel": "D12345"}"#).unwrap();
    let slack_dm_tools =
        config.filter_tool_defs("slack", &slack_dm_meta, make_tools(&all_tools), &bn);
    assert_eq!(slack_dm_tools.len(), 7);
}

#[test]
fn test_extract_mcp_server_handles_multibyte_prefix() {
    let config = config_of(
        r#"{
            "groups": {
                "all": ["Café"]
            },
            "channels": {},
            "default_group": "all"
        }"#,
    );
    // "Café" is 5 bytes (UTF-8: C, a, f, 0xc3, 0xa9).
    assert_eq!(config.extract_mcp_server("Café_query"), Some("Café"));
    // A prefix that does not match must not panic either.
    assert_eq!(config.extract_mcp_server("Cafe_query"), None);
    assert_eq!(config.extract_mcp_server("Caf"), None);
}

#[test]
fn longest_means_longest_in_bytes_and_in_characters_alike() {
    let config = config_of(
        r#"{
            "groups": {"all": ["abc", "éé", "é", "éé_x"]},
            "channels": {},
            "default_group": "all"
        }"#,
    );
    assert_eq!(config.extract_mcp_server("abc_q"), Some("abc"));
    assert_eq!(config.extract_mcp_server("é_q"), Some("é"));
    assert_eq!(config.extract_mcp_server("éé_q"), Some("éé"));
    assert_eq!(config.extract_mcp_server("éé_x_q"), Some("éé_x"));
}

#[test]
fn test_is_tool_permitted_enforces_routing() {
    let config = config_of(
        r#"{
            "groups": {
                "minimal": ["Archon"],
                "dev": ["Archon", "Kiro"]
            },
            "builtin_whitelist": {
                "minimal": ["create_job"]
            },
            "channels": {
                "agentiffai-dev": "dev"
            },
            "default_group": "minimal"
        }"#,
    );

    let builtin_names = name_set(&["shell", "create_job", "memory_search", "web_search"]);

    // Channels that are always direct bypass routing entirely.
    assert!(config.is_tool_permitted("gateway", "Smartlead_send", &builtin_names));
    assert!(config.is_tool_permitted("cli", "shell", &builtin_names));

    // Dev channel: Archon + Kiro allowed, all builtins allowed (no whitelist).
    assert!(config.is_tool_permitted("agentiffai-dev", "Archon_list", &builtin_names));
    assert!(config.is_tool_permitted("agentiffai-dev", "Kiro_run", &builtin_names));
    assert!(!config.is_tool_permitted("agentiffai-dev", "Smartlead_send", &builtin_names));
    assert!(config.is_tool_permitted("agentiffai-dev", "shell", &builtin_names));

    // Minimal (default) channel: Archon only, create_job built-in only.
    assert!(config.is_tool_permitted("other-channel", "Archon_list", &builtin_names));
    assert!(!config.is_tool_permitted("other-channel", "Kiro_run", &builtin_names));
    assert!(config.is_tool_permitted("other-channel", "create_job", &builtin_names));
    assert!(!config.is_tool_permitted("other-channel", "shell", &builtin_names));

    // Unknown MCP server (not in any group, not a builtin) — fail closed.
    assert!(!config.is_tool_permitted("other-channel", "Serpstat_keywords", &builtin_names));
    assert!(!config.is_tool_permitted("agentiffai-dev", "Serpstat_keywords", &builtin_names));
}

#[test]
fn reload_reports_changes_of_content_only() {
    let mut in_force: Option<ChannelRoutingConfig> = None;
    assert!(!ChannelRoutingConfig::reload(&mut in_force, None));
    assert!(in_force.is_none());

    assert!(ChannelRoutingConfig::reload(&mut in_force, Some(sample_config())));
    assert!(in_force.is_some());
    assert!(!ChannelRoutingConfig::reload(&mut in_force, Some(sample_config())));

    let mut updated = sample_config();
    updated.default_group = "dev".to_string();
    assert!(ChannelRoutingConfig::reload(&mut in_force, Some(updated)));
    assert_eq!(in_force.as_ref().unwrap().default_group, "dev");

    assert!(ChannelRoutingConfig::reload(&mut in_force, None));
    assert!(in_force.is_none());
}

#[test]
fn equality_looks_at_every_field_and_not_at_the_order() {
    let a = sample_config();
    let b = config_of(
        r#"{
            "groups": {
                "dev": ["Archon", "Kiro", "Notion"],
                "minimal": ["Archon"]
            },
            "builtin_whitelist": {"minimal": ["memory_search", "create_job"]},
            "channels": {"agentiffai-dev-issues": "dev"},
            "default_group": "minimal"
        }"#,
    );
    assert_eq!(a, b);
    let mut c = sample_config();
    c.groups
        .insert("dev".to_string(), vec!["Archon".to_string()]);
    assert_ne!(a, c);
    let mut d = sample_config();
    d.channels.insert("more".to_string(), "dev".to_string());
    assert_ne!(a, d);
    assert_ne!(d, a);
    let mut e = sample_config();
    e.builtin_whitelist.insert("dev".to_string(), Vec::new());
    assert_ne!(a, e);
}

#[test]
fn filtering_twice_is_filtering_once() {
    let config = sample_config();
    let md = no_metadata();
    let bn = test_builtin_names();
    let tools = ["Archon_list_tasks", "shell", "create_job", "Kiro_run_task"];
    let once = config.filter_tool_defs("any", &md, make_tools(&tools), &bn);
    let names: Vec<String> = once.iter().map(|t| t.name.clone()).collect();
    let twice = config.filter_tool_defs("any", &md, once, &bn);
    assert_eq!(names, names_of(&twice));
    assert_eq!(names, vec!["Archon_list_tasks", "create_job"]);
}

#[test]
fn shown_tools_are_the_permitted_ones() {
    let config = sample_config();
    let md = no_metadata();
    let bn = test_builtin_names();
    for channel in ["agentiffai-dev-issues", "elsewhere", "slack"] {
        for tool in ["Archon_x", "Kiro_x", "shell", "create_job", "Other_x", "Archon"] {
            let shown = config
                .filter_tool_defs(channel, &md, make_tools(&[tool]), &bn)
                .len()
                == 1;
            assert_eq!(shown, config.is_tool_permitted(channel, tool, &bn));
        }
    }
}

#[test]
fn maps_replace_what_a_name_was_mapped_to() {
    let mut m: StringMap<u32> = StringMap::new();
    assert_eq!(m.len(), 0);
    m.insert("a".to_string(), 1);
    m.insert("b".to_string(), 2);
    m.insert("a".to_string(), 3);
    assert_eq!(m.len(), 2);
    assert_eq!(m.get("a"), Some(&3));
    assert_eq!(m.get("b"), Some(&2));
    assert_eq!(m.get("c"), None);
    assert!(m.contains_key("b"));
    assert!(!m.contains_key(""));
}

#[test]
fn a_copy_says_and_routes_the_same() {
    let config = sample_config();
    let mut copy = config.clone();
    assert_eq!(config, copy);
    let bn = test_builtin_names();
    for tool in ["Archon_x", "Kiro_x", "create_job", "shell", "Other_x"] {
        assert_eq!(
            config.is_tool_permitted("any", tool, &bn),
            copy.is_tool_permitted("any", tool, &bn)
        );
    }
    copy.default_group = "dev".to_string();
    copy.groups.insert("more".to_string(), Vec::new());
    assert_eq!(config, sample_config());
    assert_ne!(config, copy);
}

#[test]
fn tools_can_be_copied() {
    let tool = ToolDefinition {
        name: "n".to_string(),
        description: "d".to_string(),
        parameters: Json::parse(r#"{"a":[1]}"#).unwrap(),
    };
    let copy = tool.clone();
    assert_eq!((copy.name.as_str(), copy.description.as_str()), ("n", "d"));
    assert_eq!(copy.parameters.to_text(), r#"{"a":[1]}"#);
}

// Round trip through the on-disk format: a store built from
// selections, rendered to TOML and parsed back, carries the same
// preference fields and denotes the same command and path mappings.
// The rendering mirrors what the persistence glue writes: four
// sections — general, shells, commands, paths.

use semantic_cli::store::SemanticConfig;

fn to_toml_text(store: &SemanticConfig) -> String {
    let mut root = toml::Table::new();

    let mut general = toml::Table::new();
    general.insert(
        "command_style".to_string(),
        toml::Value::String(store.general.command_style.clone()),
    );
    general.insert(
        "folder_style".to_string(),
        toml::Value::String(store.general.folder_style.clone()),
    );
    root.insert("general".to_string(), toml::Value::Table(general));

    let mut shells = toml::Table::new();
    shells.insert(
        "default".to_string(),
        toml::Value::String(store.shells.default.clone()),
    );
    shells.insert(
        "enabled".to_string(),
        toml::Value::Array(
            store
                .shells
                .enabled
                .iter()
                .map(|s| toml::Value::String(s.clone()))
                .collect(),
        ),
    );
    shells.insert(
        "on_new_shell".to_string(),
        toml::Value::String(store.shells.on_new_shell.clone()),
    );
    root.insert("shells".to_string(), toml::Value::Table(shells));

    let mut commands = toml::Table::new();
    for (k, v) in &store.commands {
        commands.insert(k.clone(), toml::Value::String(v.clone()));
    }
    root.insert("commands".to_string(), toml::Value::Table(commands));

    let mut paths = toml::Table::new();
    for (k, v) in &store.paths {
        paths.insert(k.clone(), toml::Value::String(v.clone()));
    }
    root.insert("paths".to_string(), toml::Value::Table(paths));

    toml::to_string_pretty(&root).expect("the config renders as TOML")
}

fn section<'a>(parsed: &'a toml::Table, name: &str) -> &'a toml::Table {
    parsed[name].as_table().expect("section is a table")
}

fn table_entries(t: &toml::Table) -> Vec<(String, String)> {
    t.iter()
        .map(|(k, v)| (k.clone(), v.as_str().expect("string value").to_string()))
        .collect()
}

fn sorted(mut entries: Vec<(String, String)>) -> Vec<(String, String)> {
    entries.sort();
    entries
}

#[test]
fn persisted_store_loads_back_identically() {
    let store = SemanticConfig::from_selections("zsh", "natural", "verbose", "notify");
    let text = to_toml_text(&store);
    let parsed: toml::Table = toml::from_str(&text).expect("the rendered config parses");

    let general = section(&parsed, "general");
    assert_eq!(general["command_style"].as_str(), Some("natural"));
    assert_eq!(general["folder_style"].as_str(), Some("verbose"));

    let shells = section(&parsed, "shells");
    assert_eq!(shells["default"].as_str(), Some("zsh"));
    assert_eq!(shells["on_new_shell"].as_str(), Some("notify"));
    let enabled: Vec<&str> = shells["enabled"]
        .as_array()
        .expect("enabled is a list")
        .iter()
        .map(|v| v.as_str().expect("shell name"))
        .collect();
    assert_eq!(enabled, vec!["zsh"]);

    // the two alias tables come back as the same mappings
    assert_eq!(
        sorted(table_entries(section(&parsed, "commands"))),
        sorted(store.commands.clone())
    );
    assert_eq!(
        sorted(table_entries(section(&parsed, "paths"))),
        sorted(store.paths.clone())
    );
}

#[test]
fn empty_path_table_round_trips() {
    let store = SemanticConfig::from_selections("bash", "traditional", "traditional", "ignore");
    let text = to_toml_text(&store);
    let parsed: toml::Table = toml::from_str(&text).expect("the rendered config parses");
    assert!(section(&parsed, "paths").is_empty());
    assert_eq!(
        sorted(table_entries(section(&parsed, "commands"))),
        sorted(store.commands.clone())
    );
}

use semantic_cli::store::SemanticConfig;
use semantic_cli::strutil::{split_ws, str_eq};
use semantic_cli::translate::{translate, TranslationError};

fn natural_store() -> SemanticConfig {
    SemanticConfig::from_selections("fish", "natural", "natural", "auto-setup")
}

#[test]
fn translate_substitutes_a_mapped_path() {
    let store = natural_store();
    let plan = translate(&store, "goto", &vec!["/apps".to_string()]).unwrap();
    assert_eq!(plan.program, "cd");
    assert_eq!(plan.args, vec!["/usr/bin".to_string()]);
}

#[test]
fn translate_is_deterministic() {
    let store = natural_store();
    let a = translate(&store, "goto", &vec!["/apps".to_string()]).unwrap();
    let b = translate(&store, "goto", &vec!["/apps".to_string()]).unwrap();
    assert_eq!(a.program, b.program);
    assert_eq!(a.args, b.args);
}

#[test]
fn translate_passes_an_unmapped_argument_through() {
    let store = natural_store();
    let plan = translate(&store, "list", &vec!["/not/mapped".to_string()]).unwrap();
    assert_eq!(plan.program, "ls");
    assert_eq!(plan.args, vec!["-la".to_string(), "/not/mapped".to_string()]);
}

#[test]
fn translate_rejects_an_unknown_token() {
    let store = natural_store();
    let err = translate(&store, "frobnicate", &vec![]).unwrap_err();
    match err {
        TranslationError::UnknownCommand(t) => assert_eq!(t, "frobnicate"),
        other => panic!("expected UnknownCommand, got {:?}", other),
    }
}

#[test]
fn translate_keeps_fixed_args_before_trailing_args() {
    let store = natural_store();
    let plan = translate(&store, "install", &vec!["vim".to_string()]).unwrap();
    assert_eq!(plan.program, "sudo");
    assert_eq!(
        plan.args,
        vec!["pacman".to_string(), "-S".to_string(), "vim".to_string()]
    );
}

#[test]
fn translate_traditional_identity_mapping() {
    let store = SemanticConfig::from_selections("bash", "traditional", "traditional", "ignore");
    let plan = translate(&store, "ls", &vec![]).unwrap();
    assert_eq!(plan.program, "ls");
    assert!(plan.args.is_empty());
    // with no path mappings, every argument passes through unchanged
    let plan = translate(&store, "cd", &vec!["/apps".to_string()]).unwrap();
    assert_eq!(plan.args, vec!["/apps".to_string()]);
}

#[test]
fn translate_rejects_a_blank_mapping() {
    let mut store = natural_store();
    store.commands.insert(0, ("ghost".to_string(), "   ".to_string()));
    let err = translate(&store, "ghost", &vec![]).unwrap_err();
    match err {
        TranslationError::MalformedMapping(t) => assert_eq!(t, "ghost"),
        other => panic!("expected MalformedMapping, got {:?}", other),
    }
}

#[test]
fn translate_first_entry_wins_on_duplicate_keys() {
    let mut store = natural_store();
    store.commands.insert(0, ("goto".to_string(), "pushd".to_string()));
    let plan = translate(&store, "goto", &vec![]).unwrap();
    assert_eq!(plan.program, "pushd");
}

#[test]
fn split_ws_drops_extra_whitespace() {
    assert_eq!(split_ws("  sudo   pacman -Syu "), vec![
        "sudo".to_string(),
        "pacman".to_string(),
        "-Syu".to_string(),
    ]);
    assert_eq!(split_ws(""), Vec::<String>::new());
    assert_eq!(split_ws(" \t\n "), Vec::<String>::new());
    assert_eq!(split_ws("cd"), vec!["cd".to_string()]);
}

#[test]
fn str_eq_compares_by_characters() {
    assert!(str_eq("goto", "goto"));
    assert!(!str_eq("goto", "go-to"));
    assert!(!str_eq("", "a"));
    assert!(str_eq("", ""));
}

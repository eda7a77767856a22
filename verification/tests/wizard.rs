use semantic_cli::store::{natural_paths, traditional_commands};
use semantic_cli::wizard::{apply_intent, App, Intent, Step};

#[test]
fn new_session_defaults() {
    let app = App::new();
    assert_eq!(app.step, Step::Welcome);
    assert_eq!(app.shell_cursor, 0);
    assert_eq!(app.command_style_cursor, 0);
    assert_eq!(app.folder_style_cursor, 0);
    assert_eq!(app.new_shell_cursor, 0);
    assert_eq!(
        app.shells,
        vec!["fish".to_string(), "bash".to_string(), "zsh".to_string()]
    );
    assert_eq!(
        app.command_styles,
        vec!["natural".to_string(), "traditional".to_string(), "verbose".to_string()]
    );
    assert_eq!(app.folder_styles, app.command_styles);
    assert_eq!(app.new_shell_options.len(), 3);
    assert_eq!(app.new_shell_options[0].0, "auto-setup");
    assert_eq!(app.new_shell_options[1].0, "notify");
    assert_eq!(app.new_shell_options[2].0, "ignore");
    assert!(!app.should_quit);
    assert!(app.write_error.is_none());
}

#[test]
fn advance_and_back_round_trip_keeps_cursor() {
    let mut app = App::new();
    assert!(app.advance().is_none());
    assert_eq!(app.step, Step::Shell);
    app.move_down();
    assert_eq!(app.shell_cursor, 1);
    app.go_back();
    assert_eq!(app.step, Step::Welcome);
    assert_eq!(app.shell_cursor, 1);
    assert!(app.advance().is_none());
    assert_eq!(app.step, Step::Shell);
    assert_eq!(app.shell_cursor, 1);
}

#[test]
fn cursor_wraps_at_both_ends() {
    let mut app = App::new();
    app.advance();
    assert_eq!(app.step, Step::Shell);
    assert_eq!(app.shell_cursor, 0);
    app.move_up();
    assert_eq!(app.shell_cursor, 2);
    app.move_down();
    assert_eq!(app.shell_cursor, 0);
}

#[test]
fn cursor_moves_are_noops_outside_selection_steps() {
    let mut app = App::new();
    app.move_up();
    app.move_down();
    assert_eq!(app.step, Step::Welcome);
    assert_eq!(app.shell_cursor, 0);
    assert_eq!(app.command_style_cursor, 0);
    assert_eq!(app.folder_style_cursor, 0);
    assert_eq!(app.new_shell_cursor, 0);
}

#[test]
fn back_from_welcome_stays_at_welcome() {
    let mut app = App::new();
    app.go_back();
    assert_eq!(app.step, Step::Welcome);
}

#[test]
fn advance_on_summary_emits_config_and_stays() {
    let mut app = App::new();
    for _ in 0..5 {
        assert!(app.advance().is_none());
    }
    assert_eq!(app.step, Step::Summary);
    let emitted = app.advance();
    assert!(emitted.is_some());
    assert_eq!(app.step, Step::Summary);
}

#[test]
fn commit_failure_is_recorded_and_retryable() {
    let mut app = App::new();
    for _ in 0..5 {
        app.advance();
    }
    assert_eq!(app.step, Step::Summary);
    assert!(app.advance().is_some());
    app.finish_commit(Some("disk full".to_string()));
    assert_eq!(app.step, Step::Summary);
    assert_eq!(app.write_error, Some("disk full".to_string()));
    let retried = app.advance();
    assert!(retried.is_some());
    app.finish_commit(None);
    assert_eq!(app.step, Step::Done);
    assert!(app.write_error.is_none());
}

#[test]
fn going_back_clears_a_commit_error() {
    let mut app = App::new();
    for _ in 0..5 {
        app.advance();
    }
    app.finish_commit(Some("read-only file system".to_string()));
    assert!(app.write_error.is_some());
    app.go_back();
    assert!(app.write_error.is_none());
    assert_eq!(app.step, Step::NewShellBehavior);
}

#[test]
fn quit_flags_the_session() {
    let mut app = App::new();
    app.quit();
    assert!(app.should_quit);
    assert_eq!(app.step, Step::Welcome);
}

#[test]
fn end_to_end_traditional_selection() {
    let mut app = App::new();
    app.advance(); // Welcome -> Shell; "fish" stays selected
    app.advance(); // Shell -> CommandStyle
    app.move_down(); // "traditional"
    app.advance(); // -> FolderStyle
    app.move_down(); // "traditional"
    app.advance(); // -> NewShellBehavior
    app.move_down();
    app.move_down(); // "ignore"
    app.advance(); // -> Summary
    assert_eq!(app.step, Step::Summary);
    let cfg = app.advance().expect("summary emits a configuration");
    assert_eq!(cfg.shells.default, "fish");
    assert_eq!(cfg.general.command_style, "traditional");
    assert_eq!(cfg.general.folder_style, "traditional");
    assert_eq!(cfg.shells.on_new_shell, "ignore");
    assert_eq!(cfg.commands, traditional_commands());
    assert!(cfg.paths.is_empty());
    app.finish_commit(None);
    assert_eq!(app.step, Step::Done);
}

#[test]
fn end_to_end_natural_folder_style() {
    let mut app = App::new();
    app.advance();
    app.advance();
    app.advance(); // folder style stays "natural"
    app.advance();
    app.advance();
    let cfg = app.advance().expect("summary emits a configuration");
    assert_eq!(cfg.paths, natural_paths());
}

#[test]
fn intents_map_to_session_operations() {
    let mut app = App::new();
    assert!(apply_intent(&mut app, Intent::Noop).is_none());
    assert_eq!(app.step, Step::Welcome);
    assert!(apply_intent(&mut app, Intent::Confirm).is_none());
    assert_eq!(app.step, Step::Shell);
    apply_intent(&mut app, Intent::Up);
    assert_eq!(app.shell_cursor, 2);
    apply_intent(&mut app, Intent::Down);
    assert_eq!(app.shell_cursor, 0);
    apply_intent(&mut app, Intent::Back);
    assert_eq!(app.step, Step::Welcome);
    apply_intent(&mut app, Intent::Quit);
    assert!(app.should_quit);
}

#[test]
fn step_chain_is_linear() {
    let order = [
        Step::Welcome,
        Step::Shell,
        Step::CommandStyle,
        Step::FolderStyle,
        Step::NewShellBehavior,
        Step::Summary,
        Step::Done,
    ];
    for (i, s) in order.iter().enumerate() {
        assert_eq!(s.index(), i);
        if i + 1 < order.len() {
            assert_eq!(s.next(), order[i + 1]);
        }
        if i > 0 && *s != Step::Done {
            assert_eq!(s.prev(), order[i - 1]);
        }
    }
    assert_eq!(Step::Done.next(), Step::Done);
    assert_eq!(Step::Done.prev(), Step::Done);
    assert_eq!(Step::Welcome.prev(), Step::Welcome);
}

use gh_backup::cli::{backup_dir_step, BackupDirStep, Cli, Commands, DEFAULT_TASK_LIMIT};
use gh_backup::confirm::{is_affirmative, is_yes};
use gh_backup::restore::{conclude_restore, restore, RestoreError};
use gh_backup::transfer::ProcessReport;

#[test]
fn restore_of_a_missing_mirror_fails_before_anything_runs() {
    match restore("/backup/gone.git", false, "/work/copy", false) {
        Err(RestoreError::MirrorMissing { path }) => assert_eq!(path, "/backup/gone.git"),
        other => panic!("unexpected plan: {:?}", other),
    }
}

#[test]
fn missing_mirror_is_reported_before_an_existing_destination() {
    match restore("/backup/gone.git", false, "/work/copy", true) {
        Err(RestoreError::MirrorMissing { path }) => assert_eq!(path, "/backup/gone.git"),
        other => panic!("unexpected plan: {:?}", other),
    }
}

#[test]
fn restore_to_an_existing_destination_fails() {
    match restore("/backup/acme_widgets.git", true, "/work/copy", true) {
        Err(RestoreError::DestinationExists { path }) => assert_eq!(path, "/work/copy"),
        other => panic!("unexpected plan: {:?}", other),
    }
}

#[test]
fn restore_clones_the_mirror_to_the_destination() {
    let invocation = restore("/backup/acme_widgets.git", true, "/work/copy", false).unwrap();
    assert_eq!(invocation.args, vec!["clone", "/backup/acme_widgets.git", "/work/copy"]);
    assert_eq!(invocation.working_dir, None);
}

#[test]
fn restore_succeeds_only_on_exit_code_zero() {
    assert!(conclude_restore(ProcessReport::Exited { code: Some(0) }).is_ok());
    for code in [Some(1), Some(128), None] {
        match conclude_restore(ProcessReport::Exited { code }) {
            Err(RestoreError::CommandFailed { code: reported }) => assert_eq!(reported, code),
            other => panic!("unexpected result: {:?}", other),
        }
    }
    match conclude_restore(ProcessReport::LaunchFailed { detail: "no git".to_string() }) {
        Err(RestoreError::LaunchFailed { detail }) => assert_eq!(detail, "no git"),
        other => panic!("unexpected result: {:?}", other),
    }
}

#[test]
fn yes_words_are_y_and_yes() {
    assert!(is_yes("y"));
    assert!(is_yes("yes"));
    for word in ["", "n", "no", "ye", "yess", "Y", "YES", " y", "yes ", "yea", "oui", "é", "yés"] {
        assert!(!is_yes(word), "{:?}", word);
    }
}

#[test]
fn answer_is_trimmed_and_lowercased() {
    for answer in ["y", "Y", "yes", "YES", "Yes", "yEs", "  y  ", "yes\n", "\tYES\r\n", " Y\n"] {
        assert!(is_affirmative(answer), "{:?}", answer);
    }
    for answer in ["", "\n", "n", "N", "no", "nope", "y e s", "yes!", "ye", "yy", "1", "true"] {
        assert!(!is_affirmative(answer), "{:?}", answer);
    }
}

#[test]
fn absolute_backup_directory_is_used_as_given() {
    assert_eq!(backup_dir_step(true, true), BackupDirStep::UseAsGiven);
    assert_eq!(backup_dir_step(true, false), BackupDirStep::UseAsGiven);
}

#[test]
fn relative_backup_directory_is_created_where_missing_and_resolved() {
    assert_eq!(backup_dir_step(false, false), BackupDirStep::Resolve { create_first: true });
    assert_eq!(backup_dir_step(false, true), BackupDirStep::Resolve { create_first: false });
}

#[test]
fn five_transfers_run_at_once_by_default() {
    assert_eq!(DEFAULT_TASK_LIMIT, 5);
}

#[test]
fn command_line_holds_both_commands() {
    let backup = Cli {
        command: Commands::Backup {
            username: "acme".to_string(),
            backup_dir: "./backup".to_string(),
            include_all_branches: true,
            token: "SECRET-REDACTED".to_string(),
            exclude: vec!["a/*".to_string()],
        },
        yes: false,
        task_limit: DEFAULT_TASK_LIMIT,
    };
    assert!(matches!(backup.command, Commands::Backup { include_all_branches: true, .. }));
    let restore = Cli {
        command: Commands::Restore { path: "m.git".to_string(), destination: "w".to_string() },
        yes: true,
        task_limit: 1,
    };
    match restore.command {
        Commands::Restore { path, destination } => {
            assert_eq!(path, "m.git");
            assert_eq!(destination, "w");
        }
        Commands::Backup { .. } => panic!("the wrong command"),
    }
}

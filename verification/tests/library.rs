use wf2::cli_output::{CLIError, CLIOutput, ConfigFileError, Matches, SubcommandMatches};
use wf2::cmd::Cmd;
use wf2::context::{Context, RunMode};
use wf2::path::FilePath;
use wf2::php::{php_expecting, php_from_str, PHP};
use wf2::m2::recipe::resolve_cmd;
use wf2::task::Task;

fn sub(name: &str) -> SubcommandMatches {
    SubcommandMatches {
        name: name.to_string(),
        cmd: None,
        file: None,
        root: false,
        external: None,
        paths: None,
        force: false,
    }
}

fn with_sub(s: SubcommandMatches) -> Matches {
    Matches { cwd: None, php: None, dryrun: false, subcommand: Some(s) }
}

#[test]
fn php_default_and_parsing() {
    assert_eq!(PHP::default(), PHP::SevenThree);
    assert_eq!(php_from_str("7.1").unwrap(), PHP::SevenOne);
    assert_eq!(php_from_str("7.2").unwrap(), PHP::SevenTwo);
    assert_eq!(php_from_str("7.3").unwrap(), PHP::SevenThree);
    assert_eq!(php_from_str("7.4").unwrap_err(), "expected either 7.1, 7.2 or 7.3");
    assert_eq!(php_expecting(), "either `7.1`, `7.2` or `7.3`");
}

#[test]
fn config_file_errors() {
    match CLIOutput::create_context(Err(ConfigFileError::SerdeError("bad".to_string()))) {
        Err(CLIError::InvalidConfig(e)) => assert_eq!(e, "bad"),
        _ => unreachable!(),
    }
    let c = CLIOutput::create_context(Err(ConfigFileError::FileOpen(FilePath::new("wf2.yml")))).unwrap();
    assert_eq!(c.php_version, PHP::SevenThree);
    assert_eq!(c.run_mode, RunMode::Exec);
    match CLIOutput::create_context_from_arg(Err(ConfigFileError::FileOpen(FilePath::new("x.yml")))) {
        Err(CLIError::MissingConfig(p)) => assert_eq!(p.text, "x.yml"),
        _ => unreachable!(),
    }
    assert!(matches!(
        CLIOutput::create_context_from_arg(Err(ConfigFileError::InvalidExtension)),
        Err(CLIError::InvalidExtension)
    ));
    assert!(matches!(
        CLIOutput::create_context_from_arg(Err(ConfigFileError::FileRead)),
        Err(CLIError::InvalidExtension)
    ));
    assert!(matches!(
        CLIOutput::create_context_from_arg(Err(ConfigFileError::SerdeError("e".to_string()))),
        Err(CLIError::InvalidConfig(_))
    ));
}

#[test]
fn sub_commands_select_commands() {
    assert!(matches!(CLIOutput::get_cmd_from_cli(&with_sub(sub("doctor"))), Some(Cmd::Doctor)));
    assert!(matches!(CLIOutput::get_cmd_from_cli(&with_sub(sub("stop"))), Some(Cmd::Stop)));
    assert!(matches!(CLIOutput::get_cmd_from_cli(&with_sub(sub("db-dump"))), Some(Cmd::DBDump)));
    assert!(CLIOutput::get_cmd_from_cli(&with_sub(sub("logs"))).is_none());
    let mut s = sub("db-import");
    s.file = Some("dump.sql".to_string());
    match CLIOutput::get_cmd_from_cli(&with_sub(s)) {
        Some(Cmd::DBImport { path }) => assert_eq!(path.text, "dump.sql"),
        _ => unreachable!(),
    }
    let mut s = sub("pull");
    s.cmd = Some(vec!["app".to_string(), "vendor".to_string()]);
    match CLIOutput::get_cmd_from_cli(&with_sub(s)) {
        Some(Cmd::Pull { trailing }) => assert_eq!(trailing, vec!["app", "vendor"]),
        _ => unreachable!(),
    }
    let mut s = sub("m");
    s.cmd = Some(vec!["c:f".to_string()]);
    match CLIOutput::get_cmd_from_cli(&with_sub(s)) {
        Some(Cmd::Mage { trailing }) => assert_eq!(trailing, "c:f"),
        _ => unreachable!(),
    }
    let mut s = sub("npm");
    s.external = Some(vec!["run".to_string(), "watch".to_string(), "-vvv".to_string()]);
    match CLIOutput::get_cmd_from_cli(&with_sub(s)) {
        Some(Cmd::Npm { user, trailing }) => {
            assert_eq!(user, "www-data");
            assert_eq!(trailing, "npm run watch -vvv");
        }
        _ => unreachable!(),
    }
    assert!(CLIOutput::get_cmd_from_cli(&Matches { cwd: None, php: None, dryrun: false, subcommand: None }).is_none());
}

#[test]
fn default_context_and_merge() {
    let c = Context::default();
    assert_eq!(c.cwd.text, "");
    assert_eq!(c.term.width, 80);
    assert_eq!(c.term.height, 30);
    assert_eq!(Context::get_context_name(&FilePath::new("/users/sites/acme-site")), "acme-site");
}

#[test]
fn commands_without_tasks_here_are_answered_with_an_error() {
    let ctx = Context::default();
    match resolve_cmd(&ctx, Cmd::Up).unwrap().as_slice() {
        [Task::NotifyError { message }] => assert_eq!(message, "wf2 up: this command has no tasks in this build"),
        _ => unreachable!(),
    }
    match resolve_cmd(&ctx, Cmd::DBImport { path: FilePath::new("d.sql") }).unwrap().as_slice() {
        [Task::NotifyError { message }] => assert_eq!(message, "wf2 db-import: this command has no tasks in this build"),
        _ => unreachable!(),
    }
}

#[test]
fn default_config_context_runs_npm_in_web_root() {
    let c = CLIOutput::create_context(Err(ConfigFileError::FileRead)).unwrap();
    assert_eq!(c.npm_path.text, ".");
    assert_eq!(wf2::cli_output::default_config_file_name(), "wf2.yml");
}

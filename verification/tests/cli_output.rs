use wf2::cli_output::{CLIInput, CLIOutput, Matches, SubcommandMatches};
use wf2::context::{Context, Term};
use wf2::path::FilePath;
use wf2::php::{php_from_str, PHP};
use wf2::task::{FileOp, Task};

fn strings(v: &[&str]) -> Vec<String> {
    v.iter().map(|s| s.to_string()).collect()
}

fn sub(name: &str) -> SubcommandMatches {
    SubcommandMatches {
        name: name.to_string(),
        cmd: None,
        file: None,
        root: false,
        external: None,
        paths: None,
        force: false,
    }
}

fn matches(sub: Option<SubcommandMatches>) -> Matches {
    Matches { cwd: None, php: None, dryrun: false, subcommand: sub }
}

fn input(args: &[&str], cwd: &str) -> CLIInput {
    CLIInput {
        args: strings(args),
        cwd: FilePath::new(cwd),
        term: Term { width: 80, height: 30 },
        pv: None,
    }
}

fn commands(tasks: Vec<Task>) -> Vec<String> {
    tasks
        .into_iter()
        .map(|t| match t {
            Task::SimpleCommand { command } => command,
            Task::NotifyError { message } => message,
            _ => unreachable!(),
        })
        .collect()
}

#[test]
fn test_php_version_in_config() {
    // `../fixtures/config_php_71.yaml` sets `php_version: 7.1`; the
    // context read from it is the base for the command line `up`.
    let mut from_file = Context::default();
    from_file.php_version = php_from_str("7.1").unwrap();
    let ctx = CLIOutput::create_context_from_arg(Ok(from_file)).unwrap();
    let m = matches(Some(sub("up")));
    let cli_output = CLIOutput::new_from_ctx(
        &m,
        &ctx,
        input(&["prog", "--config", "../fixtures/config_php_71.yaml", "up"], "/users/site"),
    );
    assert_eq!(cli_output.unwrap().ctx.php_version, PHP::SevenOne);
}

#[test]
fn test_php_version_in_flag() {
    let ctx = CLIOutput::create_context_from_arg(Ok(Context::default())).unwrap();
    let mut m = matches(Some(sub("up")));
    m.php = Some("7.1".to_string());
    let cli_output = CLIOutput::new_from_ctx(
        &m,
        &ctx,
        input(&["prog", "--config", "../fixtures/config_01.yaml", "--php", "7.1", "up"], "/users/site"),
    );
    assert_eq!(cli_output.unwrap().ctx.php_version, PHP::SevenOne);
}

#[test]
fn test_pass_through_composer() {
    let mut s = sub("composer");
    s.external = Some(strings(&["install", "-vvv"]));
    let m = matches(Some(s));
    let cli_output = CLIOutput::new_from_matches(
        &m,
        input(&["prog", "composer", "install", "-vvv"], "/users/sites/crafters"),
    )
    .unwrap();
    let expected_cmd = r#"docker exec -it -u www-data wf2__crafters__php composer install -vvv"#;
    let tasks = cli_output.tasks.unwrap();
    assert_eq!(tasks.len(), 1);
    match tasks.get(0).unwrap() {
        Task::SimpleCommand { command } => {
            assert_eq!(expected_cmd, command);
        }
        _ => unreachable!(),
    };
}

#[test]
fn test_merge_context() {
    let m = matches(None);
    let cli_output = CLIOutput::new_from_matches(&m, input(&["prog"], "/users/sites/acme-site")).unwrap();
    assert_eq!("acme-site", cli_output.ctx.name);
    assert_eq!("/users/sites/acme-site", cli_output.ctx.cwd.text);
}

#[test]
fn test_down_01() {
    let mut m = matches(Some(sub("down")));
    m.cwd = Some("/users/shane".to_string());
    let expected = "docker-compose -f /users/shane/.wf2_m2_shane/docker-compose.yml down";
    let cli_output = CLIOutput::new_from_matches(&m, input(&["prog", "--cwd", "/users/shane", "down"], "/"));
    assert_eq!(vec![expected], commands(cli_output.expect("test").tasks.unwrap()));
}

fn test_npm(tasks: Vec<Task>, expected_cmd: &str, expected_path: &str) {
    match tasks.get(0).unwrap() {
        Task::Sequence(tasks) => {
            match tasks.get(0) {
                Some(Task::File { kind: FileOp::Write { .. }, path }) => {
                    assert_eq!(expected_path, path.text);
                }
                _ => unreachable!(),
            };
            match tasks.get(1) {
                Some(Task::Command { command, .. }) => {
                    assert_eq!(expected_cmd, command);
                }
                _ => unreachable!(),
            };
        }
        _ => unreachable!(),
    };
}

#[test]
fn exec_command() {
    let mut s = sub("exec");
    s.cmd = Some(strings(&["ls"]));
    let m = matches(Some(s));
    let input = CLIInput { args: strings(&["prog", "exec", "ls"]), ..CLIInput::default() };
    let cli_output = CLIOutput::new_from_matches(&m, input);
    let tasks = cli_output.unwrap().tasks.unwrap();
    match tasks.get(0).unwrap() {
        Task::SimpleCommand { command, .. } => {
            assert_eq!(command, "docker exec -it -u www-data -e COLUMNS=\"80\" -e LINES=\"30\" wf2__wf2_default__php ls")
        }
        _ => unreachable!(),
    }
}

#[test]
fn test_pass_through_npm() {
    // `../fixtures/config_01.yaml` runs npm in `app/code/frontend/Acme/design`.
    let mut from_file = Context::default();
    from_file.npm_path = FilePath::new("app/code/frontend/Acme/design");
    let ctx = CLIOutput::create_context_from_arg(Ok(from_file)).unwrap();
    let mut s = sub("npm");
    s.external = Some(strings(&["run", "watch", "-vvv"]));
    let m = matches(Some(s));
    let cli_output = CLIOutput::new_from_ctx(
        &m,
        &ctx,
        input(&["prog", "--config", "../fixtures/config_01.yaml", "npm", "run", "watch", "-vvv"], "/users"),
    )
    .unwrap();
    let expected_cmd = "docker-compose -f /users/.wf2_default/docker-compose.yml run --workdir /var/www/app/code/frontend/Acme/design node npm run watch -vvv";
    let expected_path = "/users/.wf2_default/docker-compose.yml";
    test_npm(cli_output.tasks.unwrap(), expected_cmd, expected_path);
}

#[test]
fn test_pass_through_npm_no_config() {
    let mut s = sub("npm");
    s.external = Some(strings(&["run", "watch", "-vvv"]));
    let m = matches(Some(s));
    let cli_output =
        CLIOutput::new_from_matches(&m, input(&["prog", "npm", "run", "watch", "-vvv"], "/users")).unwrap();
    let expected_cmd = "docker-compose -f /users/.wf2_default/docker-compose.yml run --workdir /var/www/. node npm run watch -vvv";
    let expected_path = "/users/.wf2_default/docker-compose.yml";
    test_npm(cli_output.tasks.unwrap(), expected_cmd, expected_path);
}

#[test]
fn npm_writes_the_compose_file_it_runs_with() {
    let mut s = sub("npm");
    s.external = Some(strings(&["ci"]));
    let m = matches(Some(s));
    let out = CLIOutput::new_from_matches(&m, input(&["prog", "npm", "ci"], "/srv/shop")).unwrap();
    let tasks = out.tasks.unwrap();
    assert_eq!(tasks.len(), 1);
    match &tasks[0] {
        Task::Sequence(steps) => match &steps[0] {
            Task::File { kind: FileOp::Write { content }, path } => {
                assert_eq!(path.text, "/srv/shop/.wf2_default/docker-compose.yml");
                let text = String::from_utf8(content.clone()).unwrap();
                assert_eq!(text, "version: \"3\"\nservices:\n  node:\n    image: node\n    volumes:\n      - /srv/shop:/var/www\n");
            }
            _ => unreachable!(),
        },
        _ => unreachable!(),
    }
}

#[test]
fn project_name_ignores_trailing_dot_and_falls_back_to_default() {
    let m = matches(None);
    let out = CLIOutput::new_from_matches(&m, input(&["prog"], "/users/x/.")).unwrap();
    assert_eq!(out.ctx.name, "x");
    let out = CLIOutput::new_from_matches(&m, input(&["prog"], "/")).unwrap();
    assert_eq!(out.ctx.name, "wf2_default");
}

#[test]
fn exec_command_as_root_with_other_terminal() {
    let mut s = sub("exec");
    s.cmd = Some(strings(&["bin/magento", "c:f"]));
    s.root = true;
    let m = matches(Some(s));
    let mut i = input(&["prog", "exec", "--root", "bin/magento", "c:f"], "/www/shop");
    i.term = Term { width: 120, height: 7 };
    let cli_output = CLIOutput::new_from_matches(&m, i).unwrap();
    assert_eq!(
        commands(cli_output.tasks.unwrap()),
        vec!["docker exec -it -u root -e COLUMNS=\"120\" -e LINES=\"7\" wf2__shop__php bin/magento c:f"]
    );
}

#[test]
fn dryrun_flag_sets_run_mode_and_cwd_flag_wins() {
    let mut m = matches(None);
    m.dryrun = true;
    m.cwd = Some("/other/place/".to_string());
    let out = CLIOutput::new_from_matches(&m, input(&["prog"], "/users/a")).unwrap();
    assert_eq!(out.ctx.run_mode, wf2::context::RunMode::DryRun);
    assert_eq!(out.ctx.cwd.text, "/other/place/");
    assert_eq!(out.ctx.name, "place");
    assert!(out.tasks.is_none());
}

#[test]
fn php_flag_other_than_71_selects_72() {
    let mut m = matches(None);
    m.php = Some("7.3".to_string());
    let out = CLIOutput::new_from_matches(&m, input(&["prog"], "/a/b")).unwrap();
    assert_eq!(out.ctx.php_version, PHP::SevenTwo);
    let m = matches(None);
    let out = CLIOutput::new_from_matches(&m, input(&["prog"], "/a/b")).unwrap();
    assert_eq!(out.ctx.php_version, PHP::SevenThree);
}

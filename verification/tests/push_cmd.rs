use wf2::cli_output::{CLIInput, CLIOutput, Matches, SubcommandMatches};
use wf2::context::Term;
use wf2::path::FilePath;
use wf2::task::Task;

fn commands(tasks: Vec<Task>) -> Vec<String> {
    tasks
        .into_iter()
        .map(|t| match t {
            Task::SimpleCommand { command } => command,
            Task::NotifyError { message } => message,
            _ => unreachable!(),
        })
        .collect()
}

fn push_matches(paths: &[&str], force: bool) -> Matches {
    Matches {
        cwd: None,
        php: None,
        dryrun: false,
        subcommand: Some(SubcommandMatches {
            name: "push".to_string(),
            cmd: None,
            file: None,
            root: false,
            external: None,
            paths: Some(paths.iter().map(|s| s.to_string()).collect()),
            force,
        }),
    }
}

fn run_push(args: Vec<&str>, paths: &[&str], force: bool, cwd: &str) -> Vec<Task> {
    let input = CLIInput {
        args: args.iter().map(|s| s.to_string()).collect(),
        cwd: FilePath::new(cwd),
        term: Term { width: 80, height: 30 },
        pv: None,
    };
    let cli_output = CLIOutput::new_from_matches(&push_matches(paths, force), input);
    cli_output.expect("test").tasks.unwrap()
}

fn test_push(args: Vec<&str>, paths: &[&str], force: bool, cwd: &str, expected_commands: Vec<&str>) {
    let tasks = run_push(args, paths, force, cwd);
    assert_eq!(commands(tasks), expected_commands);
}

fn test_push_invalid(args: Vec<&str>, paths: &[&str]) {
    let tasks = run_push(args, paths, false, "/users/acme");
    match tasks.get(0) {
        Some(Task::NotifyError { .. }) => {}
        _ => unreachable!(),
    }
}

#[test]
fn test_push_dir() {
    let expected_commands = vec![
        "docker exec wf2__acme__php rm -rf /var/www/vendor/shane",
        "docker exec -u www-data wf2__acme__php mkdir -p /var/www/vendor",
        "docker cp /users/acme/vendor/shane wf2__acme__php:/var/www/vendor",
    ];
    test_push(vec!["prog", "push", "vendor/shane"], &["vendor/shane"], false, "/users/acme", expected_commands);
}

#[test]
fn test_push_single_file() {
    let expected_commands = vec![
        "docker exec wf2__acme__php rm -rf /var/www/composer.json",
        "docker cp /users/acme/composer.json wf2__acme__php:/var/www",
    ];
    test_push(vec!["prog", "push", "composer.json"], &["composer.json"], false, "/users/acme", expected_commands);
}

#[test]
fn test_push_invalid_files() {
    test_push_invalid(vec!["prog", "push", "app/"], &["app/"]);
    test_push_invalid(vec!["prog", "push", "app/code"], &["app/code"]);
    test_push_invalid(vec!["prog", "push", "app/code/Acme/Lib/File"], &["app/code/Acme/Lib/File"]);
    test_push_invalid(vec!["prog", "push", "vendor/magento", "app/code"], &["vendor/magento", "app/code"]);
}

#[test]
fn test_push_invalid_files_with_force() {
    let expected_commands = vec![
        "docker cp /users/acme/app/code/Acme/Lib/File wf2__acme__php:/var/www/app/code/Acme/Lib",
    ];
    test_push(
        vec!["prog", "push", "app/code/Acme/Lib/File", "-f"],
        &["app/code/Acme/Lib/File"],
        true,
        "/users/acme",
        expected_commands,
    );
}

#[test]
fn push_refusal_names_only_protected_paths() {
    let tasks = run_push(vec!["prog", "push"], &["composer.json", "app/etc", "vendor/magento/x"], false, "/users/acme");
    assert_eq!(tasks.len(), 1);
    match &tasks[0] {
        Task::NotifyError { message } => {
            assert_eq!(message, "Refusing to push protected paths without -f: app/etc, vendor/magento/x");
        }
        _ => unreachable!(),
    }
}

#[test]
fn push_several_paths_in_order() {
    let tasks = run_push(vec!["prog", "push"], &["a.txt", "pub/static/x", "/abs/f"], false, "/users/acme");
    assert_eq!(
        commands(tasks),
        vec![
            "docker exec wf2__acme__php rm -rf /var/www/a.txt",
            "docker cp /users/acme/a.txt wf2__acme__php:/var/www",
            "docker exec wf2__acme__php rm -rf /var/www/pub/static/x",
            "docker exec -u www-data wf2__acme__php mkdir -p /var/www/pub/static",
            "docker cp /users/acme/pub/static/x wf2__acme__php:/var/www/pub/static",
            "docker exec wf2__acme__php rm -rf /abs/f",
            "docker exec -u www-data wf2__acme__php mkdir -p /abs",
            "docker cp /abs/f wf2__acme__php:/abs",
        ]
    );
}

#[test]
fn push_with_force_only_copies() {
    let tasks = run_push(vec!["prog", "push", "-f"], &["vendor/shane", "app"], true, "/users/acme");
    assert_eq!(
        commands(tasks),
        vec![
            "docker cp /users/acme/vendor/shane wf2__acme__php:/var/www/vendor",
            "docker cp /users/acme/app wf2__acme__php:/var/www",
        ]
    );
}

#[test]
fn push_paths_with_dot_components() {
    let tasks = run_push(vec!["prog", "push", "./a"], &["./a"], false, "/users/acme");
    assert_eq!(
        commands(tasks),
        vec![
            "docker exec wf2__acme__php rm -rf /var/www/./a",
            "docker cp /users/acme/./a wf2__acme__php:/var/www",
        ]
    );
}

#[test]
fn push_nothing_gives_no_tasks() {
    let tasks = run_push(vec!["prog", "push"], &[], false, "/users/acme");
    assert!(tasks.is_empty());
}

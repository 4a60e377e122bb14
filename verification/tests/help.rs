use wf2::m2::playground_help::{help, up_help, M2Playground};
use wf2::path::FilePath;

#[test]
fn test_help() {
    let pg = M2Playground {
        dir: FilePath::new("/user/shakyshane"),
        version: String::from("2.3.4"),
        username: "".to_string(),
        password: "".to_string(),
    };
    let h = help(&pg);
    assert!(h.starts_with("Next steps:\n\n    Stop existing docker containers:"));
    assert!(h.contains("\n       cd shakyshane\n       wf2 up\n\n    "));
    assert!(h.ends_with(&up_help()));
}

#[test]
fn help_names_a_directory_given_with_a_trailing_dot() {
    let pg = M2Playground {
        dir: FilePath::new("/user/shakyshane/."),
        version: String::from("2.3.4"),
        username: "u".to_string(),
        password: "p".to_string(),
    };
    assert!(help(&pg).contains("\n       cd shakyshane\n"));
}

#[test]
fn up_help_lists_the_first_steps() {
    let u = up_help();
    assert!(u.starts_with("If this is your first time running this site - you\n"));
    assert!(u.contains("       wf2 doctor\n       wf2 composer install\n       wf2 exec magento-install\n"));
    assert!(u.contains("https://local.m2"));
    assert!(u.ends_with("Have fun :)\n\n    "));
}

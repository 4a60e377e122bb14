use wf2::path::{path_buf_to_string, FilePath};
use wf2::util::{replace_env, substitute_env_refs, EnvVars};

#[test]
fn test_eject() {
    let dc_bytes = b"wf__${WF2_PWD}__unison";
    let mut hm = EnvVars::new();
    hm.insert("WF2_PWD".to_string(), "/shane".to_string());
    let output = replace_env(hm, dc_bytes);
    println!("{:?}", output);
    assert_eq!(output, b"wf__/shane__unison".to_vec());
}

#[test]
fn replace_env_unknown_names_become_dots() {
    let mut env = EnvVars::new();
    env.insert("A".to_string(), "1".to_string());
    env.insert("B".to_string(), "two".to_string());
    env.insert("A".to_string(), "éé".to_string());
    let out = replace_env(env, "${A}-${C}-${B}${}-$B-${A}}".as_bytes());
    // `.+?` takes at least one character, so `${}` reaches to the next `}`.
    assert_eq!(String::from_utf8(out).unwrap(), "éé-...-two...}");
}

#[test]
fn replace_env_without_placeholders_is_unchanged() {
    let out = replace_env(EnvVars::new(), "plain text, $HOME and {x}".as_bytes());
    assert_eq!(out, "plain text, $HOME and {x}".as_bytes().to_vec());
}

#[test]
fn substitute_env_refs_uses_the_given_spans() {
    let mut env = EnvVars::new();
    env.insert("X".to_string(), "42".to_string());
    let input = b"a${X}b${Y}c";
    let spans = vec![(1usize, 5usize, Some((3usize, 4usize))), (6, 10, Some((8, 9)))];
    let out = substitute_env_refs(&env, input, &spans);
    assert_eq!(out, b"a42b...c".to_vec());
}

#[test]
fn path_buf_to_string_gives_the_path_text() {
    assert_eq!(path_buf_to_string(&FilePath::new("/users/shane/x.yml")), "/users/shane/x.yml");
}

#[test]
fn path_operations() {
    let p = FilePath::new("/var/www/app/");
    assert_eq!(p.file_name().unwrap(), "app");
    assert_eq!(p.parent().unwrap().text, "/var/www");
    assert_eq!(FilePath::new("/foo").parent().unwrap().text, "/");
    assert_eq!(FilePath::new("foo").parent().unwrap().text, "");
    assert!(FilePath::new("/").parent().is_none());
    assert!(FilePath::new("/").file_name().is_none());
    assert!(FilePath::new("a/..").file_name().is_none());
    assert_eq!(FilePath::new("/var/www").join("composer.json").text, "/var/www/composer.json");
    assert_eq!(FilePath::new("/var/www/").join("x").text, "/var/www/x");
    assert_eq!(FilePath::new("/var/www").join("/etc/x").text, "/etc/x");
    assert_eq!(FilePath::new("/users/x/.").file_name().unwrap(), "x");
    assert_eq!(FilePath::new("/var/www/./a").parent().unwrap().text, "/var/www");
    assert_eq!(FilePath::new("/a//b/./").parent().unwrap().text, "/a");
    assert_eq!(FilePath::new("/a/./b/c").parent().unwrap().text, "/a/./b");
    assert!(FilePath::new(".").file_name().is_none());
    assert_eq!(FilePath::new(".").parent().unwrap().text, "");
    assert_eq!(FilePath::new("./a").parent().unwrap().text, ".");
    assert_eq!(FilePath::new("a/..").parent().unwrap().text, "a");
    assert!(FilePath::new("").parent().is_none());
}

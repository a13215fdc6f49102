use autodeploy::manifest::{action_from_parts, parse_manifest, Action};

#[test]
fn manifest_with_command_and_copy_parses_in_order() {
    let raw = br#"
[[deploy]]
action = "command"
command = "make"
args = ["install", "-j2"]

[[deploy]]
action = "copy"
src = "site.conf"
dest = "/etc/sites/site.conf"
"#;
    let actions = parse_manifest(raw).expect("a well-formed manifest");
    assert_eq!(actions.len(), 2);
    assert_eq!(
        actions[0],
        Action::Command {
            command: "make".to_string(),
            args: vec!["install".to_string(), "-j2".to_string()],
        }
    );
    assert_eq!(
        actions[1],
        Action::Copy { src: "site.conf".to_string(), dest: "/etc/sites/site.conf".to_string() }
    );
}

#[test]
fn empty_deploy_list_is_a_manifest_of_no_actions() {
    let raw = b"deploy = []\n";
    assert_eq!(parse_manifest(raw), Some(Vec::new()));
}

#[test]
fn missing_deploy_key_is_malformed() {
    assert_eq!(parse_manifest(b"other = 3\n"), None);
    assert_eq!(parse_manifest(b""), None);
}

#[test]
fn entry_without_required_fields_is_malformed() {
    let missing_args = br#"
[[deploy]]
action = "command"
command = "make"
"#;
    assert_eq!(parse_manifest(missing_args), None);
    let missing_dest = br#"
[[deploy]]
action = "copy"
src = "a"
"#;
    assert_eq!(parse_manifest(missing_dest), None);
}

#[test]
fn unknown_action_kind_is_malformed() {
    let raw = br#"
[[deploy]]
action = "restart"
"#;
    assert_eq!(parse_manifest(raw), None);
}

#[test]
fn non_string_argument_is_malformed() {
    let raw = br#"
[[deploy]]
action = "command"
command = "make"
args = [1, 2]
"#;
    assert_eq!(parse_manifest(raw), None);
}

#[test]
fn unparsable_toml_is_malformed() {
    assert_eq!(parse_manifest(b"[[deploy"), None);
}

#[test]
fn action_classification_is_exact() {
    assert_eq!(
        action_from_parts("command", Some("ls".to_string()), Some(Vec::new()), None, None),
        Some(Action::Command { command: "ls".to_string(), args: Vec::new() })
    );
    assert_eq!(
        action_from_parts("copy", None, None, Some("a".to_string()), Some("b".to_string())),
        Some(Action::Copy { src: "a".to_string(), dest: "b".to_string() })
    );
    // a command without args, a copy without dest, an unknown kind
    assert_eq!(action_from_parts("command", Some("ls".to_string()), None, None, None), None);
    assert_eq!(action_from_parts("copy", None, None, Some("a".to_string()), None), None);
    assert_eq!(action_from_parts("shell", None, None, None, None), None);
}

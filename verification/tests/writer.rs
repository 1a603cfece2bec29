use redoxer::writer::{
    parse_folder_mapping, render_redoxerd_config, rewrite_arg, rewrite_arg_to, unique_sources,
    RedoxerConfig,
};

fn strings(v: &[&str]) -> Vec<String> {
    v.iter().map(|s| s.to_string()).collect()
}

#[test]
fn argument_under_folder_is_rewritten_to_guest_root() {
    assert_eq!(rewrite_arg("./proj/bin/app", Some("./proj")), "/root/bin/app");
}

#[test]
fn argument_outside_folder_is_kept() {
    assert_eq!(rewrite_arg("plain", Some("./proj")), "plain");
    assert_eq!(rewrite_arg("./other/app", Some("./proj")), "./other/app");
}

#[test]
fn no_folder_means_no_rewriting() {
    assert_eq!(rewrite_arg("./proj/bin/app", None), "./proj/bin/app");
}

#[test]
fn folder_mapping_with_guest_path() {
    // the mapping "./proj:/root" sends "./proj/bin/app" to "/root/bin/app"
    let (host, guest) = parse_folder_mapping("./proj:/root");
    assert_eq!(host, "./proj");
    assert_eq!(guest, "/root");
    assert_eq!(rewrite_arg_to("./proj/bin/app", &host, &guest), "/root/bin/app");
}

#[test]
fn folder_mapping_without_guest_path_defaults_to_root() {
    let (host, guest) = parse_folder_mapping("./proj");
    assert_eq!(host, "./proj");
    assert_eq!(guest, "/root");
    let (host, guest) = parse_folder_mapping("data:/var/data");
    assert_eq!(host, "data");
    assert_eq!(guest, "/var/data");
}

#[test]
fn mapping_sources_must_be_unique() {
    let distinct = vec![
        ("a".to_string(), "/root".to_string()),
        ("b".to_string(), "/srv".to_string()),
    ];
    assert!(unique_sources(&distinct));
    let clashing = vec![
        ("a".to_string(), "/root".to_string()),
        ("b".to_string(), "/srv".to_string()),
        ("a".to_string(), "/out".to_string()),
    ];
    assert!(!unique_sources(&clashing));
    assert!(unique_sources(&Vec::new()));
}

#[test]
fn config_holds_one_argument_per_line() {
    let config = render_redoxerd_config(&strings(&["true"]), None);
    assert_eq!(config, "true\n");
    let config = render_redoxerd_config(&strings(&["cmd", "a", "b"]), None);
    assert_eq!(config, "cmd\na\nb\n");
}

#[test]
fn config_rewrites_folder_arguments() {
    let config = render_redoxerd_config(&strings(&["./proj/bin/app", "x"]), Some("./proj"));
    assert_eq!(config, "/root/bin/app\nx\n");
}

#[test]
fn empty_argument_vector_renders_empty_config() {
    let config = render_redoxerd_config(&Vec::new(), None);
    assert_eq!(config, "");
}

#[test]
fn flags_are_parsed_until_the_first_free_token() {
    let args = strings(&["--root", "/tmp/r", "--folder", "proj", "--", "cmd", "a"]);
    let c = RedoxerConfig::new(&args, ".");
    assert_eq!(c.root, "/tmp/r");
    assert_eq!(c.folder, Some("proj".to_string()));
    assert_eq!(c.arguments, strings(&["cmd", "a"]));
}

#[test]
fn free_token_stops_flag_matching() {
    let args = strings(&["cmd", "--root", "x"]);
    let c = RedoxerConfig::new(&args, ".");
    assert_eq!(c.root, ".");
    assert_eq!(c.folder, None);
    assert_eq!(c.arguments, strings(&["cmd", "--root", "x"]));
}

#[test]
fn defaults_hold_without_flags() {
    let c = RedoxerConfig::new(&Vec::new(), "/work");
    assert_eq!(c.root, "/work");
    assert_eq!(c.folder, None);
    assert!(c.arguments.is_empty());
}

#[test]
fn later_flag_occurrence_wins() {
    let args = strings(&["--root", "/a", "--root", "/b"]);
    let c = RedoxerConfig::new(&args, ".");
    assert_eq!(c.root, "/b");
}

use rustscan_scripts::descriptor::{
    default_script, header_block, init_scripts, parse_scripts, select_scripts, tags_cover,
    ScriptConfig, ScriptFile, ScriptsRequired,
};
use rustscan_scripts::script::{
    command_words, exit_code, script_result, Script, ScriptError, Termination,
};
use rustscan_scripts::text::{contains_token, join_ports, remove_marks};

fn strings(v: &[&str]) -> Vec<String> {
    v.iter().map(|s| s.to_string()).collect()
}

fn descriptor(name: &str, tags: Option<&[&str]>, call_format: Option<&str>) -> ScriptFile {
    ScriptFile {
        path: Some(name.to_string()),
        tags: tags.map(strings),
        developer: None,
        port: None,
        ports_separator: None,
        call_format: call_format.map(|s| s.to_string()),
    }
}

fn config(tags: Option<&[&str]>) -> ScriptConfig {
    ScriptConfig { tags: tags.map(strings), ports: None, developer: None }
}

fn bound(file: &ScriptFile, ip: &str, ports: Vec<u16>) -> Script {
    Script::build(
        file.path.clone(),
        ip.to_string(),
        ports,
        file.port.clone(),
        file.ports_separator.clone(),
        file.tags.clone(),
        file.call_format.clone(),
    )
}

fn names(v: &[ScriptFile]) -> Vec<String> {
    v.iter().map(|f| f.path.clone().unwrap()).collect()
}

#[test]
fn superset_of_required_tags_is_selected() {
    let cfg = config(Some(&["a", "b"]));
    let d = descriptor("x", Some(&["a", "b", "c"]), None);
    assert!(cfg.selects(&d));
}

#[test]
fn missing_required_tag_is_not_selected() {
    let cfg = config(Some(&["a", "b"]));
    let d = descriptor("x", Some(&["a"]), None);
    assert!(!cfg.selects(&d));
    assert!(!tags_cover(&strings(&["a"]), &strings(&["a", "b"])));
    assert!(tags_cover(&strings(&["b", "c", "a"]), &strings(&["a", "b"])));
}

#[test]
fn descriptor_without_tags_is_never_selected() {
    let d = descriptor("x", None, None);
    assert!(!config(Some(&["a", "b"])).selects(&d));
    assert!(!config(Some(&[])).selects(&d));
    assert!(!config(None).selects(&d));
}

#[test]
fn selection_without_tags_selects_nothing() {
    let parsed = vec![descriptor("x", Some(&["a"]), None), descriptor("y", Some(&[]), None)];
    assert!(select_scripts(&config(None), parsed).is_empty());
}

#[test]
fn selection_keeps_order_and_filters() {
    let parsed = vec![
        descriptor("one", Some(&["a", "b"]), None),
        descriptor("two", Some(&["a"]), None),
        descriptor("three", None, None),
        descriptor("four", Some(&["c", "b", "a"]), None),
    ];
    let got = select_scripts(&config(Some(&["a", "b"])), parsed);
    assert_eq!(names(&got), strings(&["one", "four"]));
}

#[test]
fn disabled_mode_runs_nothing() {
    let parsed = vec![descriptor("one", Some(&["a"]), None)];
    assert!(init_scripts(ScriptsRequired::Disabled, Some(config(Some(&["a"]))), parsed).is_empty());
}

#[test]
fn default_mode_runs_the_builtin_script() {
    let got = init_scripts(ScriptsRequired::Default, None, Vec::new());
    assert_eq!(got.len(), 1);
    let d = &got[0];
    assert_eq!(d.call_format.as_deref(), Some("nmap -vvv -p {{port}} {{ip}}"));
    assert_eq!(d.ports_separator.as_deref(), Some(","));
    assert_eq!(d.tags, Some(strings(&["core_approved", "RustScan", "default"])));
    assert_eq!(d.path, None);
    assert_eq!(d.port, None);
}

#[test]
fn default_script_renders_nmap_call() {
    let s = bound(&default_script(), "127.0.0.1", vec![22, 80]);
    assert_eq!(s.render(), Ok("nmap -vvv -p 22,80 127.0.0.1".to_string()));
}

#[test]
fn custom_mode_selects_by_tags() {
    let parsed = vec![
        descriptor("one", Some(&["a", "b"]), None),
        descriptor("two", Some(&["b"]), None),
    ];
    let got = init_scripts(ScriptsRequired::Custom, Some(config(Some(&["b"]))), parsed);
    assert_eq!(names(&got), strings(&["one", "two"]));
}

#[test]
fn port_join_uses_default_separator() {
    let s = Script::build(None, "10.0.0.1".into(), vec![80, 443], None, None, None, None);
    assert_eq!(s.port_string(), "80,443");
}

#[test]
fn trigger_port_replaces_open_ports() {
    let s = Script::build(None, "10.0.0.1".into(), vec![80, 443], Some("9999".into()), None, None, None);
    assert_eq!(s.port_string(), "9999");
}

#[test]
fn port_join_uses_own_separator() {
    let s = Script::build(None, "h".into(), vec![0, 7, 65535], None, Some(" ".into()), None, None);
    assert_eq!(s.port_string(), "0 7 65535");
    assert_eq!(join_ports(&vec![], ","), "");
    assert_eq!(join_ports(&vec![1000, 9], "--"), "1000--9");
}

#[test]
fn template_without_script_token() {
    let d = descriptor("/tmp/s.sh", Some(&["a"]), Some("nmap -p {{port}} {{ip}}"));
    let s = bound(&d, "10.0.0.1", vec![22]);
    assert_eq!(s.arguments(), Ok(strings(&["nmap", "-p", "22", "10.0.0.1"])));
}

#[test]
fn template_with_script_token() {
    let d = descriptor("/home/u/.rustscan_scripts/test_script.py", None, Some("{{script}} {{ip}} {{port}}"));
    let s = bound(&d, "10.0.0.1", vec![80, 443]);
    assert_eq!(
        s.arguments(),
        Ok(strings(&["/home/u/.rustscan_scripts/test_script.py", "10.0.0.1", "80,443"]))
    );
    let subs = s.substitutions().unwrap();
    assert_eq!(subs.len(), 3);
    assert_eq!(subs[0], ("script".to_string(), "/home/u/.rustscan_scripts/test_script.py".to_string()));
}

#[test]
fn quoted_words_stay_whole() {
    let d = descriptor("p", None, Some("echo '{{ip}}' \"{{port}}\""));
    let s = bound(&d, "a b", vec![1, 2]);
    assert_eq!(s.port_string(), "1,2");
    let s = Script::build(None, "a b".into(), vec![], Some("x y".into()), None, None, d.call_format.clone());
    assert_eq!(s.arguments(), Ok(strings(&["echo", "a b", "x y"])));
}

#[test]
fn missing_call_format_fails_at_render() {
    let d = descriptor("p", Some(&["a"]), None);
    let s = bound(&d, "10.0.0.1", vec![22]);
    assert_eq!(s.render(), Err(ScriptError::MissingFormat));
    assert_eq!(s.arguments(), Err(ScriptError::MissingFormat));
}

#[test]
fn script_token_without_path_fails() {
    let s = Script::build(None, "10.0.0.1".into(), vec![22], None, None, None, Some("{{script}} {{ip}}".into()));
    assert_eq!(s.render(), Err(ScriptError::MissingPath));
}

#[test]
fn unknown_placeholder_fails() {
    let d = descriptor("p", None, Some("run {{ip}} {{user}}"));
    assert_eq!(bound(&d, "10.0.0.1", vec![22]).render(), Err(ScriptError::Placeholder));
}

#[test]
fn malformed_quoting_and_empty_command_fail() {
    let d = descriptor("p", None, Some("echo '{{ip}}"));
    assert_eq!(bound(&d, "10.0.0.1", vec![22]).arguments(), Err(ScriptError::Quoting));
    let d = descriptor("p", None, Some("  "));
    assert_eq!(bound(&d, "10.0.0.1", vec![22]).arguments(), Err(ScriptError::EmptyCommand));
    assert_eq!(command_words(None), Err(ScriptError::Quoting));
    assert_eq!(command_words(Some(vec![])), Err(ScriptError::EmptyCommand));
    assert_eq!(command_words(Some(strings(&["ls"]))), Ok(strings(&["ls"])));
}

#[test]
fn exit_code_zero_returns_output() {
    assert_eq!(script_result(Termination::Exited(0), "out\n".into()), Ok("out\n".to_string()));
}

#[test]
fn nonzero_exit_code_is_an_error() {
    assert_eq!(script_result(Termination::Exited(2), "out".into()), Err(ScriptError::Exit(2)));
    assert_eq!(script_result(Termination::Signaled(9), "".into()), Err(ScriptError::Exit(9)));
    assert_eq!(script_result(Termination::Other(-7), "".into()), Err(ScriptError::Exit(-1)));
    assert_eq!(script_result(Termination::Other(0), "out".into()), Err(ScriptError::Exit(-1)));
    assert_eq!(script_result(Termination::Undetermined, "x".into()), Err(ScriptError::Exit(-1)));
}

#[test]
fn exit_code_reads_large_codes_as_signed() {
    assert_eq!(exit_code(Termination::Exited(u32::MAX)), -1);
    assert_eq!(exit_code(Termination::Exited(0x8000_0000)), i32::MIN);
    assert_eq!(exit_code(Termination::Exited(255)), 255);
}

#[test]
fn header_block_reads_leading_comments() {
    let lines = strings(&[
        "#!/usr/bin/env python3",
        "#tags = [\"core_approved\", \"example\"]",
        "#  developer = [ \"example\" ]  ",
        "## call_format = \"python3 {{script}} {{ip}} {{port}}\"",
        "",
        "# port = \"80\"",
    ]);
    assert_eq!(
        header_block(&lines),
        "tags = [\"core_approved\", \"example\"]\ndeveloper = [ \"example\" ]\ncall_format = \"python3 {{script}} {{ip}} {{port}}\"\n"
    );
}

#[test]
fn header_block_ignores_first_line() {
    assert_eq!(header_block(&strings(&["# not read", "#a = 1"])), "a = 1\n");
    assert_eq!(header_block(&strings(&["#only"])), "");
    assert_eq!(header_block(&vec![]), "");
}

#[test]
fn uncommented_second_line_gives_no_descriptor() {
    let blank = strings(&["#!/bin/sh", "", "#tags = [\"a\"]"]);
    let code = strings(&["#!/bin/sh", "echo hi", "#tags = [\"a\"]"]);
    for lines in [blank, code] {
        let header = header_block(&lines);
        assert_eq!(header, "");
        let decoded = Some(descriptor("ignored", Some(&["a"]), None));
        assert!(ScriptFile::from_header("f".into(), &header, decoded).is_none());
    }
}

#[test]
fn from_header_sets_path_or_drops() {
    let header = "tags = [\"a\"]\n".to_string();
    let decoded = descriptor("old", Some(&["a"]), Some("ls"));
    let got = ScriptFile::from_header("/s/f.sh".into(), &header, Some(decoded)).unwrap();
    assert_eq!(got.path.as_deref(), Some("/s/f.sh"));
    assert_eq!(got.call_format.as_deref(), Some("ls"));
    assert!(ScriptFile::from_header("/s/g.sh".into(), &header, None).is_none());
}

#[test]
fn parse_scripts_keeps_successes_in_order() {
    let got = parse_scripts(vec![
        Some(descriptor("a", None, None)),
        None,
        Some(descriptor("b", None, None)),
        None,
    ]);
    assert_eq!(names(&got), strings(&["a", "b"]));
    assert!(parse_scripts(vec![None, None]).is_empty());
}

#[test]
fn text_helpers() {
    assert!(contains_token("x {{script}} y", "{{script}}"));
    assert!(!contains_token("{{scrip}}", "{{script}}"));
    assert!(contains_token("abc", ""));
    assert_eq!(remove_marks("# a#b #"), " ab ");
}

#[test]
fn custom_mode_keeps_descriptor_with_extra_tags() {
    let d = descriptor("d", Some(&["a", "b", "c"]), Some("ls"));
    let got = init_scripts(ScriptsRequired::Custom, Some(config(Some(&["a", "b"]))), vec![d]);
    assert_eq!(names(&got), strings(&["d"]));
}

#[test]
fn custom_mode_drops_descriptor_missing_a_tag() {
    let d = descriptor("d", Some(&["a"]), Some("ls"));
    let got = init_scripts(ScriptsRequired::Custom, Some(config(Some(&["a", "b"]))), vec![d]);
    assert!(got.is_empty());
}

#[test]
fn header_trims_unicode_white_space() {
    let lines = strings(&["#!", "#\u{a0} a = 1\t\u{3000}"]);
    assert_eq!(header_block(&lines), "a = 1\n");
}

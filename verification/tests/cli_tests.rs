use psiphon_tui::cli::{parse, usage, ParseResult};

fn args(list: &[&str]) -> Vec<String> {
    list.iter().map(|s| s.to_string()).collect()
}

fn run(list: &[&str], config_exists: bool, server_list_exists: bool) -> Result<(String, String, String), String> {
    match parse(args(list), config_exists, server_list_exists)? {
        ParseResult::Args(a) => Ok((a.config, a.server_list, a.data_root_directory)),
        ParseResult::Help => Err("help".to_string()),
    }
}

fn owned(a: &str, b: &str, c: &str) -> (String, String, String) {
    (a.to_string(), b.to_string(), c.to_string())
}

#[test]
fn full_invocation() {
    let r = run(
        &["-config", "psiphon.config", "-serverList", "server-list-standard.txt", "-dataRootDirectory", "data"],
        false,
        false,
    );
    assert_eq!(r, Ok(owned("psiphon.config", "server-list-standard.txt", "data")));
}

#[test]
fn inline_and_double_dash_forms() {
    let r = run(&["--config=a.json", "-serverList=s=1", "--dataRootDirectory", "d"], false, false);
    assert_eq!(r, Ok(owned("a.json", "s=1", "d")));
    let r = run(&["-config="], false, false);
    assert_eq!(r, Ok(owned("", "", "data")));
}

#[test]
fn defaults() {
    assert_eq!(run(&[], true, true), Ok(owned("psiphon.config", "server-list-standard.txt", "data")));
    assert_eq!(run(&["-config", "c"], false, false), Ok(owned("c", "", "data")));
    assert_eq!(
        run(&[], false, true),
        Err("-config is required (no psiphon.config found in the current directory either)".to_string())
    );
}

#[test]
fn later_flags_override() {
    assert_eq!(run(&["-config", "a", "-config", "b"], false, false), Ok(owned("b", "", "data")));
}

#[test]
fn help_flags() {
    for h in ["-h", "-help", "--help"] {
        assert!(matches!(parse(args(&[h]), false, false), Ok(ParseResult::Help)));
    }
    assert!(matches!(parse(args(&["-config", "c", "-h", "oops"]), false, false), Ok(ParseResult::Help)));
    assert_eq!(run(&["--h"], false, false), Err("unknown flag: -h".to_string()));
    assert_eq!(run(&["-config", "-h"], false, false), Ok(owned("-h", "", "data")));
}

#[test]
fn errors() {
    assert_eq!(run(&["foo"], true, true), Err("unexpected positional argument: foo".to_string()));
    assert_eq!(run(&[""], true, true), Err("unexpected positional argument: ".to_string()));
    assert_eq!(run(&["-verbose"], true, true), Err("unknown flag: -verbose".to_string()));
    assert_eq!(run(&["-x=1"], true, true), Err("unknown flag: -x".to_string()));
    assert_eq!(run(&["-"], true, true), Err("unknown flag: -".to_string()));
    assert_eq!(run(&["-config"], true, true), Err("flag -config requires a value".to_string()));
    assert_eq!(run(&["-x", "-h"], true, true), Err("unknown flag: -x".to_string()));
}

#[test]
fn usage_text() {
    assert!(usage().starts_with("psiphon-tui — a Rust TUI front-end for psiphon-tunnel-core"));
    assert!(usage().contains("-h, -help, --help"));
}

#[test]
fn flag_forms_agree() {
    for flag in ["config", "serverList", "dataRootDirectory", "bogus"] {
        let separate = run(&["-config", "c", &format!("-{flag}"), "v", "-dataRootDirectory", "d"], false, false);
        let inline = run(&["-config", "c", &format!("-{flag}=v"), "-dataRootDirectory", "d"], false, false);
        let double = run(&["-config", "c", &format!("--{flag}"), "v", "-dataRootDirectory", "d"], false, false);
        let double_inline = run(&["-config", "c", &format!("--{flag}=v"), "-dataRootDirectory", "d"], false, false);
        assert_eq!(separate, inline);
        assert_eq!(separate, double);
        assert_eq!(separate, double_inline);
    }
}

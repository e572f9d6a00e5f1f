use gateway_supervisor::command::{run_command_output, CommandOutput};
use gateway_supervisor::paths::{
    bin_candidates, bin_candidates_for, config_path, config_path_for, find_openclaw_bin,
    join_path, log_path, log_path_for, needs_path_lookup,
};
use std::path::Path;

fn output(success: bool, stdout: &str) -> CommandOutput {
    CommandOutput {
        success,
        code: if success { Some(0) } else { Some(1) },
        stdout: stdout.as_bytes().to_vec(),
        stderr: Vec::new(),
    }
}

#[test]
fn join_path_puts_one_separator() {
    assert_eq!(join_path("/home/u", ".openclaw"), "/home/u/.openclaw");
    assert_eq!(join_path("/home/u/", ".openclaw"), "/home/u/.openclaw");
    assert_eq!(join_path("/", ".openclaw"), "/.openclaw");
    assert_eq!(join_path("", "openclaw.json"), "openclaw.json");
}

#[test]
fn join_path_agrees_with_std_for_relative_parts() {
    let bases = vec!["/home/u", "/home/u/", "/", "", "rel", "a/b", "/h\u{e9}"];
    let rels = vec![".openclaw", "openclaw.json", ".local/bin/openclaw"];
    for base in bases {
        for rel in rels.iter() {
            let expected = Path::new(base).join(rel).to_string_lossy().into_owned();
            assert_eq!(join_path(base, rel), expected);
        }
    }
}

#[test]
fn config_path_for_known_home() {
    assert_eq!(
        config_path_for(Some("/home/alice".to_string())),
        Some("/home/alice/.openclaw/openclaw.json".to_string())
    );
}

#[test]
fn config_path_for_unknown_home() {
    assert_eq!(config_path_for(None), None);
}

#[test]
fn log_path_for_known_and_unknown_home() {
    assert_eq!(
        log_path_for(Some("/home/alice".to_string())),
        "/home/alice/.openclaw/desktop-gateway.log"
    );
    assert_eq!(log_path_for(None), "/tmp/openclaw-gateway.log");
}

#[test]
fn bin_candidates_for_known_home_in_priority_order() {
    assert_eq!(
        bin_candidates_for(Some("/home/alice".to_string())),
        vec![
            "/home/alice/.npm-global/bin/openclaw".to_string(),
            "/home/alice/.local/bin/openclaw".to_string(),
        ]
    );
}

#[test]
fn bin_candidates_for_unknown_home() {
    assert_eq!(bin_candidates_for(None), Vec::<String>::new());
}

#[test]
fn paths_of_the_current_user_follow_the_home_directory() {
    let home = dirs::home_dir().map(|h| h.to_string_lossy().into_owned());
    assert_eq!(config_path(), config_path_for(home.clone()));
    assert_eq!(log_path(), log_path_for(home.clone()));
    assert_eq!(bin_candidates(), bin_candidates_for(home));
}

#[test]
fn find_bin_prefers_the_first_existing_candidate() {
    let candidates = vec!["/a/openclaw".to_string(), "/b/openclaw".to_string()];
    let which = Some(output(true, "/usr/bin/openclaw\n"));
    assert_eq!(
        find_openclaw_bin(&candidates, &vec![true, true], which.clone()),
        Some("/a/openclaw".to_string())
    );
    assert_eq!(
        find_openclaw_bin(&candidates, &vec![false, true], which.clone()),
        Some("/b/openclaw".to_string())
    );
    assert_eq!(
        find_openclaw_bin(&candidates, &vec![false, false], which),
        Some("/usr/bin/openclaw".to_string())
    );
}

#[test]
fn find_bin_without_any_source() {
    let candidates = vec!["/a/openclaw".to_string(), "/b/openclaw".to_string()];
    assert_eq!(find_openclaw_bin(&candidates, &vec![false, false], None), None);
    assert_eq!(
        find_openclaw_bin(&candidates, &vec![false, false], Some(output(false, "/x\n"))),
        None
    );
    assert_eq!(find_openclaw_bin(&Vec::new(), &Vec::new(), None), None);
}

#[test]
fn find_bin_treats_a_candidate_without_flag_as_missing() {
    let candidates = vec!["/a/openclaw".to_string(), "/b/openclaw".to_string()];
    assert_eq!(
        find_openclaw_bin(&candidates, &vec![false], Some(output(true, "/w\n"))),
        Some("/w".to_string())
    );
}

#[test]
fn command_output_is_trimmed_text_of_a_success() {
    assert_eq!(run_command_output(Some(output(true, "  v20.1.0\n"))), Some("v20.1.0".to_string()));
    assert_eq!(run_command_output(Some(output(true, ""))), Some(String::new()));
    assert_eq!(run_command_output(Some(output(false, "v20.1.0\n"))), None);
    assert_eq!(run_command_output(None), None);
}

#[test]
fn command_output_that_is_not_text() {
    let o = CommandOutput { success: true, code: Some(0), stdout: vec![0xff, 0x00], stderr: Vec::new() };
    assert_eq!(run_command_output(Some(o)), None);
}

#[test]
fn search_path_is_looked_at_only_without_a_candidate() {
    let candidates = vec!["/a/openclaw".to_string(), "/b/openclaw".to_string()];
    assert!(needs_path_lookup(&candidates, &vec![false, false]));
    assert!(!needs_path_lookup(&candidates, &vec![false, true]));
    assert!(!needs_path_lookup(&candidates, &vec![true, false]));
    assert!(needs_path_lookup(&candidates, &vec![false]));
    assert!(needs_path_lookup(&candidates, &Vec::new()));
    assert!(needs_path_lookup(&Vec::new(), &vec![true]));
}

use gateway_supervisor::command::{CommandLine, CommandOutput};
use gateway_supervisor::proxy::{DesktopProxy, EnvProxy};
use gateway_supervisor::setup::{
    add_channel, channel_commands, channel_rejection_line, check_prerequisites, detect_proxy,
    generate_token, given, install_openclaw, is_first_run, report_finished_install,
    token_from_words, InstallRun, PrereqStatus, ProxyInfo, DEFAULT_GATEWAY_PORT, TOKEN_LENGTH,
};

fn some(s: &str) -> Option<String> {
    Some(s.to_string())
}

fn no_env() -> EnvProxy {
    EnvProxy { http_upper: None, http_lower: None, all_upper: None, all_lower: None }
}

fn no_store() -> DesktopProxy {
    DesktopProxy { mode: None, http_host: None, http_port: None, socks_host: None, socks_port: None }
}

fn ran(success: bool, code: Option<i32>, stdout: &[u8], stderr: &[u8]) -> CommandOutput {
    CommandOutput { success, code, stdout: stdout.to_vec(), stderr: stderr.to_vec() }
}

fn no_proxy_info() -> ProxyInfo {
    ProxyInfo {
        detected: false,
        http: String::new(),
        socks: String::new(),
        source: "none".to_string(),
    }
}

#[test]
fn first_run_when_there_is_no_config_file() {
    assert!(is_first_run(None));
    assert!(is_first_run(Some(false)));
    assert!(!is_first_run(Some(true)));
}

#[test]
fn defaults_of_a_new_configuration() {
    assert_eq!(DEFAULT_GATEWAY_PORT, 18789);
    assert_eq!(TOKEN_LENGTH, 32);
}

#[test]
fn detect_proxy_from_env() {
    let env = EnvProxy { http_lower: some("http://p:1"), all_upper: some("socks://q:2"), ..no_env() };
    assert_eq!(
        detect_proxy(&env, &no_store()),
        ProxyInfo {
            detected: true,
            http: "http://p:1".to_string(),
            socks: "socks://q:2".to_string(),
            source: "env".to_string(),
        }
    );
    let http_only = EnvProxy { http_upper: some("http://p:1"), ..no_env() };
    assert_eq!(detect_proxy(&http_only, &no_store()).socks, "");
}

#[test]
fn detect_proxy_from_desktop_store() {
    let store = DesktopProxy {
        mode: some("manual"),
        http_host: some("h"),
        http_port: some("3128"),
        socks_host: some(""),
        socks_port: some("0"),
    };
    assert_eq!(
        detect_proxy(&no_env(), &store),
        ProxyInfo {
            detected: true,
            http: "http://h:3128".to_string(),
            socks: String::new(),
            source: "gsettings".to_string(),
        }
    );
    let socks_only = DesktopProxy {
        mode: some("manual"),
        http_host: None,
        http_port: None,
        socks_host: some("s"),
        socks_port: some("1080"),
    };
    assert_eq!(
        detect_proxy(&no_env(), &socks_only),
        ProxyInfo {
            detected: true,
            http: String::new(),
            socks: "socks://s:1080".to_string(),
            source: "gsettings".to_string(),
        }
    );
}

#[test]
fn detect_proxy_with_an_unread_port() {
    let store = DesktopProxy {
        mode: some("manual"),
        http_host: some("h"),
        http_port: None,
        socks_host: None,
        socks_port: None,
    };
    assert_eq!(detect_proxy(&no_env(), &store).http, "http://h:");
}

#[test]
fn detect_proxy_finds_none() {
    assert_eq!(detect_proxy(&no_env(), &no_store()), no_proxy_info());
    let auto = DesktopProxy { mode: some("auto"), http_host: some("h"), http_port: some("1"), ..no_store() };
    assert_eq!(detect_proxy(&no_env(), &auto), no_proxy_info());
    let empty_manual = DesktopProxy { mode: some("manual"), http_host: some(""), http_port: some("0"), ..no_store() };
    assert_eq!(detect_proxy(&no_env(), &empty_manual), no_proxy_info());
}

#[test]
fn prerequisites_all_met() {
    let proxy = ProxyInfo {
        detected: true,
        http: "http://p:1".to_string(),
        socks: String::new(),
        source: "env".to_string(),
    };
    assert_eq!(
        check_prerequisites(
            Some(ran(true, Some(0), b"v20.11.0\n", b"")),
            Some(ran(true, Some(0), b"10.2.4\n", b"")),
            Some(ran(true, Some(0), b"openclaw 1.2.3\n", b"")),
            Some(true),
            &proxy,
        ),
        PrereqStatus {
            node_installed: true,
            node_version: "v20.11.0".to_string(),
            npm_installed: true,
            openclaw_installed: true,
            openclaw_version: "openclaw 1.2.3".to_string(),
            config_exists: true,
            proxy_detected: some("http://p:1"),
        }
    );
}

#[test]
fn prerequisites_none_met() {
    assert_eq!(
        check_prerequisites(
            None,
            Some(ran(false, Some(127), b"10.2.4\n", b"")),
            Some(ran(true, Some(0), b"  \n", b"")),
            None,
            &no_proxy_info(),
        ),
        PrereqStatus {
            node_installed: false,
            node_version: String::new(),
            npm_installed: false,
            openclaw_installed: false,
            openclaw_version: String::new(),
            config_exists: false,
            proxy_detected: None,
        }
    );
}

#[test]
fn prerequisites_report_a_detected_proxy_without_http() {
    let proxy = ProxyInfo {
        detected: true,
        http: String::new(),
        socks: "socks://s:1".to_string(),
        source: "gsettings".to_string(),
    };
    let status = check_prerequisites(None, None, None, Some(false), &proxy);
    assert_eq!(status.proxy_detected, some(""));
    assert!(!status.config_exists);
}

#[test]
fn install_that_succeeded() {
    let run = InstallRun::Finished(ran(true, Some(0), b"added 1 package\n", b"npm notice\n"));
    assert_eq!(install_openclaw(run), Ok("added 1 package\n\nnpm notice".to_string()));
    let quiet = InstallRun::Finished(ran(true, Some(0), b"", b""));
    assert_eq!(install_openclaw(quiet), Ok(String::new()));
}

#[test]
fn install_that_failed() {
    let run = InstallRun::Finished(ran(false, Some(1), b"out", b"EACCES"));
    assert_eq!(
        install_openclaw(run),
        Err("npm install failed (exit code 1):\nout\nEACCES".to_string())
    );
    let killed = InstallRun::Finished(ran(false, None, b"", b"killed"));
    assert_eq!(
        install_openclaw(killed),
        Err("npm install failed (exit code -1):\n\nkilled".to_string())
    );
    let negative = InstallRun::Finished(ran(false, Some(-15), b"", b""));
    assert_eq!(
        install_openclaw(negative),
        Err("npm install failed (exit code -15):\n\n".to_string())
    );
}

#[test]
fn install_that_did_not_run() {
    assert_eq!(
        install_openclaw(InstallRun::NotRun { reason: "No such file or directory".to_string() }),
        Err("Failed to run npm: No such file or directory".to_string())
    );
    assert_eq!(
        install_openclaw(InstallRun::TaskFailed { reason: "task panicked".to_string() }),
        Err("Task join error: task panicked".to_string())
    );
}

#[test]
fn install_output_that_is_not_text_is_replaced() {
    let run = InstallRun::Finished(ran(true, Some(0), &[b'o', 0xff, b'k'], b""));
    assert_eq!(install_openclaw(run), Ok("o\u{fffd}k".to_string()));
}

#[test]
fn setting_is_given_when_it_is_not_empty() {
    assert!(given(&some("x")));
    assert!(!given(&some("")));
    assert!(!given(&None));
}

#[test]
fn channel_command_line() {
    assert_eq!(
        add_channel("telegram", "123:abc"),
        CommandLine {
            program: "openclaw".to_string(),
            args: vec![
                "channels".to_string(),
                "add".to_string(),
                "telegram".to_string(),
                "--token".to_string(),
                "123:abc".to_string(),
            ],
        }
    );
}

#[test]
fn channels_are_added_for_given_tokens_only() {
    assert_eq!(channel_commands(&None, &None), Vec::<CommandLine>::new());
    assert_eq!(channel_commands(&some(""), &some("")), Vec::<CommandLine>::new());
    assert_eq!(channel_commands(&some("t"), &None), vec![add_channel("telegram", "t")]);
    assert_eq!(channel_commands(&some(""), &some("d")), vec![add_channel("discord", "d")]);
    assert_eq!(
        channel_commands(&some("t"), &some("d")),
        vec![add_channel("telegram", "t"), add_channel("discord", "d")]
    );
}

#[test]
fn token_from_words_picks_from_the_alphabet() {
    assert_eq!(token_from_words(&vec![0, 1, 25, 26, 35, 36, 37, 71]), "abz09ab9");
    assert_eq!(token_from_words(&Vec::new()), "");
    assert_eq!(token_from_words(&vec![u64::MAX]), "p");
}

#[test]
fn generated_token_has_the_right_shape() {
    let token = generate_token();
    assert_eq!(token.chars().count(), 32);
    assert!(token.chars().all(|c| c.is_ascii_lowercase() || c.is_ascii_digit()));
}

#[test]
fn generated_tokens_differ() {
    assert_ne!(generate_token(), generate_token());
}

#[test]
fn finished_install_is_reported_from_its_text() {
    assert_eq!(
        report_finished_install(true, Some(0), "  out\n", "err \n"),
        Ok("out\n\nerr".to_string())
    );
    assert_eq!(
        report_finished_install(false, Some(243), "o", "e"),
        Err("npm install failed (exit code 243):\no\ne".to_string())
    );
    assert_eq!(
        report_finished_install(false, None, "", ""),
        Err("npm install failed (exit code -1):\n\n".to_string())
    );
}

#[test]
fn channel_rejection_names_kind_and_reason() {
    assert_eq!(
        channel_rejection_line("discord", "invalid token\n"),
        "Failed to add discord channel: invalid token\n"
    );
}

use gateway_supervisor::command::CommandOutput;
use gateway_supervisor::proxy::{
    build_proxy_exports, gsettings_get, needs_desktop_store, overlay, proxy_notice,
    render_exports, render_statement, resolve, statements, store_is_read, DesktopProxy,
    EnvAssignment, EnvProxy, ProxySettings,
};

const NO_PROXY: &str = "localhost,127.0.0.1,192.168.0.0/16,10.0.0.0/8,172.16.0.0/12,::1";

fn some(s: &str) -> Option<String> {
    Some(s.to_string())
}

fn no_env() -> EnvProxy {
    EnvProxy { http_upper: None, http_lower: None, all_upper: None, all_lower: None }
}

fn no_store() -> DesktopProxy {
    DesktopProxy { mode: None, http_host: None, http_port: None, socks_host: None, socks_port: None }
}

fn value_of(all: &Vec<EnvAssignment>, name: &str) -> Option<String> {
    all.iter().find(|a| a.name == name).map(|a| a.value.clone())
}

fn http_exports(p: &str) -> String {
    format!(
        "export HTTP_PROXY='{}' http_proxy='{}' HTTPS_PROXY='{}' https_proxy='{}'; export GLOBAL_AGENT_HTTP_PROXY='{}' GLOBAL_AGENT_HTTPS_PROXY='{}';",
        p, p, p, p, p, p
    )
}

fn no_proxy_exports() -> String {
    format!("export NO_PROXY='{}' no_proxy='{}';", NO_PROXY, NO_PROXY)
}

#[test]
fn env_http_proxy_without_all_proxy() {
    let env = EnvProxy { http_upper: some("http://p:8080"), ..no_env() };
    let settings = resolve(&env, &no_store());
    assert_eq!(
        settings,
        ProxySettings {
            http_proxy: some("http://p:8080"),
            socks_proxy: None,
            no_proxy: NO_PROXY.to_string(),
        }
    );
    let all = overlay(&settings);
    assert_eq!(value_of(&all, "HTTP_PROXY"), some("http://p:8080"));
    assert_eq!(value_of(&all, "http_proxy"), some("http://p:8080"));
    assert_eq!(value_of(&all, "HTTPS_PROXY"), some("http://p:8080"));
    assert_eq!(value_of(&all, "https_proxy"), some("http://p:8080"));
    assert_eq!(value_of(&all, "ALL_PROXY"), None);
    assert_eq!(value_of(&all, "all_proxy"), None);
    assert_eq!(value_of(&all, "NO_PROXY"), some(NO_PROXY));
    assert_eq!(value_of(&all, "no_proxy"), some(NO_PROXY));
    assert_eq!(
        build_proxy_exports(&env, &no_store()),
        format!("{} {}", http_exports("http://p:8080"), no_proxy_exports())
    );
}

#[test]
fn desktop_store_with_socks_only() {
    let store = DesktopProxy {
        mode: some("manual"),
        http_host: some(""),
        http_port: some("0"),
        socks_host: some("s.example"),
        socks_port: some("1080"),
    };
    let settings = resolve(&no_env(), &store);
    assert_eq!(settings.http_proxy, None);
    assert_eq!(settings.socks_proxy, some("socks://s.example:1080/"));
    let all = overlay(&settings);
    let names: Vec<String> = all.iter().map(|a| a.name.clone()).collect();
    assert_eq!(names, vec!["ALL_PROXY", "all_proxy", "NO_PROXY", "no_proxy"]);
    assert_eq!(value_of(&all, "ALL_PROXY"), some("socks://s.example:1080/"));
    assert_eq!(value_of(&all, "all_proxy"), some("socks://s.example:1080/"));
    assert_eq!(value_of(&all, "NO_PROXY"), some(NO_PROXY));
    assert_eq!(
        build_proxy_exports(&no_env(), &store),
        format!(
            "export ALL_PROXY='socks://s.example:1080/' all_proxy='socks://s.example:1080/'; {}",
            no_proxy_exports()
        )
    );
}

#[test]
fn env_with_http_and_all_proxy() {
    let env = EnvProxy { http_upper: some("http://p:1"), all_lower: some("socks5://q:2"), ..no_env() };
    assert_eq!(
        build_proxy_exports(&env, &no_store()),
        format!(
            "{} export ALL_PROXY='socks5://q:2' all_proxy='socks5://q:2'; {}",
            http_exports("http://p:1"),
            no_proxy_exports()
        )
    );
}

#[test]
fn upper_case_variable_wins_over_lower_case() {
    let env = EnvProxy {
        http_upper: some("http://upper:1"),
        http_lower: some("http://lower:1"),
        all_upper: some("socks://upper:2"),
        all_lower: some("socks://lower:2"),
    };
    let settings = resolve(&env, &no_store());
    assert_eq!(settings.http_proxy, some("http://upper:1"));
    assert_eq!(settings.socks_proxy, some("socks://upper:2"));
}

#[test]
fn lower_case_variable_counts_when_upper_is_unset() {
    let env = EnvProxy { http_lower: some("http://lower:1"), ..no_env() };
    let settings = resolve(&env, &no_store());
    assert_eq!(settings.http_proxy, some("http://lower:1"));
    assert_eq!(settings.socks_proxy, None);
}

fn bare_settings() -> ProxySettings {
    ProxySettings { http_proxy: None, socks_proxy: None, no_proxy: NO_PROXY.to_string() }
}

#[test]
fn all_proxy_alone_names_no_proxy() {
    let env = EnvProxy { all_upper: some("socks://q:2"), ..no_env() };
    assert_eq!(resolve(&env, &no_store()), bare_settings());
    assert_eq!(build_proxy_exports(&env, &no_store()), no_proxy_exports());
}

#[test]
fn exclusion_list_is_set_when_no_proxy_is_found() {
    assert_eq!(resolve(&no_env(), &no_store()), bare_settings());
    assert_eq!(
        build_proxy_exports(&no_env(), &no_store()),
        "export NO_PROXY='localhost,127.0.0.1,192.168.0.0/16,10.0.0.0/8,172.16.0.0/12,::1' no_proxy='localhost,127.0.0.1,192.168.0.0/16,10.0.0.0/8,172.16.0.0/12,::1';"
    );
    let all = overlay(&resolve(&no_env(), &no_store()));
    let names: Vec<String> = all.iter().map(|a| a.name.clone()).collect();
    assert_eq!(names, vec!["NO_PROXY", "no_proxy"]);
    assert_eq!(value_of(&all, "NO_PROXY"), some(NO_PROXY));
    assert_eq!(value_of(&all, "no_proxy"), some(NO_PROXY));
}

#[test]
fn exclusion_list_covers_loopback_and_private_ranges() {
    let settings = resolve(&no_env(), &no_store());
    let entries: Vec<&str> = settings.no_proxy.split(',').collect();
    let expected = vec!["localhost", "127.0.0.1", "::1", "10.0.0.0/8", "172.16.0.0/12", "192.168.0.0/16"];
    for entry in expected {
        assert!(entries.contains(&entry));
    }
}

#[test]
fn exclusion_list_is_set_whatever_the_source() {
    let env = EnvProxy { http_upper: some("http://p:1"), ..no_env() };
    let manual = DesktopProxy {
        mode: some("manual"),
        http_host: some("h"),
        http_port: some("1"),
        socks_host: None,
        socks_port: None,
    };
    let auto = DesktopProxy { mode: some("auto"), ..manual.clone() };
    let cases = vec![
        (env.clone(), no_store()),
        (env, manual.clone()),
        (no_env(), manual),
        (no_env(), auto),
        (no_env(), no_store()),
    ];
    for (env, store) in cases {
        let settings = resolve(&env, &store);
        assert_eq!(settings.no_proxy, NO_PROXY);
        let all = overlay(&settings);
        assert_eq!(value_of(&all, "NO_PROXY"), some(NO_PROXY));
        assert_eq!(value_of(&all, "no_proxy"), some(NO_PROXY));
        assert!(build_proxy_exports(&env, &store).ends_with(&no_proxy_exports()));
    }
}

#[test]
fn store_counts_in_manual_mode_only() {
    assert!(store_is_read(&some("manual")));
    assert!(!store_is_read(&some("auto")));
    assert!(!store_is_read(&some("none")));
    assert!(!store_is_read(&some("")));
    assert!(!store_is_read(&some("Manual")));
    assert!(!store_is_read(&None));
}

#[test]
fn value_with_a_single_quote_is_quoted_for_the_shell() {
    let env = EnvProxy { http_upper: some("http://u:p'w@h:1"), ..no_env() };
    let text = build_proxy_exports(&env, &no_store());
    assert!(text.starts_with(
        "export HTTP_PROXY='http://u:p'\\''w@h:1' http_proxy='http://u:p'\\''w@h:1' "
    ));
    let settings = resolve(&env, &no_store());
    assert_eq!(value_of(&overlay(&settings), "HTTP_PROXY"), some("http://u:p'w@h:1"));
}

#[test]
fn value_that_would_close_the_quote_stays_a_value() {
    let group =
        vec![EnvAssignment { name: "A".to_string(), value: "x'; rm -rf ~; '".to_string() }];
    assert_eq!(render_statement(&group), "export A='x'\\''; rm -rf ~; '\\''';");
}

#[test]
fn empty_env_variable_counts_as_set() {
    let env = EnvProxy { http_upper: some(""), ..no_env() };
    let settings = resolve(&env, &no_store());
    assert_eq!(settings.http_proxy, some(""));
    assert!(!needs_desktop_store(&env));
}

#[test]
fn environment_wins_over_desktop_store() {
    let env = EnvProxy { http_upper: some("http://env:1"), ..no_env() };
    let store = DesktopProxy {
        mode: some("manual"),
        http_host: some("store"),
        http_port: some("2"),
        socks_host: some("socks"),
        socks_port: some("3"),
    };
    assert_eq!(resolve(&env, &store), resolve(&env, &no_store()));
    assert_eq!(build_proxy_exports(&env, &store), build_proxy_exports(&env, &no_store()));
}

#[test]
fn desktop_store_is_needed_only_without_env_proxy() {
    assert!(needs_desktop_store(&no_env()));
    assert!(needs_desktop_store(&EnvProxy { all_upper: some("x"), ..no_env() }));
    assert!(!needs_desktop_store(&EnvProxy { http_lower: some("x"), ..no_env() }));
}

#[test]
fn desktop_store_not_in_manual_mode() {
    let store = DesktopProxy {
        mode: some("auto"),
        http_host: some("h"),
        http_port: some("8080"),
        socks_host: some("s"),
        socks_port: some("1080"),
    };
    assert_eq!(resolve(&no_env(), &store), bare_settings());
    assert_eq!(build_proxy_exports(&no_env(), &store), no_proxy_exports());
    let unread = DesktopProxy { mode: None, ..store.clone() };
    assert_eq!(build_proxy_exports(&no_env(), &unread), no_proxy_exports());
    let none = DesktopProxy { mode: some("none"), ..store };
    assert_eq!(build_proxy_exports(&no_env(), &none), no_proxy_exports());
}

#[test]
fn desktop_store_with_http_and_socks() {
    let store = DesktopProxy {
        mode: some("manual"),
        http_host: some("proxy.local"),
        http_port: some("3128"),
        socks_host: some("socks.local"),
        socks_port: some("1080"),
    };
    assert_eq!(
        build_proxy_exports(&no_env(), &store),
        format!(
            "{} export ALL_PROXY='socks://socks.local:1080/' all_proxy='socks://socks.local:1080/'; {}",
            http_exports("http://proxy.local:3128/"),
            no_proxy_exports()
        )
    );
}

#[test]
fn desktop_store_in_manual_mode_with_nothing_set() {
    let store = DesktopProxy {
        mode: some("manual"),
        http_host: some(""),
        http_port: some("8080"),
        socks_host: some("s"),
        socks_port: some("0"),
    };
    let settings = resolve(&no_env(), &store);
    assert_eq!(settings.http_proxy, None);
    assert_eq!(settings.socks_proxy, None);
    assert_eq!(build_proxy_exports(&no_env(), &store), no_proxy_exports());
}

#[test]
fn desktop_store_value_that_could_not_be_read() {
    let store = DesktopProxy {
        mode: some("manual"),
        http_host: some("h"),
        http_port: None,
        socks_host: None,
        socks_port: some("1080"),
    };
    let settings = resolve(&no_env(), &store);
    assert_eq!(settings.http_proxy, None);
    assert_eq!(settings.socks_proxy, None);
}

#[test]
fn statements_group_the_assignments() {
    let settings = ProxySettings {
        http_proxy: some("http://p:1"),
        socks_proxy: some("socks://q:2"),
        no_proxy: "n".to_string(),
    };
    let groups = statements(&settings);
    let sizes: Vec<usize> = groups.iter().map(|g| g.len()).collect();
    assert_eq!(sizes, vec![4, 2, 2, 2]);
    let flat: Vec<EnvAssignment> = groups.into_iter().flatten().collect();
    assert_eq!(flat, overlay(&settings));
    let names: Vec<String> = flat.iter().map(|a| a.name.clone()).collect();
    assert_eq!(
        names,
        vec![
            "HTTP_PROXY",
            "http_proxy",
            "HTTPS_PROXY",
            "https_proxy",
            "GLOBAL_AGENT_HTTP_PROXY",
            "GLOBAL_AGENT_HTTPS_PROXY",
            "ALL_PROXY",
            "all_proxy",
            "NO_PROXY",
            "no_proxy",
        ]
    );
}

#[test]
fn overlay_sets_both_cases_to_the_same_value() {
    let settings = ProxySettings {
        http_proxy: some("http://p:1"),
        socks_proxy: some("socks://q:2"),
        no_proxy: "n".to_string(),
    };
    let all = overlay(&settings);
    let pairs = vec![
        ("HTTP_PROXY", "http_proxy"),
        ("HTTPS_PROXY", "https_proxy"),
        ("ALL_PROXY", "all_proxy"),
        ("NO_PROXY", "no_proxy"),
    ];
    for (upper, lower) in pairs {
        assert!(value_of(&all, upper).is_some());
        assert_eq!(value_of(&all, upper), value_of(&all, lower));
    }
    assert_eq!(value_of(&all, "GLOBAL_AGENT_HTTP_PROXY"), some("http://p:1"));
    assert_eq!(value_of(&all, "GLOBAL_AGENT_HTTPS_PROXY"), some("http://p:1"));
}

#[test]
fn render_statement_quotes_each_value() {
    let group = vec![
        EnvAssignment { name: "A".to_string(), value: "1".to_string() },
        EnvAssignment { name: "b".to_string(), value: "".to_string() },
    ];
    assert_eq!(render_statement(&group), "export A='1' b='';");
    assert_eq!(render_statement(&group[..1].to_vec()), "export A='1';");
}

#[test]
fn render_exports_of_bare_settings() {
    let settings = ProxySettings { http_proxy: None, socks_proxy: None, no_proxy: "x".to_string() };
    assert_eq!(render_exports(&settings), "export NO_PROXY='x' no_proxy='x';");
}

#[test]
fn proxy_notice_names_the_source() {
    let env = EnvProxy { http_lower: some("http://p:1"), ..no_env() };
    assert_eq!(proxy_notice(&env, &no_store()), some("Proxy from env: http://p:1"));
    let store = DesktopProxy {
        mode: some("manual"),
        http_host: some("h"),
        http_port: some("8"),
        socks_host: None,
        socks_port: None,
    };
    assert_eq!(proxy_notice(&no_env(), &store), some("Proxy from gsettings: http://h:8/"));
    let socks_only = DesktopProxy {
        mode: some("manual"),
        http_host: None,
        http_port: None,
        socks_host: some("s"),
        socks_port: some("1"),
    };
    assert_eq!(proxy_notice(&no_env(), &socks_only), None);
    assert_eq!(proxy_notice(&no_env(), &no_store()), None);
}

fn tool_output(success: bool, stdout: &[u8]) -> Option<CommandOutput> {
    Some(CommandOutput { success, code: Some(0), stdout: stdout.to_vec(), stderr: Vec::new() })
}

#[test]
fn gsettings_value_loses_whitespace_and_quotes() {
    assert_eq!(gsettings_get(tool_output(true, b"'manual'\n")), some("manual"));
    assert_eq!(gsettings_get(tool_output(true, b"8080\n")), some("8080"));
    assert_eq!(gsettings_get(tool_output(true, b"''\n")), some(""));
    assert_eq!(gsettings_get(tool_output(true, b"  'proxy.local' \n")), some("proxy.local"));
}

#[test]
fn gsettings_value_that_is_not_there() {
    assert_eq!(gsettings_get(None), None);
    assert_eq!(gsettings_get(tool_output(false, b"'manual'\n")), None);
    assert_eq!(gsettings_get(tool_output(true, &[0xff])), None);
}

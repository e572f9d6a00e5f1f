use gateway_supervisor::commands::{
    gateway_probe_target, get_gateway_info, get_gateway_url, GatewayInfo,
};
use gateway_supervisor::config::{
    default_bind, load_config, AuthConfig, ConfigRead, GatewayConfig, OpenClawConfig,
};

fn gateway(port: u16, token: &str) -> GatewayConfig {
    GatewayConfig {
        port,
        bind: default_bind(),
        auth: AuthConfig { mode: "token".to_string(), token: token.to_string() },
    }
}

#[test]
fn default_bind_is_loopback() {
    assert_eq!(default_bind(), "loopback");
}

#[test]
fn default_auth_is_empty() {
    let auth = AuthConfig::default();
    assert_eq!(auth.mode, "");
    assert_eq!(auth.token, "");
}

#[test]
fn base_url_names_loopback_and_port() {
    assert_eq!(gateway(18789, "").base_url(), "http://127.0.0.1:18789");
    assert_eq!(gateway(80, "").base_url(), "http://127.0.0.1:80");
}

#[test]
fn base_url_at_the_ends_of_the_port_range() {
    assert_eq!(gateway(0, "").base_url(), "http://127.0.0.1:0");
    assert_eq!(gateway(65535, "").base_url(), "http://127.0.0.1:65535");
}

#[test]
fn base_url_ignores_the_token() {
    assert_eq!(gateway(3000, "secret").base_url(), gateway(3000, "").base_url());
}

#[test]
fn full_url_without_token_is_base_url() {
    let ports: Vec<u16> = vec![0, 1, 443, 18789, 65535];
    for port in ports {
        let cfg = gateway(port, "");
        assert_eq!(cfg.full_url(), cfg.base_url());
    }
}

#[test]
fn full_url_with_token_appends_fragment() {
    let cfg = gateway(18789, "abc123");
    assert_eq!(cfg.full_url(), "http://127.0.0.1:18789/#token=abc123");
    assert_eq!(cfg.full_url(), format!("{}/#token={}", cfg.base_url(), "abc123"));
}

#[test]
fn full_url_suffix_depends_on_token_alone() {
    let a = gateway(1, "t0k");
    let b = gateway(65535, "t0k");
    let suffix_a = a.full_url()[a.base_url().len()..].to_string();
    let suffix_b = b.full_url()[b.base_url().len()..].to_string();
    assert_eq!(suffix_a, "/#token=t0k");
    assert_eq!(suffix_a, suffix_b);
}

#[test]
fn full_url_keeps_the_token_as_it_is() {
    let cfg = gateway(8080, "a b/#?");
    assert_eq!(cfg.full_url(), "http://127.0.0.1:8080/#token=a b/#?");
}

#[test]
fn load_config_without_home() {
    assert_eq!(
        load_config(ConfigRead::NoHome),
        Err("Could not determine home directory".to_string())
    );
}

#[test]
fn load_config_missing_file() {
    let read = ConfigRead::Missing { path: "/home/u/.openclaw/openclaw.json".to_string() };
    assert_eq!(
        load_config(read),
        Err("Config not found: /home/u/.openclaw/openclaw.json".to_string())
    );
}

#[test]
fn load_config_unreadable_file() {
    let read = ConfigRead::Unreadable {
        path: "/x/openclaw.json".to_string(),
        reason: "Permission denied (os error 13)".to_string(),
    };
    assert_eq!(
        load_config(read),
        Err("Failed to read /x/openclaw.json: Permission denied (os error 13)".to_string())
    );
}

#[test]
fn load_config_malformed_file() {
    let read = ConfigRead::Malformed { reason: "expected value at line 1 column 1".to_string() };
    assert_eq!(
        load_config(read),
        Err("Failed to parse config: expected value at line 1 column 1".to_string())
    );
}

#[test]
fn load_config_parsed_file() {
    let cfg = OpenClawConfig { gateway: gateway(18789, "tok") };
    assert_eq!(load_config(ConfigRead::Parsed(cfg.clone())), Ok(cfg));
}

#[test]
fn gateway_info_from_config() {
    let cfg = OpenClawConfig { gateway: gateway(18789, "tok") };
    let info = get_gateway_info(Ok(cfg));
    assert_eq!(
        info,
        Ok(GatewayInfo {
            url: "http://127.0.0.1:18789".to_string(),
            token: "tok".to_string(),
            port: 18789,
            full_url: "http://127.0.0.1:18789/#token=tok".to_string(),
        })
    );
}

#[test]
fn gateway_info_hands_the_error_on() {
    assert_eq!(get_gateway_info(Err("Config not found: x".to_string())), Err("Config not found: x".to_string()));
    assert_eq!(get_gateway_url(Err("e".to_string())), Err("e".to_string()));
    assert_eq!(gateway_probe_target(Err("e".to_string())), Err("e".to_string()));
}

#[test]
fn gateway_url_and_probe_target_from_config() {
    let cfg = OpenClawConfig { gateway: gateway(9000, "") };
    assert_eq!(get_gateway_url(Ok(cfg.clone())), Ok("http://127.0.0.1:9000".to_string()));
    assert_eq!(gateway_probe_target(Ok(cfg)), Ok("http://127.0.0.1:9000".to_string()));
    let with_token = OpenClawConfig { gateway: gateway(9000, "k") };
    assert_eq!(get_gateway_url(Ok(with_token.clone())), Ok("http://127.0.0.1:9000/#token=k".to_string()));
    assert_eq!(gateway_probe_target(Ok(with_token)), Ok("http://127.0.0.1:9000".to_string()));
}

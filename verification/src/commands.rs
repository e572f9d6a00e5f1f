//! What the user interface asks of the gateway's configuration.

use crate::config::OpenClawConfig;
use vstd::prelude::*;

verus! {

/// How the user interface reaches the gateway.
#[derive(Debug, Clone, PartialEq, Eq)]
pub struct GatewayInfo {
    pub url: String,
    pub token: String,
    pub port: u16,
    pub full_url: String,
}

/// `GatewayInfo` as mathematical values.
pub struct GatewayInfoView {
    pub url: Seq<char>,
    pub token: Seq<char>,
    pub port: u16,
    pub full_url: Seq<char>,
}

impl View for GatewayInfo {
    type V = GatewayInfoView;

    open spec fn view(&self) -> GatewayInfoView {
        GatewayInfoView {
            url: self.url@,
            token: self.token@,
            port: self.port,
            full_url: self.full_url@,
        }
    }
}

/// What a configuration says of the gateway.
pub open spec fn gateway_info_of(cfg: OpenClawConfig) -> GatewayInfoView {
    GatewayInfoView {
        url: cfg.gateway.spec_base_url(),
        token: cfg.gateway.auth.token@,
        port: cfg.gateway.port,
        full_url: cfg.gateway.spec_full_url(),
    }
}

/// The gateway's addresses, port and token, from the configuration that
/// was loaded; the error of a load that failed is handed on as it is.
pub fn get_gateway_info(config: Result<OpenClawConfig, String>) -> (r: Result<
    GatewayInfo,
    String,
>)
    ensures
        r is Ok <==> config is Ok,
        r matches Ok(info) ==> info@ == gateway_info_of(config->Ok_0),
        r matches Err(e) ==> e@ == config->Err_0@,
{
    match config {
        Ok(cfg) => Ok(
            GatewayInfo {
                url: cfg.gateway.base_url(),
                token: cfg.gateway.auth.token.clone(),
                port: cfg.gateway.port,
                full_url: cfg.gateway.full_url(),
            },
        ),
        Err(e) => Err(e),
    }
}

/// The address to open in the user interface, from the configuration that
/// was loaded; the error of a load that failed is handed on as it is.
pub fn get_gateway_url(config: Result<OpenClawConfig, String>) -> (r: Result<String, String>)
    ensures
        r is Ok <==> config is Ok,
        r matches Ok(url) ==> url@ == config->Ok_0.gateway.spec_full_url(),
        r matches Err(e) ==> e@ == config->Err_0@,
{
    match config {
        Ok(cfg) => Ok(cfg.gateway.full_url()),
        Err(e) => Err(e),
    }
}

/// The address to probe for the gateway's status, from the configuration
/// that was loaded; the error of a load that failed is handed on as it is.
pub fn gateway_probe_target(config: Result<OpenClawConfig, String>) -> (r: Result<
    String,
    String,
>)
    ensures
        r is Ok <==> config is Ok,
        r matches Ok(url) ==> url@ == config->Ok_0.gateway.spec_base_url(),
        r matches Err(e) ==> e@ == config->Err_0@,
{
    match config {
        Ok(cfg) => Ok(cfg.gateway.base_url()),
        Err(e) => Err(e),
    }
}

} // verus!

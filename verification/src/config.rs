//! The gateway's configuration as the supervisor needs it, the addresses
//! derived from it, and how the outcome of reading the configuration file
//! is judged.

use crate::text::decimal;
use crate::text::decimal_string;
use crate::text::law_decimal_injective;
use crate::text::str_eq;
use vstd::prelude::*;
use vstd::string::StringExecFns;

verus! {

/// How clients authenticate with the gateway.
#[derive(Debug, Clone, PartialEq, Eq)]
pub struct AuthConfig {
    pub mode: String,
    pub token: String,
}

/// Where the gateway listens and how it is reached.
#[derive(Debug, Clone, PartialEq, Eq)]
pub struct GatewayConfig {
    pub port: u16,
    pub bind: String,
    pub auth: AuthConfig,
}

/// The interfaces that the gateway accepts connections on.
#[derive(Debug, Clone, Copy, PartialEq, Eq, Structural)]
pub enum BindMode {
    /// The loopback interface only.
    Loopback,
    /// Anything else that the configuration names.
    Other,
}

/// The configuration document, reduced to the part that concerns the gateway.
#[derive(Debug, Clone, PartialEq, Eq)]
pub struct OpenClawConfig {
    pub gateway: GatewayConfig,
}

impl Default for AuthConfig {
    fn default() -> (r: AuthConfig)
        ensures
            r.mode@ == Seq::<char>::empty(),
            r.token@ == Seq::<char>::empty(),
    {
        AuthConfig { mode: String::new(), token: String::new() }
    }
}

/// The bind mode of a configuration that names none.
pub fn default_bind() -> (r: String)
    ensures
        r@ == "loopback"@,
{
    String::from_str("loopback")
}

/// The address of a gateway that listens on `port` of the loopback interface.
pub open spec fn base_url_of(port: u16) -> Seq<char> {
    "http://127.0.0.1:"@ + decimal(port as nat)
}

/// What follows the base address for an access token: nothing for an empty
/// token, else the fragment that carries it.
pub open spec fn token_fragment(token: Seq<char>) -> Seq<char> {
    if token.len() == 0 {
        Seq::empty()
    } else {
        "/#token="@ + token
    }
}

impl GatewayConfig {
    /// The bind mode that the configuration names.
    pub open spec fn spec_bind_mode(&self) -> BindMode {
        if self.bind@ == "loopback"@ {
            BindMode::Loopback
        } else {
            BindMode::Other
        }
    }

    /// The bind mode that the configuration names: loopback for the text
    /// `loopback`, other for everything else.
    pub fn bind_mode(&self) -> (mode: BindMode)
        ensures
            mode == self.spec_bind_mode(),
    {
        if str_eq(self.bind.as_str(), "loopback") {
            BindMode::Loopback
        } else {
            BindMode::Other
        }
    }

    /// The gateway's address without credentials.
    pub open spec fn spec_base_url(&self) -> Seq<char> {
        base_url_of(self.port)
    }

    /// The gateway's address with the access token, if there is one.
    pub open spec fn spec_full_url(&self) -> Seq<char> {
        self.spec_base_url() + token_fragment(self.auth.token@)
    }

    /// The gateway's address without credentials: `http://127.0.0.1:<port>`.
    pub fn base_url(&self) -> (r: String)
        ensures
            r@ == self.spec_base_url(),
    {
        let mut r = String::from_str("http://127.0.0.1:");
        let port = decimal_string(self.port as u64);
        r.append(port.as_str());
        r
    }

    /// The address to open in a browser: the base address, followed by
    /// `/#token=<token>` when a token is configured.
    pub fn full_url(&self) -> (r: String)
        ensures
            r@ == self.spec_full_url(),
            self.auth.token@.len() == 0 ==> r@ == self.spec_base_url(),
            self.auth.token@.len() > 0 ==> r@ == self.spec_base_url() + "/#token="@
                + self.auth.token@,
    {
        let mut r = self.base_url();
        if self.auth.token.as_str().is_empty() {
            assert(r@ + Seq::<char>::empty() =~= r@);
        } else {
            r.append("/#token=");
            r.append(self.auth.token.as_str());
            assert(r@ =~= self.spec_base_url() + ("/#token="@ + self.auth.token@));
        }
        r
    }
}

/// Without a token the full address is the base address; with one it is the
/// base address followed by a suffix that depends on the token alone.
pub proof fn law_full_url(cfg: GatewayConfig)
    ensures
        cfg.auth.token@.len() == 0 ==> cfg.spec_full_url() == cfg.spec_base_url(),
        cfg.auth.token@.len() > 0 ==> cfg.spec_full_url() == cfg.spec_base_url() + "/#token="@
            + cfg.auth.token@,
        cfg.spec_full_url() == cfg.spec_base_url() + token_fragment(cfg.auth.token@),
{
    assert(cfg.spec_base_url() + Seq::<char>::empty() =~= cfg.spec_base_url());
    assert(cfg.spec_base_url() + ("/#token="@ + cfg.auth.token@) =~= cfg.spec_base_url()
        + "/#token="@ + cfg.auth.token@);
}

/// Gateways on different ports have different addresses.
pub proof fn law_base_url_injective(p: u16, q: u16)
    requires
        base_url_of(p) == base_url_of(q),
    ensures
        p == q,
{
    let prefix = "http://127.0.0.1:"@;
    let a = decimal(p as nat);
    let b = decimal(q as nat);
    assert((prefix + a).subrange(prefix.len() as int, (prefix + a).len() as int) =~= a);
    assert((prefix + b).subrange(prefix.len() as int, (prefix + b).len() as int) =~= b);
    law_decimal_injective(p as nat, q as nat);
}

/// What came of reading the configuration file.
#[derive(Debug, Clone, PartialEq, Eq)]
pub enum ConfigRead {
    /// The user's home directory is unknown, so the file has no location.
    NoHome,
    /// No file exists at `path`.
    Missing { path: String },
    /// The file at `path` could not be read, for `reason`.
    Unreadable { path: String, reason: String },
    /// The file's content is not a configuration document, for `reason`.
    Malformed { reason: String },
    /// The file held this configuration.
    Parsed(OpenClawConfig),
}

/// The message for a read that yields no configuration.
pub open spec fn config_error(read: ConfigRead) -> Seq<char> {
    match read {
        ConfigRead::NoHome => "Could not determine home directory"@,
        ConfigRead::Missing { path } => "Config not found: "@ + path@,
        ConfigRead::Unreadable { path, reason } => "Failed to read "@ + path@ + ": "@ + reason@,
        ConfigRead::Malformed { reason } => "Failed to parse config: "@ + reason@,
        ConfigRead::Parsed(_) => Seq::empty(),
    }
}

/// The configuration that a read yields, or the message that says why there
/// is none. Only a parsed document yields a configuration.
pub fn load_config(read: ConfigRead) -> (r: Result<OpenClawConfig, String>)
    ensures
        r is Ok <==> read is Parsed,
        r matches Ok(cfg) ==> read == ConfigRead::Parsed(cfg),
        r matches Err(msg) ==> msg@ == config_error(read),
{
    match read {
        ConfigRead::NoHome => Err(String::from_str("Could not determine home directory")),
        ConfigRead::Missing { path } => {
            let mut msg = String::from_str("Config not found: ");
            msg.append(path.as_str());
            Err(msg)
        },
        ConfigRead::Unreadable { path, reason } => {
            let mut msg = String::from_str("Failed to read ");
            msg.append(path.as_str());
            msg.append(": ");
            msg.append(reason.as_str());
            Err(msg)
        },
        ConfigRead::Malformed { reason } => {
            let mut msg = String::from_str("Failed to parse config: ");
            msg.append(reason.as_str());
            Err(msg)
        },
        ConfigRead::Parsed(cfg) => Ok(cfg),
    }
}

} // verus!

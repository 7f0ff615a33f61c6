//! Gateway configuration schema and its defaults.

use vstd::prelude::*;

verus! {

/// An IP address: four bytes for IPv4, eight 16-bit groups for IPv6.
#[derive(Debug, Clone, Copy, PartialEq, Eq)]
pub enum IpAddress {
    /// IPv4 address.
    V4(u8, u8, u8, u8),
    /// IPv6 address.
    V6([u16; 8]),
}

/// A socket address to listen on.
#[derive(Debug, Clone, Copy, PartialEq, Eq)]
pub struct ListenAddr {
    /// IP address.
    pub ip: IpAddress,
    /// TCP port.
    pub port: u16,
}

impl ListenAddr {
    /// `127.0.0.1:8080`, the gateway's default listen address.
    pub fn loopback_8080() -> (r: Self)
        ensures
            r.ip == IpAddress::V4(127, 0, 0, 1),
            r.port == 8080,
    {
        ListenAddr { ip: IpAddress::V4(127, 0, 0, 1), port: 8080 }
    }
}

/// Runtime configuration of the proxy listener.
pub struct ProxyConfig {
    /// Address to bind the local HTTP proxy listener.
    pub listen_addr: ListenAddr,
    /// Upstream MCP server URL (e.g. `"http://127.0.0.1:9090"`).
    pub upstream_url: String,
}

impl ProxyConfig {
    /// Creates a `ProxyConfig` with a custom listen address and upstream URL.
    pub fn new(listen_addr: ListenAddr, upstream_url: String) -> (r: Self)
        ensures
            r.listen_addr == listen_addr,
            r.upstream_url@ == upstream_url@,
    {
        ProxyConfig { listen_addr, upstream_url }
    }

    /// The configuration from the values of `LISTEN_ADDR` (already parsed, `None`
    /// when unset or unparsable) and `UPSTREAM_URL` (`None` when unset), with the
    /// fallbacks `127.0.0.1:8080` and `http://127.0.0.1:9090`.
    pub fn from_env_values(listen_addr: Option<ListenAddr>, upstream_url: Option<String>) -> (r:
        Self)
        ensures
            r.listen_addr == (match listen_addr {
                Some(a) => a,
                None => ListenAddr { ip: IpAddress::V4(127, 0, 0, 1), port: 8080 },
            }),
            r.upstream_url@ == (match upstream_url {
                Some(u) => u@,
                None => "http://127.0.0.1:9090"@,
            }),
    {
        let listen_addr = match listen_addr {
            Some(a) => a,
            None => ListenAddr::loopback_8080(),
        };
        let upstream_url = match upstream_url {
            Some(u) => u,
            None => String::from_str("http://127.0.0.1:9090"),
        };
        ProxyConfig { listen_addr, upstream_url }
    }
}

/// Server network and timeout configuration.
pub struct ServerSettings {
    /// Address to bind the proxy server.
    pub listen_addr: ListenAddr,
    /// Default request timeout in milliseconds.
    pub default_timeout_ms: u64,
}

impl Default for ServerSettings {
    /// `127.0.0.1:8080` with a 30 000 ms timeout.
    fn default() -> (r: Self)
        ensures
            r.listen_addr == (ListenAddr { ip: IpAddress::V4(127, 0, 0, 1), port: 8080 }),
            r.default_timeout_ms == 30000,
    {
        ServerSettings { listen_addr: ListenAddr::loopback_8080(), default_timeout_ms: 30000 }
    }
}

/// Upstream proxy route rule.
pub struct RouteConfig {
    /// URI path matching prefix (e.g. `/mcp`, `/sse`).
    pub path: String,
    /// Target upstream MCP server URL.
    pub upstream_url: String,
    /// Optional required agent role for authorization.
    pub required_role: Option<String>,
    /// Whether this route is currently active.
    pub enabled: bool,
}

/// The value a route's `enabled` flag takes when the configuration omits it.
pub fn default_true() -> (r: bool)
    ensures
        r,
{
    true
}

impl Default for RouteConfig {
    /// The route `/mcp` to `http://127.0.0.1:9090`, enabled, with no required role.
    fn default() -> (r: Self)
        ensures
            r.path@ == "/mcp"@,
            r.upstream_url@ == "http://127.0.0.1:9090"@,
            r.required_role is None,
            r.enabled,
    {
        RouteConfig {
            path: String::from_str("/mcp"),
            upstream_url: String::from_str("http://127.0.0.1:9090"),
            required_role: None,
            enabled: true,
        }
    }
}

/// Agent identity role mapping and tool permissions.
pub struct AgentRoleMapping {
    /// Name of the role (e.g. `admin`, `analyst`).
    pub role: String,
    /// Allowed tool names or wildcards (e.g. `["*"]`).
    pub allowed_tools: Vec<String>,
    /// Optional rate limit (requests per minute).
    pub max_rate_limit: Option<u32>,
}

impl Default for AgentRoleMapping {
    /// The role `default`, allowed every tool (`*`), limited to 1000 requests per minute.
    fn default() -> (r: Self)
        ensures
            r.role@ == "default"@,
            r.allowed_tools@.len() == 1,
            r.allowed_tools@[0]@ == "*"@,
            r.max_rate_limit == Some(1000u32),
    {
        let mut allowed_tools: Vec<String> = Vec::new();
        allowed_tools.push(String::from_str("*"));
        AgentRoleMapping {
            role: String::from_str("default"),
            allowed_tools,
            max_rate_limit: Some(1000),
        }
    }
}

/// Security flags and engine toggles.
pub struct SecuritySettings {
    /// Enable WASI 0.2 plugin guardrail inspection.
    pub enable_wasm_guardrails: bool,
    /// Enable Merkle proof cryptographic audit logging.
    pub enable_proof_logging: bool,
}

impl Default for SecuritySettings {
    /// Both engines enabled.
    fn default() -> (r: Self)
        ensures
            r.enable_wasm_guardrails,
            r.enable_proof_logging,
    {
        SecuritySettings { enable_wasm_guardrails: true, enable_proof_logging: true }
    }
}

/// Root gateway configuration schema.
pub struct GatewayConfig {
    /// Server listener and timeout settings.
    pub server: ServerSettings,
    /// Dynamic proxy routes, matched in order.
    pub routes: Vec<RouteConfig>,
    /// Agent role definitions and tool permissions.
    pub roles: Vec<AgentRoleMapping>,
    /// Security and engine flags.
    pub security: SecuritySettings,
}

/// `c` is the default gateway configuration, except that its single route
/// forwards to `upstream`.
pub open spec fn is_default_config_with_upstream(c: GatewayConfig, upstream: Seq<char>) -> bool {
    &&& c.server.listen_addr == (ListenAddr { ip: IpAddress::V4(127, 0, 0, 1), port: 8080 })
    &&& c.server.default_timeout_ms == 30000
    &&& c.routes@.len() == 1
    &&& c.routes@[0].path@ == "/mcp"@
    &&& c.routes@[0].upstream_url@ == upstream
    &&& c.routes@[0].required_role is None
    &&& c.routes@[0].enabled
    &&& c.roles@.len() == 1
    &&& c.roles@[0].role@ == "default"@
    &&& c.roles@[0].allowed_tools@.len() == 1
    &&& c.roles@[0].allowed_tools@[0]@ == "*"@
    &&& c.roles@[0].max_rate_limit == Some(1000u32)
    &&& c.security.enable_wasm_guardrails
    &&& c.security.enable_proof_logging
}

impl Default for GatewayConfig {
    /// Default settings, one default route, one default role.
    fn default() -> (r: Self)
        ensures
            is_default_config_with_upstream(r, "http://127.0.0.1:9090"@),
    {
        let mut routes: Vec<RouteConfig> = Vec::new();
        routes.push(RouteConfig::default());
        let mut roles: Vec<AgentRoleMapping> = Vec::new();
        roles.push(AgentRoleMapping::default());
        GatewayConfig {
            server: ServerSettings::default(),
            routes,
            roles,
            security: SecuritySettings::default(),
        }
    }

}

impl GatewayConfig {
    /// The configuration a router without a configuration source starts from:
    /// the default one, with its route pointed at `upstream_url`.
    pub fn default_for_upstream(upstream_url: &str) -> (r: Self)
        ensures
            is_default_config_with_upstream(r, upstream_url@),
    {
        let mut route = RouteConfig::default();
        route.upstream_url = String::from_str(upstream_url);
        let mut routes: Vec<RouteConfig> = Vec::new();
        routes.push(route);
        let mut roles: Vec<AgentRoleMapping> = Vec::new();
        roles.push(AgentRoleMapping::default());
        GatewayConfig {
            server: ServerSettings::default(),
            routes,
            roles,
            security: SecuritySettings::default(),
        }
    }
}

} // verus!

verus! {

/// The kind of change the configuration file watcher reports.
#[derive(Debug, Clone, Copy, PartialEq, Eq)]
pub enum FileEventKind {
    /// An unspecified change.
    Any,
    /// A file was read or opened.
    Access,
    /// A file was created.
    Create,
    /// A file's content or metadata changed.
    Modify,
    /// A file was removed.
    Remove,
    /// Some other event.
    Other,
}

/// Whether a change in the configuration file's directory reloads the
/// configuration: only a creation or a modification does.
pub fn reloads_config(kind: FileEventKind) -> (r: bool)
    ensures
        r == (kind == FileEventKind::Create || kind == FileEventKind::Modify),
{
    match kind {
        FileEventKind::Create | FileEventKind::Modify => true,
        _ => false,
    }
}

} // verus!

//! Connection configuration models: the stored shape of an SSH connection,
//! its jump-host and proxy settings, and the terminal display defaults.

use vstd::prelude::*;

verus! {

/// Category of a stored connection.
#[derive(Clone, Copy, Debug, PartialEq, Eq, Structural)]
pub enum ModuleType {
    Ssh,
    Database,
    Docker,
    Middleware,
}

/// SSH authentication mode.
#[derive(Clone, Copy, Debug, PartialEq, Eq, Structural)]
pub enum SshAuthType {
    Password,
    Key,
    Interactive,
}

/// Proxy protocol for SSH connections.
#[derive(Clone, Copy, Debug, PartialEq, Eq, Structural)]
pub enum ProxyType {
    Socks5,
    Http,
}

/// Jump host (bastion) configuration.
#[derive(Debug)]
pub struct JumpHostConfig {
    pub host: String,
    pub port: u16,
    pub username: String,
    pub auth_type: SshAuthType,
    pub password: Option<String>,
    pub private_key: Option<String>,
    pub passphrase: Option<String>,
}

impl JumpHostConfig {
    /// A copy of the configuration, field for field.
    pub fn duplicate(&self) -> (r: JumpHostConfig)
        ensures
            r == *self,
    {
        JumpHostConfig {
            host: self.host.clone(),
            port: self.port,
            username: self.username.clone(),
            auth_type: self.auth_type,
            password: clone_opt(&self.password),
            private_key: clone_opt(&self.private_key),
            passphrase: clone_opt(&self.passphrase),
        }
    }
}

/// A copy of an optional string, value for value.
pub fn clone_opt(o: &Option<String>) -> (r: Option<String>)
    ensures
        r == *o,
{
    match o {
        Some(s) => Some(s.clone()),
        None => None,
    }
}

/// Proxy configuration.
#[derive(Debug)]
pub struct ProxyConfig {
    pub proxy_type: ProxyType,
    pub host: String,
    pub port: u16,
    pub username: Option<String>,
    pub password: Option<String>,
}

/// Terminal display settings.
#[derive(Debug)]
pub struct TerminalSettings {
    pub font_size: u32,
    pub font_family: String,
    pub color_scheme: String,
}

/// Default terminal font size.
pub fn default_font_size() -> (r: u32)
    ensures
        r == 14,
{
    14
}

/// Default terminal font family.
pub fn default_font_family() -> (r: String)
    ensures
        r@ == "JetBrains Mono, Fira Code, monospace"@,
{
    String::from_str("JetBrains Mono, Fira Code, monospace")
}

/// Default terminal color scheme.
pub fn default_color_scheme() -> (r: String)
    ensures
        r@ == "default"@,
{
    String::from_str("default")
}

impl Default for TerminalSettings {
    /// The default display settings.
    fn default() -> (r: TerminalSettings)
        ensures
            r.font_size == 14,
            r.font_family@ == "JetBrains Mono, Fira Code, monospace"@,
            r.color_scheme@ == "default"@,
    {
        TerminalSettings {
            font_size: default_font_size(),
            font_family: default_font_family(),
            color_scheme: default_color_scheme(),
        }
    }
}

/// SSH connection configuration as stored by the caller.
#[derive(Debug)]
pub struct SshConnectionConfig {
    pub id: String,
    pub name: String,
    pub host: String,
    pub port: u16,
    pub username: String,
    pub auth_type: SshAuthType,
    pub password: Option<String>,
    pub private_key: Option<String>,
    pub passphrase: Option<String>,
    pub jump_host: Option<JumpHostConfig>,
    pub proxy: Option<ProxyConfig>,
    pub terminal_settings: TerminalSettings,
}

} // verus!

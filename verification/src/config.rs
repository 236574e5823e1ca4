//! The configuration of one redirector, fixed before it starts to serve.

use vstd::prelude::*;
use vstd::string::*;

use crate::request::SocketAddress;

verus! {

/// The port that is listened on where none is configured.
pub const DEFAULT_PORT: u16 = 3000;

/// Why a configuration was turned down.
#[derive(Clone, Copy, Debug, PartialEq, Eq)]
pub enum ConfigError {
    /// The path to redirect from is empty.
    EmptyOldPath,
    /// The redirect target is empty.
    EmptyNewPath,
}

impl ConfigError {
    /// The text that `message` gives for each error.
    pub open spec fn message_view(self) -> Seq<char> {
        match self {
            ConfigError::EmptyOldPath => "the path to redirect from must not be empty"@,
            ConfigError::EmptyNewPath => "the redirect target must not be empty"@,
        }
    }

    /// A line that tells a person what was wrong.
    pub fn message(&self) -> (text: &'static str)
        ensures
            text@ == self.message_view(),
    {
        match self {
            ConfigError::EmptyOldPath => "the path to redirect from must not be empty",
            ConfigError::EmptyNewPath => "the redirect target must not be empty",
        }
    }
}

/// What a configuration means.
pub struct ConfigView {
    pub old_path: Seq<char>,
    pub new_path: Seq<char>,
    pub port: u16,
}

impl ConfigView {
    /// Both the path to redirect from and the target are non-empty.
    pub open spec fn wf(self) -> bool {
        self.old_path.len() > 0 && self.new_path.len() > 0
    }
}

/// The outcome of configuring with the given values: the path is checked
/// before the target, and an omitted port becomes the default one.
pub open spec fn configure(old_path: Seq<char>, new_path: Seq<char>, port: Option<u16>) -> Result<
    ConfigView,
    ConfigError,
> {
    if old_path.len() == 0 {
        Err(ConfigError::EmptyOldPath)
    } else if new_path.len() == 0 {
        Err(ConfigError::EmptyNewPath)
    } else {
        Ok(
            ConfigView {
                old_path,
                new_path,
                port: match port {
                    Some(p) => p,
                    None => DEFAULT_PORT,
                },
            },
        )
    }
}

/// The loopback address on `port`.
pub open spec fn loopback(port: u16) -> SocketAddress {
    SocketAddress::V4 { octets: [127u8, 0u8, 0u8, 1u8], port }
}

/// A validated configuration. It is read-only once made.
#[derive(Debug, PartialEq, Eq)]
pub struct RouteConfig {
    old_path: String,
    new_path: String,
    port: u16,
}

impl View for RouteConfig {
    type V = ConfigView;

    closed spec fn view(&self) -> ConfigView {
        ConfigView { old_path: self.old_path@, new_path: self.new_path@, port: self.port }
    }
}

impl Clone for RouteConfig {
    fn clone(&self) -> (copy: RouteConfig)
        ensures
            copy@ == self@,
    {
        proof {
            use_type_invariant(self);
        }
        RouteConfig {
            old_path: self.old_path.clone(),
            new_path: self.new_path.clone(),
            port: self.port,
        }
    }
}

impl RouteConfig {
    #[verifier::type_invariant]
    spec fn inv(self) -> bool {
        self@.wf()
    }

    /// Validates a configuration. An empty `old_path` or `new_path` is
    /// rejected; neither is inspected any further.
    pub fn new(old_path: String, new_path: String, port: Option<u16>) -> (result: Result<
        RouteConfig,
        ConfigError,
    >)
        ensures
            match (result, configure(old_path@, new_path@, port)) {
                (Ok(config), Ok(view)) => config@ == view && config@.wf(),
                (Err(e), Err(expected)) => e == expected,
                _ => false,
            },
    {
        if old_path.as_str().is_empty() {
            return Err(ConfigError::EmptyOldPath);
        }
        if new_path.as_str().is_empty() {
            return Err(ConfigError::EmptyNewPath);
        }
        let port = match port {
            Some(p) => p,
            None => DEFAULT_PORT,
        };
        Ok(RouteConfig { old_path, new_path, port })
    }

    /// The path to redirect from, as it was configured.
    pub fn old_path(&self) -> (path: &str)
        ensures
            path@ == self@.old_path,
            path@.len() > 0,
    {
        proof {
            use_type_invariant(self);
        }
        self.old_path.as_str()
    }

    /// The redirect target, as it was configured.
    pub fn new_path(&self) -> (target: &str)
        ensures
            target@ == self@.new_path,
            target@.len() > 0,
    {
        proof {
            use_type_invariant(self);
        }
        self.new_path.as_str()
    }

    /// The port to listen on.
    pub fn port(&self) -> (port: u16)
        ensures
            port == self@.port,
    {
        self.port
    }

    /// The address to bind: the loopback interface, on the configured port.
    pub fn bind_address(&self) -> (address: SocketAddress)
        ensures
            address == loopback(self@.port),
    {
        SocketAddress::V4 { octets: [127, 0, 0, 1], port: self.port }
    }
}

} // verus!

//! How to reach the node: the settings that a client is built from.

use vstd::prelude::*;

verus! {

/// The timeout, in seconds, for a call that walks the whole set of unspent
/// outputs: eight minutes.
pub const UTXO_SET_SCAN_TIMEOUT_SECS: u64 = 480;

/// A setting that must be present in the environment.
#[derive(Clone, Copy, Debug, PartialEq, Eq, Structural)]
pub enum Variable {
    /// The address of the node's RPC endpoint.
    Url,
    /// The RPC user name.
    User,
    /// The RPC password.
    Password,
}

impl Variable {
    /// The name of the environment variable.
    pub open spec fn name_of(self) -> Seq<char> {
        match self {
            Variable::Url => "BITCOIN_RPC_URL"@,
            Variable::User => "BITCOIN_RPC_USER"@,
            Variable::Password => "BITCOIN_RPC_PASSWORD"@,
        }
    }

    /// What to say when the variable is missing.
    pub open spec fn complaint_of(self) -> Seq<char> {
        match self {
            Variable::Url => "BITCOIN_RPC_URL must be set"@,
            Variable::User => "BITCOIN_RPC_USER must be set"@,
            Variable::Password => "BITCOIN_RPC_PASSWORD must be set"@,
        }
    }

    /// The name of the environment variable.
    pub fn name(self) -> (r: &'static str)
        ensures
            r@ == self.name_of(),
    {
        match self {
            Variable::Url => "BITCOIN_RPC_URL",
            Variable::User => "BITCOIN_RPC_USER",
            Variable::Password => "BITCOIN_RPC_PASSWORD",
        }
    }
}

/// Why no configuration could be made.
#[derive(Clone, Copy, Debug, PartialEq, Eq, Structural)]
pub enum ConfigError {
    /// A required variable is not set.
    Missing(Variable),
}

impl ConfigError {
    /// The error in words: the variable's name, and that it must be set.
    pub fn message(self) -> (r: &'static str)
        ensures
            self matches ConfigError::Missing(variable) && r@ == variable.complaint_of(),
    {
        match self {
            ConfigError::Missing(Variable::Url) => "BITCOIN_RPC_URL must be set",
            ConfigError::Missing(Variable::User) => "BITCOIN_RPC_USER must be set",
            ConfigError::Missing(Variable::Password) => "BITCOIN_RPC_PASSWORD must be set",
        }
    }
}

/// The settings of one client: made once at startup and handed to whatever
/// needs to reach the node.
#[derive(Clone, Debug, PartialEq, Eq)]
pub struct RpcConfig {
    /// The address of the node's RPC endpoint.
    pub url: String,
    /// The RPC user name.
    pub user: String,
    /// The RPC password.
    pub password: String,
    /// How long a call may take, in seconds; `None` leaves it to the client.
    pub timeout_secs: Option<u64>,
}

impl RpcConfig {
    /// The configuration that the three variables give, or the first of them
    /// that is missing, in the order address, user, password.
    pub open spec fn of_vars(
        url: Option<String>,
        user: Option<String>,
        password: Option<String>,
    ) -> Result<RpcConfig, ConfigError> {
        if url is None {
            Err(ConfigError::Missing(Variable::Url))
        } else if user is None {
            Err(ConfigError::Missing(Variable::User))
        } else if password is None {
            Err(ConfigError::Missing(Variable::Password))
        } else {
            Ok(
                RpcConfig {
                    url: url->0,
                    user: user->0,
                    password: password->0,
                    timeout_secs: None,
                },
            )
        }
    }

    /// Makes the configuration from the values of the three variables, each
    /// `None` where the variable is not set. All three are required; no
    /// timeout is set.
    pub fn from_vars(
        url: Option<String>,
        user: Option<String>,
        password: Option<String>,
    ) -> (r: Result<RpcConfig, ConfigError>)
        ensures
            r == Self::of_vars(url, user, password),
            r is Ok <==> url is Some && user is Some && password is Some,
    {
        let url = match url {
            Some(value) => value,
            None => return Err(ConfigError::Missing(Variable::Url)),
        };
        let user = match user {
            Some(value) => value,
            None => return Err(ConfigError::Missing(Variable::User)),
        };
        let password = match password {
            Some(value) => value,
            None => return Err(ConfigError::Missing(Variable::Password)),
        };
        Ok(RpcConfig { url, user, password, timeout_secs: None })
    }

    /// The same settings with a timeout of `timeout_secs` seconds.
    pub fn with_timeout(self, timeout_secs: u64) -> (r: RpcConfig)
        ensures
            r == (RpcConfig { timeout_secs: Some(timeout_secs), ..self }),
    {
        RpcConfig {
            url: self.url,
            user: self.user,
            password: self.password,
            timeout_secs: Some(timeout_secs),
        }
    }
}

} // verus!

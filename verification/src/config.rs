//! The configuration of the webhook: made once when the host starts, read-only
//! afterwards, and handed by reference to whatever handles a request.

use crate::error::ConfigError;
use crate::request::DeployRequest;
use vstd::prelude::*;
use vstd::string::StringExecFns;

verus! {

/// The environment variable that names the directory of the deployment scripts.
pub const COMMANDS_DIR_VAR: &'static str = "COMMANDS_DIR";

/// The environment variable that holds the shared secret.
pub const WEBHOOK_SECRET_VAR: &'static str = "WEBHOOK_SECRET";

/// The directory of the deployment scripts where the environment names none.
pub const DEFAULT_COMMANDS_DIR: &'static str = "./command";

/// The address the host listens on: every interface.
pub const LISTEN_ADDRESS: &'static str = "0.0.0.0";

/// The TCP port the host listens on.
pub const LISTEN_PORT: u16 = 3794;

/// What the webhook is configured with.
#[derive(Debug, PartialEq, Eq)]
pub struct Config {
    /// The directory that holds the deployment scripts.
    pub commands_dir: String,
    /// The secret that a deploy request has to show.
    pub webhook_secret: String,
}

/// A [`Config`] as a mathematical value.
pub struct ConfigView {
    pub commands_dir: Seq<char>,
    pub webhook_secret: Seq<char>,
}

impl View for Config {
    type V = ConfigView;

    open spec fn view(&self) -> ConfigView {
        ConfigView { commands_dir: self.commands_dir@, webhook_secret: self.webhook_secret@ }
    }
}

impl Clone for Config {
    fn clone(&self) -> (copy: Config)
        ensures
            copy@ == self@,
    {
        Config {
            commands_dir: self.commands_dir.clone(),
            webhook_secret: self.webhook_secret.clone(),
        }
    }
}

impl ConfigView {
    /// The configuration that two environment variables give, each `None`
    /// where it is not set. Without a secret there is none. Without a commands
    /// directory the default stands in. A variable that is set and empty
    /// counts as set.
    pub open spec fn from_vars(
        commands_dir: Option<Seq<char>>,
        webhook_secret: Option<Seq<char>>,
    ) -> Result<ConfigView, ConfigError> {
        match webhook_secret {
            None => Err(ConfigError::MissingSecret),
            Some(secret) => Ok(
                ConfigView {
                    commands_dir: match commands_dir {
                        Some(dir) => dir,
                        None => DEFAULT_COMMANDS_DIR@,
                    },
                    webhook_secret: secret,
                },
            ),
        }
    }

    /// Whether a request that shows `secret` is let through: the secret is the
    /// configured one, character for character.
    pub open spec fn admits(self, secret: Seq<char>) -> bool {
        secret == self.webhook_secret
    }
}

impl Config {
    /// Makes the configuration from the values of `COMMANDS_DIR` and
    /// `WEBHOOK_SECRET`, each `None` where the variable is not set.
    pub fn from_vars(
        commands_dir: Option<String>,
        webhook_secret: Option<String>,
    ) -> (result: Result<Config, ConfigError>)
        ensures
            (match result {
                Ok(config) => Ok::<ConfigView, ConfigError>(config@),
                Err(error) => Err(error),
            }) == ConfigView::from_vars(commands_dir.deep_view(), webhook_secret.deep_view()),
    {
        match webhook_secret {
            None => Err(ConfigError::MissingSecret),
            Some(secret) => {
                let dir = match commands_dir {
                    Some(dir) => dir,
                    None => String::from_str(DEFAULT_COMMANDS_DIR),
                };
                Ok(Config { commands_dir: dir, webhook_secret: secret })
            },
        }
    }

    /// Whether `request` is let through: it shows the configured secret.
    ///
    /// The two strings are compared with `==`, which may return at the first
    /// difference: the time it takes is not independent of the secret.
    pub fn admits(&self, request: &DeployRequest) -> (admitted: bool)
        ensures
            admitted == self@.admits(request.secret@),
    {
        request.secret == self.webhook_secret
    }
}

} // verus!

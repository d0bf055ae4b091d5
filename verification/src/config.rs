//! What the service is told when it starts.

use vstd::prelude::*;
use vstd::string::*;

verus! {

/// The settings of the service. They are read once, before the first request,
/// and never change. The type has no `Debug`, so that the secret is not
/// printed by accident.
#[derive(Clone, PartialEq, Eq)]
pub struct Config {
    /// The secret that the forge signs its deliveries with.
    pub secret: String,
    /// The directory of the working copy that jobs build and measure in.
    pub working_copy: String,
}

/// The mathematical content of a [`Config`].
pub struct ConfigView {
    pub secret: Seq<char>,
    pub working_copy: Seq<char>,
}

impl View for Config {
    type V = ConfigView;

    open spec fn view(&self) -> ConfigView {
        ConfigView { secret: self.secret@, working_copy: self.working_copy@ }
    }
}

/// A setting that the service cannot start without.
#[derive(Clone, Copy, Debug, PartialEq, Eq, Structural)]
pub enum ConfigError {
    /// No secret was given.
    MissingSecret,
    /// No working copy was given.
    MissingWorkingCopy,
}

impl ConfigError {
    /// The message that names the variable that is missing.
    pub fn message(self) -> (message: &'static str)
        ensures
            self is MissingSecret ==> message@ == "missing GITHUB_WEBHOOK_SECRET var"@,
            self is MissingWorkingCopy ==> message@ == "missing RAPHAEL_DIR var"@,
    {
        match self {
            ConfigError::MissingSecret => "missing GITHUB_WEBHOOK_SECRET var",
            ConfigError::MissingWorkingCopy => "missing RAPHAEL_DIR var",
        }
    }
}

impl Config {
    /// The name of the variable that holds the secret.
    pub fn secret_variable() -> (name: &'static str)
        ensures
            name@ == "GITHUB_WEBHOOK_SECRET"@,
    {
        "GITHUB_WEBHOOK_SECRET"
    }

    /// The name of the variable that holds the working copy's directory.
    pub fn working_copy_variable() -> (name: &'static str)
        ensures
            name@ == "RAPHAEL_DIR"@,
    {
        "RAPHAEL_DIR"
    }

    /// Makes the settings of what the environment held. Both values are
    /// needed. Where both are missing, the secret is the one reported.
    pub fn load(secret: Option<String>, working_copy: Option<String>) -> (loaded: Result<
        Config,
        ConfigError,
    >)
        ensures
            match (secret, working_copy) {
                (Some(s), Some(w)) => loaded matches Ok(config) && config.secret == s
                    && config.working_copy == w,
                (None, _) => loaded == Err::<Config, ConfigError>(ConfigError::MissingSecret),
                (Some(_), None) => loaded == Err::<Config, ConfigError>(
                    ConfigError::MissingWorkingCopy,
                ),
            },
    {
        match secret {
            None => Err(ConfigError::MissingSecret),
            Some(secret) => match working_copy {
                None => Err(ConfigError::MissingWorkingCopy),
                Some(working_copy) => Ok(Config { secret, working_copy }),
            },
        }
    }
}

} // verus!

//! Configuration assembled from readings of the process environment.
//!
//! The embedding program reads the six environment variables (after merging
//! in a local settings file, if one exists) and hands the readings to
//! [`PAGIConfig::from_env`], which applies the documented defaults and fails
//! exactly when the mandatory LLM key is absent.

use vstd::prelude::*;

verus! {

/// Configuration for all external providers.
///
/// Constructed once at initialization and immutable thereafter; each client
/// holds its own copy.
#[derive(Debug, Clone)]
pub struct PAGIConfig {
    pub openrouter_api_key: String,
    pub default_model: String,

    pub jira_api_token: String,
    pub jira_base_url: String,

    pub crowdstrike_api_token: String,
    pub crowdstrike_base_url: String,
}

/// The model identifier used when no default-model variable is set.
pub open spec fn default_model_value() -> Seq<char> {
    "openai/gpt-4o-mini"@
}

/// The issue-tracker base URL used when its variable is unset.
pub open spec fn default_jira_base_url() -> Seq<char> {
    "https://jira.example.com"@
}

/// The isolation-service base URL used when its variable is unset.
pub open spec fn default_crowdstrike_base_url() -> Seq<char> {
    "https://api.crowdstrike.com"@
}

/// The value an optional setting takes: the reading when the variable was
/// set, the fallback when it was not.
pub open spec fn setting_or(read: Option<String>, fallback: Seq<char>) -> Seq<char> {
    match read {
        Some(s) => s@,
        None => fallback,
    }
}

/// The fatal configuration error: the mandatory LLM key is absent.
#[derive(Debug, Clone, Copy, PartialEq, Eq, Structural)]
pub enum ConfigError {
    MissingOpenrouterApiKey,
}

impl ConfigError {
    /// The diagnostic naming the missing variable.
    pub fn message(&self) -> (m: String)
        ensures
            m@ == "Missing required env var: OPENROUTER_API_KEY"@,
    {
        "Missing required env var: OPENROUTER_API_KEY".to_owned()
    }
}

impl PAGIConfig {
    /// Assembles the configuration from the environment readings, one
    /// `Option` per variable (`None` when the variable was unset).
    ///
    /// Fails exactly when the mandatory LLM key is absent; every other
    /// variable is optional, the tokens defaulting to the empty string and
    /// the model and base URLs to their fixed defaults.
    pub fn from_env(
        openrouter_api_key: Option<String>,
        default_model: Option<String>,
        jira_api_token: Option<String>,
        jira_base_url: Option<String>,
        crowdstrike_api_token: Option<String>,
        crowdstrike_base_url: Option<String>,
    ) -> (r: Result<PAGIConfig, ConfigError>)
        ensures
            r is Ok <==> openrouter_api_key is Some,
            r is Err ==> r->Err_0 == ConfigError::MissingOpenrouterApiKey,
            r matches Ok(c) ==> {
                &&& c.openrouter_api_key@ == openrouter_api_key->0@
                &&& c.default_model@ == setting_or(default_model, default_model_value())
                &&& c.jira_api_token@ == setting_or(jira_api_token, Seq::<char>::empty())
                &&& c.jira_base_url@ == setting_or(jira_base_url, default_jira_base_url())
                &&& c.crowdstrike_api_token@ == setting_or(
                    crowdstrike_api_token,
                    Seq::<char>::empty(),
                )
                &&& c.crowdstrike_base_url@ == setting_or(
                    crowdstrike_base_url,
                    default_crowdstrike_base_url(),
                )
            },
    {
        let openrouter_api_key = match openrouter_api_key {
            Some(k) => k,
            None => {
                return Err(ConfigError::MissingOpenrouterApiKey);
            },
        };
        let default_model = match default_model {
            Some(m) => m,
            None => "openai/gpt-4o-mini".to_owned(),
        };
        let jira_api_token = match jira_api_token {
            Some(t) => t,
            None => String::new(),
        };
        let jira_base_url = match jira_base_url {
            Some(u) => u,
            None => "https://jira.example.com".to_owned(),
        };
        let crowdstrike_api_token = match crowdstrike_api_token {
            Some(t) => t,
            None => String::new(),
        };
        let crowdstrike_base_url = match crowdstrike_base_url {
            Some(u) => u,
            None => "https://api.crowdstrike.com".to_owned(),
        };
        Ok(PAGIConfig {
            openrouter_api_key,
            default_model,
            jira_api_token,
            jira_base_url,
            crowdstrike_api_token,
            crowdstrike_base_url,
        })
    }
}

} // verus!

//! Stub clients for the issue tracker and the endpoint-isolation service.
//!
//! Each integration is a capability interface — [`IssueTracker`],
//! [`HostIsolator`] — whose contract ties success to the presence of the
//! credential, so a real implementation can replace a stub without changing
//! callers. The stubs here validate that their credential is present and
//! otherwise perform no external effect.

use vstd::prelude::*;

verus! {

/// The capability of filing issues with an issue tracker.
pub trait IssueTracker {
    /// Whether the credential the integration needs is present.
    spec fn credential_present(&self) -> bool;

    /// The failure message naming the missing credential.
    spec fn missing_credential_diagnostic(&self) -> Seq<char>;

    /// Files an issue with the given summary: fails, naming the missing
    /// credential, exactly when the credential is absent.
    fn create_issue(&self, summary: &str) -> (r: Result<(), String>)
        ensures
            r is Ok <==> self.credential_present(),
            r matches Err(m) ==> m@ == self.missing_credential_diagnostic(),
    ;
}

/// The capability of isolating an endpoint from the network.
pub trait HostIsolator {
    /// Whether the credential the integration needs is present.
    spec fn credential_present(&self) -> bool;

    /// The failure message naming the missing credential.
    spec fn missing_credential_diagnostic(&self) -> Seq<char>;

    /// Isolates the given host: fails, naming the missing credential,
    /// exactly when the credential is absent.
    fn isolate_host(&self, hostname: &str) -> (r: Result<(), String>)
        ensures
            r is Ok <==> self.credential_present(),
            r matches Err(m) ==> m@ == self.missing_credential_diagnostic(),
    ;
}

/// Placeholder issue-tracker client: checks its token, then succeeds without
/// any network access.
#[derive(Debug, Clone)]
pub struct JiraClient {
    pub config: crate::config::PAGIConfig,
}

impl JiraClient {
    pub fn new(config: crate::config::PAGIConfig) -> (r: JiraClient)
        ensures
            r.config == config,
    {
        JiraClient { config }
    }
}

impl IssueTracker for JiraClient {
    open spec fn credential_present(&self) -> bool {
        self.config.jira_api_token@.len() > 0
    }

    open spec fn missing_credential_diagnostic(&self) -> Seq<char> {
        "JIRA_API_TOKEN is not set"@
    }

    fn create_issue(&self, summary: &str) -> (r: Result<(), String>) {
        if self.config.jira_api_token.as_str().is_empty() {
            return Err("JIRA_API_TOKEN is not set".to_owned());
        }

        let _ = summary;

        Ok(())
    }
}

/// Placeholder endpoint-isolation client: checks its token, then succeeds
/// without any network access.
#[derive(Debug, Clone)]
pub struct CrowdstrikeClient {
    pub config: crate::config::PAGIConfig,
}

impl CrowdstrikeClient {
    pub fn new(config: crate::config::PAGIConfig) -> (r: CrowdstrikeClient)
        ensures
            r.config == config,
    {
        CrowdstrikeClient { config }
    }
}

impl HostIsolator for CrowdstrikeClient {
    open spec fn credential_present(&self) -> bool {
        self.config.crowdstrike_api_token@.len() > 0
    }

    open spec fn missing_credential_diagnostic(&self) -> Seq<char> {
        "CROWDSTRIKE_API_TOKEN is not set"@
    }

    fn isolate_host(&self, hostname: &str) -> (r: Result<(), String>) {
        if self.config.crowdstrike_api_token.as_str().is_empty() {
            return Err("CROWDSTRIKE_API_TOKEN is not set".to_owned());
        }

        let _ = hostname;

        Ok(())
    }
}

} // verus!

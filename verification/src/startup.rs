//! Which tunnel provider the operator runs with, from its settings
//! `PLAYIT_PROVIDER`, `PLAYIT_AGENT_KEY` and `PLAYIT_API_KEY`.

use vstd::prelude::*;
use crate::provider::playit::PlayitCredential;
use crate::text::{opt_str, str_eq};

verus! {

/// The provider the operator runs with.
pub enum ProviderChoice {
    /// The dry-run provider: no external calls.
    DryRun,
    /// The playit.gg API with this credential.
    Playit(PlayitCredential),
    /// The playit.gg API was asked for, but no key was given.
    MissingCredential,
}

/// The choice for the settings `provider`, `agent_key` and `api_key` (each
/// absent when unset): the playit API only when `provider` is `playit`,
/// preferring the agent key over the account API key; else the dry run.
pub fn choose_provider(provider: &Option<String>, agent_key: Option<String>, api_key: Option<String>) -> (c:
    ProviderChoice)
    ensures
        opt_str(*provider) != Some("playit"@) ==> c is DryRun,
        opt_str(*provider) == Some("playit"@) ==> match (agent_key, api_key) {
            (Some(k), _) => c matches ProviderChoice::Playit(PlayitCredential::AgentKey(v)) && v@ == k@,
            (None, Some(k)) => c matches ProviderChoice::Playit(PlayitCredential::ApiKey(v)) && v@
                == k@,
            (None, None) => c is MissingCredential,
        },
{
    let playit = match provider {
        Some(p) => str_eq(p.as_str(), "playit"),
        None => false,
    };
    if !playit {
        return ProviderChoice::DryRun;
    }
    match (agent_key, api_key) {
        (Some(k), _) => ProviderChoice::Playit(PlayitCredential::AgentKey(k)),
        (None, Some(k)) => ProviderChoice::Playit(PlayitCredential::ApiKey(k)),
        (None, None) => ProviderChoice::MissingCredential,
    }
}

} // verus!

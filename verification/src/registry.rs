//! The slot that holds the active backend.
//!
//! Exactly one backend is active at a time.  Handlers read the slot; the
//! reload path alone replaces its contents, and a reload that fails leaves
//! the active backend in place.
use crate::config::{outcome_view, Config, ConfigView};
use crate::provider::{build_provider, provider_for, Provider, ProviderView};
use vstd::prelude::*;

verus! {

/// The active backend.
pub struct BackendRegistry {
    active: Provider,
}

impl View for BackendRegistry {
    type V = ProviderView;

    closed spec fn view(&self) -> ProviderView {
        self.active@
    }
}

/// How a reload ended.
pub enum ReloadOutcome {
    /// The new configuration's backend is now active.
    Replaced,
    /// The configuration could not be read; the old backend stays.
    ConfigFailed(String),
    /// No backend could be built from the new configuration; the old
    /// backend stays.
    BuildFailed(String),
}

/// A reload outcome as mathematical values.
pub enum ReloadView {
    Replaced,
    ConfigFailed(Seq<char>),
    BuildFailed(Seq<char>),
}

impl View for ReloadOutcome {
    type V = ReloadView;

    open spec fn view(&self) -> ReloadView {
        match self {
            ReloadOutcome::Replaced => ReloadView::Replaced,
            ReloadOutcome::ConfigFailed(reason) => ReloadView::ConfigFailed(reason@),
            ReloadOutcome::BuildFailed(reason) => ReloadView::BuildFailed(reason@),
        }
    }
}

/// The line a reload leaves in the log.
pub open spec fn reload_message(outcome: ReloadView) -> Seq<char> {
    match outcome {
        ReloadView::Replaced => "config reloaded successfully"@,
        ReloadView::ConfigFailed(reason) => "failed to reload config: "@ + reason,
        ReloadView::BuildFailed(reason) => "failed to build provider from new config: "@
            + reason,
    }
}

impl ReloadOutcome {
    /// The line this outcome leaves in the log.
    pub fn message(&self) -> (line: String)
        ensures
            line@ == reload_message(self@),
    {
        match self {
            ReloadOutcome::Replaced => String::from_str("config reloaded successfully"),
            ReloadOutcome::ConfigFailed(reason) => {
                let mut line = String::from_str("failed to reload config: ");
                line.append(reason.as_str());
                line
            },
            ReloadOutcome::BuildFailed(reason) => {
                let mut line = String::from_str("failed to build provider from new config: ");
                line.append(reason.as_str());
                line
            },
        }
    }
}

/// What a reload with the configuration `reloaded` comes to.
pub open spec fn reload_result(reloaded: Result<ConfigView, Seq<char>>) -> ReloadView {
    match reloaded {
        Err(reason) => ReloadView::ConfigFailed(reason),
        Ok(config) => match provider_for(config) {
            Ok(_) => ReloadView::Replaced,
            Err(reason) => ReloadView::BuildFailed(reason),
        },
    }
}

/// The active backend after a reload with the configuration `reloaded`.
pub open spec fn reloaded_backend(
    active: ProviderView,
    reloaded: Result<ConfigView, Seq<char>>,
) -> ProviderView {
    match reloaded {
        Err(_) => active,
        Ok(config) => match provider_for(config) {
            Ok(backend) => backend,
            Err(_) => active,
        },
    }
}

impl BackendRegistry {
    /// A registry whose active backend is `provider`.
    pub fn new(provider: Provider) -> (registry: BackendRegistry)
        ensures
            registry@ == provider@,
    {
        BackendRegistry { active: provider }
    }

    /// The active backend.
    pub fn current(&self) -> (provider: &Provider)
        ensures
            provider@ == self@,
    {
        &self.active
    }

    /// Makes `provider` the active backend.
    pub fn replace(&mut self, provider: Provider)
        ensures
            final(self)@ == provider@,
    {
        self.active = provider;
    }

    /// Takes up the configuration read on a reload: where it yields a
    /// backend, that backend becomes active; otherwise the active backend
    /// stays as it is.
    pub fn reload(&mut self, reloaded: Result<Config, String>) -> (outcome: ReloadOutcome)
        ensures
            outcome@ == reload_result(outcome_view(reloaded)),
            final(self)@ == reloaded_backend(old(self)@, outcome_view(reloaded)),
    {
        match reloaded {
            Err(reason) => ReloadOutcome::ConfigFailed(reason),
            Ok(config) => match build_provider(&config) {
                Ok(provider) => {
                    self.replace(provider);
                    ReloadOutcome::Replaced
                },
                Err(error) => ReloadOutcome::BuildFailed(error.message()),
            },
        }
    }
}

} // verus!

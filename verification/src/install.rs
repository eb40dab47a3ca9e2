//! Reconciling the installed application with the one that belongs to this
//! deployment: it is installed and enabled once, and left alone when the
//! conductor already reports it. The reconciler decides; its caller talks
//! to the conductor and reports back what came of each request.

use vstd::prelude::*;
use vstd::string::StringExecFns;
use crate::errors::{AppError, LaunchHolochainError};
use crate::text::{same_text, to_chars};

verus! {

/// Where the reconciliation stands: which answer it waits for, or how it
/// ended.
#[derive(Debug, Clone, Copy, PartialEq, Eq)]
pub enum InstallStage {
    ListingApps,
    GeneratingAgentKey,
    DecodingBundle,
    Installing,
    Enabling,
    Done,
    Failed,
}

/// What the caller reports back.
#[derive(Debug, Clone, PartialEq, Eq)]
pub enum InstallEvent {
    /// The identifiers of the applications that the conductor has
    /// installed.
    AppsListed(Vec<String>),
    /// The request succeeded.
    Completed,
    /// The request failed, with this diagnostic.
    Failed(String),
}

/// What the caller is asked to do next.
#[derive(Debug, Clone, PartialEq, Eq)]
pub enum InstallAction {
    /// Ask the conductor for its installed applications.
    ListApps,
    /// Ask the conductor for a new agent key.
    GenerateAgentKey,
    /// Decode the application bundle.
    DecodeBundle,
    /// Install the decoded bundle for the new agent key, under this
    /// identifier and network seed, with no membrane proofs.
    InstallApp { installed_app_id: String, network_seed: Option<String> },
    /// Enable the application with this identifier.
    EnableApp { installed_app_id: String },
    /// The application is installed and enabled; nothing is left to do.
    Finish,
    /// The reconciliation failed with this error.
    Abort(AppError),
}

/// The request that belongs to an action, without what it carries.
#[derive(Debug, Clone, Copy, PartialEq, Eq)]
pub enum InstallRequest {
    ListApps,
    GenerateAgentKey,
    DecodeBundle,
    InstallApp,
    EnableApp,
    Finish,
    Abort,
}

/// The text of an optional string.
pub open spec fn opt_text(s: Option<String>) -> Option<Seq<char>> {
    match s {
        Some(t) => Some(t@),
        None => None,
    }
}

/// `app_id` is among the identifiers `apps`.
pub open spec fn is_listed(apps: Seq<String>, app_id: Seq<char>) -> bool {
    exists|i: int| 0 <= i < apps.len() && (#[trigger] apps[i])@ == app_id
}

/// The stage that follows `stage` on `event`. The list of installed
/// applications decides whether anything is done at all; after that each
/// success leads to the next request, and a failure or an event that the
/// stage does not wait for ends the reconciliation. The two ends are final.
pub open spec fn next_stage(stage: InstallStage, app_id: Seq<char>, event: InstallEvent)
    -> InstallStage {
    match stage {
        InstallStage::ListingApps => match event {
            InstallEvent::AppsListed(apps) => if is_listed(apps@, app_id) {
                InstallStage::Done
            } else {
                InstallStage::GeneratingAgentKey
            },
            _ => InstallStage::Failed,
        },
        InstallStage::GeneratingAgentKey => match event {
            InstallEvent::Completed => InstallStage::DecodingBundle,
            _ => InstallStage::Failed,
        },
        InstallStage::DecodingBundle => match event {
            InstallEvent::Completed => InstallStage::Installing,
            _ => InstallStage::Failed,
        },
        InstallStage::Installing => match event {
            InstallEvent::Completed => InstallStage::Enabling,
            _ => InstallStage::Failed,
        },
        InstallStage::Enabling => match event {
            InstallEvent::Completed => InstallStage::Done,
            _ => InstallStage::Failed,
        },
        InstallStage::Done => InstallStage::Done,
        InstallStage::Failed => InstallStage::Failed,
    }
}

/// The request that a stage waits on, or that ends it.
pub open spec fn request_of(stage: InstallStage) -> InstallRequest {
    match stage {
        InstallStage::ListingApps => InstallRequest::ListApps,
        InstallStage::GeneratingAgentKey => InstallRequest::GenerateAgentKey,
        InstallStage::DecodingBundle => InstallRequest::DecodeBundle,
        InstallStage::Installing => InstallRequest::InstallApp,
        InstallStage::Enabling => InstallRequest::EnableApp,
        InstallStage::Done => InstallRequest::Finish,
        InstallStage::Failed => InstallRequest::Abort,
    }
}

/// The request of an action.
pub open spec fn request_in(action: InstallAction) -> InstallRequest {
    match action {
        InstallAction::ListApps => InstallRequest::ListApps,
        InstallAction::GenerateAgentKey => InstallRequest::GenerateAgentKey,
        InstallAction::DecodeBundle => InstallRequest::DecodeBundle,
        InstallAction::InstallApp { .. } => InstallRequest::InstallApp,
        InstallAction::EnableApp { .. } => InstallRequest::EnableApp,
        InstallAction::Finish => InstallRequest::Finish,
        InstallAction::Abort(_) => InstallRequest::Abort,
    }
}

/// `error` is the error with which the reconciliation fails on `event` in
/// `stage`: a reported failure is a failure of the conductor's interface,
/// or of the bundle where the bundle was being decoded, and carries the
/// reported diagnostic; any other event is one that cannot happen.
pub open spec fn is_failure_of(error: AppError, stage: InstallStage, event: InstallEvent) -> bool {
    match (stage, event) {
        (InstallStage::Failed, _) => error matches AppError::LaunchHolochainError(
            LaunchHolochainError::ImpossibleError(m),
        ) && m@ == "The installation has failed before"@,
        (InstallStage::DecodingBundle, InstallEvent::Failed(reason)) => error
            matches AppError::AppBundleError(m) && m@ == reason@,
        (_, InstallEvent::Failed(reason)) => error matches AppError::ConductorApiError(m) && m@
            == reason@,
        _ => error matches AppError::LaunchHolochainError(
            LaunchHolochainError::ImpossibleError(m),
        ) && m@ == "Unexpected answer during the installation"@,
    }
}

/// `action` is what the reconciler of the application `app_id` with the
/// seed `seed` asks for when `event` has taken it from `stage` to `next`.
pub open spec fn is_action_of(
    action: InstallAction,
    app_id: Seq<char>,
    seed: Option<Seq<char>>,
    stage: InstallStage,
    event: InstallEvent,
    next: InstallStage,
) -> bool {
    &&& request_in(action) == request_of(next)
    &&& action matches InstallAction::InstallApp { installed_app_id, network_seed }
        ==> installed_app_id@ == app_id && opt_text(network_seed) == seed
    &&& action matches InstallAction::EnableApp { installed_app_id } ==> installed_app_id@
        == app_id
    &&& action matches InstallAction::Abort(error) ==> is_failure_of(error, stage, event)
}

/// The stage after the events `events`, one after the other, from `stage`.
pub open spec fn stage_after(stage: InstallStage, app_id: Seq<char>, events: Seq<InstallEvent>)
    -> InstallStage
    decreases events.len(),
{
    if events.len() == 0 {
        stage
    } else {
        next_stage(stage_after(stage, app_id, events.drop_last()), app_id, events.last())
    }
}

/// Whether `app_id` is among the identifiers `apps`.
pub fn app_is_listed(apps: &Vec<String>, app_id: &str) -> (listed: bool)
    ensures
        listed == is_listed(apps@, app_id@),
{
    let wanted = to_chars(app_id);
    let mut i: usize = 0;
    while i < apps.len()
        invariant
            i <= apps.len(),
            wanted@ == app_id@,
            forall|j: int| 0 <= j < i ==> (#[trigger] apps@[j])@ != app_id@,
        decreases apps.len() - i,
    {
        let here = to_chars(apps[i].as_str());
        if same_text(&here, &wanted) {
            return true;
        }
        i += 1;
    }
    false
}

/// The reconciler of one application.
#[derive(Debug, Clone, PartialEq, Eq)]
pub struct AppInstaller {
    pub app_id: String,
    pub network_seed: Option<String>,
    pub stage: InstallStage,
}

impl AppInstaller {
    /// A reconciler for the application `app_id`, to be installed with
    /// `network_seed`. It begins by asking for the installed applications.
    pub fn start(app_id: String, network_seed: Option<String>) -> (r: (AppInstaller, InstallAction))
        ensures
            r.0.app_id@ == app_id@,
            opt_text(r.0.network_seed) == opt_text(network_seed),
            r.0.stage == InstallStage::ListingApps,
            r.1 == InstallAction::ListApps,
    {
        (
            AppInstaller { app_id, network_seed, stage: InstallStage::ListingApps },
            InstallAction::ListApps,
        )
    }

    /// Takes what came of the last request and says what to do next.
    pub fn on_event(&mut self, event: InstallEvent) -> (action: InstallAction)
        ensures
            final(self).app_id@ == old(self).app_id@,
            opt_text(final(self).network_seed) == opt_text(old(self).network_seed),
            final(self).stage == next_stage(old(self).stage, old(self).app_id@, event),
            is_action_of(
                action,
                old(self).app_id@,
                opt_text(old(self).network_seed),
                old(self).stage,
                event,
                final(self).stage,
            ),
    {
        match self.stage {
            InstallStage::Done => {
                return InstallAction::Finish;
            },
            InstallStage::Failed => {
                return InstallAction::Abort(
                    AppError::LaunchHolochainError(
                        LaunchHolochainError::ImpossibleError(
                            String::from_str("The installation has failed before"),
                        ),
                    ),
                );
            },
            _ => {},
        }
        match event {
            InstallEvent::Failed(reason) => {
                let error = match self.stage {
                    InstallStage::DecodingBundle => AppError::AppBundleError(reason),
                    _ => AppError::ConductorApiError(reason),
                };
                self.stage = InstallStage::Failed;
                InstallAction::Abort(error)
            },
            InstallEvent::AppsListed(apps) => {
                match self.stage {
                    InstallStage::ListingApps => {
                        if app_is_listed(&apps, self.app_id.as_str()) {
                            self.stage = InstallStage::Done;
                            InstallAction::Finish
                        } else {
                            self.stage = InstallStage::GeneratingAgentKey;
                            InstallAction::GenerateAgentKey
                        }
                    },
                    _ => self.unexpected(),
                }
            },
            InstallEvent::Completed => {
                match self.stage {
                    InstallStage::GeneratingAgentKey => {
                        self.stage = InstallStage::DecodingBundle;
                        InstallAction::DecodeBundle
                    },
                    InstallStage::DecodingBundle => {
                        self.stage = InstallStage::Installing;
                        InstallAction::InstallApp {
                            installed_app_id: self.app_id.clone(),
                            network_seed: self.network_seed.clone(),
                        }
                    },
                    InstallStage::Installing => {
                        self.stage = InstallStage::Enabling;
                        InstallAction::EnableApp { installed_app_id: self.app_id.clone() }
                    },
                    InstallStage::Enabling => {
                        self.stage = InstallStage::Done;
                        InstallAction::Finish
                    },
                    _ => self.unexpected(),
                }
            },
        }
    }

    /// Ends the reconciliation on an answer that the stage does not wait
    /// for.
    fn unexpected(&mut self) -> (action: InstallAction)
        ensures
            final(self).app_id == old(self).app_id,
            final(self).network_seed == old(self).network_seed,
            final(self).stage == InstallStage::Failed,
            action matches InstallAction::Abort(
                AppError::LaunchHolochainError(LaunchHolochainError::ImpossibleError(m)),
            ) && m@ == "Unexpected answer during the installation"@,
    {
        self.stage = InstallStage::Failed;
        InstallAction::Abort(
            AppError::LaunchHolochainError(
                LaunchHolochainError::ImpossibleError(
                    String::from_str("Unexpected answer during the installation"),
                ),
            ),
        )
    }
}

/// Once the reconciliation has ended, nothing that is reported moves it.
pub proof fn lemma_ends_are_final(stage: InstallStage, app_id: Seq<char>, events: Seq<InstallEvent>)
    requires
        stage == InstallStage::Done || stage == InstallStage::Failed,
    ensures
        stage_after(stage, app_id, events) == stage,
    decreases events.len(),
{
    if events.len() > 0 {
        lemma_ends_are_final(stage, app_id, events.drop_last());
    }
}

/// Where the conductor already reports the application as installed, the
/// reconciliation is over with that answer: whatever is reported after it,
/// the only request is the one that ends it, so that no agent key is
/// generated and nothing is installed or enabled.
pub proof fn lemma_installed_app_is_left_alone(
    app_id: Seq<char>,
    apps: Vec<String>,
    later: Seq<InstallEvent>,
)
    requires
        is_listed(apps@, app_id),
    ensures
        next_stage(InstallStage::ListingApps, app_id, InstallEvent::AppsListed(apps))
            == InstallStage::Done,
        request_of(
            stage_after(
                next_stage(InstallStage::ListingApps, app_id, InstallEvent::AppsListed(apps)),
                app_id,
                later,
            ),
        ) == InstallRequest::Finish,
{
    lemma_ends_are_final(InstallStage::Done, app_id, later);
}

/// How many requests a stage is from the end, at most.
pub open spec fn install_rank(stage: InstallStage) -> nat {
    match stage {
        InstallStage::ListingApps => 5,
        InstallStage::GeneratingAgentKey => 4,
        InstallStage::DecodingBundle => 3,
        InstallStage::Installing => 2,
        InstallStage::Enabling => 1,
        InstallStage::Done => 0,
        InstallStage::Failed => 0,
    }
}

/// Every answer takes a reconciliation that has not ended closer to its
/// end: no request is ever made twice.
pub proof fn lemma_install_moves_forward(
    stage: InstallStage,
    app_id: Seq<char>,
    event: InstallEvent,
)
    requires
        stage != InstallStage::Done,
        stage != InstallStage::Failed,
    ensures
        install_rank(next_stage(stage, app_id, event)) < install_rank(stage),
{
}

/// A reconciliation ends well in two ways only: the application was
/// listed as installed, or it has just been enabled.
pub proof fn lemma_done_means_listed_or_enabled(
    stage: InstallStage,
    app_id: Seq<char>,
    event: InstallEvent,
)
    requires
        stage != InstallStage::Done,
        next_stage(stage, app_id, event) == InstallStage::Done,
    ensures
        match event {
            InstallEvent::AppsListed(apps) => stage == InstallStage::ListingApps && is_listed(
                apps@,
                app_id,
            ),
            InstallEvent::Completed => stage == InstallStage::Enabling,
            InstallEvent::Failed(_) => false,
        },
{
}

} // verus!

use vstd::prelude::*;

use crate::config::definition_downloader_config::DefinitionDownloaderConfig;
use crate::error::Error;
use crate::retry::{bump, should_retry, spec_should_retry, AttemptDecision};
use crate::stage_state::StageState;

verus! {

/// The identifier of the source revision a successful download or update
/// left in the local checkout.
pub type VersionId = String;

/// Where the sync stage stands: performing the initial download, idle with
/// its last broadcast standing, or performing a periodic update.
#[derive(Debug, Clone, Copy, PartialEq, Eq, Structural)]
pub enum SyncPhase {
    Downloading,
    Available,
    Updating,
}

/// The decision half of the stage that keeps the local checkout in sync with
/// the remote definition repository. The surrounding task performs the
/// downloads, updates and waits; this type decides what to broadcast and
/// what to do after each outcome, under the configured retry policy: the
/// initial download is fatal when its retries are exhausted, a periodic
/// update merely leaves the stage unavailable until the next tick.
pub struct SyncStage {
    pub config: DefinitionDownloaderConfig,
    pub phase: SyncPhase,
    pub download_failures: u32,
    pub update_failures: u32,
    pub state: StageState<VersionId>,
}

impl SyncStage {
    /// The stage never broadcasts an available checkout while a download or
    /// update is in progress, and an available broadcast carries a version.
    pub open spec fn wf(&self) -> bool {
        &&& self.state.available ==> self.phase is Available
        &&& self.state.wf()
    }

    /// The retry bound of the operation in progress.
    pub open spec fn current_bound(&self) -> i32
        recommends
            self.phase !is Available,
    {
        if self.phase is Downloading {
            self.config.download_retry_count
        } else {
            self.config.update_retry_count
        }
    }

    /// The retry delay of the operation in progress.
    pub open spec fn current_interval(&self) -> u64
        recommends
            self.phase !is Available,
    {
        if self.phase is Downloading {
            self.config.download_retry_interval_seconds
        } else {
            self.config.update_retry_interval_seconds
        }
    }

    /// The stage after an update tick: the broadcast is withdrawn before the
    /// risky work starts, so no observer acts on a checkout that may be
    /// mid-write.
    pub open spec fn spec_on_tick(self) -> SyncStage {
        SyncStage {
            phase: SyncPhase::Updating,
            state: StageState { available: false, value: None },
            ..self
        }
    }

    /// The stage after the outcome of the download or update in progress: on
    /// success the version is broadcast and the operation's failure counter
    /// reset; on failure the counter grows, and once retries are exhausted a
    /// failed update returns the stage to its idle phase to wait for the
    /// next tick.
    pub open spec fn spec_after_outcome(self, outcome: Result<VersionId, Error>) -> SyncStage
        recommends
            self.phase !is Available,
    {
        match outcome {
            Ok(version) => SyncStage {
                phase: SyncPhase::Available,
                download_failures: if self.phase is Downloading {
                    0
                } else {
                    self.download_failures
                },
                update_failures: if self.phase is Downloading {
                    self.update_failures
                } else {
                    0
                },
                state: StageState { available: true, value: Some(version) },
                ..self
            },
            Err(_) => {
                let failures = bump(
                    if self.phase is Downloading {
                        self.download_failures
                    } else {
                        self.update_failures
                    },
                );
                let retrying = spec_should_retry(failures, self.current_bound());
                SyncStage {
                    phase: if !retrying && self.phase is Updating {
                        SyncPhase::Available
                    } else {
                        self.phase
                    },
                    download_failures: if self.phase is Downloading {
                        failures
                    } else {
                        self.download_failures
                    },
                    update_failures: if self.phase is Downloading {
                        self.update_failures
                    } else {
                        failures
                    },
                    ..self
                }
            },
        }
    }

    /// The decision handed back with each outcome: retry after the
    /// configured delay while the policy allows it; beyond the bound, a
    /// failed initial download is fatal and a failed update is not.
    pub open spec fn spec_decision(self, outcome: Result<VersionId, Error>) -> AttemptDecision
        recommends
            self.phase !is Available,
    {
        match outcome {
            Ok(_) => AttemptDecision::Succeeded,
            Err(_) => {
                let failures = bump(
                    if self.phase is Downloading {
                        self.download_failures
                    } else {
                        self.update_failures
                    },
                );
                if spec_should_retry(failures, self.current_bound()) {
                    AttemptDecision::RetryAfter { delay_seconds: self.current_interval() }
                } else if self.phase is Downloading {
                    AttemptDecision::FatalGiveUp
                } else {
                    AttemptDecision::SoftGiveUp
                }
            },
        }
    }

    /// A stage about to perform its initial download: nothing is available
    /// yet, and no failures are on record.
    pub fn new(config: DefinitionDownloaderConfig) -> (r: SyncStage)
        ensures
            r.config == config,
            r.phase is Downloading,
            r.download_failures == 0,
            r.update_failures == 0,
            !r.state.available,
            r.state.value is None,
            r.wf(),
    {
        SyncStage {
            config,
            phase: SyncPhase::Downloading,
            download_failures: 0,
            update_failures: 0,
            state: StageState::new_not_available(),
        }
    }

    /// Called when the periodic update timer fires, before the update is
    /// attempted: withdraws the broadcast so that downstream stages never
    /// read a checkout that is about to be overwritten.
    pub fn on_update_tick(&mut self)
        requires
            old(self).phase is Available,
        ensures
            *final(self) == old(self).spec_on_tick(),
            final(self).phase is Updating,
            !final(self).state.available,
            final(self).wf(),
    {
        self.phase = SyncPhase::Updating;
        self.state = StageState::new_not_available();
    }

    /// Called with the outcome of the download or update in progress.
    /// Success broadcasts the new version at once; failure leaves the
    /// broadcast withdrawn and decides between another attempt and giving
    /// up, fatally for the initial download and softly for an update.
    pub fn on_outcome(&mut self, outcome: Result<VersionId, Error>) -> (d: AttemptDecision)
        requires
            old(self).phase !is Available,
            old(self).wf(),
        ensures
            *final(self) == old(self).spec_after_outcome(outcome),
            d == old(self).spec_decision(outcome),
            final(self).wf(),
            outcome matches Ok(version) ==> final(self).state.available
                && final(self).state.value == Some(version) && d is Succeeded,
            outcome is Err ==> !final(self).state.available && d !is Succeeded,
    {
        match outcome {
            Ok(version) => {
                match self.phase {
                    SyncPhase::Downloading => {
                        self.download_failures = 0;
                    },
                    _ => {
                        self.update_failures = 0;
                    },
                }
                self.phase = SyncPhase::Available;
                self.state = StageState::new_available(version);
                AttemptDecision::Succeeded
            },
            Err(_) => {
                let downloading = match self.phase {
                    SyncPhase::Downloading => true,
                    _ => false,
                };
                let count: u32 = if downloading {
                    self.download_failures
                } else {
                    self.update_failures
                };
                let failures: u32 = if count == u32::MAX {
                    count
                } else {
                    count + 1
                };
                let bound: i32 = if downloading {
                    self.config.download_retry_count
                } else {
                    self.config.update_retry_count
                };
                if downloading {
                    self.download_failures = failures;
                } else {
                    self.update_failures = failures;
                }
                if should_retry(failures, bound) {
                    let delay: u64 = if downloading {
                        self.config.download_retry_interval_seconds
                    } else {
                        self.config.update_retry_interval_seconds
                    };
                    AttemptDecision::RetryAfter { delay_seconds: delay }
                } else if downloading {
                    AttemptDecision::FatalGiveUp
                } else {
                    self.phase = SyncPhase::Available;
                    AttemptDecision::SoftGiveUp
                }
            },
        }
    }

    /// A snapshot of the broadcast, as an observer sees it.
    pub fn state(&self) -> (r: &StageState<VersionId>)
        ensures
            r == &self.state,
    {
        &self.state
    }
}

/// One thing that can happen to the sync stage: the update timer fires, or
/// the download or update in progress resolves.
pub enum SyncEvent {
    Tick,
    Outcome(Result<VersionId, Error>),
}

/// The stage after one event. An event that arrives in a phase it does not
/// belong to changes nothing.
pub open spec fn sync_step(s: SyncStage, e: SyncEvent) -> SyncStage {
    match e {
        SyncEvent::Tick => if s.phase is Available {
            s.spec_on_tick()
        } else {
            s
        },
        SyncEvent::Outcome(o) => if s.phase !is Available {
            s.spec_after_outcome(o)
        } else {
            s
        },
    }
}

/// The stage after a whole sequence of events.
pub open spec fn sync_run(s: SyncStage, events: Seq<SyncEvent>) -> SyncStage
    decreases events.len(),
{
    if events.len() == 0 {
        s
    } else {
        sync_run(sync_step(s, events[0]), events.drop_first())
    }
}

/// Whether an event can actually occur in the given stage: the update timer
/// only runs while the stage is idle, and an outcome only resolves an
/// attempt in progress.
pub open spec fn sync_event_legal(s: SyncStage, e: SyncEvent) -> bool {
    match e {
        SyncEvent::Tick => s.phase is Available,
        SyncEvent::Outcome(_) => s.phase !is Available,
    }
}

/// Whether a whole sequence of events can actually occur from the given
/// stage.
pub open spec fn sync_events_legal(s: SyncStage, events: Seq<SyncEvent>) -> bool
    decreases events.len(),
{
    events.len() == 0 || (sync_event_legal(s, events[0]) && sync_events_legal(
        sync_step(s, events[0]),
        events.drop_first(),
    ))
}

/// One step keeps the stage well-formed, a tick always withdraws the
/// broadcast before the update starts, the broadcast only ever becomes
/// available through a successful outcome, and an outcome makes the
/// broadcast available exactly when it is a success.
pub proof fn lemma_sync_step_availability(s: SyncStage, e: SyncEvent)
    requires
        s.wf(),
    ensures
        sync_step(s, e).wf(),
        e is Tick ==> !sync_step(s, e).state.available,
        sync_step(s, e).state.available ==> s.state.available || (e matches SyncEvent::Outcome(
            o,
        ) && o is Ok),
        sync_event_legal(s, e) ==> (e matches SyncEvent::Outcome(o) ==> (sync_step(
            s,
            e,
        ).state.available <==> o is Ok)),
{
}

/// Over every sequence of events that can actually occur: the stage stays
/// well-formed — in particular the broadcast is never available while a
/// download or update is in progress — and the broadcast is available only
/// immediately after a successful download or update.
pub proof fn lemma_sync_trace(s: SyncStage, events: Seq<SyncEvent>)
    requires
        s.wf(),
        sync_events_legal(s, events),
    ensures
        sync_run(s, events).wf(),
        sync_run(s, events).state.available ==> (events.len() > 0 && (events.last()
            matches SyncEvent::Outcome(o) && o is Ok)) || (events.len() == 0
            && s.state.available),
    decreases events.len(),
{
    if events.len() > 0 {
        let s1 = sync_step(s, events[0]);
        lemma_sync_step_availability(s, events[0]);
        lemma_sync_trace(s1, events.drop_first());
        if events.len() == 1 {
            assert(events.last() == events[0]);
        } else {
            assert(events.drop_first().last() == events.last());
        }
    }
}

} // verus!

use vstd::prelude::*;

use crate::config::output_config::OutputConfig;
use crate::definition::definition_set::{payload_of, DefinitionSet};
use crate::error::{Error, ErrorKind};
use crate::retry::{bump, should_retry, spec_should_retry, AttemptDecision};

verus! {

/// The decision half of the stage that sends each newly available aggregate
/// to the queue. The surrounding task connects, publishes and waits; this
/// type decides what to do after each outcome. The connection is made once
/// at start-up under the configured retry policy, and each aggregate is
/// published once per transition to availability, retried on failure up to
/// the configured bound. Exhausting either bound is fatal to the process:
/// this deployment treats a sink it cannot reach as a reason to stop rather
/// than run on silently.
pub struct PublishStage {
    pub config: OutputConfig,
    pub connected: bool,
    pub connect_failures: u32,
    pub publish_failures: u32,
}

impl PublishStage {
    /// The stage after the outcome of a connection attempt.
    pub open spec fn spec_after_connect(self, succeeded: bool) -> PublishStage {
        if succeeded {
            PublishStage { connected: true, connect_failures: 0, ..self }
        } else {
            PublishStage { connect_failures: bump(self.connect_failures), ..self }
        }
    }

    /// The decision handed back with a connection outcome.
    pub open spec fn spec_connect_decision(self, succeeded: bool) -> AttemptDecision {
        if succeeded {
            AttemptDecision::Succeeded
        } else if spec_should_retry(bump(self.connect_failures), self.config.connection_retry_count) {
            AttemptDecision::RetryAfter {
                delay_seconds: self.config.connection_retry_interval_seconds,
            }
        } else {
            AttemptDecision::FatalGiveUp
        }
    }

    /// The stage after the outcome of a publish attempt.
    pub open spec fn spec_after_publish(self, succeeded: bool) -> PublishStage {
        if succeeded {
            PublishStage { publish_failures: 0, ..self }
        } else {
            PublishStage { publish_failures: bump(self.publish_failures), ..self }
        }
    }

    /// The decision handed back with a publish outcome.
    pub open spec fn spec_publish_decision(self, succeeded: bool) -> AttemptDecision {
        if succeeded {
            AttemptDecision::Succeeded
        } else if spec_should_retry(bump(self.publish_failures), self.config.set_retry_count) {
            AttemptDecision::RetryAfter { delay_seconds: self.config.set_retry_interval_seconds }
        } else {
            AttemptDecision::FatalGiveUp
        }
    }

    /// A stage that has not connected to the sink yet.
    pub fn new(config: OutputConfig) -> (r: PublishStage)
        ensures
            r.config == config,
            !r.connected,
            r.connect_failures == 0,
            r.publish_failures == 0,
    {
        PublishStage { config, connected: false, connect_failures: 0, publish_failures: 0 }
    }

    /// Called with the outcome of a connection attempt. Success makes the
    /// stage connected; failure decides between another attempt after the
    /// configured delay and giving up fatally — without a sink connection
    /// the service cannot fulfil its purpose.
    pub fn on_connect_outcome(&mut self, outcome: Result<(), Error>) -> (d: AttemptDecision)
        ensures
            *final(self) == old(self).spec_after_connect(outcome is Ok),
            d == old(self).spec_connect_decision(outcome is Ok),
            outcome is Ok ==> final(self).connected && d is Succeeded,
            outcome is Err ==> final(self).connected == old(self).connected && d !is Succeeded,
    {
        match outcome {
            Ok(_) => {
                self.connected = true;
                self.connect_failures = 0;
                AttemptDecision::Succeeded
            },
            Err(_) => {
                let failures: u32 = if self.connect_failures == u32::MAX {
                    self.connect_failures
                } else {
                    self.connect_failures + 1
                };
                self.connect_failures = failures;
                if should_retry(failures, self.config.connection_retry_count) {
                    AttemptDecision::RetryAfter {
                        delay_seconds: self.config.connection_retry_interval_seconds,
                    }
                } else {
                    AttemptDecision::FatalGiveUp
                }
            },
        }
    }

    /// The message body for publishing the given aggregate: exactly when
    /// the stage is connected, the aggregate's JSON rendering, the same
    /// bytes on every publish of the same aggregate.
    pub fn prepare_publish(&self, set: &DefinitionSet) -> (r: Result<String, Error>)
        ensures
            r is Ok <==> self.connected,
            r matches Ok(s) ==> s@ == payload_of(set.version@, set.categories@),
            r matches Err(e) ==> e.kind == ErrorKind::ChannelNotAvailable,
    {
        if !self.connected {
            Err(Error::new(ErrorKind::ChannelNotAvailable, "channel is not available"))
        } else {
            set.payload()
        }
    }

    /// Called with the outcome of a publish attempt. Success ends the work
    /// for this transition; failure decides between another attempt after
    /// the configured delay and giving up fatally, the policy this
    /// deployment chose for a sink that stays unreachable.
    pub fn on_publish_outcome(&mut self, outcome: Result<(), Error>) -> (d: AttemptDecision)
        ensures
            *final(self) == old(self).spec_after_publish(outcome is Ok),
            d == old(self).spec_publish_decision(outcome is Ok),
            outcome is Ok ==> d is Succeeded && final(self).publish_failures == 0,
            outcome is Err ==> d !is Succeeded,
    {
        match outcome {
            Ok(_) => {
                self.publish_failures = 0;
                AttemptDecision::Succeeded
            },
            Err(_) => {
                let failures: u32 = if self.publish_failures == u32::MAX {
                    self.publish_failures
                } else {
                    self.publish_failures + 1
                };
                self.publish_failures = failures;
                if should_retry(failures, self.config.set_retry_count) {
                    AttemptDecision::RetryAfter {
                        delay_seconds: self.config.set_retry_interval_seconds,
                    }
                } else {
                    AttemptDecision::FatalGiveUp
                }
            },
        }
    }

    /// Whether the sink connection has been established.
    pub fn is_connected(&self) -> (r: bool)
        ensures
            r == self.connected,
    {
        self.connected
    }
}

/// How many publishes succeed within one transition to availability, given
/// the outcomes the sink would answer with: the task attempts, stops on the
/// first success, retries while the decision says so, and stops when the
/// decision gives up.
pub open spec fn publish_run(s: PublishStage, outcomes: Seq<bool>) -> nat
    decreases outcomes.len(),
{
    if outcomes.len() == 0 {
        0
    } else if outcomes[0] {
        1
    } else if s.spec_publish_decision(false) is RetryAfter {
        publish_run(s.spec_after_publish(false), outcomes.drop_first())
    } else {
        0
    }
}

/// Within one transition to a newly available aggregate, at most one publish
/// succeeds, whatever the sink answers: the task stops at the first success.
pub proof fn lemma_publish_at_most_once(s: PublishStage, outcomes: Seq<bool>)
    ensures
        publish_run(s, outcomes) <= 1,
    decreases outcomes.len(),
{
    if outcomes.len() > 0 && !outcomes[0] && s.spec_publish_decision(false) is RetryAfter {
        lemma_publish_at_most_once(s.spec_after_publish(false), outcomes.drop_first());
    }
}

/// Within one transition, if the sink becomes reachable at some attempt that
/// the retry policy still allows, exactly one publish succeeds.
pub proof fn lemma_publish_at_least_once(s: PublishStage, outcomes: Seq<bool>, k: int)
    requires
        0 <= k < outcomes.len(),
        outcomes[k],
        forall|j: int| 0 <= j < k ==> !outcomes[j],
        s.config.set_retry_count >= 0 ==> s.publish_failures + k <= s.config.set_retry_count,
    ensures
        publish_run(s, outcomes) == 1,
    decreases outcomes.len(),
{
    if k > 0 {
        lemma_publish_at_least_once(s.spec_after_publish(false), outcomes.drop_first(), k - 1);
    }
}

} // verus!

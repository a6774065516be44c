use vstd::prelude::*;

use cooplan_definitions_lib::source_category::SourceCategory;
use cooplan_definitions_lib::validated_source_category::ValidatedSourceCategory;

use crate::definition::definition_set::DefinitionSet;
use crate::definition::source_data::{category_valid, category_validated, validate_category};
use crate::definition::sync_stage::VersionId;
use crate::error::{Error, ErrorKind};
use crate::stage_state::StageState;

verus! {

/// Every source category in the sequence passes validation.
pub open spec fn all_valid(sources: Seq<SourceCategory>) -> bool {
    forall|i: int| 0 <= i < sources.len() ==> category_valid(#[trigger] sources[i])
}

/// How a finished aggregate relates to the source categories it was read
/// from: one validated category for each source category, in order.
pub open spec fn set_validated(sources: Seq<SourceCategory>, set: DefinitionSet) -> bool {
    &&& set.categories@.len() == sources.len()
    &&& forall|i: int| 0 <= i < sources.len() ==> category_validated(
        sources[i],
        #[trigger] set.categories@[i],
    )
}

/// The decision half of the stage that turns the local checkout into the
/// validated aggregate. The surrounding task watches the sync stage's
/// broadcast and reads the definition files whenever a fresh checkout
/// becomes available; this type validates what was read, all-or-nothing,
/// and broadcasts either the whole aggregate or nothing. A data failure is
/// not retried here: it can only heal on the next source update.
pub struct IngestStage {
    pub state: StageState<DefinitionSet>,
}

impl IngestStage {
    /// A stage that has not ingested anything yet.
    pub fn new() -> (r: IngestStage)
        ensures
            !r.state.available,
            r.state.value is None,
    {
        IngestStage { state: StageState::new_not_available() }
    }

    /// Called with the definition files read from a freshly available
    /// checkout. Exactly when every entry validates, the whole aggregate is
    /// broadcast as available; one invalid entry withdraws the broadcast
    /// instead, so no observer ever sees a partially valid aggregate.
    pub fn on_source_available(&mut self, version: VersionId, sources: Vec<SourceCategory>) -> (r:
        Result<(), Error>)
        ensures
            r is Ok <==> all_valid(sources@),
            all_valid(sources@) ==> final(self).state.available
                && (final(self).state.value matches Some(set)
                && set.version == version
                && set_validated(sources@, set)),
            !all_valid(sources@) ==> !final(self).state.available
                && final(self).state.value is None
                && (r matches Err(e) && e.kind == ErrorKind::SourceMissingId),
            final(self).state.wf(),
    {
        let ghost originals: Seq<SourceCategory> = sources@;
        let mut remaining = sources;
        let mut categories: Vec<ValidatedSourceCategory> = Vec::new();
        while remaining.len() > 0
            invariant
                originals == sources@,
                categories@.len() + remaining@.len() == originals.len(),
                remaining@ =~= originals.subrange(categories@.len() as int, originals.len() as int),
                forall|j: int| 0 <= j < categories@.len() ==> category_valid(
                    #[trigger] originals[j],
                ),
                forall|j: int| 0 <= j < categories@.len() ==> category_validated(
                    originals[j],
                    #[trigger] categories@[j],
                ),
            decreases remaining@.len(),
        {
            let ghost done: int = categories@.len() as int;
            let source = remaining.remove(0);
            assert(source == originals[done]);
            match validate_category(source) {
                Ok(validated) => {
                    categories.push(validated);
                },
                Err(message) => {
                    self.state = StageState::new_not_available();
                    assert(!category_valid(originals[done]));
                    return Err(Error::new(ErrorKind::SourceMissingId, message.as_str()));
                },
            }
        }
        assert(originals =~= originals.subrange(0, originals.len() as int));
        let set = DefinitionSet { version, categories };
        self.state = StageState::new_available(set);
        Ok(())
    }

    /// Called when the definition files could not be read at all: the
    /// broadcast is withdrawn, and observers fall back to the last
    /// known-good published aggregate.
    pub fn on_read_failure(&mut self)
        ensures
            !final(self).state.available,
            final(self).state.value is None,
    {
        self.state = StageState::new_not_available();
    }

    /// A snapshot of the broadcast, as an observer sees it.
    pub fn state(&self) -> (r: &StageState<DefinitionSet>)
        ensures
            r == &self.state,
    {
        &self.state
    }
}

} // verus!

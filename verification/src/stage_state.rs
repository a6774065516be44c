use vstd::prelude::*;

verus! {

/// The broadcast value of one pipeline stage: an availability flag plus the
/// stage's latest product. Exactly one stage writes a given instance; any
/// number of observers read snapshots of it, and only the latest write
/// matters. The invariant is that an available state always carries a value.
#[derive(Debug, Clone)]
pub struct StageState<T> {
    pub available: bool,
    pub value: Option<T>,
}

impl<T> StageState<T> {
    /// An available state carries the value it advertises.
    pub open spec fn wf(&self) -> bool {
        self.available ==> self.value is Some
    }

    /// The state broadcast after a stage's work fully succeeded.
    pub fn new_available(value: T) -> (r: StageState<T>)
        ensures
            r.available,
            r.value == Some(value),
            r.wf(),
    {
        StageState { available: true, value: Some(value) }
    }

    /// The state broadcast while a stage has nothing valid to offer: at
    /// start-up, during risky work, and after a failure.
    pub fn new_not_available() -> (r: StageState<T>)
        ensures
            !r.available,
            r.value is None,
            r.wf(),
    {
        StageState { available: false, value: None }
    }
}

} // verus!

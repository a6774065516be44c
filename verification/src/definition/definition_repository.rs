use vstd::prelude::*;

use cooplan_definitions_lib::validated_source_category::ValidatedSourceCategory;

use crate::error::Error;

verus! {

/// A store of the validated definitions, for readers that want the whole
/// set at once.
pub trait DefinitionRepository {
    fn read_all(&self) -> Result<Vec<ValidatedSourceCategory>, Error>;
}

} // verus!

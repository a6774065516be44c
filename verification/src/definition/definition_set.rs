use vstd::prelude::*;

use cooplan_definitions_lib::definition::Definition;
use cooplan_definitions_lib::validated_source_category::ValidatedSourceCategory;

use crate::definition::sync_stage::VersionId;
use crate::error::{Error, ErrorKind};

verus! {

/// The validated aggregate of all definition entries read from the local
/// checkout at one source version. It is replaced wholesale on every
/// successful re-ingest; no partially valid aggregate is ever built.
#[derive(Debug, Clone)]
pub struct DefinitionSet {
    pub version: VersionId,
    pub categories: Vec<ValidatedSourceCategory>,
}

/// The JSON rendering of an aggregate with the given version and validated
/// categories: a function of the two alone, the same on every call.
pub uninterp spec fn payload_of(version: Seq<char>, categories: Seq<ValidatedSourceCategory>) -> Seq<char>;

/// Relies on `Definition::new` and `serde_json::to_string`: the version and
/// its validated categories are packed into the envelope type the queue
/// message carries and rendered as JSON. The rendering depends on the two
/// arguments alone, and cannot fail for this envelope: `to_string` fails
/// only when a `Serialize` implementation fails or a map has non-string
/// keys, and the envelope is derived over strings, options, vectors and
/// booleans.
#[verifier::external_body]
fn serialize_definition(version: &VersionId, categories: &Vec<ValidatedSourceCategory>) -> (r:
    Result<String, String>)
    ensures
        r is Ok,
        r matches Ok(s) ==> s@ == payload_of(version@, categories@),
{
    let definition = Definition::new(version.clone(), categories.clone());
    match serde_json::to_string(&definition) {
        Ok(serialized) => Ok(serialized),
        Err(error) => Err(format!("{}", error)),
    }
}

impl DefinitionSet {
    /// The message body that publishing this aggregate sends to the queue:
    /// the aggregate serialized as JSON, a function of the version and the
    /// categories alone — so a repeated publish after an ambiguous failure
    /// re-sends a byte-identical body, a harmless duplicate.
    pub fn payload(&self) -> (r: Result<String, Error>)
        ensures
            r matches Ok(s) && s@ == payload_of(self.version@, self.categories@),
    {
        match serialize_definition(&self.version, &self.categories) {
            Ok(serialized) => Ok(serialized),
            Err(message) => Err(Error::new(ErrorKind::SerializationFailure, message.as_str())),
        }
    }
}

/// Two aggregates that carry the same version and the same categories have
/// the same message body: publishing the same aggregate twice sends the
/// same bytes, so the duplicate leaves the sink's latest value unchanged.
pub proof fn lemma_payload_deterministic(a: DefinitionSet, b: DefinitionSet)
    requires
        a.version@ == b.version@,
        a.categories@ == b.categories@,
    ensures
        payload_of(a.version@, a.categories@) == payload_of(b.version@, b.categories@),
{
}

} // verus!

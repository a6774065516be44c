use vstd::prelude::*;

verus! {

/// What went wrong, by family: transport and repository failures, data
/// failures found while validating definitions, and failures of the output
/// connection.
#[derive(Debug, Copy, Clone, PartialEq, Eq, Structural)]
pub enum ErrorKind {
    FailedToCloneRepository,
    FailedToOpenRepository,
    FailedToUpdateDefinitions,
    FailedToReadEnvironmentVariables,
    SourceMissingId,
    DefinitionsNotAvailable,
    SerializationFailure,
    ConnectionFailure,
    ChannelNotAvailable,
    DataWritingFailure,
    VersionReadFailure,
}

/// An error of the pipeline: a kind plus a human-readable message.
#[derive(Debug)]
pub struct Error {
    pub kind: ErrorKind,
    pub message: String,
}

impl Error {
    pub fn new(kind: ErrorKind, message: &str) -> (r: Error)
        ensures
            r.kind == kind,
            r.message@ == message@,
    {
        Error {
            kind,
            message: message.to_owned(),
        }
    }

    pub fn kind(&self) -> (r: ErrorKind)
        ensures
            r == self.kind,
    {
        self.kind
    }
}

} // verus!

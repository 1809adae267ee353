//! The errors of the two stages.

use vstd::prelude::*;
use vstd::string::*;

verus! {

/// The message of the error for a crate that is not among the roots of the
/// database: the requested name in double quotes after a fixed prefix.
pub open spec fn not_found_message(crate_name: Seq<char>) -> Seq<char> {
    "Crate not found: \""@ + crate_name + "\""@
}

/// The requested crate is not among the roots of the analysis database.
#[derive(Debug)]
pub struct CrateErr {
    error: String,
}

impl View for CrateErr {
    type V = Seq<char>;

    /// The message of the error.
    closed spec fn view(&self) -> Seq<char> {
        self.error@
    }
}

impl CrateErr {
    pub fn new(crate_name: &str) -> (err: CrateErr)
        ensures
            err@ == not_found_message(crate_name@),
    {
        let mut error = String::from_str("Crate not found: \"");
        error.append(crate_name);
        error.append("\"");
        CrateErr { error }
    }

    /// The message, borrowed.
    pub fn description(&self) -> (text: &str)
        ensures
            text@ == self@,
    {
        self.error.as_str()
    }

    /// The message as an owned string, as it is shown to the user.
    pub fn message(&self) -> (text: String)
        ensures
            text@ == self@,
    {
        self.error.clone()
    }
}

/// Why no documentation model could be extracted.
#[derive(Debug)]
pub enum ExtractionError {
    /// No root of the database carries the requested name.
    CrateNotFound(CrateErr),
    /// The database did not answer a query about this definition.
    DefinitionUnavailable(rls_analysis::Id),
    /// The qualified name of this root does not end in two bytes that can
    /// be cut off.
    MalformedRootName(rls_analysis::Id),
}

/// Why no document could be built from a documentation model.
#[derive(Debug)]
pub enum BuildError {
    /// The database no longer has the definition of this root.
    DefinitionUnavailable(rls_analysis::Id),
    /// The qualified name of this root does not end in two bytes that can
    /// be cut off.
    MalformedRootName(rls_analysis::Id),
    /// The encoder reported this error. It does so for no graph of strings:
    /// `render` always has a text.
    Serialization(serde_json::Error),
}

#[verifier::external_type_specification]
#[verifier::external_body]
pub struct ExJsonError(serde_json::Error);

} // verus!

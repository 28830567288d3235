//! Extraction as one operation over the outcome of loading and parsing.
use vstd::prelude::*;
use crate::model::Specification;
use crate::projection::{project, rtlola_ast_to_json, SpecificationJson};

verus! {

/// Why an extraction failed, with the collaborator's diagnostic text.
#[derive(Debug)]
pub enum ExtractError {
    /// The source could not be read or configured.
    Load(String),
    /// The source was rejected by the parser.
    Parse(String),
}

impl ExtractError {
    /// The stage that failed, followed by its diagnostic.
    pub fn describe(&self) -> (r: String)
        ensures
            r@ == match self {
                ExtractError::Load(m) => "failed to load specification: "@ + m@,
                ExtractError::Parse(m) => "failed to parse specification: "@ + m@,
            },
    {
        match self {
            ExtractError::Load(m) => {
                let mut s = String::from_str("failed to load specification: ");
                s.append(m.as_str());
                s
            },
            ExtractError::Parse(m) => {
                let mut s = String::from_str("failed to parse specification: ");
                s.append(m.as_str());
                s
            },
        }
    }
}

/// Extracts the record of a parsed specification; a failure of loading or
/// parsing is handed on unchanged and no record is made.
pub fn extract(parsed: Result<Specification, ExtractError>) -> (r: Result<
    SpecificationJson,
    ExtractError,
>)
    ensures
        parsed matches Ok(spec) ==> (r matches Ok(record) && record@ == project(
            spec.inputs@,
            spec.outputs@,
        )),
        parsed matches Err(e) ==> r == Err::<SpecificationJson, ExtractError>(e),
{
    match parsed {
        Ok(spec) => Ok(rtlola_ast_to_json(&spec)),
        Err(e) => Err(e),
    }
}

} // verus!

//! What can go wrong when a block is validated or imported.

use vstd::prelude::*;
use vstd::string::StringExecFns;

verus! {

/// What a [`ValidationError`] holds, as plain values.
pub ghost enum ValidationErrorView {
    Invalid(Seq<char>),
    Custom(Seq<char>),
}

/// Why a block failed validation.
#[derive(Debug)]
pub enum ValidationError {
    /// The block breaks a rule; the message is fixed.
    Invalid(&'static str),
    /// The block breaks a rule; the message names the measurement.
    Custom(String),
}

impl View for ValidationError {
    type V = ValidationErrorView;

    open spec fn view(&self) -> ValidationErrorView {
        match *self {
            ValidationError::Invalid(m) => ValidationErrorView::Invalid(m@),
            ValidationError::Custom(m) => ValidationErrorView::Custom(m@),
        }
    }
}

impl ValidationErrorView {
    /// The message that the error carries.
    pub open spec fn message(self) -> Seq<char> {
        match self {
            ValidationErrorView::Invalid(m) => m,
            ValidationErrorView::Custom(m) => m,
        }
    }

    /// The error in words: the message behind `invalid block: `.
    pub open spec fn text(self) -> Seq<char> {
        "invalid block: "@ + self.message()
    }
}

impl ValidationError {
    /// The error in words: the message behind `invalid block: `.
    pub fn to_text(&self) -> (s: String)
        ensures
            s@ == self@.text(),
    {
        let head = String::from_str("invalid block: ");
        match self {
            ValidationError::Invalid(m) => head.concat(m),
            ValidationError::Custom(m) => head.concat(m.as_str()),
        }
    }
}

/// What a [`ConsensusError`] holds, as plain values.
pub ghost enum ConsensusErrorView {
    Validation(ValidationErrorView),
    Storage(Seq<char>),
    Other(Seq<char>),
}

/// Why the engine could not take a block.
#[derive(Debug)]
pub enum ConsensusError {
    /// The block failed validation.
    Validation(ValidationError),
    /// The store could not write.
    Storage(String),
    /// Anything else.
    Other(String),
}

impl View for ConsensusError {
    type V = ConsensusErrorView;

    open spec fn view(&self) -> ConsensusErrorView {
        match *self {
            ConsensusError::Validation(e) => ConsensusErrorView::Validation(e@),
            ConsensusError::Storage(m) => ConsensusErrorView::Storage(m@),
            ConsensusError::Other(m) => ConsensusErrorView::Other(m@),
        }
    }
}

impl ConsensusErrorView {
    /// The error in words.
    pub open spec fn text(self) -> Seq<char> {
        match self {
            ConsensusErrorView::Validation(e) => e.text(),
            ConsensusErrorView::Storage(m) => "storage error: "@ + m,
            ConsensusErrorView::Other(m) => "consensus error: "@ + m,
        }
    }
}

impl From<ValidationError> for ConsensusError {
    fn from(e: ValidationError) -> (r: ConsensusError) {
        ConsensusError::Validation(e)
    }
}

impl vstd::std_specs::convert::FromSpecImpl<ValidationError> for ConsensusError {
    open spec fn obeys_from_spec() -> bool {
        true
    }

    open spec fn from_spec(e: ValidationError) -> ConsensusError {
        ConsensusError::Validation(e)
    }
}

impl ConsensusError {
    /// The error in words.
    pub fn to_text(&self) -> (s: String)
        ensures
            s@ == self@.text(),
    {
        match self {
            ConsensusError::Validation(e) => e.to_text(),
            ConsensusError::Storage(m) => String::from_str("storage error: ").concat(m.as_str()),
            ConsensusError::Other(m) => String::from_str("consensus error: ").concat(m.as_str()),
        }
    }
}

} // verus!

//! The failures a request can meet on its way to a proof.

use vstd::prelude::*;

verus! {

/// Why a request did not yield a proof.
#[derive(Clone, Copy, Debug, PartialEq, Eq, Structural)]
pub enum PipelineError {
    /// A string of the request is too long for the input layout, or a number
    /// handed over as text is not a number. The caller may mend the request
    /// and submit it again.
    EncodingError,
    /// The isolated run could not read a complete, well-formed request from
    /// its input, or did not finish for another reason.
    TruncatedInput,
    /// The request's debt is zero, so the ratio has no value.
    DivisionByZero,
    /// The published bytes are too short to hold the two outputs: host and
    /// guest disagree about the layout.
    InvalidPublicValues,
    /// The proving backend failed while deriving keys or proving.
    ProvingBackendError,
}

/// Status that tells a client its request was at fault.
pub const STATUS_BAD_REQUEST: u16 = 400;

/// Status for every failure that is not the client's doing.
pub const STATUS_INTERNAL_ERROR: u16 = 500;

impl PipelineError {
    /// True for the failures that come from the request itself and are found
    /// before any proving work starts.
    pub open spec fn input_error(self) -> bool {
        self == PipelineError::EncodingError || self == PipelineError::DivisionByZero
    }

    /// The status a service answers with: a client error for a faulty
    /// request, one generic server error for everything else, so that no
    /// detail of the proving backend reaches the client.
    pub open spec fn status(self) -> u16 {
        if self.input_error() {
            STATUS_BAD_REQUEST
        } else {
            STATUS_INTERNAL_ERROR
        }
    }

    /// Whether the failure comes from the request itself.
    pub fn is_input_error(&self) -> (b: bool)
        ensures
            b == self.input_error(),
    {
        match self {
            PipelineError::EncodingError => true,
            PipelineError::DivisionByZero => true,
            _ => false,
        }
    }

    /// The status a service answers with.
    pub fn http_status(&self) -> (code: u16)
        ensures
            code == self.status(),
    {
        if self.is_input_error() {
            STATUS_BAD_REQUEST
        } else {
            STATUS_INTERNAL_ERROR
        }
    }
}

} // verus!

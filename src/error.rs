use vstd::prelude::*;

verus! {

/// The ways an analysis step can fail.
#[derive(Debug, Clone, Copy, PartialEq, Eq, Structural)]
pub enum AnalysisError {
    /// A polynomial was given with no coefficients at all.
    EmptyInput,
    /// Every coefficient of a polynomial is zero.
    ZeroPolynomial,
    /// The eigenvalue iteration of the root finder did not converge.
    ConvergenceError,
    /// Candles were asked for with a chunk size of zero.
    InvalidChunkSize,
    /// A parameter lies outside the range that the analysis accepts.
    ValidationError,
}

/// The description that goes with each kind of failure.
pub open spec fn error_message(e: AnalysisError) -> Seq<char> {
    match e {
        AnalysisError::EmptyInput => "empty polynomial"@,
        AnalysisError::ZeroPolynomial => "zero polynomial"@,
        AnalysisError::ConvergenceError => "eigenvalue iteration did not converge"@,
        AnalysisError::InvalidChunkSize => "cannot make candles with a chunk size of zero"@,
        AnalysisError::ValidationError => "parameter out of range"@,
    }
}

impl AnalysisError {
    /// A short human-readable description of the failure.
    pub fn message(&self) -> (r: &'static str)
        ensures
            r@ == error_message(*self),
    {
        match self {
            AnalysisError::EmptyInput => "empty polynomial",
            AnalysisError::ZeroPolynomial => "zero polynomial",
            AnalysisError::ConvergenceError => "eigenvalue iteration did not converge",
            AnalysisError::InvalidChunkSize => "cannot make candles with a chunk size of zero",
            AnalysisError::ValidationError => "parameter out of range",
        }
    }
}

} // verus!

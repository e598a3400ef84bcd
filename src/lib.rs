//! Verified core of a low-pass filter analysis tool: coefficient trimming and
//! companion-matrix layout for polynomial root finding, the frequency grid of the
//! magnitude response, candle aggregation of a sample sequence, calendar dates, and
//! the small value types that the user interface passes around.
pub mod candles;
pub mod controls;
pub mod dates;
pub mod error;
pub mod filters;
pub mod response;
pub mod roots;

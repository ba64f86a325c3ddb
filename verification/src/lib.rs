//! A condition-gated authorization oracle.
//!
//! The oracle holds an externally reported measurement (a temperature in
//! hundredths of a degree), a release threshold, and a maturity deadline.
//! Two release operations decide whether a signing request for an encoded
//! transaction payload may be forwarded to an external signing service:
//! one unlocks when the reported value crosses the threshold before
//! maturity, the other unlocks once the maturity deadline has passed.

pub mod classify;
pub mod digest;
pub mod errors;
pub mod hexdec;
pub mod oracle;
pub mod policy;

pub use errors::OracleError;
pub use oracle::Contract;
pub use oracle::SignRequest;
pub use policy::CallContext;
pub use policy::Role;

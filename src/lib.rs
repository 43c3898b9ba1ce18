//! Argument classification and file resolution for a small two-viewer
//! launcher: tokens become policy flags and path operands, operands become
//! absolute paths under an existence policy, and the resolved paths become
//! the launches to perform.
pub mod flags;
pub mod launch;
pub mod laws;
pub mod path;
pub mod resolve;
pub mod session;

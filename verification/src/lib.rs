//! A closed catalog of guest CPU identities for confidential-computing
//! measurement checks, together with the exact bit-packing that turns an
//! architectural (family, model, stepping) triple into the 32-bit signature a
//! CPU reports in CPUID leaf 1 EAX.
//!
//! [`catalog`] holds the fixed set of named identities with their bound
//! triples; [`codec`] holds the packing arithmetic.

pub mod catalog;
pub mod codec;

pub use catalog::CpuType;
pub use catalog::InvalidIdentityName;
pub use codec::cpu_sig;

//! Version-exact encoding of a rollup batch commitment into the ABI tuple
//! expected by the on-chain settlement contract.
//!
//! A finalized batch, together with its metadata, must be serialized into one
//! of three historical call layouts, selected by the batch's protocol
//! version.  The newest layout carries a data-availability payload whose
//! shape depends on the DA mode and on commitment artifacts supplied by an
//! external commitment service.
#![verifier::loop_isolation(false)]

pub mod batch;
pub mod chunking;
pub mod encoder;
pub mod laws;
pub mod tokens;
pub mod version;

//! A two-stage Bitcoin deposit builder that cooperates with a remote
//! signer: it constructs a deposit PSBT whose first output's script the
//! remote party materializes, drives the PSBT roles for a Taproot
//! key-spend (Creator, Updater, Signer, Finalizer, Extractor), and
//! checks that the deposit and the presigned spend form a consistent
//! spending chain against the declared funding output.
//!
//! The transaction and PSBT shapes, the response check, the finalizer
//! and the laws that hold across a run are stated and proved over the
//! plain model in [`model`]; the calls into the underlying Bitcoin
//! library stand behind the trusted boundary in [`foreign`].

pub mod builder;
pub mod chain;
pub mod foreign;
pub mod hexcode;
pub mod keys;
pub mod laws;
pub mod model;
pub mod session;


//! A verified model of an X.509 certificate-chain verification parameter set.
//!
//! The library models the policy object that a chain-verification engine
//! reads while validating a certificate chain: hostname/IP matching flags,
//! chain-validation flags, the expected peer identity, the reference time,
//! the maximum chain depth, the authentication security level and the
//! certificate purpose. Every operation carries a contract that pins down
//! exactly how it changes the parameter set.

pub mod flags;
pub mod param;

pub use flags::X509CheckFlags;
pub use flags::X509VerifyFlags;
pub use param::IpAddress;
pub use param::ParamView;
pub use param::VerifyParamError;
pub use param::X509PurposeId;
pub use param::X509VerifyParam;

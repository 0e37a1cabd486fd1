//! Bit-set vocabularies for certificate verification policy.
//!
//! Two flag families govern verification: `X509CheckFlags` selects how the
//! expected hostname or IP address is matched against a certificate's
//! subject and subject-alternative names, and `X509VerifyFlags` selects
//! chain-validation policies (CRL checking, policy checking, and so on).
//! Flags combine by bitwise union and are removed by bitwise difference;
//! the numeric values mirror the native library's headers exactly.

use vstd::prelude::*;

verus! {

/// Flags used to check an X.509 certificate, controlling how the expected
/// hostname or IP address is matched against the certificate's names.
#[derive(Clone, Copy, PartialEq, Eq, Structural, Debug)]
pub struct X509CheckFlags {
    /// The raw bit mask, combinable by union and difference.
    pub bits: u32,
}

impl View for X509CheckFlags {
    type V = u32;

    open spec fn view(&self) -> u32 {
        self.bits
    }
}

impl X509CheckFlags {
    /// Match the subject name even when the certificate carries
    /// subject-alternative names.
    pub const ALWAYS_CHECK_SUBJECT: u32 = 0x1;

    /// Disable all wildcard matching.
    pub const NO_WILDCARDS: u32 = 0x2;

    /// Disable "partial" wildcard matching such as `f*o.example.com`.
    pub const NO_PARTIAL_WILDCARDS: u32 = 0x4;

    /// Allow a wildcard to match more than one label.
    pub const MULTI_LABEL_WILDCARDS: u32 = 0x8;

    /// Let a single label match a prefix of the reference identity's
    /// subdomains.
    pub const SINGLE_LABEL_SUBDOMAINS: u32 = 0x10;

    /// Never match against the subject name, only subject-alternative
    /// names.
    pub const NEVER_CHECK_SUBJECT: u32 = 0x20;

    /// Older alias of [`X509CheckFlags::NO_WILDCARDS`], retained for
    /// compatibility; the two carry the same bit.
    pub const FLAG_NO_WILDCARDS: u32 = 0x2;

    /// The empty flag set.
    pub fn empty() -> (r: X509CheckFlags)
        ensures
            r@ == 0u32,
    {
        X509CheckFlags { bits: 0 }
    }

    /// The set holding exactly the given bits.
    pub fn from_bits(bits: u32) -> (r: X509CheckFlags)
        ensures
            r@ == bits,
    {
        X509CheckFlags { bits }
    }

    /// The union of the two sets.
    pub fn union(self, other: X509CheckFlags) -> (r: X509CheckFlags)
        ensures
            r@ == (self@ | other@),
    {
        X509CheckFlags { bits: self.bits | other.bits }
    }

    /// The set difference: the bits of `self` that are not in `other`.
    pub fn difference(self, other: X509CheckFlags) -> (r: X509CheckFlags)
        ensures
            r@ == (self@ & !other@),
    {
        X509CheckFlags { bits: self.bits & !other.bits }
    }

    /// Whether every bit of `other` is also set in `self`.
    pub fn contains(self, other: X509CheckFlags) -> (r: bool)
        ensures
            r == ((self@ & other@) == other@),
    {
        self.bits & other.bits == other.bits
    }

    /// Whether no bit is set.
    pub fn is_empty(self) -> (r: bool)
        ensures
            r == (self@ == 0u32),
    {
        self.bits == 0
    }
}

/// The deprecated wildcard alias and its replacement carry the identical
/// bit value, so using either selects exactly the same policy.
pub proof fn lemma_deprecated_alias_bit_identical()
    ensures
        X509CheckFlags::FLAG_NO_WILDCARDS == X509CheckFlags::NO_WILDCARDS,
{
}

/// Flags used to verify an X.509 certificate chain, selecting
/// chain-validation policies such as CRL checking and policy checking.
///
/// The numeric values follow the native library's modern headers. Two of
/// the Suite-B constants historically carry values swapped relative to
/// their names; the values here reproduce the wrapped behaviour exactly
/// rather than the naming symmetry.
#[derive(Clone, Copy, PartialEq, Eq, Structural, Debug)]
pub struct X509VerifyFlags {
    /// The raw bit mask, combinable by union and difference.
    pub bits: u64,
}

impl View for X509VerifyFlags {
    type V = u64;

    open spec fn view(&self) -> u64 {
        self.bits
    }
}

impl X509VerifyFlags {
    /// Ask the verification callback about issuer checks. On modern
    /// library versions this flag is a no-op and carries no bit.
    pub const CB_ISSUER_CHECK: u64 = 0x0;

    /// Use the time set on the parameter set instead of the current time.
    pub const USE_CHECK_TIME: u64 = 0x2;

    /// Check the revocation status of the leaf certificate.
    pub const CRL_CHECK: u64 = 0x4;

    /// Check the revocation status of the whole chain.
    pub const CRL_CHECK_ALL: u64 = 0x8;

    /// Ignore unhandled critical extensions.
    pub const IGNORE_CRITICAL: u64 = 0x10;

    /// Apply strict interpretation of the certificate standard.
    pub const X509_STRICT: u64 = 0x20;

    /// Accept proxy certificates.
    pub const ALLOW_PROXY_CERTS: u64 = 0x40;

    /// Enable certificate-policy checking.
    pub const POLICY_CHECK: u64 = 0x80;

    /// Require an explicit certificate policy.
    pub const EXPLICIT_POLICY: u64 = 0x100;

    /// Inhibit the any-policy identifier.
    pub const INHIBIT_ANY: u64 = 0x200;

    /// Inhibit policy mapping.
    pub const INHIBIT_MAP: u64 = 0x400;

    /// Notify the verification callback of the policy outcome.
    pub const NOTIFY_POLICY: u64 = 0x800;

    /// Enable extended CRL features such as indirect CRLs.
    pub const EXTENDED_CRL_SUPPORT: u64 = 0x1000;

    /// Consult delta CRLs as well as base CRLs.
    pub const USE_DELTAS: u64 = 0x2000;

    /// Check the self-signed signature on the root certificate.
    pub const CHECK_SS_SIGNATURE: u64 = 0x4000;

    /// Prefer certificates from the trust store when building the chain.
    pub const TRUSTED_FIRST: u64 = 0x8000;

    /// Restrict the chain to the Suite-B 128-bit-only security level.
    pub const SUITEB_128_LOS_ONLY: u64 = 0x10000;

    /// Restrict the chain to the Suite-B 192-bit security level. The
    /// underlying value is the one the wrapped library actually applies
    /// for this name, not the one its naming pattern would suggest.
    pub const SUITEB_192_LOS: u64 = 0x30000;

    /// Restrict the chain to the Suite-B 128-bit security level. See
    /// [`X509VerifyFlags::SUITEB_192_LOS`] on the swapped values.
    pub const SUITEB_128_LOS: u64 = 0x20000;

    /// Accept a chain that ends in a trusted non-root certificate.
    pub const PARTIAL_CHAIN: u64 = 0x80000;

    /// Do not search for alternative chains on failure.
    pub const NO_ALT_CHAINS: u64 = 0x100000;

    /// Skip validity-period checks entirely.
    pub const NO_CHECK_TIME: u64 = 0x200000;

    /// The empty flag set.
    pub fn empty() -> (r: X509VerifyFlags)
        ensures
            r@ == 0u64,
    {
        X509VerifyFlags { bits: 0 }
    }

    /// The set holding exactly the given bits.
    pub fn from_bits(bits: u64) -> (r: X509VerifyFlags)
        ensures
            r@ == bits,
    {
        X509VerifyFlags { bits }
    }

    /// The union of the two sets.
    pub fn union(self, other: X509VerifyFlags) -> (r: X509VerifyFlags)
        ensures
            r@ == (self@ | other@),
    {
        X509VerifyFlags { bits: self.bits | other.bits }
    }

    /// The set difference: the bits of `self` that are not in `other`.
    pub fn difference(self, other: X509VerifyFlags) -> (r: X509VerifyFlags)
        ensures
            r@ == (self@ & !other@),
    {
        X509VerifyFlags { bits: self.bits & !other.bits }
    }

    /// Whether every bit of `other` is also set in `self`.
    pub fn contains(self, other: X509VerifyFlags) -> (r: bool)
        ensures
            r == ((self@ & other@) == other@),
    {
        self.bits & other.bits == other.bits
    }

    /// Whether no bit is set.
    pub fn is_empty(self) -> (r: bool)
        ensures
            r == (self@ == 0u64),
    {
        self.bits == 0
    }
}

/// Setting flags and then clearing a disjoint set leaves the newly set
/// flags intact, and flags that were set before and lie outside the
/// cleared set survive untouched. Setting unions bits into the mask and
/// clearing subtracts them, exactly as the parameter set's operations do.
pub proof fn lemma_set_then_clear_disjoint(prior: u64, set_bits: u64, clear_bits: u64)
    by (bit_vector)
    requires
        set_bits & clear_bits == 0,
    ensures
        (((prior | set_bits) & !clear_bits) & set_bits) == set_bits,
        prior & clear_bits == 0 ==> ((prior | set_bits) & !clear_bits) == (prior | set_bits),
{
}

/// Setting a flag set and then clearing the very same set excludes it
/// entirely: none of its bits survive the round trip, and bits outside it
/// are exactly the ones that were there before.
pub proof fn lemma_set_then_clear_round_trip(prior: u64, flag_bits: u64)
    by (bit_vector)
    ensures
        (((prior | flag_bits) & !flag_bits) & flag_bits) == 0,
        ((prior | flag_bits) & !flag_bits) == (prior & !flag_bits),
{
}

} // verus!

//! The certificate verification parameter set.
//!
//! `X509VerifyParam` accumulates the policy a chain-verification engine
//! reads while validating a certificate chain: matching flags for the
//! expected peer identity, chain-validation flags, the reference name or
//! address the leaf certificate must match, the reference time, the
//! maximum chain depth, the authentication security level and the
//! certificate purpose. It is a flat configuration object: fields stay as
//! set until overwritten, and every operation is a bounded in-memory
//! update. Each value is exclusively owned, so two parameter sets never
//! share state.

use vstd::prelude::*;

use crate::flags::X509CheckFlags;
use crate::flags::X509VerifyFlags;

verus! {

/// An IPv4 or IPv6 address, held as exactly four or exactly sixteen
/// octets. The view is the octet sequence itself, so a four-byte address
/// is never padded out to sixteen bytes and a sixteen-byte address is
/// never truncated.
#[derive(Clone, Copy, PartialEq, Eq, Debug)]
pub enum IpAddress {
    /// An IPv4 address: exactly four octets.
    V4([u8; 4]),
    /// An IPv6 address: exactly sixteen octets.
    V6([u8; 16]),
}

impl View for IpAddress {
    type V = Seq<u8>;

    open spec fn view(&self) -> Seq<u8> {
        match *self {
            IpAddress::V4(octets) => octets@,
            IpAddress::V6(octets) => octets@,
        }
    }
}

impl IpAddress {
    /// Whether this is an IPv4 address.
    pub fn is_v4(&self) -> (r: bool)
        ensures
            r == (*self is V4),
    {
        match *self {
            IpAddress::V4(_) => true,
            IpAddress::V6(_) => false,
        }
    }

    /// The number of octets the address consists of: four or sixteen.
    pub fn len(&self) -> (r: usize)
        ensures
            r == self@.len(),
            r == 4 || r == 16,
    {
        match *self {
            IpAddress::V4(_) => 4,
            IpAddress::V6(_) => 16,
        }
    }
}

/// An address's octet sequence is exactly its payload: an IPv4 address
/// yields precisely its four octets and an IPv6 address precisely its
/// sixteen, so the family can be read off the length and no bytes leak
/// from one family into the other.
pub proof fn lemma_address_octets_exact(addr: IpAddress)
    ensures
        addr is V4 <==> addr@.len() == 4,
        addr is V6 <==> addr@.len() == 16,
        addr matches IpAddress::V4(octets) ==> addr@ == octets@,
        addr matches IpAddress::V6(octets) ==> addr@ == octets@,
{
}

/// A certificate usage purpose, identified by the native library's
/// numeric purpose id.
#[derive(Clone, Copy, PartialEq, Eq, Structural, Debug)]
pub struct X509PurposeId {
    /// The raw numeric purpose id.
    pub id: i32,
}

impl X509PurposeId {
    /// TLS client authentication.
    pub const SSL_CLIENT: i32 = 1;

    /// TLS server authentication.
    pub const SSL_SERVER: i32 = 2;

    /// Netscape-style TLS server authentication.
    pub const NS_SSL_SERVER: i32 = 3;

    /// S/MIME signing.
    pub const SMIME_SIGN: i32 = 4;

    /// S/MIME encryption.
    pub const SMIME_ENCRYPT: i32 = 5;

    /// CRL signing.
    pub const CRL_SIGN: i32 = 6;

    /// Any purpose.
    pub const ANY: i32 = 7;

    /// OCSP helper.
    pub const OCSP_HELPER: i32 = 8;

    /// Timestamp signing.
    pub const TIMESTAMP_SIGN: i32 = 9;

    /// The purpose with the given raw id. Any id can be held; whether it
    /// names a purpose the engine knows is checked when it is applied.
    pub fn from_raw(id: i32) -> (r: X509PurposeId)
        ensures
            r.id == id,
    {
        X509PurposeId { id }
    }

    /// The raw numeric purpose id.
    pub fn as_raw(&self) -> (r: i32)
        ensures
            r == self.id,
    {
        self.id
    }

    /// Whether the id names one of the purposes the engine recognizes:
    /// the standard table runs from TLS client authentication through
    /// timestamp signing.
    pub open spec fn valid(self) -> bool {
        1 <= self.id <= 9
    }

    /// Whether the id names a recognized purpose.
    pub fn is_valid(&self) -> (r: bool)
        ensures
            r == self.valid(),
    {
        1 <= self.id && self.id <= 9
    }
}

/// How a parameter-set operation can fail.
#[derive(Clone, Copy, PartialEq, Eq, Structural, Debug)]
pub enum VerifyParamError {
    /// Construction failed: the native allocator could not produce a
    /// fresh parameter set.
    Allocation,
    /// A setter was rejected: malformed input, such as a purpose id the
    /// engine does not recognize, or an internal failure.
    Operation,
}

/// The mathematical content of a parameter set: what the verification
/// engine reads from it.
pub ghost struct ParamView {
    /// Hostname/IP matching policy bits.
    pub check_flags: u32,
    /// Chain-validation policy bits.
    pub verify_flags: u64,
    /// The reference name the leaf certificate must match, if one is set.
    /// Never the empty sequence: setting an empty name clears the
    /// constraint instead.
    pub host: Option<Seq<char>>,
    /// The octets of the expected address, if one is set: exactly four
    /// or exactly sixteen.
    pub ip: Option<Seq<u8>>,
    /// The reference time for validity periods, in seconds since the
    /// epoch, if one overrides "now".
    pub time: Option<i64>,
    /// The bound on chain length; negative means the engine's default.
    pub depth: i32,
    /// The minimum acceptable security strength, in bits; negative means
    /// the engine's default.
    pub auth_level: i32,
    /// The usage-purpose constraint's raw id, if one is set.
    pub purpose: Option<i32>,
}

/// The fields of a freshly constructed parameter set: no flags, no
/// identity or time constraints, depth and authentication level left to
/// the engine's defaults.
pub open spec fn fresh_param_view() -> ParamView {
    ParamView {
        check_flags: 0u32,
        verify_flags: 0u64,
        host: None,
        ip: None,
        time: None,
        depth: -1i32,
        auth_level: -1i32,
        purpose: None,
    }
}

/// A certificate verification parameter set.
///
/// Created empty, mutated through the setters below, and read by a
/// chain-verification engine during a verify call. The object is
/// exclusively owned and all mutation demands exclusive access, so
/// distinct parameter sets cannot influence one another and the value is
/// released exactly once when its owner drops it.
///
/// Setters whose wrapped counterparts can report a native failure keep
/// the `Result` shape. In the model an update either fully applies or,
/// for a rejected input, leaves the prior state untouched — there are no
/// torn updates — and the only rejected input is an unrecognized purpose
/// id, so every other setter is owed success on every input.
pub struct X509VerifyParam {
    check_flags: X509CheckFlags,
    verify_flags: X509VerifyFlags,
    host: Option<String>,
    ip: Option<IpAddress>,
    time: Option<i64>,
    depth: i32,
    auth_level: i32,
    purpose: Option<X509PurposeId>,
}

impl View for X509VerifyParam {
    type V = ParamView;

    closed spec fn view(&self) -> ParamView {
        ParamView {
            check_flags: self.check_flags@,
            verify_flags: self.verify_flags@,
            host: match self.host {
                Some(h) => Some(h@),
                None => None,
            },
            ip: match self.ip {
                Some(a) => Some(a@),
                None => None,
            },
            time: self.time,
            depth: self.depth,
            auth_level: self.auth_level,
            purpose: match self.purpose {
                Some(p) => Some(p.id),
                None => None,
            },
        }
    }
}

impl X509VerifyParam {
    /// Well-formedness: a stored reference name is never empty (an empty
    /// name clears the constraint instead), a stored address has exactly
    /// four or sixteen octets, and a stored purpose is one the engine
    /// recognizes. Construction establishes this and every setter
    /// preserves it.
    pub open spec fn wf(&self) -> bool {
        &&& (self@.host matches Some(h) ==> h.len() > 0)
        &&& (self@.ip matches Some(octets) ==> octets.len() == 4 || octets.len() == 16)
        &&& (self@.purpose matches Some(id) ==> 1 <= id <= 9)
    }

    /// Create a fresh, empty parameter set.
    ///
    /// In the wrapped setting construction also runs the library's
    /// process-wide initialization, which is idempotent, and fails only
    /// if the native allocator does; the model allocates nothing, so it
    /// always succeeds.
    pub fn new() -> (r: Result<X509VerifyParam, VerifyParamError>)
        ensures
            r matches Ok(p) && p@ == fresh_param_view(),
            r matches Ok(p) && p.wf(),
    {
        Ok(X509VerifyParam {
            check_flags: X509CheckFlags::empty(),
            verify_flags: X509VerifyFlags::empty(),
            host: None,
            ip: None,
            time: None,
            depth: -1,
            auth_level: -1,
            purpose: None,
        })
    }

    /// Replace the hostname/IP matching policy bits. A pure in-memory
    /// update with no failure path; no other field moves.
    pub fn set_hostflags(&mut self, hostflags: X509CheckFlags)
        ensures
            final(self)@ == (ParamView { check_flags: hostflags@, ..old(self)@ }),
            old(self).wf() ==> final(self).wf(),
    {
        self.check_flags = hostflags;
    }

    /// Union the given bits into the chain-validation flags. Bits already
    /// set stay set; no other field moves.
    pub fn set_flags(&mut self, flags: X509VerifyFlags) -> (r: Result<(), VerifyParamError>)
        ensures
            r is Ok,
            final(self)@ == (ParamView {
                verify_flags: old(self)@.verify_flags | flags@,
                ..old(self)@
            }),
            old(self).wf() ==> final(self).wf(),
    {
        self.verify_flags = self.verify_flags.union(flags);
        Ok(())
    }

    /// Subtract the given bits from the chain-validation flags. Bits
    /// outside the given set are untouched; no other field moves.
    pub fn clear_flags(&mut self, flags: X509VerifyFlags) -> (r: Result<(), VerifyParamError>)
        ensures
            r is Ok,
            final(self)@ == (ParamView {
                verify_flags: old(self)@.verify_flags & !flags@,
                ..old(self)@
            }),
            old(self).wf() ==> final(self).wf(),
    {
        self.verify_flags = self.verify_flags.difference(flags);
        Ok(())
    }

    /// Read the current chain-validation flags.
    pub fn flags(&mut self) -> (r: X509VerifyFlags)
        ensures
            *final(self) == *old(self),
            r@ == old(self)@.verify_flags,
    {
        self.verify_flags
    }

    /// Set the reference name the leaf certificate must match.
    ///
    /// The empty string is a distinct, valid input: it clears any
    /// previously set name, so a later verification applies no hostname
    /// matching. It is never mistaken for a no-op and never stored as a
    /// name. The expected address, and every other field, is untouched
    /// either way.
    pub fn set_host(&mut self, host: &str) -> (r: Result<(), VerifyParamError>)
        ensures
            r is Ok,
            host@.len() == 0 ==> final(self)@ == (ParamView { host: None, ..old(self)@ }),
            host@.len() > 0 ==> final(self)@ == (ParamView {
                host: Some(host@),
                ..old(self)@
            }),
            old(self).wf() ==> final(self).wf(),
    {
        if host.unicode_len() == 0 {
            self.host = None;
        } else {
            self.host = Some(String::from_str(host));
        }
        Ok(())
    }

    /// Set the expected IPv4 or IPv6 address. Exactly the address's four
    /// or sixteen octets are recorded — never zero-padded or truncated
    /// across families. The reference name, and every other field, is
    /// untouched: both constraints may be in force at once.
    pub fn set_ip(&mut self, ip: IpAddress) -> (r: Result<(), VerifyParamError>)
        ensures
            r is Ok,
            final(self)@ == (ParamView { ip: Some(ip@), ..old(self)@ }),
            old(self).wf() ==> final(self).wf(),
    {
        self.ip = Some(ip);
        Ok(())
    }

    /// Override the time against which validity periods are checked, in
    /// seconds since the epoch. Infallible; the engine only consults it
    /// when the use-check-time flag is also set, a coupling owned by the
    /// engine, not by this object.
    pub fn set_time(&mut self, time: i64)
        ensures
            final(self)@ == (ParamView { time: Some(time), ..old(self)@ }),
            old(self).wf() ==> final(self).wf(),
    {
        self.time = Some(time);
    }

    /// Set the bound on chain length. Every value is accepted without
    /// error, zero and negative values included: what such a bound means
    /// is the verification engine's concern, not this object's.
    pub fn set_depth(&mut self, depth: i32)
        ensures
            final(self)@ == (ParamView { depth: depth, ..old(self)@ }),
            old(self).wf() ==> final(self).wf(),
    {
        self.depth = depth;
    }

    /// Set the minimum acceptable security strength, in bits, of the
    /// keys and signatures in the chain. Every value is accepted.
    pub fn set_auth_level(&mut self, lvl: i32)
        ensures
            final(self)@ == (ParamView { auth_level: lvl, ..old(self)@ }),
            old(self).wf() ==> final(self).wf(),
    {
        self.auth_level = lvl;
    }

    /// Read the current authentication security level.
    pub fn auth_level(&self) -> (r: i32)
        ensures
            r == self@.auth_level,
    {
        self.auth_level
    }

    /// Set the usage-purpose constraint. Rejected, with the prior state
    /// fully intact, exactly when the id names no purpose the engine
    /// recognizes.
    pub fn set_purpose(&mut self, purpose: X509PurposeId) -> (r: Result<(), VerifyParamError>)
        ensures
            purpose.valid() ==> r is Ok && final(self)@ == (ParamView {
                purpose: Some(purpose.id),
                ..old(self)@
            }),
            !purpose.valid() ==> r == Err::<(), VerifyParamError>(VerifyParamError::Operation)
                && *final(self) == *old(self),
            old(self).wf() ==> final(self).wf(),
    {
        if purpose.is_valid() {
            self.purpose = Some(purpose);
            Ok(())
        } else {
            Err(VerifyParamError::Operation)
        }
    }

    /// Read the current hostname/IP matching policy bits.
    pub fn hostflags(&self) -> (r: X509CheckFlags)
        ensures
            r@ == self@.check_flags,
    {
        self.check_flags
    }

    /// Read the reference name currently set, if any.
    pub fn expected_host(&self) -> (r: Option<&String>)
        ensures
            r is Some <==> self@.host is Some,
            r matches Some(h) ==> self@.host == Some(h@),
    {
        self.host.as_ref()
    }

    /// Read the expected address currently set, if any.
    pub fn expected_ip(&self) -> (r: Option<IpAddress>)
        ensures
            r is Some <==> self@.ip is Some,
            r matches Some(a) ==> self@.ip == Some(a@),
    {
        self.ip
    }

    /// Read the reference time currently set, if any.
    pub fn verification_time(&self) -> (r: Option<i64>)
        ensures
            r == self@.time,
    {
        self.time
    }

    /// Read the current bound on chain length.
    pub fn depth(&self) -> (r: i32)
        ensures
            r == self@.depth,
    {
        self.depth
    }

    /// Read the usage-purpose constraint currently set, if any.
    pub fn purpose(&self) -> (r: Option<X509PurposeId>)
        ensures
            r is Some <==> self@.purpose is Some,
            r matches Some(p) ==> self@.purpose == Some(p.id),
    {
        self.purpose
    }
}

} // verus!


//! SPDM protocol versions.
use vstd::prelude::*;

use core::cmp::Ordering;
use vstd::std_specs::cmp::PartialOrdSpec;

use crate::error::{SpdmError, SpdmResult};

verus! {

pub const MAX_NUM_SUPPORTED_SPDM_VERSIONS: usize = 4;

/// Representation of all supported SPDM versions.
#[derive(Debug, PartialEq, Eq, Clone, Copy, Structural, Ord)]
pub enum SpdmVersion {
    V10,
    V11,
    V12,
    V13,
    V14,
}

/// The newest version this library supports.
pub open spec fn max_supported_version() -> SpdmVersion {
    SpdmVersion::V14
}

impl Default for SpdmVersion {
    fn default() -> (r: SpdmVersion)
        ensures
            r == SpdmVersion::V10,
    {
        SpdmVersion::V10
    }
}

/// The version byte of a version: major number in the high nibble, minor in the low one.
pub open spec fn version_byte(v: SpdmVersion) -> u8 {
    match v {
        SpdmVersion::V10 => 0x10,
        SpdmVersion::V11 => 0x11,
        SpdmVersion::V12 => 0x12,
        SpdmVersion::V13 => 0x13,
        SpdmVersion::V14 => 0x14,
    }
}

/// The version a byte denotes, if any.
pub open spec fn version_from_byte(b: u8) -> Option<SpdmVersion> {
    if b == 0x10 {
        Some(SpdmVersion::V10)
    } else if b == 0x11 {
        Some(SpdmVersion::V11)
    } else if b == 0x12 {
        Some(SpdmVersion::V12)
    } else if b == 0x13 {
        Some(SpdmVersion::V13)
    } else if b == 0x14 {
        Some(SpdmVersion::V14)
    } else {
        None
    }
}

/// The text a version is displayed as.
pub open spec fn version_text(v: SpdmVersion) -> Seq<char> {
    match v {
        SpdmVersion::V10 => "1.0.*"@,
        SpdmVersion::V11 => "1.1.*"@,
        SpdmVersion::V12 => "1.2.*"@,
        SpdmVersion::V13 => "1.3.*"@,
        SpdmVersion::V14 => "1.4.*"@,
    }
}

impl SpdmVersion {
    pub fn to_str(&self) -> (r: &'static str)
        ensures
            r@ == version_text(*self),
    {
        match self {
            SpdmVersion::V10 => "1.0.*",
            SpdmVersion::V11 => "1.1.*",
            SpdmVersion::V12 => "1.2.*",
            SpdmVersion::V13 => "1.3.*",
            SpdmVersion::V14 => "1.4.*",
        }
    }

    /// Decodes a version byte.
    pub fn try_from_u8(value: u8) -> (r: Result<SpdmVersion, SpdmError>)
        ensures
            r == (match version_from_byte(value) {
                Some(v) => Ok(v),
                None => Err(SpdmError::UnsupportedVersion),
            }),
    {
        match value {
            0x10 => Ok(SpdmVersion::V10),
            0x11 => Ok(SpdmVersion::V11),
            0x12 => Ok(SpdmVersion::V12),
            0x13 => Ok(SpdmVersion::V13),
            0x14 => Ok(SpdmVersion::V14),
            _ => Err(SpdmError::UnsupportedVersion),
        }
    }

    pub fn to_u8(self) -> (r: u8)
        ensures
            r == version_byte(self),
    {
        match self {
            SpdmVersion::V10 => 0x10,
            SpdmVersion::V11 => 0x11,
            SpdmVersion::V12 => 0x12,
            SpdmVersion::V13 => 0x13,
            SpdmVersion::V14 => 0x14,
        }
    }

    pub fn major(&self) -> (r: u8)
        ensures
            r == version_byte(*self) / 16,
    {
        let b = self.to_u8();
        assert(b >> 4 == b / 16) by (bit_vector);
        b >> 4
    }

    pub fn minor(&self) -> (r: u8)
        ensures
            r == version_byte(*self) % 16,
    {
        let b = self.to_u8();
        assert(b & 0x0F == b % 16) by (bit_vector);
        b & 0x0F
    }

    /// Check if `self` is compatible with `other`: `other` is not newer than `self`.
    pub fn is_compatible(&self, other: &SpdmVersion) -> (r: bool)
        ensures
            r == (version_byte(*self) >= version_byte(*other)),
    {
        self.to_u8() >= other.to_u8()
    }
}

/// How two versions compare: by their version bytes, which is also the
/// order in which the versions are declared.
pub open spec fn version_order(a: SpdmVersion, b: SpdmVersion) -> Option<Ordering> {
    if version_byte(a) < version_byte(b) {
        Some(Ordering::Less)
    } else if version_byte(a) > version_byte(b) {
        Some(Ordering::Greater)
    } else {
        Some(Ordering::Equal)
    }
}

impl PartialOrd for SpdmVersion {
    fn partial_cmp(&self, other: &SpdmVersion) -> (r: Option<Ordering>) {
        let a = self.to_u8();
        let b = other.to_u8();
        if a < b {
            Some(Ordering::Less)
        } else if a > b {
            Some(Ordering::Greater)
        } else {
            Some(Ordering::Equal)
        }
    }
}

impl vstd::std_specs::cmp::PartialOrdSpecImpl for SpdmVersion {
    open spec fn obeys_partial_cmp_spec() -> bool {
        true
    }

    open spec fn partial_cmp_spec(&self, other: &SpdmVersion) -> Option<Ordering> {
        version_order(*self, *other)
    }
}

/// The order of versions agrees with their wire bytes: one version is older
/// than another exactly when its byte is smaller, and two versions compare
/// equal exactly when they are the same version.
pub proof fn law_version_order_matches_bytes(a: SpdmVersion, b: SpdmVersion)
    ensures
        a.partial_cmp_spec(&b) == Some(Ordering::Less) <==> version_byte(a) < version_byte(b),
        a.partial_cmp_spec(&b) == Some(Ordering::Greater) <==> version_byte(a) > version_byte(b),
        a.partial_cmp_spec(&b) == Some(Ordering::Equal) <==> a == b,
{
}

impl TryFrom<u8> for SpdmVersion {
    type Error = SpdmError;

    fn try_from(value: u8) -> (r: Result<SpdmVersion, SpdmError>) {
        SpdmVersion::try_from_u8(value)
    }
}

impl vstd::std_specs::convert::TryFromSpecImpl<u8> for SpdmVersion {
    open spec fn obeys_try_from_spec() -> bool {
        true
    }

    open spec fn try_from_spec(value: u8) -> Result<SpdmVersion, SpdmError> {
        match version_from_byte(value) {
            Some(v) => Ok(v),
            None => Err(SpdmError::UnsupportedVersion),
        }
    }
}

impl From<SpdmVersion> for u8 {
    fn from(version: SpdmVersion) -> (r: u8) {
        version.to_u8()
    }
}

impl vstd::std_specs::convert::FromSpecImpl<SpdmVersion> for u8 {
    open spec fn obeys_from_spec() -> bool {
        true
    }

    open spec fn from_spec(version: SpdmVersion) -> u8 {
        version_byte(version)
    }
}

/// Whether a list of versions may be configured as the supported ones: it is
/// not empty, holds at most [MAX_NUM_SUPPORTED_SPDM_VERSIONS] entries, and none
/// is newer than the newest supported version.
pub open spec fn versions_valid(versions: Seq<SpdmVersion>) -> bool {
    &&& versions.len() > 0
    &&& versions.len() <= MAX_NUM_SUPPORTED_SPDM_VERSIONS
    &&& forall|i: int|
        0 <= i < versions.len() ==> version_byte(#[trigger] versions[i]) <= version_byte(
            max_supported_version(),
        )
}

/// Decoding a version's byte gives the version back, and a byte that
/// decodes to a version is that version's byte.
pub proof fn law_version_byte_roundtrip(v: SpdmVersion, b: u8)
    ensures
        version_from_byte(version_byte(v)) == Some(v),
        version_from_byte(b) == Some(v) ==> version_byte(v) == b,
{
}

/// A version's byte is its major number times 16 plus its minor number; every
/// supported version has major number 1.
pub proof fn law_major_minor(v: SpdmVersion)
    ensures
        version_byte(v) == (version_byte(v) / 16) * 16 + version_byte(v) % 16,
        version_byte(v) / 16 == 1,
{
}

/// Compatibility is a total preorder: every version is compatible with
/// itself, compatibility chains, of two versions one is compatible with the
/// other, and two versions compatible with each other are equal.
pub proof fn law_compatibility_order(a: SpdmVersion, b: SpdmVersion, c: SpdmVersion)
    ensures
        version_byte(a) >= version_byte(a),
        version_byte(a) >= version_byte(b) && version_byte(b) >= version_byte(c) ==> version_byte(a)
            >= version_byte(c),
        version_byte(a) >= version_byte(b) || version_byte(b) >= version_byte(a),
        version_byte(a) >= version_byte(b) && version_byte(b) >= version_byte(a) ==> a == b,
{
}

/// Since no version is newer than the newest supported one, a list of
/// versions is valid exactly when it holds one to four of them.
pub proof fn law_versions_valid_by_count(versions: Seq<SpdmVersion>)
    ensures
        versions_valid(versions) <==> 0 < versions.len() <= MAX_NUM_SUPPORTED_SPDM_VERSIONS,
{
    assert forall|i: int| 0 <= i < versions.len() implies version_byte(#[trigger] versions[i])
        <= version_byte(max_supported_version()) by {}
}

pub fn validate_supported_versions(supported_versions: &[SpdmVersion]) -> (r: SpdmResult<()>)
    ensures
        versions_valid(supported_versions@) ==> r == Ok::<(), SpdmError>(()),
        !versions_valid(supported_versions@) ==> r == Err::<(), SpdmError>(SpdmError::InvalidParam),
{
    let max = SpdmVersion::V14;
    let mut any_newer = false;
    let mut i: usize = 0;
    while i < supported_versions.len()
        invariant
            i <= supported_versions@.len(),
            max == max_supported_version(),
            any_newer == exists|j: int|
                0 <= j < i && version_byte(#[trigger] supported_versions@[j]) > version_byte(max),
        decreases supported_versions@.len() - i,
    {
        if supported_versions[i] > max {
            any_newer = true;
        }
        i = i + 1;
    }
    if supported_versions.len() == 0 || supported_versions.len() > MAX_NUM_SUPPORTED_SPDM_VERSIONS
        || any_newer {
        return Err(SpdmError::InvalidParam);
    }
    Ok(())
}

} // verus!

//! The format version and the library's error type.
use vstd::prelude::*;

verus! {

/// Errors that end the validation of one replay.
#[derive(Debug, Clone, PartialEq, Eq)]
pub enum ParseError {
    /// The file does not carry the replay extension.
    FileType(String),
    /// The replay does not hold the number of human players required.
    PlayerCount,
    /// A value other than the one required was found.
    Value(String, String),
    /// A read went past the end of the available bytes.
    UnexpectedEnd,
    /// The file does not start with the replay signature.
    BadSignature,
    /// The metadata block does not start with its key and type marker.
    BadMetadataHeader,
    /// The first event is not the event payload table.
    NotPayloadTable,
    /// The event payload table declares a length that is not `1 + 3 * n`.
    PayloadTableLength,
    /// No match-start event follows the event payload table.
    MissingGameStart,
    /// An event code that the payload table does not list.
    UnlistedEvent(u8),
}

/// A rule on what a tournament-legal replay holds.
pub trait Tournament {
    spec fn spec_is_legal(&self) -> bool;

    fn is_legal(&self) -> (r: bool)
        ensures
            r == self.spec_is_legal(),
    ;
}

/// Replay format version, which dictates what information a replay holds.
#[derive(Debug, Clone, Copy, PartialEq, Eq, PartialOrd, Ord)]
pub struct Version {
    pub major: u8,
    pub minor: u8,
    pub build: u8,
}

/// The position of a version triple in the total order of versions.
pub open spec fn version_key(major: u8, minor: u8, build: u8) -> int {
    major as int * 65536 + minor as int * 256 + build as int
}

impl Version {
    pub open spec fn key(self) -> int {
        version_key(self.major, self.minor, self.build)
    }

    /// True where `self` orders strictly before `other`.
    pub open spec fn spec_lt(self, other: Version) -> bool {
        self.key() < other.key()
    }

    pub open spec fn spec_at_least(self, major: u8, minor: u8, build: u8) -> bool {
        self.key() >= version_key(major, minor, build)
    }

    pub fn new(major: u8, minor: u8, build: u8) -> (r: Self)
        ensures
            r.major == major,
            r.minor == minor,
            r.build == build,
    {
        Self { major, minor, build }
    }

    /// Returns true if self is at least (greater than or equal to) the given version.
    pub fn at_least(&self, major: u8, minor: u8, build: u8) -> (r: bool)
        ensures
            r == self.spec_at_least(major, minor, build),
    {
        if self.major != major {
            self.major > major
        } else if self.minor != minor {
            self.minor > minor
        } else {
            self.build >= build
        }
    }

    /// The version as a big-endian integer with a zero low byte.
    pub fn as_u32(&self) -> (r: u32)
        ensures
            r as int == self.key() * 256,
    {
        (self.major as u32) * 16777216 + (self.minor as u32) * 65536 + (self.build as u32) * 256
    }

    /// The version that the first releases of the format wrote: 0.1.0.
    pub fn first_release() -> (r: Self)
        ensures
            r.major == 0 && r.minor == 1 && r.build == 0,
    {
        Self { major: 0, minor: 1, build: 0 }
    }
}

impl Default for Version {
    fn default() -> (r: Self)
        ensures
            r.major == 0 && r.minor == 1 && r.build == 0,
    {
        Self::first_release()
    }
}

/// Versions are strictly and totally ordered: for `v1 < v2 < v3`, `v2` is at
/// least `v1` and `v1` is not at least `v2`; the order is transitive and any
/// two versions are equal or ordered one way.
pub proof fn lemma_version_order(v1: Version, v2: Version, v3: Version)
    requires
        v1.spec_lt(v2),
        v2.spec_lt(v3),
    ensures
        v2.spec_at_least(v1.major, v1.minor, v1.build),
        !v1.spec_at_least(v2.major, v2.minor, v2.build),
        v1.spec_lt(v3),
        !v2.spec_lt(v1),
        !v1.spec_lt(v1),
{
}

/// Any two versions are equal or one orders strictly before the other.
pub proof fn lemma_version_trichotomy(v1: Version, v2: Version)
    ensures
        v1 == v2 || v1.spec_lt(v2) || v2.spec_lt(v1),
        v1.spec_at_least(v2.major, v2.minor, v2.build) <==> !v1.spec_lt(v2),
{
    if v1.key() == v2.key() {
        assert(v1.major == v2.major && v1.minor == v2.minor && v1.build == v2.build);
    }
}

} // verus!

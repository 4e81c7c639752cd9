//! The version guard: finds the fixed version block inside the image's
//! version resource, reads the four-part file version from it, and lets through
//! only the one build whose layout the patch sites were taken from.

use vstd::prelude::*;
use crate::image::{read_u32, word_at};

verus! {

/// The word that marks the start of the fixed version block.
pub const VERSION_SIGNATURE: u32 = 0xFEEF04BD;

/// Size in bytes of the fixed version block.
pub const FIXED_INFO_SIZE: usize = 52;

/// A four-part file version.
#[derive(Clone, Copy, Debug, PartialEq, Eq, Structural)]
pub struct Version {
    pub major: u16,
    pub minor: u16,
    pub revision: u16,
    pub build: u16,
}

/// Why no version could be read.
#[derive(Clone, Copy, Debug, PartialEq, Eq, Structural)]
pub enum VersionError {
    /// The image has no version resource, or it could not be loaded.
    ResourceUnavailable,
    /// The resource ends before a complete fixed version block was found.
    BadLength,
}

/// Where the version guard stands. It starts `Unverified` and moves once,
/// to `Verified` or to `Rejected`; both are final.
#[derive(Clone, Copy, Debug, PartialEq, Eq, Structural)]
pub enum VersionGuard {
    Unverified,
    Verified,
    Rejected,
}

/// The bytes of a resource, if there is one.
pub open spec fn resource_bytes(resource: Option<&[u8]>) -> Option<Seq<u8>> {
    match resource {
        Some(bytes) => Some(bytes@),
        None => None,
    }
}

/// Where the search for the version block ends: the length that the
/// resource declares in its first word, or the number of bytes at hand if
/// that is less. A resource too short to declare a length has no extent.
pub open spec fn extent(bytes: Seq<u8>) -> int {
    if bytes.len() < 4 {
        0
    } else if word_at(bytes, 0) <= bytes.len() {
        word_at(bytes, 0) as int
    } else {
        bytes.len() as int
    }
}

/// Whether `q` is a word position after the length word at which a whole
/// word can be read.
pub open spec fn is_word_position(bytes: Seq<u8>, q: int) -> bool {
    4 <= q && q % 4 == 0 && q + 4 <= extent(bytes)
}

/// Whether the version block starts at `q`: the first word position that
/// holds the signature.
pub open spec fn is_block_start(bytes: Seq<u8>, q: int) -> bool {
    &&& is_word_position(bytes, q)
    &&& word_at(bytes, q) == VERSION_SIGNATURE
    &&& forall|p: int|
        4 <= p < q && p % 4 == 0 ==> #[trigger] word_at(bytes, p) != VERSION_SIGNATURE
}

/// Whether a complete version block starts at `q`.
pub open spec fn holds_block(bytes: Seq<u8>, q: int) -> bool {
    is_block_start(bytes, q) && q + FIXED_INFO_SIZE <= extent(bytes)
}

/// The version in the block that starts at `q`: the high and low halves of
/// the block's third and fourth words.
pub open spec fn version_at(bytes: Seq<u8>, q: int) -> Version {
    let ms = word_at(bytes, q + 8);
    let ls = word_at(bytes, q + 12);
    Version {
        major: (ms / 0x1_0000) as u16,
        minor: (ms % 0x1_0000) as u16,
        revision: (ls / 0x1_0000) as u16,
        build: (ls % 0x1_0000) as u16,
    }
}

/// The file version that a version resource holds.
pub open spec fn file_version(resource: Option<Seq<u8>>) -> Result<Version, VersionError> {
    match resource {
        None => Err(VersionError::ResourceUnavailable),
        Some(bytes) => if exists|q: int| holds_block(bytes, q) {
            Ok(version_at(bytes, choose|q: int| holds_block(bytes, q)))
        } else {
            Err(VersionError::BadLength)
        },
    }
}

/// At most one position is the start of the version block.
pub proof fn lemma_block_start_unique(bytes: Seq<u8>, q1: int, q2: int)
    requires
        is_block_start(bytes, q1),
        is_block_start(bytes, q2),
    ensures
        q1 == q2,
{
    if q1 < q2 {
        assert(word_at(bytes, q1) != VERSION_SIGNATURE);
    } else if q2 < q1 {
        assert(word_at(bytes, q2) != VERSION_SIGNATURE);
    }
}

impl Version {
    /// The one build whose layout the patch sites belong to: 1.0.3.0.
    pub open spec fn known() -> Version {
        Version { major: 1, minor: 0, revision: 3, build: 0 }
    }

    /// The one build whose layout the patch sites belong to.
    pub fn known_build() -> (v: Version)
        ensures
            v == Version::known(),
    {
        Version { major: 1, minor: 0, revision: 3, build: 0 }
    }
}

impl VersionGuard {
    /// The state after the guard has seen what reading the version gave.
    pub open spec fn after(self, extracted: Result<Version, VersionError>) -> VersionGuard {
        match self {
            VersionGuard::Unverified => if extracted == Ok::<Version, VersionError>(
                Version::known(),
            ) {
                VersionGuard::Verified
            } else {
                VersionGuard::Rejected
            },
            VersionGuard::Verified => VersionGuard::Verified,
            VersionGuard::Rejected => VersionGuard::Rejected,
        }
    }

    /// Moves an unverified guard to `Verified` if the version read is exactly
    /// the known build, to `Rejected` otherwise. A guard that has already
    /// moved stays where it is.
    pub fn examine(self, extracted: Result<Version, VersionError>) -> (next: VersionGuard)
        ensures
            next == self.after(extracted),
    {
        match self {
            VersionGuard::Unverified => match extracted {
                Ok(v) => if v == Version::known_build() {
                    VersionGuard::Verified
                } else {
                    VersionGuard::Rejected
                },
                Err(_) => VersionGuard::Rejected,
            },
            VersionGuard::Verified => VersionGuard::Verified,
            VersionGuard::Rejected => VersionGuard::Rejected,
        }
    }

    /// Whether the patch engine may run.
    pub fn permits(&self) -> (ok: bool)
        ensures
            ok == (*self == VersionGuard::Verified),
    {
        match self {
            VersionGuard::Verified => true,
            _ => false,
        }
    }
}

/// Reads the file version out of the image's version resource.
pub fn get_file_version(resource: Option<&[u8]>) -> (version: Result<Version, VersionError>)
    ensures
        version == file_version(resource_bytes(resource)),
{
    let bytes = match resource {
        Some(bytes) => bytes,
        None => {
            return Err(VersionError::ResourceUnavailable);
        },
    };
    if bytes.len() < 4 {
        return Err(VersionError::BadLength);
    }
    let declared = read_u32(bytes, 0) as usize;
    let end = if declared <= bytes.len() {
        declared
    } else {
        bytes.len()
    };
    if end < 8 {
        return Err(VersionError::BadLength);
    }
    let mut p: usize = 4;
    while end - p >= 4 && read_u32(bytes, p) != VERSION_SIGNATURE
        invariant
            4 <= p <= end,
            p % 4 == 0,
            end == extent(bytes@),
            end <= bytes@.len(),
            forall|k: int|
                4 <= k < p && k % 4 == 0 ==> #[trigger] word_at(bytes@, k) != VERSION_SIGNATURE,
        decreases end - p,
    {
        p = p + 4;
    }
    if end - p >= FIXED_INFO_SIZE {
        assert(is_block_start(bytes@, p as int));
        assert(holds_block(bytes@, p as int));
        proof {
            let q = choose|q: int| holds_block(bytes@, q);
            lemma_block_start_unique(bytes@, q, p as int);
        }
        let ms = read_u32(bytes, p + 8);
        let ls = read_u32(bytes, p + 12);
        Ok(
            Version {
                major: (ms / 0x1_0000) as u16,
                minor: (ms % 0x1_0000) as u16,
                revision: (ls / 0x1_0000) as u16,
                build: (ls % 0x1_0000) as u16,
            },
        )
    } else {
        assert forall|q: int| !holds_block(bytes@, q) by {
            if is_block_start(bytes@, q) {
                if q < p {
                    assert(word_at(bytes@, q) != VERSION_SIGNATURE);
                } else if end - p >= 4 {
                    lemma_block_start_unique(bytes@, q, p as int);
                }
            }
        }
        Err(VersionError::BadLength)
    }
}

/// Whether the image is the known build: the version guard's verdict on
/// the image's version resource.
pub fn verify(resource: Option<&[u8]>) -> (known: bool)
    ensures
        known == (file_version(resource_bytes(resource)) == Ok::<Version, VersionError>(
            Version::known(),
        )),
        known == (VersionGuard::Unverified.after(file_version(resource_bytes(resource)))
            == VersionGuard::Verified),
{
    VersionGuard::Unverified.examine(get_file_version(resource)).permits()
}

} // verus!

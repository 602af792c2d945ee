use vstd::prelude::*;

verus! {

/// The protocol versions the client distinguishes, oldest first.
#[derive(Clone, Copy, Debug, PartialEq, Eq, Structural)]
pub enum Version {
    Other,
    Old,
    V1_7,
    V1_8,
    V1_9,
    V1_10,
    V1_11,
    V1_12,
    V1_13,
    V1_13_2,
    V1_14,
    V1_15,
    V1_16,
    V1_16_2,
    V1_17,
    V1_18,
    V1_19,
    New,
}

/// The position of a version in release order.
pub open spec fn version_rank(v: Version) -> int {
    match v {
        Version::Other => 0,
        Version::Old => 1,
        Version::V1_7 => 2,
        Version::V1_8 => 3,
        Version::V1_9 => 4,
        Version::V1_10 => 5,
        Version::V1_11 => 6,
        Version::V1_12 => 7,
        Version::V1_13 => 8,
        Version::V1_13_2 => 9,
        Version::V1_14 => 10,
        Version::V1_15 => 11,
        Version::V1_16 => 12,
        Version::V1_16_2 => 13,
        Version::V1_17 => 14,
        Version::V1_18 => 15,
        Version::V1_19 => 16,
        Version::New => 17,
    }
}

impl Version {
    pub fn rank(&self) -> (r: u8)
        ensures
            r == version_rank(*self),
    {
        match self {
            Version::Other => 0,
            Version::Old => 1,
            Version::V1_7 => 2,
            Version::V1_8 => 3,
            Version::V1_9 => 4,
            Version::V1_10 => 5,
            Version::V1_11 => 6,
            Version::V1_12 => 7,
            Version::V1_13 => 8,
            Version::V1_13_2 => 9,
            Version::V1_14 => 10,
            Version::V1_15 => 11,
            Version::V1_16 => 12,
            Version::V1_16_2 => 13,
            Version::V1_17 => 14,
            Version::V1_18 => 15,
            Version::V1_19 => 16,
            Version::New => 17,
        }
    }

    /// This version was released before `other`.
    pub fn is_before(&self, other: Version) -> (b: bool)
        ensures
            b == (version_rank(*self) < version_rank(other)),
    {
        self.rank() < other.rank()
    }
}

} // verus!

use vstd::prelude::*;

verus! {

/// Which oracle adapter a contract reads its prices from.
#[derive(Clone, Copy, Debug, PartialEq, Eq, Structural)]
pub enum FeedType {
    Pyth,
    Switchboard,
    Unknown,
}

impl FeedType {
    /// The tag under which a feed kind is stored.
    pub open spec fn tag(self) -> u8 {
        match self {
            FeedType::Pyth => 0,
            FeedType::Switchboard => 1,
            FeedType::Unknown => 2,
        }
    }

    /// The feed kind that a stored tag stands for; every tag above the
    /// known ones is `Unknown`.
    pub open spec fn of_tag(tag: u8) -> FeedType {
        if tag == 0 {
            FeedType::Pyth
        } else if tag == 1 {
            FeedType::Switchboard
        } else {
            FeedType::Unknown
        }
    }

    pub fn as_u8(self) -> (tag: u8)
        ensures
            tag == self.tag(),
            FeedType::of_tag(tag) == self,
    {
        match self {
            FeedType::Pyth => 0,
            FeedType::Switchboard => 1,
            FeedType::Unknown => 2,
        }
    }

    pub fn from_u8(tag: u8) -> (kind: FeedType)
        ensures
            kind == FeedType::of_tag(tag),
            tag <= 2 ==> kind.tag() == tag,
    {
        if tag == 0 {
            FeedType::Pyth
        } else if tag == 1 {
            FeedType::Switchboard
        } else {
            FeedType::Unknown
        }
    }
}

impl Default for FeedType {
    fn default() -> (kind: FeedType)
        ensures
            kind == FeedType::Pyth,
    {
        FeedType::Pyth
    }
}

/// A 32-byte account identity.
#[derive(Clone, Copy, Debug, Default, PartialEq, Eq)]
pub struct Address {
    pub bytes: [u8; 32],
}

impl Address {
    /// Whether two identities are the same, byte for byte.
    pub fn same_as(&self, other: &Address) -> (r: bool)
        ensures
            r == (*self == *other),
    {
        let mut i: usize = 0;
        while i < 32
            invariant
                i <= 32,
                forall|j: int| 0 <= j < i ==> self.bytes[j] == other.bytes[j],
            decreases 32 - i,
        {
            if self.bytes[i] != other.bytes[i] {
                return false;
            }
            i += 1;
        }
        proof {
            assert(self.bytes =~= other.bytes);
        }
        true
    }
}

} // verus!

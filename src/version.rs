use std::cmp::Ordering;
use vstd::prelude::*;
use vstd::string::StringSliceAdditionalSpecFns;

verus! {

/// The protocol and version pairs, in ascending order.
#[derive(Clone, Copy, PartialEq, Eq, Structural, PartialOrd, Ord, Hash)]
enum Release {
    Http09,
    Http10,
    Http11,
    H2,
    H3,
    Rtsp1,
}

/// A version of a protocol: `HTTP/0.9` up to `HTTP/3.0`, and `RTSP/1.0`.
///
/// Versions are ordered as listed, so `HTTP/1.1` comes before `HTTP/2.0`.
#[derive(Clone, Copy, PartialEq, Eq, Structural, Ord, Hash)]
pub struct Version(Release);

/// The canonical text of the version at `rank` in the ordered list.
pub open spec fn version_text(rank: nat) -> Seq<char> {
    if rank == 0 {
        seq!['H', 'T', 'T', 'P', '/', '0', '.', '9']
    } else if rank == 1 {
        seq!['H', 'T', 'T', 'P', '/', '1', '.', '0']
    } else if rank == 2 {
        seq!['H', 'T', 'T', 'P', '/', '1', '.', '1']
    } else if rank == 3 {
        seq!['H', 'T', 'T', 'P', '/', '2', '.', '0']
    } else if rank == 4 {
        seq!['H', 'T', 'T', 'P', '/', '3', '.', '0']
    } else {
        seq!['R', 'T', 'S', 'P', '/', '1', '.', '0']
    }
}

/// How two ranks compare.
pub open spec fn compare_ranks(a: nat, b: nat) -> Ordering {
    if a < b {
        Ordering::Less
    } else if a == b {
        Ordering::Equal
    } else {
        Ordering::Greater
    }
}

impl Version {
    /// The position of the version in the ordered list, from 0.
    pub closed spec fn rank(self) -> nat {
        match self.0 {
            Release::Http09 => 0,
            Release::Http10 => 1,
            Release::Http11 => 2,
            Release::H2 => 3,
            Release::H3 => 4,
            Release::Rtsp1 => 5,
        }
    }

    /// The number of versions.
    pub open spec fn count() -> nat {
        6
    }

    /// Every version has a rank below `count`, and distinct versions have distinct ranks.
    pub proof fn lemma_rank(self, other: Version)
        ensures
            self.rank() < Version::count(),
            self.rank() == other.rank() <==> self == other,
    {
    }

    fn rank_of(&self) -> (r: u8)
        ensures
            r as nat == self.rank(),
    {
        match self.0 {
            Release::Http09 => 0,
            Release::Http10 => 1,
            Release::Http11 => 2,
            Release::H2 => 3,
            Release::H3 => 4,
            Release::Rtsp1 => 5,
        }
    }

    /// `HTTP/0.9`
    pub fn http_09() -> (r: Version)
        ensures
            r.rank() == 0,
    {
        Version(Release::Http09)
    }

    /// `HTTP/1.0`
    pub fn http_10() -> (r: Version)
        ensures
            r.rank() == 1,
    {
        Version(Release::Http10)
    }

    /// `HTTP/1.1`
    pub fn http_11() -> (r: Version)
        ensures
            r.rank() == 2,
    {
        Version(Release::Http11)
    }

    /// `HTTP/2.0`
    pub fn http_2() -> (r: Version)
        ensures
            r.rank() == 3,
    {
        Version(Release::H2)
    }

    /// `HTTP/3.0`
    pub fn http_3() -> (r: Version)
        ensures
            r.rank() == 4,
    {
        Version(Release::H3)
    }

    /// `RTSP/1.0`
    pub fn rtsp_1() -> (r: Version)
        ensures
            r.rank() == 5,
    {
        Version(Release::Rtsp1)
    }

    /// The canonical text of the version, such as `HTTP/1.1`.
    pub fn as_str(&self) -> (r: &'static str)
        ensures
            r@ == version_text(self.rank()),
    {
        match self.0 {
            Release::Http09 => {
                proof {
                    reveal_strlit("HTTP/0.9");
                }
                "HTTP/0.9"
            },
            Release::Http10 => {
                proof {
                    reveal_strlit("HTTP/1.0");
                }
                "HTTP/1.0"
            },
            Release::Http11 => {
                proof {
                    reveal_strlit("HTTP/1.1");
                }
                "HTTP/1.1"
            },
            Release::H2 => {
                proof {
                    reveal_strlit("HTTP/2.0");
                }
                "HTTP/2.0"
            },
            Release::H3 => {
                proof {
                    reveal_strlit("HTTP/3.0");
                }
                "HTTP/3.0"
            },
            Release::Rtsp1 => {
                proof {
                    reveal_strlit("RTSP/1.0");
                }
                "RTSP/1.0"
            },
        }
    }
}

impl PartialOrd for Version {
    fn partial_cmp(&self, other: &Version) -> (r: Option<Ordering>) {
        let a = self.rank_of();
        let b = other.rank_of();
        if a < b {
            Some(Ordering::Less)
        } else if a == b {
            Some(Ordering::Equal)
        } else {
            Some(Ordering::Greater)
        }
    }
}

impl vstd::std_specs::cmp::PartialOrdSpecImpl for Version {
    open spec fn obeys_partial_cmp_spec() -> bool {
        true
    }

    open spec fn partial_cmp_spec(&self, other: &Version) -> Option<Ordering> {
        Some(compare_ranks(self.rank(), other.rank()))
    }
}

/// `HTTP/1.1`, the version of the HTTP family.
impl Default for Version {
    fn default() -> (r: Version)
        ensures
            r.rank() == 2,
    {
        Version(Release::Http11)
    }
}

} // verus!

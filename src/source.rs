//! The public endpoints that echo the caller's address, and the choice of
//! one of them for each resolution.

use rand::Rng;
use vstd::prelude::*;

verus! {

/// How many resolution sources there are.
pub const SOURCE_COUNT: usize = 3;

/// An HTTP endpoint that answers a plain GET with the caller's public
/// address as text.
#[derive(Clone, Copy, Debug, PartialEq, Eq, Structural)]
pub enum Source {
    Ipify,
    IpInfo,
    AwsCheckIp,
}

/// The source at position `i` of the fixed list.
pub open spec fn source_spec(i: int) -> Source {
    if i == 0 {
        Source::Ipify
    } else if i == 1 {
        Source::IpInfo
    } else {
        Source::AwsCheckIp
    }
}

impl Source {
    /// The URL that is queried for this source.
    pub open spec fn url_spec(self) -> Seq<char> {
        match self {
            Source::Ipify => "https://api.ipify.org"@,
            Source::IpInfo => "https://ipinfo.io/ip"@,
            Source::AwsCheckIp => "https://checkip.amazonaws.com"@,
        }
    }

    /// The URL that is queried for this source.
    pub fn url(&self) -> (r: &'static str)
        ensures
            r@ == self.url_spec(),
    {
        match self {
            Source::Ipify => "https://api.ipify.org",
            Source::IpInfo => "https://ipinfo.io/ip",
            Source::AwsCheckIp => "https://checkip.amazonaws.com",
        }
    }
}

/// The source at position `i` of the fixed list.
pub fn source_at(i: usize) -> (r: Source)
    requires
        i < SOURCE_COUNT,
    ensures
        r == source_spec(i as int),
{
    if i == 0 {
        Source::Ipify
    } else if i == 1 {
        Source::IpInfo
    } else {
        Source::AwsCheckIp
    }
}

/// Relies on `rand::thread_rng` and `Rng::gen_range`: a uniform draw from
/// `0..n`, a range that is not empty (`gen_range` panics on an empty one).
#[verifier::external_body]
fn draw_below(n: usize) -> (r: usize)
    requires
        n > 0,
    ensures
        r < n,
{
    rand::thread_rng().gen_range(0..n)
}

/// Picks one source uniformly at random, afresh on every call.
pub fn choose_source() -> (r: Source)
    ensures
        exists|i: int| 0 <= i < SOURCE_COUNT && r == source_spec(i),
{
    let i = draw_below(SOURCE_COUNT);
    source_at(i)
}

} // verus!

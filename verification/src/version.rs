//! The version router.
//!
//! Each supported API version binds to one frozen feature-bank
//! configuration. Versions are additive: later ones add a flux-space bank
//! and, last, a magnitude zero-point; the published routes of earlier
//! versions stay as they are.

use vstd::prelude::*;

verus! {

/// The supported schema versions, oldest first.
#[derive(Clone, Copy, PartialEq, Eq, Structural, Debug)]
pub enum Version {
    V0_1,
    V0_2,
    V0_4,
    V0_5,
}

/// What a mounted path serves: a version's feature pipeline, the help
/// redirect, or the version listing.
#[derive(Clone, Copy, PartialEq, Eq, Structural, Debug)]
pub enum Handler {
    Index(Version),
    Help,
    VersionList,
}

/// One mounted path and what it serves.
pub struct Route {
    pub path: String,
    pub handler: Handler,
}

/// Magnitude zero-point of the latest version, as the bit pattern of the
/// 64-bit float `8.9 + 6.0 * 2.5` (microjansky calibration).
pub const MAG_ZP_BITS: u64 = 0x4037_E666_6666_6666;

/// Per-version pipeline shape: whether a flux-space bank is evaluated
/// beside the magnitude-space one, and the zero-point, if any, of the
/// magnitude-to-flux transform.
#[derive(Clone, Copy, PartialEq, Eq, Structural, Debug)]
pub struct VersionConfig {
    pub has_flux_bank: bool,
    pub zero_point_bits: Option<u64>,
}

/// The frozen configuration a version binds to. The earliest version runs a
/// single magnitude bank; the middle ones add a flux bank without a
/// zero-point; the latest adds the zero-point calibration.
pub fn version_config(v: Version) -> (c: VersionConfig)
    ensures
        c.has_flux_bank <==> !(v is V0_1),
        c.zero_point_bits is Some <==> v is V0_5,
        v is V0_5 ==> c.zero_point_bits == Some(MAG_ZP_BITS),
{
    match v {
        Version::V0_1 => VersionConfig { has_flux_bank: false, zero_point_bits: None },
        Version::V0_2 => VersionConfig { has_flux_bank: true, zero_point_bits: None },
        Version::V0_4 => VersionConfig { has_flux_bank: true, zero_point_bits: None },
        Version::V0_5 => VersionConfig { has_flux_bank: true, zero_point_bits: Some(MAG_ZP_BITS) },
    }
}

/// Bit pattern of the 64-bit float `1.0`.
pub const ONE_BITS: u64 = 0x3FF0_0000_0000_0000;

/// Bit pattern of the 64-bit float `2.0`.
pub const TWO_BITS: u64 = 0x4000_0000_0000_0000;

/// Bit pattern of the 64-bit float `10.0`.
pub const TEN_BITS: u64 = 0x4024_0000_0000_0000;

/// Bit pattern of the 64-bit float `24.0`: the fixed Nyquist frequency of
/// the newest version, in inverse days.
pub const DAILY_24_BITS: u64 = 0x4038_0000_0000_0000;

/// Bit pattern of the 64-bit float `1.0 / 24.0`: the sampling interval, in
/// days, behind the fixed Nyquist frequency of the middle version.
pub const HOUR_IN_DAYS_BITS: u64 = 0x3FA5_5555_5555_5555;

/// Bit pattern of the 64-bit float `pi / (300.0 / 86400.0)`: the frequency
/// cap, in inverse days, that the oldest version puts on its median-cadence
/// Nyquist frequency — the angular frequency of a 300-second cadence.
pub const CAP_300S_BITS: u64 = 0x408C_463A_BECC_B2BB;

/// How the highest frequency a periodogram considers is derived from the
/// series' sampling cadence.
#[derive(Clone, Copy, PartialEq, Eq, Structural, Debug)]
pub enum NyquistPolicy {
    /// Median cadence of the series.
    Median,
    /// Average cadence of the series.
    Average,
    /// An explicit frequency, independent of the series.
    Fixed { freq_bits: u64 },
    /// An explicit sampling interval, independent of the series.
    FixedFromInterval { dt_bits: u64 },
    /// Median cadence, capped at an explicit maximum frequency.
    TruncatedMedian { max_freq_bits: u64 },
}

/// The frozen periodogram sub-pipeline parameters of one version: how many
/// peaks it reports, its frequency resolution (the library default where
/// absent), its maximum-frequency factor, and its Nyquist policy.
#[derive(Clone, Copy, PartialEq, Eq, Structural, Debug)]
pub struct PeriodogramSettings {
    pub peaks: u32,
    pub freq_resolution_bits: Option<u64>,
    pub max_freq_factor_bits: u64,
    pub nyquist: NyquistPolicy,
}

/// The periodogram configuration each version froze: the oldest capped its
/// median-cadence frequency and reported three peaks; the later ones report
/// five peaks at resolution ten, moving from an average-cadence policy to
/// fixed frequencies.
pub fn periodogram_settings(v: Version) -> (s: PeriodogramSettings)
    ensures
        v is V0_1 ==> s == (PeriodogramSettings {
            peaks: 3,
            freq_resolution_bits: None,
            max_freq_factor_bits: TWO_BITS,
            nyquist: NyquistPolicy::TruncatedMedian { max_freq_bits: CAP_300S_BITS },
        }),
        v is V0_2 ==> s == (PeriodogramSettings {
            peaks: 5,
            freq_resolution_bits: Some(TEN_BITS),
            max_freq_factor_bits: TWO_BITS,
            nyquist: NyquistPolicy::Average,
        }),
        v is V0_4 ==> s == (PeriodogramSettings {
            peaks: 5,
            freq_resolution_bits: Some(TEN_BITS),
            max_freq_factor_bits: ONE_BITS,
            nyquist: NyquistPolicy::FixedFromInterval { dt_bits: HOUR_IN_DAYS_BITS },
        }),
        v is V0_5 ==> s == (PeriodogramSettings {
            peaks: 5,
            freq_resolution_bits: Some(TEN_BITS),
            max_freq_factor_bits: TWO_BITS,
            nyquist: NyquistPolicy::Fixed { freq_bits: DAILY_24_BITS },
        }),
{
    match v {
        Version::V0_1 => PeriodogramSettings {
            peaks: 3,
            freq_resolution_bits: None,
            max_freq_factor_bits: TWO_BITS,
            nyquist: NyquistPolicy::TruncatedMedian { max_freq_bits: CAP_300S_BITS },
        },
        Version::V0_2 => PeriodogramSettings {
            peaks: 5,
            freq_resolution_bits: Some(TEN_BITS),
            max_freq_factor_bits: TWO_BITS,
            nyquist: NyquistPolicy::Average,
        },
        Version::V0_4 => PeriodogramSettings {
            peaks: 5,
            freq_resolution_bits: Some(TEN_BITS),
            max_freq_factor_bits: ONE_BITS,
            nyquist: NyquistPolicy::FixedFromInterval { dt_bits: HOUR_IN_DAYS_BITS },
        },
        Version::V0_5 => PeriodogramSettings {
            peaks: 5,
            freq_resolution_bits: Some(TEN_BITS),
            max_freq_factor_bits: TWO_BITS,
            nyquist: NyquistPolicy::Fixed { freq_bits: DAILY_24_BITS },
        },
    }
}

/// What a shell linked against the newest feature library serves for each
/// Nyquist policy. That library's policy set is closed and has no capped
/// variant, so the oldest version's truncated median is served as the
/// uncapped median cadence; every other policy is served as it is.
pub fn served_nyquist(p: NyquistPolicy) -> (r: NyquistPolicy)
    ensures
        p matches NyquistPolicy::TruncatedMedian { .. } ==> r == NyquistPolicy::Median,
        !(p matches NyquistPolicy::TruncatedMedian { .. }) ==> r == p,
{
    match p {
        NyquistPolicy::TruncatedMedian { .. } => NyquistPolicy::Median,
        other => other,
    }
}

/// The published version labels, in order.
pub fn versions() -> (r: Vec<String>)
    ensures
        r@.len() == 5,
        r@[0]@ == "v0.1"@,
        r@[1]@ == "v0.2"@,
        r@[2]@ == "v0.4"@,
        r@[3]@ == "v0.5"@,
        r@[4]@ == "latest"@,
{
    let mut out: Vec<String> = Vec::new();
    out.push(String::from_str("v0.1"));
    out.push(String::from_str("v0.2"));
    out.push(String::from_str("v0.4"));
    out.push(String::from_str("v0.5"));
    out.push(String::from_str("latest"));
    out
}

/// The service's route table: the root serves the oldest pipeline beside
/// the help and version-listing endpoints; each published version label and
/// each full release tag is mounted under `/api/`, and `latest` serves the
/// newest pipeline.
pub fn rocket() -> (r: Vec<Route>)
    ensures
        r@.len() == 12,
        r@[0].path@ == "/"@ && r@[0].handler == Handler::Index(Version::V0_1),
        r@[1].path@ == "/"@ && r@[1].handler == Handler::Help,
        r@[2].path@ == "/"@ && r@[2].handler == Handler::VersionList,
        r@[3].path@ == "/api/v0.1.17/"@ && r@[3].handler == Handler::Index(Version::V0_1),
        r@[4].path@ == "/api/v0.1/"@ && r@[4].handler == Handler::Index(Version::V0_1),
        r@[5].path@ == "/api/v0.2.2/"@ && r@[5].handler == Handler::Index(Version::V0_2),
        r@[6].path@ == "/api/v0.2/"@ && r@[6].handler == Handler::Index(Version::V0_2),
        r@[7].path@ == "/api/v0.4.5/"@ && r@[7].handler == Handler::Index(Version::V0_4),
        r@[8].path@ == "/api/v0.4/"@ && r@[8].handler == Handler::Index(Version::V0_4),
        r@[9].path@ == "/api/v0.5.5/"@ && r@[9].handler == Handler::Index(Version::V0_5),
        r@[10].path@ == "/api/v0.5/"@ && r@[10].handler == Handler::Index(Version::V0_5),
        r@[11].path@ == "/api/latest/"@ && r@[11].handler == Handler::Index(Version::V0_5),
{
    let mut out: Vec<Route> = Vec::new();
    out.push(Route { path: String::from_str("/"), handler: Handler::Index(Version::V0_1) });
    out.push(Route { path: String::from_str("/"), handler: Handler::Help });
    out.push(Route { path: String::from_str("/"), handler: Handler::VersionList });
    out.push(
        Route { path: String::from_str("/api/v0.1.17/"), handler: Handler::Index(Version::V0_1) },
    );
    out.push(
        Route { path: String::from_str("/api/v0.1/"), handler: Handler::Index(Version::V0_1) },
    );
    out.push(
        Route { path: String::from_str("/api/v0.2.2/"), handler: Handler::Index(Version::V0_2) },
    );
    out.push(
        Route { path: String::from_str("/api/v0.2/"), handler: Handler::Index(Version::V0_2) },
    );
    out.push(
        Route { path: String::from_str("/api/v0.4.5/"), handler: Handler::Index(Version::V0_4) },
    );
    out.push(
        Route { path: String::from_str("/api/v0.4/"), handler: Handler::Index(Version::V0_4) },
    );
    out.push(
        Route { path: String::from_str("/api/v0.5.5/"), handler: Handler::Index(Version::V0_5) },
    );
    out.push(
        Route { path: String::from_str("/api/v0.5/"), handler: Handler::Index(Version::V0_5) },
    );
    out.push(
        Route { path: String::from_str("/api/latest/"), handler: Handler::Index(Version::V0_5) },
    );
    out
}

/// What the route table serves at a path: the handler of the first route
/// mounted there, if any.
pub open spec fn spec_route_lookup(routes: Seq<Route>, path: Seq<char>) -> Option<Handler>
    decreases routes.len(),
{
    if routes.len() == 0 {
        None
    } else if routes[0].path@ == path {
        Some(routes[0].handler)
    } else {
        spec_route_lookup(routes.drop_first(), path)
    }
}

/// Look a path up in the route table.
pub fn route_for(routes: &Vec<Route>, path: &String) -> (r: Option<Handler>)
    ensures
        r == spec_route_lookup(routes@, path@),
        r is Some <==> exists|i: int| 0 <= i < routes@.len() && (#[trigger] routes@[i]).path@
            == path@,
{
    let n = routes.len();
    proof {
        assert(routes@.skip(0) =~= routes@);
    }
    for k in 0..n
        invariant
            n == routes@.len(),
            spec_route_lookup(routes@, path@) == spec_route_lookup(routes@.skip(k as int), path@),
            forall|i: int| 0 <= i < k ==> (#[trigger] routes@[i]).path@ != path@,
    {
        proof {
            assert(routes@.skip(k as int)[0] == routes@[k as int]);
            assert(routes@.skip(k as int).drop_first() =~= routes@.skip(k + 1 as int));
        }
        if routes[k].path == *path {
            return Some(routes[k].handler);
        }
    }
    proof {
        assert(routes@.skip(n as int) =~= Seq::<Route>::empty());
    }
    None
}

/// Every published version label is routed: the route table mounts the path
/// `/api/<label>/` for each label the version listing publishes.
pub proof fn lemma_every_version_routed(routes: Seq<Route>, labels: Seq<String>)
    requires
        routes.len() == 12,
        routes[4].path@ == "/api/v0.1/"@,
        routes[6].path@ == "/api/v0.2/"@,
        routes[8].path@ == "/api/v0.4/"@,
        routes[10].path@ == "/api/v0.5/"@,
        routes[11].path@ == "/api/latest/"@,
        labels.len() == 5,
        labels[0]@ == "v0.1"@,
        labels[1]@ == "v0.2"@,
        labels[2]@ == "v0.4"@,
        labels[3]@ == "v0.5"@,
        labels[4]@ == "latest"@,
    ensures
        forall|i: int|
            0 <= i < labels.len() ==> exists|j: int|
                0 <= j < routes.len() && (#[trigger] routes[j]).path@ == "/api/"@
                    + (#[trigger] labels[i])@ + "/"@,
{
    reveal_strlit("/api/");
    reveal_strlit("/");
    reveal_strlit("v0.1");
    reveal_strlit("v0.2");
    reveal_strlit("v0.4");
    reveal_strlit("v0.5");
    reveal_strlit("latest");
    reveal_strlit("/api/v0.1/");
    reveal_strlit("/api/v0.2/");
    reveal_strlit("/api/v0.4/");
    reveal_strlit("/api/v0.5/");
    reveal_strlit("/api/latest/");
    assert(routes[4].path@ =~= "/api/"@ + labels[0]@ + "/"@);
    assert(routes[6].path@ =~= "/api/"@ + labels[1]@ + "/"@);
    assert(routes[8].path@ =~= "/api/"@ + labels[2]@ + "/"@);
    assert(routes[10].path@ =~= "/api/"@ + labels[3]@ + "/"@);
    assert(routes[11].path@ =~= "/api/"@ + labels[4]@ + "/"@);
}

} // verus!

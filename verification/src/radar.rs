//! The radar feeds: their bindings, built from the baseline, and what a radar says about
//! itself.
//!
//! A radar or direction finder is bound only under a sensor the baseline's own sensor
//! list names, which supplies its position; a UAS gateway needs no position, but the
//! sensor must still exist, because the identity it carries is what the ingest gateway
//! admits a detection under. A feed whose addresses do not parse is left out.
//!
//! Positions, accuracies and addresses are carried through as they were read: this
//! module decides which bindings exist, not what the numbers in them are.

use vstd::prelude::*;
use crate::text::{decimal, push_decimal, push_str};

verus! {

/// A sensor the baseline lists, with its position as read.
#[derive(Debug, Clone, Copy, PartialEq, Eq)]
pub struct SensorSite<P> {
    pub id: u32,
    pub position: P,
}

/// A radar a feed carries: its SAC/SIC and the sensor it speaks for.
#[derive(Debug, Clone, Copy, PartialEq, Eq, Structural)]
pub struct RadarSite {
    pub sac: u8,
    pub sic: u8,
    pub sensor_id: u32,
}

/// A direction finder a feed carries, with its azimuth accuracy as read.
#[derive(Debug, Clone, Copy, PartialEq, Eq)]
pub struct DfSite<S> {
    pub sac: u8,
    pub sic: u8,
    pub sensor_id: u32,
    pub azimuth_sigma: S,
}

/// A configured feed: its name, its bind address and multicast group as parsed (`None`
/// where what the baseline wrote did not parse), and the sites it carries.
#[derive(Debug, Clone)]
pub struct FeedConfig<A, M, S> {
    pub name: String,
    pub bind_addr: Option<A>,
    /// No multicast, or the group and interface, or a group that did not parse.
    pub multicast: Option<Option<M>>,
    pub radars: Vec<RadarSite>,
    pub df_sites: Vec<DfSite<S>>,
    pub uas_sites: Vec<RadarSite>,
}

/// A radar bound with its position.
#[derive(Debug, Clone, Copy, PartialEq, Eq)]
pub struct RadarBinding<P> {
    pub sac: u8,
    pub sic: u8,
    pub sensor: u32,
    pub position: P,
}

/// A direction finder bound with its position and accuracy.
#[derive(Debug, Clone, Copy, PartialEq, Eq)]
pub struct DfBinding<P, S> {
    pub sac: u8,
    pub sic: u8,
    pub sensor: u32,
    pub position: P,
    pub azimuth_sigma: S,
}

/// A feed as the ingest adapter binds it.
#[derive(Debug, Clone, PartialEq, Eq)]
pub struct FeedSpec<A, M, P, S> {
    pub name: String,
    pub bind_addr: A,
    pub multicast: Option<M>,
    pub radars: Vec<RadarBinding<P>>,
    pub df_sites: Vec<DfBinding<P, S>>,
    pub uas_sites: Vec<RadarSite>,
}

/// The first sensor the baseline lists under `id`.
pub open spec fn site_of<P>(sensors: Seq<SensorSite<P>>, id: u32) -> Option<SensorSite<P>>
    decreases sensors.len(),
{
    if sensors.len() == 0 {
        None
    } else if sensors[0].id == id {
        Some(sensors[0])
    } else {
        site_of(sensors.drop_first(), id)
    }
}

/// The radars of a feed that a listed sensor speaks for, in order, with its position.
pub open spec fn radar_bindings<P>(radars: Seq<RadarSite>, sensors: Seq<SensorSite<P>>) -> Seq<RadarBinding<P>>
    decreases radars.len(),
{
    if radars.len() == 0 {
        Seq::empty()
    } else {
        let before = radar_bindings(radars.drop_last(), sensors);
        let r = radars.last();
        match site_of(sensors, r.sensor_id) {
            Some(s) => before.push(RadarBinding { sac: r.sac, sic: r.sic, sensor: r.sensor_id, position: s.position }),
            None => before,
        }
    }
}

/// The direction finders of a feed that a listed sensor speaks for, in order.
pub open spec fn df_bindings<P, S>(sites: Seq<DfSite<S>>, sensors: Seq<SensorSite<P>>) -> Seq<DfBinding<P, S>>
    decreases sites.len(),
{
    if sites.len() == 0 {
        Seq::empty()
    } else {
        let before = df_bindings(sites.drop_last(), sensors);
        let d = sites.last();
        match site_of(sensors, d.sensor_id) {
            Some(s) => before.push(DfBinding {
                sac: d.sac,
                sic: d.sic,
                sensor: d.sensor_id,
                position: s.position,
                azimuth_sigma: d.azimuth_sigma,
            }),
            None => before,
        }
    }
}

/// The UAS gateways of a feed whose sensor the baseline lists, in order.
pub open spec fn uas_bindings<P>(sites: Seq<RadarSite>, sensors: Seq<SensorSite<P>>) -> Seq<RadarSite>
    decreases sites.len(),
{
    if sites.len() == 0 {
        Seq::empty()
    } else {
        let before = uas_bindings(sites.drop_last(), sensors);
        if site_of(sensors, sites.last().sensor_id) is Some {
            before.push(sites.last())
        } else {
            before
        }
    }
}

/// The spec of one feed, or `None` when its addresses did not parse.
pub open spec fn spec_of<A, M, P, S>(f: FeedConfig<A, M, S>, sensors: Seq<SensorSite<P>>, spec: FeedSpec<A, M, P, S>) -> bool {
    &&& f.bind_addr matches Some(a) && spec.bind_addr == a
    &&& !(f.multicast matches Some(None))
    &&& spec.multicast == match f.multicast {
        Some(Some(m)) => Some(m),
        _ => None,
    }
    &&& spec.name@ == f.name@
    &&& spec.radars@ == radar_bindings(f.radars@, sensors)
    &&& spec.df_sites@ == df_bindings(f.df_sites@, sensors)
    &&& spec.uas_sites@ == uas_bindings(f.uas_sites@, sensors)
}

/// Whether a feed's addresses parsed, so that it can be bound at all.
pub open spec fn parsed<A, M, S>(f: FeedConfig<A, M, S>) -> bool {
    f.bind_addr is Some && !(f.multicast matches Some(None))
}

/// The feeds that parsed, in order.
pub open spec fn parsed_feeds<A, M, S>(feeds: Seq<FeedConfig<A, M, S>>) -> Seq<FeedConfig<A, M, S>>
    decreases feeds.len(),
{
    if feeds.len() == 0 {
        Seq::empty()
    } else if parsed(feeds.last()) {
        parsed_feeds(feeds.drop_last()).push(feeds.last())
    } else {
        parsed_feeds(feeds.drop_last())
    }
}

/// The names of the feeds whose addresses did not parse, in order: each is a feed the
/// adapter cannot bind, for the caller to raise as an alert rather than leave absent.
pub open spec fn unparsed_names<A, M, S>(feeds: Seq<FeedConfig<A, M, S>>) -> Seq<Seq<char>>
    decreases feeds.len(),
{
    if feeds.len() == 0 {
        Seq::empty()
    } else if parsed(feeds.last()) {
        unparsed_names(feeds.drop_last())
    } else {
        unparsed_names(feeds.drop_last()).push(feeds.last().name@)
    }
}

fn find_site<P: Copy>(sensors: &[SensorSite<P>], id: u32) -> (site: Option<P>)
    ensures
        site == match site_of(sensors@, id) {
            Some(s) => Some(s.position),
            None => None::<P>,
        },
{
    let mut i: usize = 0;
    assert(sensors@.skip(0) =~= sensors@);
    while i < sensors.len()
        invariant
            i <= sensors@.len(),
            site_of(sensors@, id) == site_of(sensors@.skip(i as int), id),
        decreases sensors@.len() - i,
    {
        proof {
            assert(sensors@.skip(i as int).drop_first() =~= sensors@.skip(i + 1));
        }
        if sensors[i].id == id {
            return Some(sensors[i].position);
        }
        i = i + 1;
    }
    None
}

fn bind_radars<P: Copy>(radars: &Vec<RadarSite>, sensors: &[SensorSite<P>]) -> (bound: Vec<RadarBinding<P>>)
    ensures
        bound@ == radar_bindings(radars@, sensors@),
{
    let mut bound: Vec<RadarBinding<P>> = Vec::new();
    let mut i: usize = 0;
    while i < radars.len()
        invariant
            i <= radars@.len(),
            bound@ == radar_bindings(radars@.take(i as int), sensors@),
        decreases radars@.len() - i,
    {
        proof {
            assert(radars@.take(i + 1).drop_last() =~= radars@.take(i as int));
            assert(radars@.take(i + 1).last() == radars@[i as int]);
        }
        let r = radars[i];
        match find_site(sensors, r.sensor_id) {
            Some(position) => bound.push(RadarBinding { sac: r.sac, sic: r.sic, sensor: r.sensor_id, position }),
            None => {},
        }
        i = i + 1;
    }
    assert(radars@.take(radars@.len() as int) =~= radars@);
    bound
}

fn bind_dfs<P: Copy, S: Copy>(sites: &Vec<DfSite<S>>, sensors: &[SensorSite<P>]) -> (bound: Vec<DfBinding<P, S>>)
    ensures
        bound@ == df_bindings(sites@, sensors@),
{
    let mut bound: Vec<DfBinding<P, S>> = Vec::new();
    let mut i: usize = 0;
    while i < sites.len()
        invariant
            i <= sites@.len(),
            bound@ == df_bindings(sites@.take(i as int), sensors@),
        decreases sites@.len() - i,
    {
        proof {
            assert(sites@.take(i + 1).drop_last() =~= sites@.take(i as int));
            assert(sites@.take(i + 1).last() == sites@[i as int]);
        }
        let d = sites[i];
        match find_site(sensors, d.sensor_id) {
            Some(position) => bound.push(DfBinding {
                sac: d.sac,
                sic: d.sic,
                sensor: d.sensor_id,
                position,
                azimuth_sigma: d.azimuth_sigma,
            }),
            None => {},
        }
        i = i + 1;
    }
    assert(sites@.take(sites@.len() as int) =~= sites@);
    bound
}

fn bind_uas<P: Copy>(sites: &Vec<RadarSite>, sensors: &[SensorSite<P>]) -> (bound: Vec<RadarSite>)
    ensures
        bound@ == uas_bindings(sites@, sensors@),
{
    let mut bound: Vec<RadarSite> = Vec::new();
    let mut i: usize = 0;
    while i < sites.len()
        invariant
            i <= sites@.len(),
            bound@ == uas_bindings(sites@.take(i as int), sensors@),
        decreases sites@.len() - i,
    {
        proof {
            assert(sites@.take(i + 1).drop_last() =~= sites@.take(i as int));
            assert(sites@.take(i + 1).last() == sites@[i as int]);
        }
        let u = sites[i];
        if find_site(sensors, u.sensor_id).is_some() {
            bound.push(u);
        }
        i = i + 1;
    }
    assert(sites@.take(sites@.len() as int) =~= sites@);
    bound
}

/// The feeds as the ingest adapter binds them, from the baseline's feeds and sensor list:
/// one spec per feed whose addresses parsed, in order, each binding only the sites a
/// listed sensor speaks for.
pub fn feed_specs<A: Copy, M: Copy, P: Copy, S: Copy>(
    feeds: &[FeedConfig<A, M, S>],
    sensors: &[SensorSite<P>],
) -> (specs: Vec<FeedSpec<A, M, P, S>>)
    ensures
        specs@.len() == parsed_feeds(feeds@).len(),
        forall|k: int| 0 <= k < specs@.len() ==> spec_of(parsed_feeds(feeds@)[k], sensors@, #[trigger] specs@[k]),
{
    let mut specs: Vec<FeedSpec<A, M, P, S>> = Vec::new();
    let mut i: usize = 0;
    while i < feeds.len()
        invariant
            i <= feeds@.len(),
            specs@.len() == parsed_feeds(feeds@.take(i as int)).len(),
            forall|k: int| 0 <= k < specs@.len() ==> spec_of(parsed_feeds(feeds@.take(i as int))[k], sensors@, #[trigger] specs@[k]),
        decreases feeds@.len() - i,
    {
        proof {
            assert(feeds@.take(i + 1).drop_last() =~= feeds@.take(i as int));
            assert(feeds@.take(i + 1).last() == feeds@[i as int]);
        }
        let f = &feeds[i];
        let multicast_ok = match f.multicast {
            Some(None) => false,
            _ => true,
        };
        if multicast_ok {
            if let Some(bind_addr) = f.bind_addr {
                let multicast = match f.multicast {
                    Some(Some(m)) => Some(m),
                    _ => None,
                };
                let spec = FeedSpec {
                    name: f.name.clone(),
                    bind_addr,
                    multicast,
                    radars: bind_radars(&f.radars, sensors),
                    df_sites: bind_dfs(&f.df_sites, sensors),
                    uas_sites: bind_uas(&f.uas_sites, sensors),
                };
                specs.push(spec);
            }
        }
        i = i + 1;
    }
    assert(feeds@.take(feeds@.len() as int) =~= feeds@);
    specs
}

/// The feeds `feed_specs` leaves out because their addresses did not parse, by name and
/// in order, so that none of them is silently absent.
pub fn unparsed_feeds<A: Copy, M: Copy, S: Copy>(feeds: &[FeedConfig<A, M, S>]) -> (names: Vec<String>)
    ensures
        names@.len() == unparsed_names(feeds@).len(),
        forall|k: int| 0 <= k < names@.len() ==> (#[trigger] names@[k])@ == unparsed_names(feeds@)[k],
{
    let mut names: Vec<String> = Vec::new();
    let mut i: usize = 0;
    while i < feeds.len()
        invariant
            i <= feeds@.len(),
            names@.len() == unparsed_names(feeds@.take(i as int)).len(),
            forall|k: int| 0 <= k < names@.len() ==> (#[trigger] names@[k])@ == unparsed_names(feeds@.take(i as int))[k],
        decreases feeds@.len() - i,
    {
        proof {
            assert(feeds@.take(i + 1).drop_last() =~= feeds@.take(i as int));
            assert(feeds@.take(i + 1).last() == feeds@[i as int]);
        }
        let f = &feeds[i];
        let multicast_ok = match f.multicast {
            Some(None) => false,
            _ => true,
        };
        if !(multicast_ok && f.bind_addr.is_some()) {
            names.push(f.name.clone());
        }
        i = i + 1;
    }
    assert(feeds@.take(feeds@.len() as int) =~= feeds@);
    names
}

/// The alert when feeds are configured and no local frame origin is declared, so no plot
/// could be placed.
pub fn no_frame_alert(feeds: usize) -> (alert: String)
    ensures
        alert@ == decimal(feeds as nat) + " radar feed(s) configured and no local frame origin declared: no adapter is bound, because a plot cannot be placed without one"@,
{
    let mut a = String::new();
    push_decimal(&mut a, feeds as u64);
    push_str(&mut a, " radar feed(s) configured and no local frame origin declared: no adapter is bound, because a plot cannot be placed without one");
    a
}

/// The alert for a feed that could not be bound.
pub fn not_bound(feed: &str, error: &str) -> (alert: String)
    ensures
        alert@ == "radar feed "@ + feed@ + " not bound: "@ + error@,
{
    let mut a = String::from_str("radar feed ");
    push_str(&mut a, feed);
    push_str(&mut a, " not bound: ");
    push_str(&mut a, error);
    a
}

/// What a feed's counters say arrived and did not decode.
#[derive(Debug, Clone, Copy, PartialEq, Eq, Structural)]
pub struct FeedStats {
    pub datagrams: u64,
    pub detections: u64,
    pub service_reports: u64,
    pub malformed_datagrams: u64,
    pub malformed_blocks: u64,
    pub unsupported_category_blocks: u64,
    pub unknown_radar: u64,
}

/// PN-09's line for a feed, so a feed that is bound and silent is told apart from one
/// that is talking and unreadable.
#[derive(Debug, Clone, PartialEq, Eq)]
pub struct FeedLine {
    pub name: String,
    pub datagrams: u64,
    pub detections: u64,
    pub service_reports: u64,
    pub not_decoded: u64,
    pub unknown_radar: u64,
}

/// PN-09's line for a feed: what arrived, and what did not decode, whatever the reason.
pub fn feed_line(name: &str, s: FeedStats) -> (line: FeedLine)
    requires
        s.malformed_datagrams + s.malformed_blocks + s.unsupported_category_blocks <= u64::MAX,
    ensures
        line.name@ == name@,
        line.datagrams == s.datagrams,
        line.detections == s.detections,
        line.service_reports == s.service_reports,
        line.not_decoded == s.malformed_datagrams + s.malformed_blocks + s.unsupported_category_blocks,
        line.unknown_radar == s.unknown_radar,
{
    FeedLine {
        name: String::from_str(name),
        datagrams: s.datagrams,
        detections: s.detections,
        service_reports: s.service_reports,
        not_decoded: s.malformed_datagrams + s.malformed_blocks + s.unsupported_category_blocks,
        unknown_radar: s.unknown_radar,
    }
}

/// What kind of service message a radar sent.
#[derive(Debug, Clone, Copy, PartialEq, Eq, Structural)]
pub enum ServiceKind {
    NorthMarker,
    SectorCrossing,
    Other,
}

/// What a radar said about itself, as the sensor registry takes it; `R` is the rotation
/// period as read.
#[derive(Debug, Clone, Copy, PartialEq, Eq)]
pub enum ServiceObservation<R> {
    NorthMarker { rotation_period: R },
    SectorCrossing,
    Status { released_for_operational_use: bool, overloaded: bool, time_source_invalid: bool },
}

/// The observations one service message makes: its kind, where it is a marker or a
/// crossing, then its status, where all three status fields were sent.
pub open spec fn observations_of<R>(
    kind: ServiceKind,
    rotation_period: R,
    released: Option<bool>,
    overloaded: Option<bool>,
    time_source_invalid: Option<bool>,
) -> Seq<ServiceObservation<R>> {
    let first = match kind {
        ServiceKind::NorthMarker => seq![ServiceObservation::NorthMarker { rotation_period }],
        ServiceKind::SectorCrossing => seq![ServiceObservation::SectorCrossing],
        ServiceKind::Other => Seq::empty(),
    };
    let second = match (released, overloaded, time_source_invalid) {
        (Some(r), Some(o), Some(t)) => seq![ServiceObservation::Status {
            released_for_operational_use: r,
            overloaded: o,
            time_source_invalid: t,
        }],
        _ => Seq::empty(),
    };
    first + second
}

/// The observations one service message makes, in order.
pub fn service_observations<R>(
    kind: ServiceKind,
    rotation_period: R,
    released: Option<bool>,
    overloaded: Option<bool>,
    time_source_invalid: Option<bool>,
) -> (obs: Vec<ServiceObservation<R>>)
    ensures
        obs@ == observations_of(kind, rotation_period, released, overloaded, time_source_invalid),
{
    let mut obs: Vec<ServiceObservation<R>> = Vec::new();
    match kind {
        ServiceKind::NorthMarker => obs.push(ServiceObservation::NorthMarker { rotation_period }),
        ServiceKind::SectorCrossing => obs.push(ServiceObservation::SectorCrossing),
        ServiceKind::Other => {},
    }
    match (released, overloaded, time_source_invalid) {
        (Some(r), Some(o), Some(t)) => obs.push(
            ServiceObservation::Status { released_for_operational_use: r, overloaded: o, time_source_invalid: t },
        ),
        _ => {},
    }
    proof {
        assert(obs@ =~= observations_of(kind, rotation_period, released, overloaded, time_source_invalid));
    }
    obs
}

/// A radar is bound only under a sensor the baseline lists, at that sensor's position,
/// and no radar the feed does not carry is invented.
pub proof fn radars_bind_only_under_listed_sensors<P>(radars: Seq<RadarSite>, sensors: Seq<SensorSite<P>>)
    ensures
        radar_bindings(radars, sensors).len() <= radars.len(),
        forall|k: int| 0 <= k < radar_bindings(radars, sensors).len() ==> {
            let b = #[trigger] radar_bindings(radars, sensors)[k];
            site_of(sensors, b.sensor) matches Some(s) && s.position == b.position
        },
    decreases radars.len(),
{
    if radars.len() > 0 {
        radars_bind_only_under_listed_sensors(radars.drop_last(), sensors);
    }
}

/// No configured feed is silently absent: every feed is either bound by `feed_specs` or
/// named by `unparsed_feeds`, never both.
pub proof fn every_feed_is_bound_or_named<A, M, S>(feeds: Seq<FeedConfig<A, M, S>>)
    ensures
        parsed_feeds(feeds).len() + unparsed_names(feeds).len() == feeds.len(),
    decreases feeds.len(),
{
    if feeds.len() > 0 {
        every_feed_is_bound_or_named(feeds.drop_last());
    }
}

/// Whether a listed sensor speaks for a site.
pub open spec fn listed<P>(sensors: Seq<SensorSite<P>>, id: u32) -> bool {
    exists|k: int| 0 <= k < sensors.len() && sensors[k].id == id
}

proof fn site_of_listed<P>(sensors: Seq<SensorSite<P>>, id: u32)
    ensures
        listed(sensors, id) <==> site_of(sensors, id) is Some,
        site_of(sensors, id) matches Some(s) ==> s.id == id && sensors.contains(s),
    decreases sensors.len(),
{
    if sensors.len() > 0 {
        site_of_listed(sensors.drop_first(), id);
        if listed(sensors, id) && sensors[0].id != id {
            let k = choose|k: int| 0 <= k < sensors.len() && sensors[k].id == id;
            assert(sensors.drop_first()[k - 1] == sensors[k]);
        }
        if listed(sensors.drop_first(), id) {
            let k = choose|k: int| 0 <= k < sensors.drop_first().len() && sensors.drop_first()[k].id == id;
            assert(sensors[k + 1] == sensors.drop_first()[k]);
        }
        if site_of(sensors, id) is Some && sensors[0].id != id {
            let s = site_of(sensors, id)->0;
            let j = choose|j: int| 0 <= j < sensors.drop_first().len() && sensors.drop_first()[j] == s;
            assert(sensors[j + 1] == s);
        }
        if sensors[0].id == id {
            assert(sensors[0] == sensors[0]);
            assert(sensors.contains(sensors[0]));
        }
    }
}

/// Whether `b` binds radar `r` at the position of a listed sensor of its identifier.
pub open spec fn binds<P>(b: RadarBinding<P>, r: RadarSite, sensors: Seq<SensorSite<P>>) -> bool {
    &&& b.sac == r.sac && b.sic == r.sic && b.sensor == r.sensor_id
    &&& exists|q: int| 0 <= q < sensors.len() && #[trigger] sensors[q].id == r.sensor_id && sensors[q].position == b.position
}

/// Every radar a feed carries under a sensor the baseline lists is bound, at that
/// sensor's position, and there are exactly as many bindings as such radars: a listed
/// radar is never dropped, whatever its place in the feed.
pub proof fn every_listed_radar_is_bound<P>(radars: Seq<RadarSite>, sensors: Seq<SensorSite<P>>)
    ensures
        radar_bindings(radars, sensors).len() == radars.filter(|r: RadarSite| listed(sensors, r.sensor_id)).len(),
        forall|k: int| 0 <= k < radars.len() && listed(sensors, #[trigger] radars[k].sensor_id) ==>
            exists|j: int| 0 <= j < radar_bindings(radars, sensors).len()
                && #[trigger] binds(radar_bindings(radars, sensors)[j], radars[k], sensors),
    decreases radars.len(),
{
    if radars.len() > 0 {
        let prev = radars.drop_last();
        every_listed_radar_is_bound(prev, sensors);
        let r = radars.last();
        site_of_listed(sensors, r.sensor_id);
        let pred = |x: RadarSite| listed(sensors, x.sensor_id);
        assert(radars == prev.push(r));
        prev.lemma_filter_push(r, pred);
        let all = radar_bindings(radars, sensors);
        let before = radar_bindings(prev, sensors);
        assert forall|k: int| 0 <= k < radars.len() && listed(sensors, #[trigger] radars[k].sensor_id) implies
            exists|j: int| 0 <= j < all.len() && #[trigger] binds(all[j], radars[k], sensors) by {
            if k < radars.len() - 1 {
                assert(prev[k] == radars[k]);
                assert(listed(sensors, prev[k].sensor_id));
                let j = choose|j: int| 0 <= j < before.len() && #[trigger] binds(before[j], prev[k], sensors);
                assert(all[j] == before[j]);
                assert(binds(all[j], radars[k], sensors));
            } else {
                assert(radars[k] == r);
                let s = site_of(sensors, r.sensor_id)->0;
                let q = choose|q: int| 0 <= q < sensors.len() && sensors[q] == s;
                let j = before.len() as int;
                assert(all[j].position == sensors[q].position);
                assert(binds(all[j], radars[k], sensors));
            }
        }
    }
}

/// Whether `b` binds direction finder `d` at the position of a listed sensor of its
/// identifier, with its accuracy as read.
pub open spec fn binds_df<P, S>(b: DfBinding<P, S>, d: DfSite<S>, sensors: Seq<SensorSite<P>>) -> bool {
    &&& b.sac == d.sac && b.sic == d.sic && b.sensor == d.sensor_id && b.azimuth_sigma == d.azimuth_sigma
    &&& exists|q: int| 0 <= q < sensors.len() && #[trigger] sensors[q].id == d.sensor_id && sensors[q].position == b.position
}

/// Every direction finder a feed carries under a listed sensor is bound, at that sensor's
/// position and with its own accuracy, and there are exactly as many bindings as such
/// sites.
pub proof fn every_listed_direction_finder_is_bound<P, S>(sites: Seq<DfSite<S>>, sensors: Seq<SensorSite<P>>)
    ensures
        df_bindings(sites, sensors).len() == sites.filter(|d: DfSite<S>| listed(sensors, d.sensor_id)).len(),
        forall|k: int| 0 <= k < sites.len() && listed(sensors, #[trigger] sites[k].sensor_id) ==>
            exists|j: int| 0 <= j < df_bindings(sites, sensors).len()
                && #[trigger] binds_df(df_bindings(sites, sensors)[j], sites[k], sensors),
    decreases sites.len(),
{
    if sites.len() > 0 {
        let prev = sites.drop_last();
        every_listed_direction_finder_is_bound(prev, sensors);
        let d = sites.last();
        site_of_listed(sensors, d.sensor_id);
        let pred = |x: DfSite<S>| listed(sensors, x.sensor_id);
        assert(sites == prev.push(d));
        prev.lemma_filter_push(d, pred);
        let all = df_bindings(sites, sensors);
        let before = df_bindings(prev, sensors);
        assert forall|k: int| 0 <= k < sites.len() && listed(sensors, #[trigger] sites[k].sensor_id) implies
            exists|j: int| 0 <= j < all.len() && #[trigger] binds_df(all[j], sites[k], sensors) by {
            if k < sites.len() - 1 {
                assert(prev[k] == sites[k]);
                assert(listed(sensors, prev[k].sensor_id));
                let j = choose|j: int| 0 <= j < before.len() && #[trigger] binds_df(before[j], prev[k], sensors);
                assert(all[j] == before[j]);
                assert(binds_df(all[j], sites[k], sensors));
            } else {
                assert(sites[k] == d);
                let s = site_of(sensors, d.sensor_id)->0;
                let q = choose|q: int| 0 <= q < sensors.len() && sensors[q] == s;
                let j = before.len() as int;
                assert(all[j].position == sensors[q].position);
                assert(binds_df(all[j], sites[k], sensors));
            }
        }
    }
}

/// Every UAS gateway a feed carries under a listed sensor is bound as it was configured,
/// and there are exactly as many bindings as such gateways.
pub proof fn every_listed_gateway_is_bound<P>(sites: Seq<RadarSite>, sensors: Seq<SensorSite<P>>)
    ensures
        uas_bindings(sites, sensors).len() == sites.filter(|u: RadarSite| listed(sensors, u.sensor_id)).len(),
        forall|k: int| 0 <= k < sites.len() && listed(sensors, #[trigger] sites[k].sensor_id) ==>
            uas_bindings(sites, sensors).contains(sites[k]),
    decreases sites.len(),
{
    if sites.len() > 0 {
        let prev = sites.drop_last();
        every_listed_gateway_is_bound(prev, sensors);
        let u = sites.last();
        site_of_listed(sensors, u.sensor_id);
        let pred = |x: RadarSite| listed(sensors, x.sensor_id);
        assert(sites == prev.push(u));
        prev.lemma_filter_push(u, pred);
        let all = uas_bindings(sites, sensors);
        let before = uas_bindings(prev, sensors);
        assert forall|k: int| 0 <= k < sites.len() && listed(sensors, #[trigger] sites[k].sensor_id) implies
            all.contains(sites[k]) by {
            if k < sites.len() - 1 {
                assert(prev[k] == sites[k]);
                assert(listed(sensors, prev[k].sensor_id));
                let j = choose|j: int| 0 <= j < before.len() && before[j] == prev[k];
                assert(all[j] == before[j]);
            } else {
                assert(sites[k] == u);
                assert(all[before.len() as int] == u);
            }
        }
    }
}

/// The feeds bound are exactly those whose addresses parsed, in the order configured;
/// the feeds named as unbindable are exactly the others, by name, in order.
pub proof fn feeds_split_by_whether_they_parsed<A, M, S>(feeds: Seq<FeedConfig<A, M, S>>)
    ensures
        parsed_feeds(feeds) == feeds.filter(|f: FeedConfig<A, M, S>| f.bind_addr is Some && !(f.multicast matches Some(None))),
        unparsed_names(feeds) == feeds.filter(|f: FeedConfig<A, M, S>| !(f.bind_addr is Some && !(f.multicast matches Some(None))))
            .map_values(|f: FeedConfig<A, M, S>| f.name@),
    decreases feeds.len(),
{
    let ok = |f: FeedConfig<A, M, S>| f.bind_addr is Some && !(f.multicast matches Some(None));
    let bad = |f: FeedConfig<A, M, S>| !(f.bind_addr is Some && !(f.multicast matches Some(None)));
    if feeds.len() > 0 {
        let prev = feeds.drop_last();
        feeds_split_by_whether_they_parsed(prev);
        assert(feeds == prev.push(feeds.last()));
        prev.lemma_filter_push(feeds.last(), ok);
        prev.lemma_filter_push(feeds.last(), bad);
        assert(unparsed_names(feeds) =~= feeds.filter(bad).map_values(|f: FeedConfig<A, M, S>| f.name@));
    } else {
        reveal(Seq::filter);
        assert(unparsed_names(feeds) =~= feeds.filter(bad).map_values(|f: FeedConfig<A, M, S>| f.name@));
    }
}

/// A UAS gateway is bound only under a sensor the baseline lists.
pub proof fn gateways_bind_only_under_listed_sensors<P>(sites: Seq<RadarSite>, sensors: Seq<SensorSite<P>>)
    ensures
        uas_bindings(sites, sensors).len() <= sites.len(),
        forall|k: int| 0 <= k < uas_bindings(sites, sensors).len() ==>
            site_of(sensors, (#[trigger] uas_bindings(sites, sensors)[k]).sensor_id) is Some,
    decreases sites.len(),
{
    if sites.len() > 0 {
        gateways_bind_only_under_listed_sensors(sites.drop_last(), sensors);
    }
}

} // verus!

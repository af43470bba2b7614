//! Point clouds on the desktop: the baseline names a source and a target file, a loader
//! reads both, and the viewport draws them once the pair is complete.
//!
//! A pair, not a file: the two are loading, loaded, or failed together. A cloud loaded
//! alone while its partner failed is not a pair anything downstream can use, so it is not
//! kept, and nothing is drawn or registered until both have arrived.

use vstd::prelude::*;
use crate::text::{concat2, concat3, chars_of, quoted_name, debug_string, decimal, push_char, push_decimal, push_str};

verus! {

/// Where the configured point-cloud pair stands.
#[derive(Debug, Clone, PartialEq, Eq)]
pub enum PointCloudStatus {
    /// The baseline names no point-cloud pair.
    NotConfigured,
    /// Both files are requested; neither or one has arrived.
    Loading { source: String, target: String },
    Loaded { source: String, target: String, source_points: usize, target_points: usize },
    /// Either file failed to load, and nothing of the pair is kept.
    Failed { path: String, reason: String },
}

impl PointCloudStatus {
    /// Whether both clouds of the pair have arrived.
    pub fn is_loaded(&self) -> (loaded: bool)
        ensures
            loaded == self is Loaded,
    {
        matches!(self, PointCloudStatus::Loaded { .. })
    }
}

/// Which registration backend this desktop is using, lazily resolved.
#[derive(Debug, Clone, PartialEq, Eq)]
pub enum FusionBackend {
    /// No device has been asked for yet.
    Uninitialized,
    /// A compute device was created.
    Gpu,
    /// No usable device; the CPU reference is in use, and why.
    Cpu { reason: String },
}

impl FusionBackend {
    /// An unresolved backend: nothing has been asked of any device.
    pub fn new() -> (backend: Self)
        ensures
            backend is Uninitialized,
    {
        FusionBackend::Uninitialized
    }

    /// Whether registration runs on a compute device.
    pub fn is_gpu(&self) -> (gpu: bool)
        ensures
            gpu == self is Gpu,
    {
        matches!(self, FusionBackend::Gpu)
    }

    /// Resolve the backend once, from what probing for a GPU found: a device, no suitable
    /// adapter, or a device that would not initialise. A backend already resolved stays as
    /// it is.
    pub fn resolve(&mut self, probe: GpuProbe)
        ensures
            !(*old(self) is Uninitialized) ==> *final(self) == *old(self),
            *old(self) is Uninitialized ==> match probe {
                GpuProbe::Ready => *final(self) == FusionBackend::Gpu,
                GpuProbe::NoAdapter => *final(self) matches FusionBackend::Cpu { reason } && reason@ == "no suitable GPU adapter"@,
                GpuProbe::InitFailed(why) => *final(self) matches FusionBackend::Cpu { reason } && reason@ == why@,
            },
    {
        if !matches!(self, FusionBackend::Uninitialized) {
            return;
        }
        *self = match probe {
            GpuProbe::Ready => FusionBackend::Gpu,
            GpuProbe::NoAdapter => FusionBackend::Cpu { reason: String::from_str("no suitable GPU adapter") },
            GpuProbe::InitFailed(why) => FusionBackend::Cpu { reason: why },
        };
    }

    /// A line for a health panel.
    pub fn status_text(&self) -> (text: String)
        ensures
            text@ == match self {
                FusionBackend::Uninitialized => "GPU point-cloud registration: not yet probed"@,
                FusionBackend::Gpu => "GPU point-cloud registration: compute device ready"@,
                FusionBackend::Cpu { reason } => "GPU point-cloud registration unavailable ("@ + reason@
                    + "); CPU reference in use"@,
            },
    {
        match self {
            FusionBackend::Uninitialized => String::from_str("GPU point-cloud registration: not yet probed"),
            FusionBackend::Gpu => String::from_str("GPU point-cloud registration: compute device ready"),
            FusionBackend::Cpu { reason } => concat3(
                "GPU point-cloud registration unavailable (",
                reason.as_str(),
                "); CPU reference in use",
            ),
        }
    }
}

/// What probing for a GPU found.
#[derive(Debug, Clone, PartialEq, Eq)]
pub enum GpuProbe {
    Ready,
    NoAdapter,
    InitFailed(String),
}

/// PN-09's line for which backend registers the configured pair.
#[derive(Debug, Clone, PartialEq, Eq)]
pub enum PointCloudRegistrationLine {
    NotConfigured,
    Pending,
    Gpu,
    CpuFallback { reason: String },
}

/// Which backend is registering the configured pair, and why: nothing before the pair is
/// loaded, pending before a backend is resolved, else the backend resolved.
pub fn registration_line(point_cloud: &PointCloudStatus, fusion: &FusionBackend) -> (line: PointCloudRegistrationLine)
    ensures
        !(point_cloud is Loaded) ==> line is NotConfigured,
        point_cloud is Loaded ==> match fusion {
            FusionBackend::Uninitialized => line is Pending,
            FusionBackend::Gpu => line is Gpu,
            FusionBackend::Cpu { reason } => line matches PointCloudRegistrationLine::CpuFallback { reason: r } && r@ == reason@,
        },
{
    if !point_cloud.is_loaded() {
        return PointCloudRegistrationLine::NotConfigured;
    }
    match fusion {
        FusionBackend::Uninitialized => PointCloudRegistrationLine::Pending,
        FusionBackend::Gpu => PointCloudRegistrationLine::Gpu,
        FusionBackend::Cpu { reason } => PointCloudRegistrationLine::CpuFallback { reason: reason.clone() },
    }
}

/// What registering the pair does this tick.
#[derive(Debug, Clone, Copy, PartialEq, Eq, Structural)]
pub enum RegistrationStep {
    /// Not a pair: drop any engine, and record that there is nothing to register.
    NoPair,
    /// The first tick of a loaded pair: build the engine against the target, then step it.
    Build,
    /// An engine is already built for this pair: step it once.
    Step,
}

/// What registering does this tick: nothing for an incomplete pair, build the engine once
/// on the first tick the pair is loaded, and step the same engine every tick after.
pub fn registration_step(point_cloud: &PointCloudStatus, engine_built: bool) -> (step: RegistrationStep)
    ensures
        step == if !(point_cloud is Loaded) {
            RegistrationStep::NoPair
        } else if engine_built {
            RegistrationStep::Step
        } else {
            RegistrationStep::Build
        },
{
    if !point_cloud.is_loaded() {
        RegistrationStep::NoPair
    } else if engine_built {
        RegistrationStep::Step
    } else {
        RegistrationStep::Build
    }
}

/// The clouds the viewport draws: every cloud held, source first, once the pair is
/// loaded; none before, whatever is held transiently.
pub fn layers<'a, T>(status: &PointCloudStatus, clouds: &'a [T]) -> (drawn: Vec<&'a T>)
    ensures
        !(status is Loaded) ==> drawn@.len() == 0,
        status is Loaded ==> drawn@.len() == clouds@.len()
            && forall|i: int| 0 <= i < clouds@.len() ==> *drawn@[i] == clouds@[i],
{
    let mut drawn: Vec<&'a T> = Vec::new();
    if !status.is_loaded() {
        return drawn;
    }
    let mut i: usize = 0;
    while i < clouds.len()
        invariant
            i <= clouds@.len(),
            drawn@.len() == i,
            forall|k: int| 0 <= k < i ==> *drawn@[k] == clouds@[k],
        decreases clouds@.len() - i,
    {
        drawn.push(&clouds[i]);
        i = i + 1;
    }
    drawn
}

/// The configured pair being loaded: its status, the clouds held so far with their point
/// counts, and whether the loader is still open.
pub struct PairLoad<T> {
    status: PointCloudStatus,
    clouds: Vec<T>,
    points: Vec<usize>,
    loading: bool,
}

impl<T> PairLoad<T> {
    /// The pair is all or nothing: nothing is held before a load starts or after one
    /// failed, at most the source while loading, and exactly the two clouds, with the
    /// counts the status names, once loaded.
    pub closed spec fn wf(&self) -> bool {
        &&& self.clouds@.len() == self.points@.len()
        &&& match self.status {
            PointCloudStatus::NotConfigured => self.clouds@.len() == 0,
            PointCloudStatus::Loading { .. } => self.clouds@.len() <= 1,
            PointCloudStatus::Loaded { source_points, target_points, .. } => {
                &&& self.clouds@.len() == 2
                &&& self.points@[0] == source_points
                &&& self.points@[1] == target_points
            },
            PointCloudStatus::Failed { .. } => self.clouds@.len() == 0,
        }
    }

    pub closed spec fn spec_status(&self) -> PointCloudStatus {
        self.status
    }

    pub closed spec fn spec_clouds(&self) -> Seq<T> {
        self.clouds@
    }

    pub closed spec fn spec_loading(&self) -> bool {
        self.loading
    }

    /// The point count of each cloud held, in the order the clouds arrived.
    pub closed spec fn spec_points(&self) -> Seq<usize> {
        self.points@
    }

    /// Nothing configured, nothing held, no loader.
    pub fn new() -> (pair: Self)
        ensures
            pair.wf(),
            pair.spec_status() is NotConfigured,
            pair.spec_clouds().len() == 0,
            pair.spec_points().len() == 0,
            !pair.spec_loading(),
    {
        PairLoad { status: PointCloudStatus::NotConfigured, clouds: Vec::new(), points: Vec::new(), loading: false }
    }

    pub fn status(&self) -> (status: &PointCloudStatus)
        ensures
            *status == self.spec_status(),
    {
        &self.status
    }

    pub fn clouds(&self) -> (clouds: &[T])
        ensures
            clouds@ == self.spec_clouds(),
    {
        self.clouds.as_slice()
    }

    pub fn is_loading(&self) -> (loading: bool)
        ensures
            loading == self.spec_loading(),
    {
        self.loading
    }

    /// Whether a load is due: the baseline names a pair and none has started.
    pub closed spec fn start_due(&self, configured: bool) -> bool {
        !self.loading && self.status is NotConfigured && configured
    }

    /// Start loading the configured pair, once: `pair` is the configured source and target
    /// paths, and `sent` whether both requests reached the loader, or why not.
    pub fn start(&mut self, pair: Option<(&str, &str)>, sent: Result<(), String>)
        requires
            old(self).wf(),
        ensures
            final(self).wf(),
            final(self).spec_clouds() == old(self).spec_clouds(),
            final(self).spec_points() == old(self).spec_points(),
            !old(self).start_due(pair is Some) ==> *final(self) == *old(self),
            old(self).start_due(pair is Some) ==> match (pair, sent) {
                (Some((src, tgt)), Ok(())) => final(self).spec_loading() && (final(self).spec_status() matches
                    PointCloudStatus::Loading { source, target } && source@ == src@ && target@ == tgt@),
                (Some((src, _)), Err(e)) => !final(self).spec_loading() && (final(self).spec_status() matches
                    PointCloudStatus::Failed { path, reason } && path@ == src@
                    && reason@ == "the loader thread is gone: "@ + e@),
                (None, _) => true,
            },
    {
        if self.loading || !matches!(self.status, PointCloudStatus::NotConfigured) {
            return;
        }
        let (source, target) = match pair {
            None => return,
            Some(p) => p,
        };
        match sent {
            Ok(()) => {
                self.status = PointCloudStatus::Loading { source: String::from_str(source), target: String::from_str(target) };
                self.loading = true;
            },
            Err(e) => {
                self.status = PointCloudStatus::Failed {
                    path: String::from_str(source),
                    reason: concat2("the loader thread is gone: ", e.as_str()),
                };
            },
        }
    }

    /// One cloud off the loader, already placed in the deployment's frame: the cloud with
    /// its point count, or why it could not be loaded or placed. The source arrives first
    /// and the target second. The second completes the pair; a failure of either drops
    /// whatever of the pair was held and is said. Anything arriving when no load is in
    /// progress is left alone. Returns the alert for a failure.
    pub fn apply_result(&mut self, result: Result<(T, usize), String>) -> (alert: Option<String>)
        requires
            old(self).wf(),
        ensures
            final(self).wf(),
            !(old(self).spec_status() is Loading) ==> *final(self) == *old(self) && alert is None,
            old(self).spec_status() matches PointCloudStatus::Loading { source, target } ==> {
                let awaiting_source = old(self).spec_clouds().len() == 0;
                let path = if awaiting_source { source } else { target };
                match result {
                    Ok((cloud, points)) => {
                        &&& alert is None
                        &&& final(self).spec_clouds() == old(self).spec_clouds().push(cloud)
                        &&& final(self).spec_points() == old(self).spec_points().push(points)
                        &&& awaiting_source ==> final(self).spec_status() == old(self).spec_status()
                            && final(self).spec_loading() == old(self).spec_loading()
                        &&& !awaiting_source ==> !final(self).spec_loading() && (final(self).spec_status() matches
                            PointCloudStatus::Loaded { source: s, target: t, source_points, target_points }
                            && s == source && t == target && target_points == points
                            && source_points == old(self).spec_points()[0])
                    },
                    Err(reason) => {
                        &&& final(self).spec_clouds().len() == 0
                        &&& final(self).spec_points().len() == 0
                        &&& !final(self).spec_loading()
                        &&& final(self).spec_status() matches PointCloudStatus::Failed { path: p, reason: r }
                            && p@ == path@ && r@ == reason@
                        &&& alert matches Some(a) && a@ == "point cloud "@ + path@ + " not loaded: "@ + reason@
                    },
                }
            },
    {
        let (source, target) = match &self.status {
            PointCloudStatus::Loading { source, target } => (source.clone(), target.clone()),
            _ => return None,
        };
        let awaiting_source = self.clouds.len() == 0;
        match result {
            Ok((cloud, points)) => {
                self.clouds.push(cloud);
                self.points.push(points);
                if !awaiting_source {
                    let source_points = self.points[0];
                    let target_points = self.points[1];
                    self.status = PointCloudStatus::Loaded { source, target, source_points, target_points };
                    self.loading = false;
                }
                None
            },
            Err(reason) => {
                self.clouds.clear();
                self.points.clear();
                let path = if awaiting_source { source } else { target };
                let mut alert = concat3("point cloud ", path.as_str(), " not loaded: ");
                push_str(&mut alert, reason.as_str());
                self.status = PointCloudStatus::Failed { path, reason };
                self.loading = false;
                Some(alert)
            },
        }
    }
}

/// A pair is drawn and registered only whole: whatever a well-formed load holds, it is
/// claimed loaded only with both clouds in, and a failed or unstarted load holds none.
pub proof fn a_pair_is_all_or_nothing<T>(pair: PairLoad<T>)
    requires
        pair.wf(),
    ensures
        pair.spec_status() is Loaded <==> pair.spec_clouds().len() == 2,
        (pair.spec_status() is Failed || pair.spec_status() is NotConfigured) ==> pair.spec_clouds().len() == 0,
        pair.spec_points().len() == pair.spec_clouds().len(),
        pair.spec_status() matches PointCloudStatus::Loaded { source_points, target_points, .. }
            ==> pair.spec_points() == seq![source_points, target_points],
{
}

/// What the loader is asked for: a bounded COPC read when the configured file names
/// bounds, a plain LAS/LAZ read otherwise.
#[derive(Debug, Clone, PartialEq, Eq)]
pub enum LoadRequest<B> {
    CopcBounded(String, B),
    PointCloud(String),
}

/// The request a configured file calls for.
pub fn request_for<B: Copy>(path: &str, copc_bounds: Option<B>) -> (request: LoadRequest<B>)
    ensures
        match copc_bounds {
            Some(b) => request matches LoadRequest::CopcBounded(p, bb) && p@ == path@ && bb == b,
            None => request matches LoadRequest::PointCloud(p) && p@ == path@,
        },
{
    match copc_bounds {
        Some(b) => LoadRequest::CopcBounded(String::from_str(path), b),
        None => LoadRequest::PointCloud(String::from_str(path)),
    }
}

/// The coordinate reference system a file's own tags declare: a WKT definition, or
/// GeoTIFF keys, described as they were read.
#[derive(Debug, Clone, PartialEq, Eq)]
pub enum FileCrs {
    Wkt(String),
    Geokeys { described: String },
}

/// What the placement reads of a file's declaration: the declaration, the definition to
/// hand PROJ where one can be formed, whether it agrees with the code the baseline
/// declares, and the unit of its heights where one can be read.
#[derive(Debug, Clone, PartialEq, Eq)]
pub struct CrsFacts<V> {
    pub crs: FileCrs,
    pub proj_definition: Option<String>,
    pub agrees_with_declared: bool,
    pub vertical_unit: Option<V>,
}

/// How heights are scaled to metres: by the unit the file declares, or taken to be metres
/// already, for a file that declares no system at all.
#[derive(Debug, Clone, Copy, PartialEq, Eq)]
pub enum VerticalScale<V> {
    AssumedMetres,
    Declared(V),
}

/// What a loaded cloud needs before it can be drawn.
#[derive(Debug, Clone, PartialEq, Eq)]
pub enum Placement<V> {
    /// Already in the deployment's local metres, and drawn as it stands.
    AsLoaded,
    /// In a real-world system, converted from `source`.
    Convert { source: String, vertical: VerticalScale<V> },
    /// Refused, with the reason an operator reads.
    Refused(String),
}

/// The index of the first `c` in `s` at or after `from`.
pub open spec fn first_at(s: Seq<char>, c: char, from: int, i: int) -> bool {
    &&& from <= i < s.len()
    &&& s[i] == c
    &&& forall|k: int| from <= k < i ==> s[k] != c
}

/// Whether `i` and `j` are a text's first two double quotes.
pub open spec fn quoted_span(wkt: Seq<char>, i: int, j: int) -> bool {
    first_at(wkt, '"', 0, i) && first_at(wkt, '"', i + 1, j)
}

/// The name a WKT definition gives its system: the text between its first two double
/// quotes, or `an unnamed system` without them.
pub open spec fn wkt_name(wkt: Seq<char>) -> Seq<char> {
    if exists|i: int, j: int| #[trigger] quoted_span(wkt, i, j) {
        let (i, j) = choose|i: int, j: int| #[trigger] quoted_span(wkt, i, j);
        wkt.subrange(i + 1, j)
    } else {
        "an unnamed system"@
    }
}

/// A file's declaration in the words an operator reads in a refusal.
pub open spec fn described(file: Option<FileCrs>) -> Seq<char> {
    match file {
        Some(FileCrs::Wkt(w)) => quoted_name(wkt_name(w@)),
        Some(FileCrs::Geokeys { described }) => described@,
        None => "nothing"@,
    }
}

fn find_quote(cs: &Vec<char>, from: usize) -> (at: Option<usize>)
    requires
        from <= cs@.len(),
    ensures
        match at {
            Some(i) => first_at(cs@, '"', from as int, i as int),
            None => forall|k: int| from <= k < cs@.len() ==> cs@[k] != '"',
        },
{
    let mut i: usize = from;
    while i < cs.len() && cs[i] != '"'
        invariant
            from <= i <= cs@.len(),
            forall|k: int| from <= k < i ==> cs@[k] != '"',
        decreases cs@.len() - i,
    {
        i = i + 1;
    }
    if i < cs.len() { Some(i) } else { None }
}

proof fn first_is_unique(s: Seq<char>, from: int, i: int, j: int)
    requires
        first_at(s, '"', from, i),
        first_at(s, '"', from, j),
    ensures
        i == j,
{
    if i < j {
        assert(s[i] != '"');
    } else if j < i {
        assert(s[j] != '"');
    }
}

/// The name a WKT definition gives its system.
pub fn wkt_system_name(wkt: &str) -> (name: String)
    ensures
        name@ == wkt_name(wkt@),
{
    let cs = chars_of(wkt);
    let open = find_quote(&cs, 0);
    let i = match open {
        None => {
            proof {
                assert(!exists|i: int, j: int| #[trigger] quoted_span(wkt@, i, j));
            }
            return String::from_str("an unnamed system");
        },
        Some(i) => i,
    };
    let close = find_quote(&cs, i + 1);
    let j = match close {
        None => {
            proof {
                assert forall|a: int, b: int| !#[trigger] quoted_span(wkt@, a, b) by {
                    if quoted_span(wkt@, a, b) {
                        first_is_unique(wkt@, 0, a, i as int);
                    }
                }
            }
            return String::from_str("an unnamed system");
        },
        Some(j) => j,
    };
    proof {
        assert(quoted_span(wkt@, i as int, j as int));
        let (a, b) = choose|a: int, b: int| #[trigger] quoted_span(wkt@, a, b);
        first_is_unique(wkt@, 0, a, i as int);
        first_is_unique(wkt@, i + 1, b, j as int);
    }
    let mut name = String::new();
    let mut k: usize = i + 1;
    while k < j
        invariant
            i + 1 <= k <= j < cs@.len(),
            cs@ == wkt@,
            name@ == cs@.subrange(i + 1, k as int),
        decreases j - k,
    {
        push_char(&mut name, cs[k]);
        assert(name@ =~= cs@.subrange(i + 1, k + 1));
        k = k + 1;
    }
    name
}

/// A file's declaration in the words an operator reads in a refusal.
pub fn describe(file: Option<&FileCrs>) -> (words: String)
    ensures
        words@ == described(match file { Some(f) => Some(*f), None => None }),
{
    match file {
        Some(FileCrs::Wkt(w)) => {
            let name = wkt_system_name(w.as_str());
            debug_string(name.as_str())
        },
        Some(FileCrs::Geokeys { described }) => described.clone(),
        None => String::from_str("nothing"),
    }
}

/// Why a file that declares its own system is refused under a baseline that claims local
/// metres.
pub open spec fn local_claim_refusal(what: Seq<char>) -> Seq<char> {
    "the file declares its own coordinate reference system ("@ + what
        + "), not the local frame point_cloud.frame claims; set point_cloud.frame to \"epsg:<code>\" to have it converted, or reproject the file to the deployment's local metres"@
}

/// Why a declared code with no origin to convert onto is refused.
pub open spec fn no_origin_refusal(code: u32) -> Seq<char> {
    "point_cloud.frame is \"epsg:"@ + decimal(code as nat)
        + "\", which needs converting into the deployment's local frame, and the baseline declares no origin to convert onto; declare origin, or prepare the files in local metres and set point_cloud.frame to \"local-enu\""@
}

/// Why a file that disagrees with the declared code is refused.
pub open spec fn disagreement_refusal(code: u32, what: Seq<char>) -> Seq<char> {
    "point_cloud.frame claims EPSG:"@ + decimal(code as nat) + " and the file declares "@ + what
        + "; the file's own tags are what its coordinates actually are, so this is a baseline to correct rather than a file to override"@
}

/// Why a file whose heights have no readable unit is refused.
pub open spec fn unit_refusal(what: Seq<char>) -> Seq<char> {
    "the file declares "@ + what + " but no unit this build can read for its heights, so they cannot be scaled to metres"@
}

/// Whether a placement is the one the reconciliation calls for, reading strings by their
/// characters.
pub open spec fn placement_matches<V>(p: Placement<V>, declared_epsg: Option<u32>, file: Option<CrsFacts<V>>, has_origin: bool) -> bool {
    let what = described(match file { Some(f) => Some(f.crs), None => None });
    match declared_epsg {
        None => match file {
            Some(f) if f.proj_definition is Some => p matches Placement::Refused(r) && r@ == local_claim_refusal(what),
            _ => p == Placement::<V>::AsLoaded,
        },
        Some(code) => if !has_origin {
            p matches Placement::Refused(r) && r@ == no_origin_refusal(code)
        } else {
            match file {
                Some(f) => if !f.agrees_with_declared {
                    p matches Placement::Refused(r) && r@ == disagreement_refusal(code, what)
                } else {
                    match f.vertical_unit {
                        None => p matches Placement::Refused(r) && r@ == unit_refusal(what),
                        Some(v) => p matches Placement::Convert { source, vertical } && vertical == VerticalScale::Declared(v)
                            && source@ == match f.proj_definition {
                                Some(d) => d@,
                                None => "EPSG:"@ + decimal(code as nat),
                            },
                    }
                },
                None => p matches Placement::Convert { source, vertical } && vertical == VerticalScale::<V>::AssumedMetres
                    && source@ == "EPSG:"@ + decimal(code as nat),
            }
        },
    }
}

/// Reconcile the baseline's declared frame with the file's own. `declared_epsg` is the
/// code the baseline names, `None` for local metres; `file` is what the file's own tags
/// declare, if anything; `has_origin` is whether the baseline declares the origin any
/// conversion lands on. The file wins where the two disagree, and the disagreement is
/// refused rather than resolved; a file that declares a system but no readable unit for
/// its heights is refused, not assumed; and a file that declares nothing is taken to
/// store metres.
pub fn placement<V: Copy>(declared_epsg: Option<u32>, file: Option<&CrsFacts<V>>, has_origin: bool) -> (p: Placement<V>)
    ensures
        placement_matches(p, declared_epsg, match file { Some(f) => Some(*f), None => None }, has_origin),
{
    let code = match declared_epsg {
        None => {
            return match file {
                Some(f) if f.proj_definition.is_some() => {
                    let what = describe(Some(&f.crs));
                    let mut r = String::from_str("the file declares its own coordinate reference system (");
                    push_str(&mut r, what.as_str());
                    push_str(&mut r, "), not the local frame point_cloud.frame claims; set point_cloud.frame to \"epsg:<code>\" to have it converted, or reproject the file to the deployment's local metres");
                    Placement::Refused(r)
                },
                _ => Placement::AsLoaded,
            };
        },
        Some(code) => code,
    };
    if !has_origin {
        let mut r = String::from_str("point_cloud.frame is \"epsg:");
        push_decimal(&mut r, code as u64);
        push_str(&mut r, "\", which needs converting into the deployment's local frame, and the baseline declares no origin to convert onto; declare origin, or prepare the files in local metres and set point_cloud.frame to \"local-enu\"");
        return Placement::Refused(r);
    }
    match file {
        Some(f) => {
            if !f.agrees_with_declared {
                let what = describe(Some(&f.crs));
                let mut r = String::from_str("point_cloud.frame claims EPSG:");
                push_decimal(&mut r, code as u64);
                push_str(&mut r, " and the file declares ");
                push_str(&mut r, what.as_str());
                push_str(&mut r, "; the file's own tags are what its coordinates actually are, so this is a baseline to correct rather than a file to override");
                return Placement::Refused(r);
            }
            match f.vertical_unit {
                None => {
                    let what = describe(Some(&f.crs));
                    let mut r = String::from_str("the file declares ");
                    push_str(&mut r, what.as_str());
                    push_str(&mut r, " but no unit this build can read for its heights, so they cannot be scaled to metres");
                    Placement::Refused(r)
                },
                Some(v) => {
                    let source = match &f.proj_definition {
                        Some(d) => d.clone(),
                        None => {
                            let mut s = String::from_str("EPSG:");
                            push_decimal(&mut s, code as u64);
                            s
                        },
                    };
                    Placement::Convert { source, vertical: VerticalScale::Declared(v) }
                },
            }
        },
        None => {
            let mut source = String::from_str("EPSG:");
            push_decimal(&mut source, code as u64);
            Placement::Convert { source, vertical: VerticalScale::AssumedMetres }
        },
    }
}

/// A cloud is never drawn in a frame its own file contradicts: it is converted only from
/// a declared code, onto a declared origin, and only when the file either declares
/// nothing or agrees with the code; it is drawn as loaded only when the baseline claims
/// local metres and the file declares no system of its own.
pub proof fn a_cloud_is_never_placed_against_its_file<V>(
    p: Placement<V>,
    declared_epsg: Option<u32>,
    file: Option<CrsFacts<V>>,
    has_origin: bool,
)
    requires
        placement_matches(p, declared_epsg, file, has_origin),
    ensures
        p is Convert ==> declared_epsg is Some && has_origin && (file matches Some(f) ==> f.agrees_with_declared),
        p is AsLoaded ==> declared_epsg is None && (file matches Some(f) ==> f.proj_definition is None),
{
}

} // verus!

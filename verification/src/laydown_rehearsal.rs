//! Rehearsing a laydown against a recording: where the recording's files are, which
//! sensors the laydown places and with which detection model, and why a laydown that
//! cannot be rehearsed is refused by name before anything runs.
//!
//! A rehearsal re-observes with the deployment's own model for each sensor and never
//! borrows a recording's sensor that shares its identifier; standby, calibrating and
//! offline sensors observe nothing and are not run at all.

use vstd::prelude::*;
use crate::text::{decimal, quoted_name, debug_string, push_decimal, push_str, str_eq};

verus! {

/// The mode a laydown places a sensor in.
#[derive(Debug, Clone, Copy, PartialEq, Eq, Structural)]
pub enum SensorMode {
    Standby,
    Search,
    Track,
    Calibrating,
    Offline,
}

/// Whether a placed sensor observes in `mode`: it searches or it tracks.
pub fn observes(mode: SensorMode) -> (o: bool)
    ensures
        o == (mode == SensorMode::Search || mode == SensorMode::Track),
{
    match mode {
        SensorMode::Search | SensorMode::Track => true,
        _ => false,
    }
}

/// `rel`, a relative path, under the directory `root`: joined by one separator unless
/// `root` is empty or already ends in one.
pub open spec fn joined(root: Seq<char>, rel: Seq<char>) -> Seq<char> {
    if root.len() == 0 {
        rel
    } else if root.last() == '/' {
        root + rel
    } else {
        root + "/"@ + rel
    }
}

fn join(root: &str, rel: &str) -> (path: String)
    ensures
        path@ == joined(root@, rel@),
{
    let mut path = String::from_str(root);
    let n = root.unicode_len();
    if n > 0 && root.get_char(n - 1) != '/' {
        push_str(&mut path, "/");
    }
    push_str(&mut path, rel);
    path
}

/// The sensor catalogue's export, beside the sample sets.
pub fn catalogue_path(testdata_root: &str) -> (path: String)
    ensures
        path@ == joined(testdata_root@, "tracks/sensor-models.json"@),
{
    join(testdata_root, "tracks/sensor-models.json")
}

/// The directory of a recording's sample set, by the recording's label.
pub fn fixture_dir(label: &str, testdata_root: &str) -> (path: String)
    ensures
        path@ == joined(joined(testdata_root@, "tracks/samples"@), label@ + "-sample"@),
{
    let samples = join(testdata_root, "tracks/samples");
    let mut leaf = String::from_str(label);
    push_str(&mut leaf, "-sample");
    join(samples.as_str(), leaf.as_str())
}

/// Why a laydown could not be rehearsed.
#[derive(Debug, Clone, PartialEq, Eq)]
pub enum RehearsalError {
    NoDetectionModel { laydown: String, sensor: u32 },
    UnknownDetectionModel { sensor: u32, model: String, catalogue: String },
    UndeclaredSensor { laydown: String, sensor: u32 },
    NothingObserves { laydown: String, scenario: String },
    DidNotSettle { submitted: u64, taken: u64 },
}

impl RehearsalError {
    /// The sentence the planner is shown.
    pub fn message(&self) -> (m: String)
        ensures
            m@ == match *self {
                RehearsalError::NoDetectionModel { laydown, sensor } => "laydown "@ + laydown@ + " places sensor "@
                    + decimal(sensor as nat)
                    + ", which names no detection model; a rehearsal re-observes with the deployment's own model for each sensor and does not borrow a recording's sensor that shares its identifier (DN-32 §5.4). Give sensor "@
                    + decimal(sensor as nat) + " a `detection_model` from the sensor catalogue"@,
                RehearsalError::UnknownDetectionModel { sensor, model, catalogue } => "sensor "@ + decimal(sensor as nat)
                    + " names the detection model "@ + quoted_name(model@) + ", which the sensor catalogue ("@
                    + catalogue@ + ") does not hold"@,
                RehearsalError::UndeclaredSensor { laydown, sensor } => "laydown "@ + laydown@ + " places sensor "@
                    + decimal(sensor as nat) + ", which this baseline does not declare"@,
                RehearsalError::NothingObserves { laydown, scenario } => "laydown "@ + laydown@
                    + " places no sensor in a mode that observes (search or track), so there is nothing to re-observe "@
                    + scenario@ + " with"@,
                RehearsalError::DidNotSettle { submitted, taken } => "the pipeline never reported the end of the run: it had taken "@
                    + decimal(taken as nat) + " of the "@ + decimal(submitted as nat)
                    + " detection(s) fed to it, and what it formed is not this scenario's answer"@,
            },
    {
        match self {
            RehearsalError::NoDetectionModel { laydown, sensor } => {
                let mut m = String::from_str("laydown ");
                push_str(&mut m, laydown.as_str());
                push_str(&mut m, " places sensor ");
                push_decimal(&mut m, *sensor as u64);
                push_str(&mut m, ", which names no detection model; a rehearsal re-observes with the deployment's own model for each sensor and does not borrow a recording's sensor that shares its identifier (DN-32 §5.4). Give sensor ");
                push_decimal(&mut m, *sensor as u64);
                push_str(&mut m, " a `detection_model` from the sensor catalogue");
                m
            },
            RehearsalError::UnknownDetectionModel { sensor, model, catalogue } => {
                let mut m = String::from_str("sensor ");
                push_decimal(&mut m, *sensor as u64);
                push_str(&mut m, " names the detection model ");
                let quoted = debug_string(model.as_str());
                push_str(&mut m, quoted.as_str());
                push_str(&mut m, ", which the sensor catalogue (");
                push_str(&mut m, catalogue.as_str());
                push_str(&mut m, ") does not hold");
                m
            },
            RehearsalError::UndeclaredSensor { laydown, sensor } => {
                let mut m = String::from_str("laydown ");
                push_str(&mut m, laydown.as_str());
                push_str(&mut m, " places sensor ");
                push_decimal(&mut m, *sensor as u64);
                push_str(&mut m, ", which this baseline does not declare");
                m
            },
            RehearsalError::NothingObserves { laydown, scenario } => {
                let mut m = String::from_str("laydown ");
                push_str(&mut m, laydown.as_str());
                push_str(&mut m, " places no sensor in a mode that observes (search or track), so there is nothing to re-observe ");
                push_str(&mut m, scenario.as_str());
                push_str(&mut m, " with");
                m
            },
            RehearsalError::DidNotSettle { submitted, taken } => {
                let mut m = String::from_str("the pipeline never reported the end of the run: it had taken ");
                push_decimal(&mut m, *taken);
                push_str(&mut m, " of the ");
                push_decimal(&mut m, *submitted);
                push_str(&mut m, " detection(s) fed to it, and what it formed is not this scenario's answer");
                m
            },
        }
    }
}

/// A sensor the deployment declares, and the catalogue model it names, if any.
#[derive(Debug, Clone, PartialEq, Eq)]
pub struct DeclaredSensor {
    pub id: u32,
    pub detection_model: Option<String>,
}

/// A sensor the laydown places, and the mode it places it in.
#[derive(Debug, Clone, Copy, PartialEq, Eq, Structural)]
pub struct PlacedSensor {
    pub sensor: u32,
    pub mode: SensorMode,
}

/// A placed sensor resolved: which declaration it is, and the catalogue model it is
/// re-observed with, or `None` when its mode does not observe.
#[derive(Debug, Clone, PartialEq, Eq)]
pub struct Resolved {
    pub declared: usize,
    pub model: Option<String>,
}

/// The first declaration of sensor `id`.
pub open spec fn first_declared(declared: Seq<DeclaredSensor>, id: u32, i: int) -> bool {
    &&& 0 <= i < declared.len()
    &&& declared[i].id == id
    &&& forall|k: int| 0 <= k < i ==> declared[k].id != id
}

/// Whether the catalogue holds a model of this name.
pub open spec fn in_catalogue(catalogue: Seq<String>, name: Seq<char>) -> bool {
    exists|k: int| 0 <= k < catalogue.len() && catalogue[k]@ == name
}

/// How one placed sensor resolves: its declaration and model, or the refusal that names
/// it.
pub open spec fn resolves(
    laydown: Seq<char>,
    p: PlacedSensor,
    declared: Seq<DeclaredSensor>,
    catalogue: Seq<String>,
    catalogue_path: Seq<char>,
    r: Result<Resolved, RehearsalError>,
) -> bool {
    if forall|k: int| 0 <= k < declared.len() ==> declared[k].id != p.sensor {
        r matches Err(RehearsalError::UndeclaredSensor { laydown: l, sensor }) && l@ == laydown && sensor == p.sensor
    } else {
        exists|i: int| #![trigger declared[i]] first_declared(declared, p.sensor, i) && {
            if !(p.mode == SensorMode::Search || p.mode == SensorMode::Track) {
                r matches Ok(res) && res.declared == i && res.model is None
            } else {
                match declared[i].detection_model {
                    None => r matches Err(RehearsalError::NoDetectionModel { laydown: l, sensor }) && l@ == laydown
                        && sensor == p.sensor,
                    Some(name) => if in_catalogue(catalogue, name@) {
                        r matches Ok(res) && res.declared == i && (res.model matches Some(m) && m@ == name@)
                    } else {
                        r matches Err(RehearsalError::UnknownDetectionModel { sensor, model, catalogue: c })
                            && sensor == p.sensor && model@ == name@ && c@ == catalogue_path
                    },
                }
            }
        }
    }
}

fn find_declared(declared: &[DeclaredSensor], id: u32) -> (at: Option<usize>)
    ensures
        match at {
            Some(i) => first_declared(declared@, id, i as int),
            None => forall|k: int| 0 <= k < declared@.len() ==> declared@[k].id != id,
        },
{
    let mut i: usize = 0;
    while i < declared.len() && declared[i].id != id
        invariant
            i <= declared@.len(),
            forall|k: int| 0 <= k < i ==> declared@[k].id != id,
        decreases declared@.len() - i,
    {
        i = i + 1;
    }
    if i < declared.len() { Some(i) } else { None }
}

fn holds_model(catalogue: &[String], name: &str) -> (b: bool)
    ensures
        b == in_catalogue(catalogue@, name@),
{
    let mut k: usize = 0;
    while k < catalogue.len()
        invariant
            k <= catalogue@.len(),
            forall|j: int| 0 <= j < k ==> catalogue@[j]@ != name@,
        decreases catalogue@.len() - k,
    {
        if str_eq(catalogue[k].as_str(), name) {
            return true;
        }
        k = k + 1;
    }
    false
}

/// Resolve one placed sensor.
pub fn resolve_sensor(
    laydown: &str,
    p: PlacedSensor,
    declared: &[DeclaredSensor],
    catalogue: &[String],
    catalogue_path: &str,
) -> (r: Result<Resolved, RehearsalError>)
    ensures
        resolves(laydown@, p, declared@, catalogue@, catalogue_path@, r),
{
    let i = match find_declared(declared, p.sensor) {
        None => return Err(RehearsalError::UndeclaredSensor { laydown: String::from_str(laydown), sensor: p.sensor }),
        Some(i) => i,
    };
    if !observes(p.mode) {
        return Ok(Resolved { declared: i, model: None });
    }
    match &declared[i].detection_model {
        None => Err(RehearsalError::NoDetectionModel { laydown: String::from_str(laydown), sensor: p.sensor }),
        Some(name) => if holds_model(catalogue, name.as_str()) {
            Ok(Resolved { declared: i, model: Some(name.clone()) })
        } else {
            Err(RehearsalError::UnknownDetectionModel {
                sensor: p.sensor,
                model: name.clone(),
                catalogue: String::from_str(catalogue_path),
            })
        },
    }
}

/// Whether a placed sensor resolves.
pub open spec fn resolvable(
    laydown: Seq<char>,
    p: PlacedSensor,
    declared: Seq<DeclaredSensor>,
    catalogue: Seq<String>,
    catalogue_path: Seq<char>,
) -> bool {
    exists|ok: Resolved| resolves(laydown, p, declared, catalogue, catalogue_path, Ok(ok))
}

/// Whether the `k`th placed sensor is the first that cannot be resolved, refused with `e`.
pub open spec fn refused_at(
    laydown: Seq<char>,
    placed: Seq<PlacedSensor>,
    declared: Seq<DeclaredSensor>,
    catalogue: Seq<String>,
    catalogue_path: Seq<char>,
    k: int,
    e: RehearsalError,
) -> bool {
    &&& 0 <= k < placed.len()
    &&& forall|j: int| 0 <= j < k ==> resolvable(laydown, #[trigger] placed[j], declared, catalogue, catalogue_path)
    &&& resolves(laydown, placed[k], declared, catalogue, catalogue_path, Err(e))
}

/// Every sensor the laydown places, resolved in the laydown's order; the first that
/// cannot be is refused by name before anything runs.
pub fn resolve_sensors(
    laydown: &str,
    placed: &[PlacedSensor],
    declared: &[DeclaredSensor],
    catalogue: &[String],
    catalogue_path: &str,
) -> (r: Result<Vec<Resolved>, RehearsalError>)
    ensures
        match r {
            Ok(all) => all@.len() == placed@.len() && forall|k: int| 0 <= k < placed@.len() ==>
                resolves(laydown@, #[trigger] placed@[k], declared@, catalogue@, catalogue_path@, Ok(all@[k])),
            Err(e) => exists|k: int| #[trigger] refused_at(laydown@, placed@, declared@, catalogue@, catalogue_path@, k, e),
        },
{
    let mut all: Vec<Resolved> = Vec::new();
    let mut k: usize = 0;
    while k < placed.len()
        invariant
            k <= placed@.len(),
            all@.len() == k,
            forall|j: int| 0 <= j < k ==> resolves(laydown@, #[trigger] placed@[j], declared@, catalogue@, catalogue_path@, Ok(all@[j])),
        decreases placed@.len() - k,
    {
        let one = resolve_sensor(laydown, placed[k], declared, catalogue, catalogue_path);
        match one {
            Ok(res) => all.push(res),
            Err(e) => {
                assert forall|j: int| 0 <= j < k implies resolvable(laydown@, #[trigger] placed@[j], declared@, catalogue@, catalogue_path@) by {
                    assert(resolves(laydown@, placed@[j], declared@, catalogue@, catalogue_path@, Ok(all@[j])));
                }
                assert(refused_at(laydown@, placed@, declared@, catalogue@, catalogue_path@, k as int, e));
                return Err(e);
            },
        }
        k = k + 1;
    }
    Ok(all)
}

/// After every sensor resolved, a rehearsal still needs one that observes: a laydown
/// whose sensors all stand by, calibrate or are offline is refused, naming the laydown and
/// the scenario it would have re-observed.
pub fn check_observers(laydown: &str, scenario: &str, resolved: &[Resolved]) -> (r: Result<(), RehearsalError>)
    ensures
        r is Ok <==> exists|k: int| 0 <= k < resolved@.len() && (#[trigger] resolved@[k]).model is Some,
        r matches Err(e) ==> (e matches RehearsalError::NothingObserves { laydown: l, scenario: s }
            && l@ == laydown@ && s@ == scenario@),
{
    let mut k: usize = 0;
    while k < resolved.len()
        invariant
            k <= resolved@.len(),
            forall|j: int| 0 <= j < k ==> (#[trigger] resolved@[j]).model is None,
        decreases resolved@.len() - k,
    {
        if resolved[k].model.is_some() {
            return Ok(());
        }
        k = k + 1;
    }
    Err(RehearsalError::NothingObserves { laydown: String::from_str(laydown), scenario: String::from_str(scenario) })
}

} // verus!

//! Trajectory prediction as the desktop offers it: whether it predicts at all, what a
//! predictor is called, and how an approached asset is named.
//!
//! A baseline that declares no horizon gets no prediction, and says why, rather than a
//! prediction at horizons nobody chose.

use vstd::prelude::*;
use crate::text::{decimal, push_decimal};

verus! {

/// What prediction produced: the predictions, or why there are none.
#[derive(Debug, Clone, PartialEq, Eq)]
pub enum PredictionOutcome<P> {
    Predicted(Vec<P>),
    NotPredicted { reason: &'static str },
}

impl<P> PredictionOutcome<P> {
    /// The predictions, none when there are none.
    pub fn predictions(&self) -> (p: &[P])
        ensures
            match self {
                PredictionOutcome::Predicted(v) => p@ == v@,
                PredictionOutcome::NotPredicted { .. } => p@.len() == 0,
            },
    {
        match self {
            PredictionOutcome::Predicted(p) => p.as_slice(),
            PredictionOutcome::NotPredicted { .. } => &[],
        }
    }

    /// Why nothing was predicted, when nothing was.
    pub fn reason(&self) -> (r: Option<&'static str>)
        ensures
            match self {
                PredictionOutcome::Predicted(_) => r is None,
                PredictionOutcome::NotPredicted { reason } => r == Some(*reason),
            },
    {
        match self {
            PredictionOutcome::Predicted(_) => None,
            PredictionOutcome::NotPredicted { reason } => Some(*reason),
        }
    }
}

/// Whether to predict at all: only at the horizons the baseline declares, and with none
/// declared, not, saying why.
pub fn prediction_gate(horizons: usize) -> (gate: Result<(), &'static str>)
    ensures
        horizons > 0 ==> gate is Ok,
        horizons == 0 ==> (gate matches Err(r) && r@ == "the baseline declares no prediction horizons"@),
{
    if horizons == 0 {
        Err("the baseline declares no prediction horizons")
    } else {
        Ok(())
    }
}

/// Which predictor produced a prediction.
#[derive(Debug, Clone, Copy, PartialEq, Eq, Structural)]
pub enum PredictorKind {
    ConstantVelocity,
    Filter,
}

/// A predictor's name, as PN-04 says it.
pub fn predictor_name(kind: PredictorKind) -> (name: &'static str)
    ensures
        name@ == match kind {
            PredictorKind::ConstantVelocity => "constant-velocity prediction"@,
            PredictorKind::Filter => "filter prediction"@,
        },
{
    match kind {
        PredictorKind::ConstantVelocity => "constant-velocity prediction",
        PredictorKind::Filter => "filter prediction",
    }
}

/// A defended asset the baseline names.
#[derive(Debug, Clone, PartialEq, Eq)]
pub struct AssetName {
    pub id: u32,
    pub name: String,
}

/// The first asset the baseline names under `id`.
pub open spec fn named_asset(assets: Seq<AssetName>, id: u32) -> Option<AssetName>
    decreases assets.len(),
{
    if assets.len() == 0 {
        None
    } else if assets[0].id == id {
        Some(assets[0])
    } else {
        named_asset(assets.drop_first(), id)
    }
}

/// How an approached asset is named: by the name the baseline gives it, else by its
/// number.
pub fn asset_name(assets: &[AssetName], id: u32) -> (name: String)
    ensures
        name@ == match named_asset(assets@, id) {
            Some(a) => a.name@,
            None => "asset "@ + decimal(id as nat),
        },
{
    let mut i: usize = 0;
    assert(assets@.skip(0) =~= assets@);
    while i < assets.len()
        invariant
            i <= assets@.len(),
            named_asset(assets@, id) == named_asset(assets@.skip(i as int), id),
        decreases assets@.len() - i,
    {
        proof {
            assert(assets@.skip(i as int).drop_first() =~= assets@.skip(i + 1));
        }
        if assets[i].id == id {
            return assets[i].name.clone();
        }
        i = i + 1;
    }
    let mut n = String::from_str("asset ");
    push_decimal(&mut n, id as u64);
    n
}

} // verus!

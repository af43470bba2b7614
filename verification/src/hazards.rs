//! The static hazard layer's kinds: as the baseline spells them, and as the map labels
//! them.
//!
//! Descriptive, never a rule: nothing here decides what may be done near a hazard.

use vstd::prelude::*;
use crate::text::{quoted_name, debug_string, push_str, str_eq};

verus! {

/// What a hazard is.
#[derive(Debug, Clone, Copy, PartialEq, Eq, Structural)]
pub enum HazardKind {
    Boom,
    Net,
    Barrier,
    Wreck,
    Shoal,
    Other,
}

/// Why a baseline was refused.
#[derive(Debug, Clone, PartialEq, Eq)]
pub enum ConfigError {
    Invalid(String),
}

/// The kinds a baseline may name, in its own spelling.
pub open spec fn configurable_kinds() -> Seq<Seq<char>> {
    seq!["boom"@, "net"@, "barrier"@, "wreck"@, "shoal"@, "other"@]
}

/// The kind a baseline's spelling names, if it names one.
pub open spec fn kind_named(s: Seq<char>) -> Option<HazardKind> {
    if s == "boom"@ {
        Some(HazardKind::Boom)
    } else if s == "net"@ {
        Some(HazardKind::Net)
    } else if s == "barrier"@ {
        Some(HazardKind::Barrier)
    } else if s == "wreck"@ {
        Some(HazardKind::Wreck)
    } else if s == "shoal"@ {
        Some(HazardKind::Shoal)
    } else if s == "other"@ {
        Some(HazardKind::Other)
    } else {
        None
    }
}

/// The words the map labels a kind with.
pub open spec fn label_of(kind: HazardKind) -> Seq<char> {
    match kind {
        HazardKind::Boom => "boom"@,
        HazardKind::Net => "net"@,
        HazardKind::Barrier => "barrier"@,
        HazardKind::Wreck => "wreck"@,
        HazardKind::Shoal => "shoal"@,
        HazardKind::Other => "hazard"@,
    }
}

/// The kinds a baseline may name, in its own spelling.
pub fn kinds() -> (k: Vec<&'static str>)
    ensures
        k@.len() == configurable_kinds().len(),
        forall|i: int| 0 <= i < k@.len() ==> #[trigger] k@[i]@ == configurable_kinds()[i],
{
    let k = vec!["boom", "net", "barrier", "wreck", "shoal", "other"];
    assert(k@[0]@ == "boom"@ && k@[1]@ == "net"@ && k@[2]@ == "barrier"@ && k@[3]@ == "wreck"@ && k@[4]@ == "shoal"@ && k@[5]@ == "other"@);
    k
}

/// The kind, as the baseline spells it; a spelling that names no kind is refused, naming
/// the spellings that would have been accepted.
pub fn parse_kind(kind: &str) -> (parsed: Result<HazardKind, ConfigError>)
    ensures
        match kind_named(kind@) {
            Some(k) => parsed == Ok::<HazardKind, ConfigError>(k),
            None => parsed matches Err(ConfigError::Invalid(m)) && m@ == "hazard kind "@ + quoted_name(kind@)
                + " is not one of [\"boom\", \"net\", \"barrier\", \"wreck\", \"shoal\", \"other\"]"@,
        },
{
    if str_eq(kind, "boom") {
        Ok(HazardKind::Boom)
    } else if str_eq(kind, "net") {
        Ok(HazardKind::Net)
    } else if str_eq(kind, "barrier") {
        Ok(HazardKind::Barrier)
    } else if str_eq(kind, "wreck") {
        Ok(HazardKind::Wreck)
    } else if str_eq(kind, "shoal") {
        Ok(HazardKind::Shoal)
    } else if str_eq(kind, "other") {
        Ok(HazardKind::Other)
    } else {
        let mut m = String::from_str("hazard kind ");
        let quoted = debug_string(kind);
        push_str(&mut m, quoted.as_str());
        push_str(&mut m, " is not one of [\"boom\", \"net\", \"barrier\", \"wreck\", \"shoal\", \"other\"]");
        Err(ConfigError::Invalid(m))
    }
}

/// The kind, in the words the map labels it with.
pub fn kind_label(kind: HazardKind) -> (label: &'static str)
    ensures
        label@ == label_of(kind),
{
    match kind {
        HazardKind::Boom => "boom",
        HazardKind::Net => "net",
        HazardKind::Barrier => "barrier",
        HazardKind::Wreck => "wreck",
        HazardKind::Shoal => "shoal",
        HazardKind::Other => "hazard",
    }
}

/// Every kind a baseline may name parses, and labels back to its own spelling, except
/// `other`, which the map calls a hazard.
pub proof fn every_configurable_kind_maps_back(i: int)
    requires
        0 <= i < configurable_kinds().len(),
    ensures
        kind_named(configurable_kinds()[i]) is Some,
        label_of(kind_named(configurable_kinds()[i])->0) == configurable_kinds()[i]
            || (configurable_kinds()[i] == "other"@ && label_of(kind_named(configurable_kinds()[i])->0) == "hazard"@),
{
    reveal_strlit("boom");
    reveal_strlit("net");
    reveal_strlit("barrier");
    reveal_strlit("wreck");
    reveal_strlit("shoal");
    reveal_strlit("other");
}

/// A spelling names a kind only if it is one the baseline may name.
pub proof fn only_configurable_kinds_parse(s: Seq<char>)
    requires
        kind_named(s) is Some,
    ensures
        configurable_kinds().contains(s),
{
    if s == "boom"@ {
        assert(configurable_kinds()[0] == s);
    } else if s == "net"@ {
        assert(configurable_kinds()[1] == s);
    } else if s == "barrier"@ {
        assert(configurable_kinds()[2] == s);
    } else if s == "wreck"@ {
        assert(configurable_kinds()[3] == s);
    } else if s == "shoal"@ {
        assert(configurable_kinds()[4] == s);
    } else {
        assert(configurable_kinds()[5] == s);
    }
}

/// No two kinds share a label, so the map never shows two kinds alike.
pub proof fn labels_tell_kinds_apart(a: HazardKind, b: HazardKind)
    requires
        label_of(a) == label_of(b),
    ensures
        a == b,
{
    reveal_strlit("boom");
    reveal_strlit("net");
    reveal_strlit("barrier");
    reveal_strlit("wreck");
    reveal_strlit("shoal");
    reveal_strlit("hazard");
    if a != b {
        match a {
            HazardKind::Boom => assert(label_of(a)[0] == 'b' && label_of(a).len() == 4),
            HazardKind::Net => assert(label_of(a).len() == 3),
            HazardKind::Barrier => assert(label_of(a).len() == 7),
            HazardKind::Wreck => assert(label_of(a)[0] == 'w'),
            HazardKind::Shoal => assert(label_of(a)[1] == 'h'),
            HazardKind::Other => assert(label_of(a)[0] == 'h'),
        }
    }
}

} // verus!

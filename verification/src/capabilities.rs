//! Capability dispatch: a device's model string resolves, through a
//! fixed ordered table of patterns, to the bundle of operations the
//! device supports. Matching is case-insensitive substring search and
//! the earliest-listed pattern wins; an unmatched model yields the
//! Unknown bundle, which exposes only the raw transport.

use vstd::prelude::*;

use crate::datatypes::SysInfo;

verus! {

/// ASCII case folding of one character.
pub open spec fn lower_char(c: char) -> char {
    if 'A' <= c && c <= 'Z' {
        ((c as u8) + 32) as char
    } else {
        c
    }
}

/// Whether the pattern occurs in the text at position `i`, ignoring
/// ASCII case.
pub open spec fn matches_at(t: Seq<char>, p: Seq<char>, i: int) -> bool {
    &&& 0 <= i
    &&& i + p.len() <= t.len()
    &&& forall|j: int| 0 <= j < p.len() ==> lower_char(t[i + j]) == lower_char(#[trigger] p[j])
}

/// Whether the pattern occurs anywhere in the text, ignoring ASCII
/// case.
pub open spec fn spec_contains_ci(t: Seq<char>, p: Seq<char>) -> bool {
    exists|i: int| matches_at(t, p, i)
}

/// ASCII case folding of one character.
fn lower_ascii(c: char) -> (r: char)
    ensures
        r == lower_char(c),
{
    if c >= 'A' && c <= 'Z' {
        ((c as u8) + 32) as char
    } else {
        c
    }
}

/// Case-insensitive substring search.
pub fn contains_ci(text: &str, pat: &str) -> (r: bool)
    ensures
        r == spec_contains_ci(text@, pat@),
{
    let tl = text.unicode_len();
    let pl = pat.unicode_len();
    if pl > tl {
        return false;
    }
    if pl == 0 {
        proof {
            assert(matches_at(text@, pat@, 0));
        }
        return true;
    }
    let mut i: usize = 0;
    while i <= tl - pl
        invariant
            tl == text@.len(),
            pl == pat@.len(),
            1 <= pl <= tl,
            i <= tl - pl + 1,
            forall|k: int| 0 <= k < i ==> !matches_at(text@, pat@, k),
        decreases tl - pl - i + 1,
    {
        let mut j: usize = 0;
        let mut ok = true;
        while j < pl
            invariant
                tl == text@.len(),
                pl == pat@.len(),
                i + pl <= tl,
                j <= pl,
                ok ==> forall|q: int| 0 <= q < j
                    ==> lower_char(text@[i + q]) == lower_char(#[trigger] pat@[q]),
                !ok ==> !matches_at(text@, pat@, i as int),
            decreases pl - j,
        {
            if lower_ascii(text.get_char(i + j)) != lower_ascii(pat.get_char(j)) {
                proof {
                    assert(lower_char(text@[i + j]) != lower_char(pat@[j as int]));
                    assert(!matches_at(text@, pat@, i as int));
                }
                ok = false;
                j = pl;
            } else {
                j += 1;
            }
        }
        if ok {
            proof {
                assert(matches_at(text@, pat@, i as int));
            }
            return true;
        }
        i += 1;
    }
    proof {
        assert forall|k: int| !matches_at(text@, pat@, k) by {
            if 0 <= k <= tl - pl {
                assert(!matches_at(text@, pat@, k));
            }
        }
    }
    false
}

/// The device classes the table resolves to.
#[derive(Clone, Copy, Debug, PartialEq, Eq, Structural)]
pub enum DeviceClass {
    HS100,
    HS103,
    HS105,
    HS110,
    HS300,
    LB110,
    LB120,
    KL110,
    KP115,
    Unknown,
}

/// The fixed, ordered table of model patterns. First match in this
/// order wins.
pub open spec fn spec_table() -> Seq<(Seq<char>, DeviceClass)> {
    seq![
        ("HS100"@, DeviceClass::HS100),
        ("HS103"@, DeviceClass::HS103),
        ("HS105"@, DeviceClass::HS105),
        ("HS110"@, DeviceClass::HS110),
        ("HS300"@, DeviceClass::HS300),
        ("LB110"@, DeviceClass::LB110),
        ("LB120"@, DeviceClass::LB120),
        ("KL110"@, DeviceClass::KL110),
        ("KP115"@, DeviceClass::KP115),
    ]
}

/// Resolution against a table suffix: the first pattern that occurs in
/// the model wins; no match yields Unknown.
pub open spec fn spec_identify_from(t: Seq<(Seq<char>, DeviceClass)>, model: Seq<char>) -> DeviceClass
    decreases t.len(),
{
    if t.len() == 0 {
        DeviceClass::Unknown
    } else if spec_contains_ci(model, t[0].0) {
        t[0].1
    } else {
        spec_identify_from(t.skip(1), model)
    }
}

/// Resolution of a model string against the fixed table.
pub open spec fn spec_identify(model: Seq<char>) -> DeviceClass {
    spec_identify_from(spec_table(), model)
}

/// A model matching several table patterns resolves to the
/// earliest-listed one: whenever the pattern at `i` matches and none
/// before it does, the result is the class at `i`, whatever later
/// patterns match.
pub proof fn lemma_first_pattern_wins(model: Seq<char>, i: int)
    requires
        0 <= i < spec_table().len(),
        spec_contains_ci(model, spec_table()[i].0),
        forall|k: int| 0 <= k < i ==> !spec_contains_ci(model, #[trigger] spec_table()[k].0),
    ensures
        spec_identify(model) == spec_table()[i].1,
{
    lemma_identify_from_first(spec_table(), model, i);
}

proof fn lemma_identify_from_first(t: Seq<(Seq<char>, DeviceClass)>, model: Seq<char>, i: int)
    requires
        0 <= i < t.len(),
        spec_contains_ci(model, t[i].0),
        forall|k: int| 0 <= k < i ==> !spec_contains_ci(model, #[trigger] t[k].0),
    ensures
        spec_identify_from(t, model) == t[i].1,
    decreases i,
{
    if i > 0 {
        lemma_identify_from_first(t.skip(1), model, i - 1);
    }
}

/// The fixed table of model patterns, in resolution order.
fn exec_table() -> (r: Vec<(String, DeviceClass)>)
    ensures
        r@.len() == spec_table().len(),
        forall|i: int| 0 <= i < r@.len()
            ==> ((#[trigger] r@[i]).0@, r@[i].1) == spec_table()[i],
{
    let mut t: Vec<(String, DeviceClass)> = Vec::new();
    t.push(("HS100".to_owned(), DeviceClass::HS100));
    t.push(("HS103".to_owned(), DeviceClass::HS103));
    t.push(("HS105".to_owned(), DeviceClass::HS105));
    t.push(("HS110".to_owned(), DeviceClass::HS110));
    t.push(("HS300".to_owned(), DeviceClass::HS300));
    t.push(("LB110".to_owned(), DeviceClass::LB110));
    t.push(("LB120".to_owned(), DeviceClass::LB120));
    t.push(("KL110".to_owned(), DeviceClass::KL110));
    t.push(("KP115".to_owned(), DeviceClass::KP115));
    proof {
        assert forall|i: int| 0 <= i < t@.len()
            implies ((#[trigger] t@[i]).0@, t@[i].1) == spec_table()[i] by {
            if i == 0 { assert(t@[0].0@ == "HS100"@ && t@[0].1 == DeviceClass::HS100); }
            else if i == 1 { assert(t@[1].0@ == "HS103"@ && t@[1].1 == DeviceClass::HS103); }
            else if i == 2 { assert(t@[2].0@ == "HS105"@ && t@[2].1 == DeviceClass::HS105); }
            else if i == 3 { assert(t@[3].0@ == "HS110"@ && t@[3].1 == DeviceClass::HS110); }
            else if i == 4 { assert(t@[4].0@ == "HS300"@ && t@[4].1 == DeviceClass::HS300); }
            else if i == 5 { assert(t@[5].0@ == "LB110"@ && t@[5].1 == DeviceClass::LB110); }
            else if i == 6 { assert(t@[6].0@ == "LB120"@ && t@[6].1 == DeviceClass::LB120); }
            else if i == 7 { assert(t@[7].0@ == "KL110"@ && t@[7].1 == DeviceClass::KL110); }
            else { assert(t@[8].0@ == "KP115"@ && t@[8].1 == DeviceClass::KP115); }
        }
    }
    t
}

/// Resolves a model string to its device class, first table match
/// winning.
pub fn model_class(model: &str) -> (r: DeviceClass)
    ensures
        r == spec_identify(model@),
{
    let table = exec_table();
    let ghost t = spec_table();
    let mut i: usize = 0;
    proof {
        assert(t.skip(0) =~= t);
    }
    while i < table.len()
        invariant
            table@.len() == t.len(),
            forall|k: int| 0 <= k < table@.len()
                ==> ((#[trigger] table@[k]).0@, table@[k].1) == t[k],
            t == spec_table(),
            i <= t.len(),
            spec_identify(model@) == spec_identify_from(t.skip(i as int), model@),
        decreases t.len() - i,
    {
        let entry = &table[i];
        if contains_ci(model, entry.0.as_str()) {
            proof {
                assert(t.skip(i as int)[0] == t[i as int]);
            }
            return entry.1;
        }
        proof {
            assert(t.skip(i as int)[0] == t[i as int]);
            assert(t.skip(i as int).skip(1) =~= t.skip(i + 1 as int));
        }
        i += 1;
    }
    proof {
        assert(t.skip(t.len() as int) =~= Seq::<(Seq<char>, DeviceClass)>::empty());
    }
    DeviceClass::Unknown
}

/// The bundle of operations a device class supports, together with its
/// wire-encoding substitutions: bulb classes route on/off through the
/// lighting service, and use the bulb-style energy-meter service.
#[derive(Clone, Copy, Debug, PartialEq, Eq, Structural)]
pub struct CapabilitySet {
    /// On/off as a single switch.
    pub switch: bool,
    /// Per-outlet switching with an outlet index.
    pub multi_switch: bool,
    /// Light-state queries and transitions.
    pub light: bool,
    /// Percentage brightness.
    pub dimmer: bool,
    /// Hue, saturation and value.
    pub colour: bool,
    /// Tunable white colour temperature.
    pub color_temp: bool,
    /// Energy readings.
    pub emeter: bool,
    /// On/off is sent as a lighting-service transition instead of the
    /// relay command.
    pub switch_via_light: bool,
    /// Energy readings use the bulb-style service name.
    pub emeter_common: bool,
}

impl CapabilitySet {
    /// The bundle that exposes only the raw transport.
    pub open spec fn spec_unknown() -> CapabilitySet {
        CapabilitySet {
            switch: false,
            multi_switch: false,
            light: false,
            dimmer: false,
            colour: false,
            color_temp: false,
            emeter: false,
            switch_via_light: false,
            emeter_common: false,
        }
    }
}

/// The operation bundle of each device class.
pub open spec fn spec_caps_of(class: DeviceClass) -> CapabilitySet {
    match class {
        DeviceClass::HS100 | DeviceClass::HS103 | DeviceClass::HS105 => CapabilitySet {
            switch: true,
            ..CapabilitySet::spec_unknown()
        },
        DeviceClass::HS110 | DeviceClass::KP115 => CapabilitySet {
            switch: true,
            emeter: true,
            ..CapabilitySet::spec_unknown()
        },
        DeviceClass::HS300 => CapabilitySet {
            multi_switch: true,
            emeter: true,
            ..CapabilitySet::spec_unknown()
        },
        DeviceClass::LB110 | DeviceClass::KL110 => CapabilitySet {
            switch: true,
            light: true,
            dimmer: true,
            emeter: true,
            switch_via_light: true,
            emeter_common: true,
            ..CapabilitySet::spec_unknown()
        },
        DeviceClass::LB120 => CapabilitySet {
            switch: true,
            light: true,
            dimmer: true,
            color_temp: true,
            emeter: true,
            switch_via_light: true,
            emeter_common: true,
            ..CapabilitySet::spec_unknown()
        },
        DeviceClass::Unknown => CapabilitySet::spec_unknown(),
    }
}

/// Builds the operation bundle of one device class.
pub fn caps_of(class: DeviceClass) -> (r: CapabilitySet)
    ensures
        r == spec_caps_of(class),
{
    let unknown = CapabilitySet {
        switch: false,
        multi_switch: false,
        light: false,
        dimmer: false,
        colour: false,
        color_temp: false,
        emeter: false,
        switch_via_light: false,
        emeter_common: false,
    };
    match class {
        DeviceClass::HS100 | DeviceClass::HS103 | DeviceClass::HS105 => CapabilitySet {
            switch: true,
            ..unknown
        },
        DeviceClass::HS110 | DeviceClass::KP115 => CapabilitySet {
            switch: true,
            emeter: true,
            ..unknown
        },
        DeviceClass::HS300 => CapabilitySet {
            multi_switch: true,
            emeter: true,
            ..unknown
        },
        DeviceClass::LB110 | DeviceClass::KL110 => CapabilitySet {
            switch: true,
            light: true,
            dimmer: true,
            emeter: true,
            switch_via_light: true,
            emeter_common: true,
            ..unknown
        },
        DeviceClass::LB120 => CapabilitySet {
            switch: true,
            light: true,
            dimmer: true,
            color_temp: true,
            emeter: true,
            switch_via_light: true,
            emeter_common: true,
            ..unknown
        },
        DeviceClass::Unknown => unknown,
    }
}

/// Resolves a device's system information to its operation bundle: a
/// one-time identification whose result is fixed on the handle.
pub fn identify(sysinfo: &SysInfo) -> (r: CapabilitySet)
    ensures
        r == spec_caps_of(spec_identify(sysinfo.model@)),
{
    caps_of(model_class(sysinfo.model.as_str()))
}

/// The service name that energy operations address for this bundle.
pub fn emeter_service(caps: &CapabilitySet) -> (r: String)
    ensures
        caps.emeter_common ==> r@ == "smartlife.iot.common.emeter"@,
        !caps.emeter_common ==> r@ == "emeter"@,
{
    if caps.emeter_common {
        "smartlife.iot.common.emeter".to_owned()
    } else {
        "emeter".to_owned()
    }
}

} // verus!

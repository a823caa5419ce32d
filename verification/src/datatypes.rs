//! Typed views of device replies: the system-information section, the
//! light state of bulb devices, and the smartlife sections. Every field
//! the library decides on is a plain value; energy-meter realtime
//! payloads, whose fields vary by model, stay as raw document nodes.

use vstd::prelude::*;

use crate::error::{Error, ProtocolError, Result, SectionError};
use crate::json::{deep_elems, get, get_int, get_text, lemma_deep_elems, spec_as_int,
    spec_as_text, spec_get, take_member, JsonNode, JsonVal};

verus! {

/// The text member named `k`, when present.
pub open spec fn f_text(v: JsonVal, k: Seq<char>) -> Option<Seq<char>> {
    spec_as_text(spec_get(v, k))
}

/// The text member named `k1`, or the one named `k2` as a fallback.
pub open spec fn f_text2(v: JsonVal, k1: Seq<char>, k2: Seq<char>) -> Option<Seq<char>> {
    match f_text(v, k1) {
        Some(s) => Some(s),
        None => f_text(v, k2),
    }
}

/// The integer member named `k`, when present and within the range.
pub open spec fn f_int_in(v: JsonVal, k: Seq<char>, lo: int, hi: int) -> Option<int> {
    match spec_as_int(spec_get(v, k)) {
        Some(i) => if lo <= i <= hi {
            Some(i)
        } else {
            None
        },
        None => None,
    }
}

/// A per-section result: either the section's typed payload, or the
/// embedded (code, message) failure the device put in its place. This
/// is distinct from a transport failure.
#[derive(Debug, Clone)]
pub enum SectionResult<T> {
    /// The section's payload.
    Payload(T),
    /// The embedded failure the device returned instead.
    Fault(SectionError),
}

impl<T> SectionResult<T> {
    /// Hands out the payload; callable only when one is present.
    pub fn unwrap(self) -> (r: T)
        requires
            self matches SectionResult::Payload(_),
        ensures
            self matches SectionResult::Payload(t) && r == t,
    {
        match self {
            SectionResult::Payload(section) => section,
            SectionResult::Fault(_) => unreached(),
        }
    }
}

/// A whole discovery or status reply.
#[derive(Debug)]
pub struct DeviceData {
    /// The system section.
    pub system: System,
    /// The plug-style energy-meter section, when present.
    pub emeter: Option<SectionResult<Emeter>>,
    /// The smartlife sections of bulb devices.
    pub smartlife: Smartlife,
}

impl DeviceData {
    /// The system-information payload.
    pub fn sysinfo(&self) -> (r: &SysInfo)
        ensures
            r == self.system.sysinfo,
    {
        &self.system.sysinfo
    }

    /// The system-information payload, by value.
    pub fn into_sysinfo(self) -> (r: SysInfo)
        ensures
            r == self.system.sysinfo,
    {
        self.system.sysinfo
    }
}

/// The system section of a reply.
#[derive(Debug, Clone)]
pub struct System {
    /// The system-information payload.
    pub sysinfo: SysInfo,
}

/// The plug-style energy-meter section. Its realtime payload's fields
/// vary by model (and may be fractional), so it stays a raw node.
#[derive(Debug)]
pub struct Emeter {
    /// The realtime reading, or its embedded failure.
    pub realtime: SectionResult<JsonNode>,
}

/// The smartlife sections that bulb devices answer with.
#[derive(Debug, Clone)]
pub struct Smartlife {
    /// The dimmer section's failure stub, when the section is present.
    pub dimmer: Option<SectionError>,
    /// The bulb-style energy-meter section, when present.
    pub emeter: Option<SectionResult<SmartlifeEmeter>>,
    /// The lighting-service section, when present.
    pub lightingservice: Option<SectionResult<SmartlifeLightingService>>,
}

impl Smartlife {
    /// The bulb-style energy meter, or why it is unavailable: an
    /// absent section is reported as such, and a section failure comes
    /// back with the device's own code and message.
    pub fn emeter(&self) -> (r: Result<&SmartlifeEmeter>)
        ensures
            match self.emeter {
                Some(SectionResult::Payload(p)) => r matches Ok(e) && e == p,
                Some(SectionResult::Fault(f)) => (r matches
                    Err(Error::Protocol(ProtocolError::SectionError(se)))
                    && se.err_code == f.err_code && se.err_msg@ == f.err_msg@),
                None => r matches Err(Error::Other(_)),
            },
    {
        match &self.emeter {
            Some(SectionResult::Payload(emeter)) => Ok(emeter),
            Some(SectionResult::Fault(err)) => Err(Error::Protocol(
                ProtocolError::SectionError(SectionError {
                    err_code: err.err_code,
                    err_msg: err.err_msg.clone(),
                }),
            )),
            None => Err(Error::Other("No emeter present".to_owned())),
        }
    }

    /// The lighting service, or why it is unavailable: an absent
    /// section is reported as such, and a section failure comes back
    /// with the device's own code and message.
    pub fn lightingservice(&self) -> (r: Result<&SmartlifeLightingService>)
        ensures
            match self.lightingservice {
                Some(SectionResult::Payload(p)) => r matches Ok(l) && l == p,
                Some(SectionResult::Fault(f)) => (r matches
                    Err(Error::Protocol(ProtocolError::SectionError(se)))
                    && se.err_code == f.err_code && se.err_msg@ == f.err_msg@),
                None => r matches Err(Error::Other(_)),
            },
    {
        match &self.lightingservice {
            Some(SectionResult::Payload(l)) => Ok(l),
            Some(SectionResult::Fault(err)) => Err(Error::Protocol(
                ProtocolError::SectionError(SectionError {
                    err_code: err.err_code,
                    err_msg: err.err_msg.clone(),
                }),
            )),
            None => Err(Error::Other("No lighting service present".to_owned())),
        }
    }
}

/// The bulb-style energy-meter section.
#[derive(Debug, Clone)]
pub struct SmartlifeEmeter {
    /// The realtime reading.
    pub realtime: SmartlifeEmeterRealtime,
}

/// The realtime reading of the bulb-style energy meter.
#[derive(Debug, Clone)]
pub struct SmartlifeEmeterRealtime {
    /// Present draw in milliwatts.
    pub power_mw: u32,
    /// The reading's own error code.
    pub err_code: i16,
}

/// The lighting-service section.
#[derive(Debug, Clone)]
pub struct SmartlifeLightingService {
    /// The current light state.
    pub light_state: LightState,
}

/// One outlet of a multi-outlet device, as the system section lists it.
#[derive(Debug, Clone)]
pub struct SysInfoChild {
    /// The outlet's identifier suffix.
    pub id: String,
    /// The outlet's relay state; positive means on.
    pub state: u8,
    /// The outlet's user-given name.
    pub alias: String,
    /// Seconds since the outlet was switched on.
    pub on_time: u64,
}

/// The system-information payload. Fractional fields of some models
/// (coordinates, plug-style meter readings) are not carried here; the
/// integer coordinate fields are.
#[derive(Debug, Clone)]
pub struct SysInfo {
    pub sw_ver: String,
    pub hw_ver: String,
    pub hw_type: String,
    pub model: String,
    pub mac: String,
    pub device_id: String,
    pub hw_id: String,
    pub oem_id: String,
    pub alias: String,
    pub dev_name: Option<String>,
    pub err_code: i16,
    pub rssi: i32,
    pub active_mode: Option<String>,
    pub fw_id: Option<String>,
    pub relay_state: Option<u8>,
    pub on_time: Option<i64>,
    pub feature: Option<String>,
    pub updating: Option<u8>,
    pub icon_hash: Option<String>,
    pub led_off: Option<u8>,
    pub longitude_i: Option<i32>,
    pub latitude_i: Option<i32>,
    pub ntc_state: Option<u8>,
    pub children: Option<Vec<SysInfoChild>>,
    pub child_num: Option<u8>,
    pub light_state: Option<LightState>,
    pub is_dimmable: Option<u8>,
    pub is_color: Option<u8>,
    pub is_variable_color_temp: Option<u8>,
    pub heapsize: Option<u64>,
}

impl SysInfo {
    /// Whether the device reports a dimmable light.
    pub fn is_dimmable(&self) -> (r: bool)
        ensures
            r == (self.is_dimmable matches Some(v) && v == 1),
    {
        match self.is_dimmable {
            Some(is_dimmable) => is_dimmable == 1,
            None => false,
        }
    }

    /// Whether the device reports a colour-capable light.
    pub fn is_color(&self) -> (r: bool)
        ensures
            r == (self.is_color matches Some(v) && v == 1),
    {
        match self.is_color {
            Some(is_color) => is_color == 1,
            None => false,
        }
    }
}

/// The state of a bulb's light. The default-when-on parameters arrive
/// either under their own member or flattened beside `on_off`.
#[derive(Debug, Clone)]
pub struct LightState {
    /// Positive when the light is on.
    pub on_off: u8,
    /// The default-when-on parameters, when they arrived nested.
    pub dft_off_on_state: Option<DftOnState>,
    /// The default-when-on parameters, when they arrived flattened.
    pub dft_on_on_state: Option<DftOnState>,
    /// The reading's own error code, when the device sent one.
    pub err_code: Option<i16>,
}

impl LightState {
    /// Whether the default-when-on parameters are present in some shape.
    pub open spec fn has_dft_on_state(&self) -> bool {
        self.dft_off_on_state is Some || self.dft_on_on_state is Some
    }

    /// The default-when-on parameters, whichever shape they arrived in;
    /// callable only when some shape is present.
    pub fn dft_on_state(&self) -> (r: &DftOnState)
        requires
            self.has_dft_on_state(),
        ensures
            match self.dft_off_on_state {
                Some(ref d) => r == d,
                None => self.dft_on_on_state matches Some(ref d) && r == d,
            },
    {
        if let Some(dft_on_state) = &self.dft_off_on_state {
            dft_on_state
        } else if let Some(dft_on_state) = &self.dft_on_on_state {
            dft_on_state
        } else {
            unreached()
        }
    }
}

/// A bulb's default parameters when switched on.
#[derive(Debug, Clone)]
pub struct DftOnState {
    /// The lighting mode name.
    pub mode: String,
    /// Hue, 0 to 360.
    pub hue: u16,
    /// Saturation, 0 to 100.
    pub saturation: u16,
    /// Colour temperature in kelvin.
    pub color_temp: u16,
    /// Brightness, 0 to 100.
    pub brightness: u16,
}

/// The fields of a light-state transition; absent fields are left
/// unchanged by the device.
#[derive(Debug, Clone)]
pub struct SetLightState {
    pub on_off: Option<u8>,
    pub hue: Option<u16>,
    pub saturation: Option<u16>,
    pub color_temp: Option<u16>,
    pub brightness: Option<u16>,
}

impl Default for SetLightState {
    /// A transition that changes nothing.
    fn default() -> (r: Self)
        ensures
            r.on_off is None,
            r.hue is None,
            r.saturation is None,
            r.color_temp is None,
            r.brightness is None,
    {
        SetLightState {
            on_off: None,
            hue: None,
            saturation: None,
            color_temp: None,
            brightness: None,
        }
    }
}

/// A reply to a light-state query or transition.
#[derive(Debug, Clone)]
pub struct GetLightState {
    /// The light state under its query or transition member.
    pub light_state: LightState,
}

/// The lighting-service section of a light-state reply.
#[derive(Debug, Clone)]
pub struct GetLightStateResult {
    /// The section's payload or its embedded failure.
    pub lightingservice: SectionResult<GetLightState>,
}

impl GetLightStateResult {
    /// The light state, or the section's failure as an error carrying
    /// the device's own code and message.
    pub fn light_state(self) -> (r: Result<LightState>)
        ensures
            match self.lightingservice {
                SectionResult::Payload(g) => r matches Ok(ls) && ls == g.light_state,
                SectionResult::Fault(f) => (r matches
                    Err(Error::Protocol(ProtocolError::SectionError(se))) && se == f),
            },
    {
        match self.lightingservice {
            SectionResult::Payload(light_state) => Ok(light_state.light_state),
            SectionResult::Fault(err) => Err(Error::Protocol(
                crate::error::ProtocolError::SectionError(err),
            )),
        }
    }
}

// ---------------------------------------------------------------------
// decoding the typed views from a reply document
//
// Required fields must be present with the right type and range;
// optional fields that are absent or ill-shaped decode as absent.

/// The text member named `key`, cloned out.
fn take_text(n: &JsonNode, key: &str) -> (r: Option<String>)
    ensures
        match r {
            Some(s) => f_text(n.deep(), key@) == Some(s@),
            None => f_text(n.deep(), key@) is None,
        },
{
    match get_text(n, key) {
        Some(s) => Some(s.clone()),
        None => None,
    }
}

/// The text member named `k1`, or the one named `k2` as a fallback.
fn take_text_alias(n: &JsonNode, k1: &str, k2: &str) -> (r: Option<String>)
    ensures
        match r {
            Some(s) => f_text2(n.deep(), k1@, k2@) == Some(s@),
            None => f_text2(n.deep(), k1@, k2@) is None,
        },
{
    match take_text(n, k1) {
        Some(s) => Some(s),
        None => take_text(n, k2),
    }
}

/// The integer member named `key`, when it lies within the range.
fn int_in(n: &JsonNode, key: &str, lo: i64, hi: i64) -> (r: Option<i64>)
    requires
        lo <= hi,
    ensures
        match r {
            Some(i) => f_int_in(n.deep(), key@, lo as int, hi as int) == Some(i as int)
                && lo <= i <= hi,
            None => f_int_in(n.deep(), key@, lo as int, hi as int) is None,
        },
{
    match get_int(n, key) {
        Some(i) => if lo <= i && i <= hi {
            Some(i)
        } else {
            None
        },
        None => None,
    }
}

/// An unsigned integer member that fits a u64.
fn int_u64(n: &JsonNode, key: &str) -> (r: Option<u64>)
    ensures
        match r {
            Some(i) => f_int_in(n.deep(), key@, 0, i64::MAX as int) == Some(i as int),
            None => f_int_in(n.deep(), key@, 0, i64::MAX as int) is None,
        },
{
    match int_in(n, key, 0, i64::MAX) {
        Some(i) => Some(i as u64),
        None => None,
    }
}

/// Whether a node holds well-formed default-when-on parameters.
pub open spec fn wf_dft(v: JsonVal) -> bool {
    &&& f_text(v, "mode"@) is Some
    &&& f_int_in(v, "hue"@, 0, 65535) is Some
    &&& f_int_in(v, "saturation"@, 0, 65535) is Some
    &&& f_int_in(v, "color_temp"@, 0, 65535) is Some
    &&& f_int_in(v, "brightness"@, 0, 65535) is Some
}

/// How decoded default-when-on parameters relate to their node.
pub open spec fn rel_dft(v: JsonVal, d: DftOnState) -> bool {
    &&& f_text(v, "mode"@) == Some(d.mode@)
    &&& f_int_in(v, "hue"@, 0, 65535) == Some(d.hue as int)
    &&& f_int_in(v, "saturation"@, 0, 65535) == Some(d.saturation as int)
    &&& f_int_in(v, "color_temp"@, 0, 65535) == Some(d.color_temp as int)
    &&& f_int_in(v, "brightness"@, 0, 65535) == Some(d.brightness as int)
}

/// Decodes default-when-on parameters.
fn decode_dft(n: &JsonNode) -> (r: Option<DftOnState>)
    ensures
        match r {
            Some(d) => rel_dft(n.deep(), d),
            None => !wf_dft(n.deep()),
        },
{
    let mode = match take_text(n, "mode") {
        Some(s) => s,
        None => { return None; },
    };
    let hue = match int_in(n, "hue", 0, 65535) {
        Some(i) => i as u16,
        None => { return None; },
    };
    let saturation = match int_in(n, "saturation", 0, 65535) {
        Some(i) => i as u16,
        None => { return None; },
    };
    let color_temp = match int_in(n, "color_temp", 0, 65535) {
        Some(i) => i as u16,
        None => { return None; },
    };
    let brightness = match int_in(n, "brightness", 0, 65535) {
        Some(i) => i as u16,
        None => { return None; },
    };
    Some(DftOnState { mode, hue, saturation, color_temp, brightness })
}

/// Whether a node holds a well-formed light state.
pub open spec fn wf_light_state(v: JsonVal) -> bool {
    f_int_in(v, "on_off"@, 0, 255) is Some
}

/// How a decoded light state relates to its node: the nested and the
/// flattened shape of the default-when-on parameters are each taken
/// when well-formed.
pub open spec fn rel_light_state(v: JsonVal, ls: LightState) -> bool {
    &&& f_int_in(v, "on_off"@, 0, 255) == Some(ls.on_off as int)
    &&& match spec_get(v, "dft_on_state"@) {
        Some(d) => if wf_dft(d) {
            ls.dft_off_on_state matches Some(x) && rel_dft(d, x)
        } else {
            ls.dft_off_on_state is None
        },
        None => ls.dft_off_on_state is None,
    }
    &&& if wf_dft(v) {
        ls.dft_on_on_state matches Some(x) && rel_dft(v, x)
    } else {
        ls.dft_on_on_state is None
    }
    &&& match f_int_in(v, "err_code"@, i16::MIN as int, i16::MAX as int) {
        Some(c) => ls.err_code matches Some(x) && x as int == c,
        None => ls.err_code is None,
    }
}

/// Decodes a light state.
pub fn decode_light_state(n: &JsonNode) -> (r: Option<LightState>)
    ensures
        match r {
            Some(ls) => rel_light_state(n.deep(), ls),
            None => !wf_light_state(n.deep()),
        },
{
    let on_off = match int_in(n, "on_off", 0, 255) {
        Some(i) => i as u8,
        None => { return None; },
    };
    let nested = match get(n, "dft_on_state") {
        Some(d) => decode_dft(d),
        None => None,
    };
    let flat = decode_dft(n);
    let err_code = match int_in(n, "err_code", i16::MIN as i64, i16::MAX as i64) {
        Some(c) => Some(c as i16),
        None => None,
    };
    Some(LightState {
        on_off,
        dft_off_on_state: nested,
        dft_on_on_state: flat,
        err_code,
    })
}

/// Whether a node holds a well-formed outlet entry.
pub open spec fn wf_child(v: JsonVal) -> bool {
    &&& f_text(v, "id"@) is Some
    &&& f_int_in(v, "state"@, 0, 255) is Some
    &&& f_text(v, "alias"@) is Some
    &&& f_int_in(v, "on_time"@, 0, i64::MAX as int) is Some
}

/// How a decoded outlet entry relates to its node.
pub open spec fn rel_child(v: JsonVal, c: SysInfoChild) -> bool {
    &&& f_text(v, "id"@) == Some(c.id@)
    &&& f_int_in(v, "state"@, 0, 255) == Some(c.state as int)
    &&& f_text(v, "alias"@) == Some(c.alias@)
    &&& f_int_in(v, "on_time"@, 0, i64::MAX as int) == Some(c.on_time as int)
}

/// The elements of an array node; empty for any other node.
pub open spec fn arr_elems(v: JsonVal) -> Seq<JsonVal> {
    match v {
        JsonVal::Arr(es) => es,
        _ => Seq::empty(),
    }
}

/// Whether a node is a well-formed outlet list.
pub open spec fn wf_children(v: JsonVal) -> bool {
    v is Arr && forall|i: int| 0 <= i < arr_elems(v).len()
        ==> #[trigger] wf_child(arr_elems(v)[i])
}

/// Decodes the outlet list of a multi-outlet device.
fn decode_children(n: &JsonNode) -> (r: Option<Vec<SysInfoChild>>)
    ensures
        match r {
            Some(cs) => n.deep() is Arr && cs@.len() == arr_elems(n.deep()).len()
                && forall|i: int| 0 <= i < cs@.len()
                    ==> rel_child(arr_elems(n.deep())[i], #[trigger] cs@[i]),
            None => !wf_children(n.deep()),
        },
{
    let elems = match n {
        JsonNode::Arr(v) => v,
        _ => { return None; },
    };
    let ghost es = deep_elems(elems@);
    proof {
        lemma_deep_elems(elems@);
        assert(arr_elems(n.deep()) == es);
    }
    let mut out: Vec<SysInfoChild> = Vec::new();
    let mut i: usize = 0;
    while i < elems.len()
        invariant
            i <= elems@.len(),
            n matches JsonNode::Arr(v) && v == elems,
            es == deep_elems(elems@),
            es.len() == elems@.len(),
            forall|j: int| 0 <= j < es.len() ==> es[j] == elems@[j].deep(),
            out@.len() == i,
            forall|j: int| 0 <= j < i ==> rel_child(es[j], #[trigger] out@[j]),
        decreases elems@.len() - i,
    {
        let e = &elems[i];
        let id = match take_text(e, "id") {
            Some(s) => s,
            None => {
                proof {
                    assert(!wf_child(arr_elems(n.deep())[i as int]));
                }
                return None;
            },
        };
        let state = match int_in(e, "state", 0, 255) {
            Some(v) => v as u8,
            None => {
                proof {
                    assert(!wf_child(arr_elems(n.deep())[i as int]));
                }
                return None;
            },
        };
        let alias = match take_text(e, "alias") {
            Some(s) => s,
            None => {
                proof {
                    assert(!wf_child(arr_elems(n.deep())[i as int]));
                }
                return None;
            },
        };
        let on_time = match int_u64(e, "on_time") {
            Some(v) => v,
            None => {
                proof {
                    assert(!wf_child(arr_elems(n.deep())[i as int]));
                }
                return None;
            },
        };
        out.push(SysInfoChild { id, state, alias, on_time });
        i += 1;
    }
    Some(out)
}

/// Whether a node holds a well-formed system-information payload: the
/// identifying fields must be present with the right type and range.
pub open spec fn wf_sysinfo(v: JsonVal) -> bool {
    &&& f_text(v, "sw_ver"@) is Some
    &&& f_text(v, "hw_ver"@) is Some
    &&& f_text2(v, "type"@, "mic_type"@) is Some
    &&& f_text(v, "model"@) is Some
    &&& f_text2(v, "mac"@, "mic_mac"@) is Some
    &&& f_text(v, "deviceId"@) is Some
    &&& f_text(v, "hwId"@) is Some
    &&& f_text(v, "oemId"@) is Some
    &&& f_text(v, "alias"@) is Some
    &&& f_int_in(v, "err_code"@, i16::MIN as int, i16::MAX as int) is Some
    &&& f_int_in(v, "rssi"@, i32::MIN as int, i32::MAX as int) is Some
}

/// How one optional text field relates to its member.
pub open spec fn rel_opt_text(m: Option<Seq<char>>, o: Option<String>) -> bool {
    match m {
        Some(s) => o matches Some(x) && x@ == s,
        None => o is None,
    }
}

/// How one optional integer field relates to its member.
pub open spec fn rel_opt_int(m: Option<int>, o: Option<int>) -> bool {
    match m {
        Some(i) => o == Some(i),
        None => o is None,
    }
}

/// The value of an optional integer field as a mathematical integer.
pub open spec fn opt_int_of_u8(o: Option<u8>) -> Option<int> {
    match o {
        Some(v) => Some(v as int),
        None => None,
    }
}

/// The value of an optional integer field as a mathematical integer.
pub open spec fn opt_int_of_i64(o: Option<i64>) -> Option<int> {
    match o {
        Some(v) => Some(v as int),
        None => None,
    }
}

/// The value of an optional integer field as a mathematical integer.
pub open spec fn opt_int_of_i32(o: Option<i32>) -> Option<int> {
    match o {
        Some(v) => Some(v as int),
        None => None,
    }
}

/// The value of an optional integer field as a mathematical integer.
pub open spec fn opt_int_of_u64(o: Option<u64>) -> Option<int> {
    match o {
        Some(v) => Some(v as int),
        None => None,
    }
}

/// How a decoded system-information payload relates to its node.
pub open spec fn rel_sysinfo(v: JsonVal, s: SysInfo) -> bool {
    &&& f_text(v, "sw_ver"@) == Some(s.sw_ver@)
    &&& f_text(v, "hw_ver"@) == Some(s.hw_ver@)
    &&& f_text2(v, "type"@, "mic_type"@) == Some(s.hw_type@)
    &&& f_text(v, "model"@) == Some(s.model@)
    &&& f_text2(v, "mac"@, "mic_mac"@) == Some(s.mac@)
    &&& f_text(v, "deviceId"@) == Some(s.device_id@)
    &&& f_text(v, "hwId"@) == Some(s.hw_id@)
    &&& f_text(v, "oemId"@) == Some(s.oem_id@)
    &&& f_text(v, "alias"@) == Some(s.alias@)
    &&& f_int_in(v, "err_code"@, i16::MIN as int, i16::MAX as int) == Some(s.err_code as int)
    &&& f_int_in(v, "rssi"@, i32::MIN as int, i32::MAX as int) == Some(s.rssi as int)
    &&& rel_opt_text(f_text2(v, "dev_name"@, "description"@), s.dev_name)
    &&& rel_opt_text(f_text(v, "active_mode"@), s.active_mode)
    &&& rel_opt_text(f_text(v, "fwId"@), s.fw_id)
    &&& rel_opt_int(f_int_in(v, "relay_state"@, 0, 255), opt_int_of_u8(s.relay_state))
    &&& rel_opt_int(f_int_in(v, "on_time"@, i64::MIN as int, i64::MAX as int), opt_int_of_i64(s.on_time))
    &&& rel_opt_text(f_text(v, "feature"@), s.feature)
    &&& rel_opt_int(f_int_in(v, "updating"@, 0, 255), opt_int_of_u8(s.updating))
    &&& rel_opt_text(f_text(v, "icon_hash"@), s.icon_hash)
    &&& rel_opt_int(f_int_in(v, "led_off"@, 0, 255), opt_int_of_u8(s.led_off))
    &&& rel_opt_int(f_int_in(v, "longitude_i"@, i32::MIN as int, i32::MAX as int), opt_int_of_i32(s.longitude_i))
    &&& rel_opt_int(f_int_in(v, "latitude_i"@, i32::MIN as int, i32::MAX as int), opt_int_of_i32(s.latitude_i))
    &&& rel_opt_int(f_int_in(v, "ntc_state"@, 0, 255), opt_int_of_u8(s.ntc_state))
    &&& match spec_get(v, "children"@) {
        Some(cv) => match s.children {
            Some(cs) => cv is Arr && cs@.len() == arr_elems(cv).len()
                && forall|i: int| 0 <= i < cs@.len()
                    ==> rel_child(arr_elems(cv)[i], #[trigger] cs@[i]),
            None => !wf_children(cv),
        },
        None => s.children is None,
    }
    &&& rel_opt_int(f_int_in(v, "child_num"@, 0, 255), opt_int_of_u8(s.child_num))
    &&& match spec_get(v, "light_state"@) {
        Some(lv) => match s.light_state {
            Some(ls) => rel_light_state(lv, ls),
            None => !wf_light_state(lv),
        },
        None => s.light_state is None,
    }
    &&& rel_opt_int(f_int_in(v, "is_dimmable"@, 0, 255), opt_int_of_u8(s.is_dimmable))
    &&& rel_opt_int(f_int_in(v, "is_color"@, 0, 255), opt_int_of_u8(s.is_color))
    &&& rel_opt_int(f_int_in(v, "is_variable_color_temp"@, 0, 255), opt_int_of_u8(s.is_variable_color_temp))
    &&& rel_opt_int(f_int_in(v, "heapsize"@, 0, i64::MAX as int), opt_int_of_u64(s.heapsize))
}

/// Decodes a system-information payload; a payload missing one of the
/// identifying fields is a shape mismatch.
pub fn decode_sysinfo(n: &JsonNode) -> (r: core::result::Result<SysInfo, ProtocolError>)
    ensures
        match r {
            Ok(s) => rel_sysinfo(n.deep(), s),
            Err(e) => e is DecodeError && !wf_sysinfo(n.deep()),
        },
{
    let sw_ver = match take_text(n, "sw_ver") {
        Some(s) => s,
        None => { return Err(ProtocolError::DecodeError); },
    };
    let hw_ver = match take_text(n, "hw_ver") {
        Some(s) => s,
        None => { return Err(ProtocolError::DecodeError); },
    };
    let hw_type = match take_text_alias(n, "type", "mic_type") {
        Some(s) => s,
        None => { return Err(ProtocolError::DecodeError); },
    };
    let model = match take_text(n, "model") {
        Some(s) => s,
        None => { return Err(ProtocolError::DecodeError); },
    };
    let mac = match take_text_alias(n, "mac", "mic_mac") {
        Some(s) => s,
        None => { return Err(ProtocolError::DecodeError); },
    };
    let device_id = match take_text(n, "deviceId") {
        Some(s) => s,
        None => { return Err(ProtocolError::DecodeError); },
    };
    let hw_id = match take_text(n, "hwId") {
        Some(s) => s,
        None => { return Err(ProtocolError::DecodeError); },
    };
    let oem_id = match take_text(n, "oemId") {
        Some(s) => s,
        None => { return Err(ProtocolError::DecodeError); },
    };
    let alias = match take_text(n, "alias") {
        Some(s) => s,
        None => { return Err(ProtocolError::DecodeError); },
    };
    let err_code = match int_in(n, "err_code", i16::MIN as i64, i16::MAX as i64) {
        Some(i) => i as i16,
        None => { return Err(ProtocolError::DecodeError); },
    };
    let rssi = match int_in(n, "rssi", i32::MIN as i64, i32::MAX as i64) {
        Some(i) => i as i32,
        None => { return Err(ProtocolError::DecodeError); },
    };
    let dev_name = take_text_alias(n, "dev_name", "description");
    let active_mode = take_text(n, "active_mode");
    let fw_id = take_text(n, "fwId");
    let relay_state = match int_in(n, "relay_state", 0, 255) {
        Some(i) => Some(i as u8),
        None => None,
    };
    let on_time = int_in(n, "on_time", i64::MIN, i64::MAX);
    let feature = take_text(n, "feature");
    let updating = match int_in(n, "updating", 0, 255) {
        Some(i) => Some(i as u8),
        None => None,
    };
    let icon_hash = take_text(n, "icon_hash");
    let led_off = match int_in(n, "led_off", 0, 255) {
        Some(i) => Some(i as u8),
        None => None,
    };
    let longitude_i = match int_in(n, "longitude_i", i32::MIN as i64, i32::MAX as i64) {
        Some(i) => Some(i as i32),
        None => None,
    };
    let latitude_i = match int_in(n, "latitude_i", i32::MIN as i64, i32::MAX as i64) {
        Some(i) => Some(i as i32),
        None => None,
    };
    let ntc_state = match int_in(n, "ntc_state", 0, 255) {
        Some(i) => Some(i as u8),
        None => None,
    };
    let children = match get(n, "children") {
        Some(cv) => match decode_children(cv) {
            Some(cs) => Some(cs),
            None => None,
        },
        None => None,
    };
    let child_num = match int_in(n, "child_num", 0, 255) {
        Some(i) => Some(i as u8),
        None => None,
    };
    let light_state = match get(n, "light_state") {
        Some(lv) => decode_light_state(lv),
        None => None,
    };
    let is_dimmable = match int_in(n, "is_dimmable", 0, 255) {
        Some(i) => Some(i as u8),
        None => None,
    };
    let is_color = match int_in(n, "is_color", 0, 255) {
        Some(i) => Some(i as u8),
        None => None,
    };
    let is_variable_color_temp = match int_in(n, "is_variable_color_temp", 0, 255) {
        Some(i) => Some(i as u8),
        None => None,
    };
    let heapsize = int_u64(n, "heapsize");
    Ok(SysInfo {
        sw_ver, hw_ver, hw_type, model, mac, device_id, hw_id, oem_id, alias, dev_name,
        err_code, rssi, active_mode, fw_id, relay_state, on_time, feature, updating,
        icon_hash, led_off, longitude_i, latitude_i, ntc_state, children, child_num,
        light_state, is_dimmable, is_color, is_variable_color_temp, heapsize,
    })
}

// ---------------------------------------------------------------------
// decoding whole reply documents

/// The embedded failure shape of a section: both the code (in 16-bit
/// range) and the message must be present.
pub open spec fn spec_section_stub(v: JsonVal) -> Option<(int, Seq<char>)> {
    match (f_int_in(v, "err_code"@, i16::MIN as int, i16::MAX as int), f_text(v, "err_msg"@)) {
        (Some(c), Some(m)) => Some((c, m)),
        _ => None,
    }
}

/// Reads a section's embedded failure shape.
fn section_stub(n: &JsonNode) -> (r: Option<SectionError>)
    ensures
        match r {
            Some(se) => spec_section_stub(n.deep()) == Some((se.err_code as int, se.err_msg@)),
            None => spec_section_stub(n.deep()) is None,
        },
{
    let code = match int_in(n, "err_code", i16::MIN as i64, i16::MAX as i64) {
        Some(c) => c as i16,
        None => { return None; },
    };
    let msg = match take_text(n, "err_msg") {
        Some(m) => m,
        None => { return None; },
    };
    Some(SectionError { err_code: code, err_msg: msg })
}

/// How a decoded realtime reading relates to its node: a failure shape
/// becomes the fault, anything else is kept whole.
pub open spec fn rel_rt(v: JsonVal, sr: SectionResult<JsonNode>) -> bool {
    match spec_section_stub(v) {
        Some((c, m)) => sr matches SectionResult::Fault(se)
            && se.err_code as int == c && se.err_msg@ == m,
        None => sr matches SectionResult::Payload(nd) && nd.deep() == v,
    }
}

/// Classifies a raw realtime reading.
fn decode_rt(rt: JsonNode) -> (r: SectionResult<JsonNode>)
    ensures
        rel_rt(rt.deep(), r),
{
    match section_stub(&rt) {
        Some(se) => SectionResult::Fault(se),
        None => SectionResult::Payload(rt),
    }
}

/// Whether a plug-style energy-meter section is well formed: it either
/// carries a realtime reading or is a failure stub.
pub open spec fn wf_emeter(v: JsonVal) -> bool {
    spec_get(v, "get_realtime"@) is Some || spec_section_stub(v) is Some
}

/// How a decoded plug-style energy-meter section relates to its node.
pub open spec fn rel_emeter(v: JsonVal, e: SectionResult<Emeter>) -> bool {
    match spec_get(v, "get_realtime"@) {
        Some(rtv) => e matches SectionResult::Payload(em) && rel_rt(rtv, em.realtime),
        None => spec_section_stub(v) matches Some((c, m))
            && e matches SectionResult::Fault(se)
            && se.err_code as int == c && se.err_msg@ == m,
    }
}

/// Decodes the plug-style energy-meter section.
fn decode_emeter(n: JsonNode) -> (r: core::result::Result<SectionResult<Emeter>, ProtocolError>)
    ensures
        match r {
            Ok(e) => rel_emeter(n.deep(), e),
            Err(e) => e is DecodeError && !wf_emeter(n.deep()),
        },
{
    let ghost v = n.deep();
    let mut ms = match n {
        JsonNode::Obj(m) => m,
        _ => { return Err(ProtocolError::DecodeError); },
    };
    match take_member(&mut ms, "get_realtime") {
        Some(rt) => Ok(SectionResult::Payload(Emeter { realtime: decode_rt(rt) })),
        None => {
            let node = JsonNode::Obj(ms);
            proof {
                assert(node.deep() == v);
            }
            match section_stub(&node) {
                Some(se) => Ok(SectionResult::Fault(se)),
                None => Err(ProtocolError::DecodeError),
            }
        },
    }
}

/// Whether a bulb-style realtime reading is well formed.
pub open spec fn wf_sl_rt(v: JsonVal) -> bool {
    &&& f_int_in(v, "power_mw"@, 0, u32::MAX as int) is Some
    &&& f_int_in(v, "err_code"@, i16::MIN as int, i16::MAX as int) is Some
}

/// Whether a bulb-style energy-meter section is well formed.
pub open spec fn wf_sl_emeter(v: JsonVal) -> bool {
    ||| (spec_get(v, "get_realtime"@) matches Some(rtv) && wf_sl_rt(rtv))
    ||| spec_section_stub(v) is Some
}

/// How a decoded bulb-style energy-meter section relates to its node:
/// a well-formed reading wins; a failure stub is the fallback.
pub open spec fn rel_sl_emeter(v: JsonVal, sr: SectionResult<SmartlifeEmeter>) -> bool {
    if spec_get(v, "get_realtime"@) matches Some(rtv) && wf_sl_rt(rtv) {
        sr matches SectionResult::Payload(em)
            && match spec_get(v, "get_realtime"@) {
                Some(rtv) => {
                    &&& f_int_in(rtv, "power_mw"@, 0, u32::MAX as int)
                        == Some(em.realtime.power_mw as int)
                    &&& f_int_in(rtv, "err_code"@, i16::MIN as int, i16::MAX as int)
                        == Some(em.realtime.err_code as int)
                },
                None => false,
            }
    } else {
        spec_section_stub(v) matches Some((c, m))
            && sr matches SectionResult::Fault(se)
            && se.err_code as int == c && se.err_msg@ == m
    }
}

/// Decodes the bulb-style energy-meter section.
fn decode_sl_emeter(n: &JsonNode) -> (r: core::result::Result<SectionResult<SmartlifeEmeter>, ProtocolError>)
    ensures
        match r {
            Ok(e) => rel_sl_emeter(n.deep(), e),
            Err(e) => e is DecodeError && !wf_sl_emeter(n.deep()),
        },
{
    match get(n, "get_realtime") {
        Some(rt) => {
            let power_mw = match int_in(rt, "power_mw", 0, u32::MAX as i64) {
                Some(p) => Some(p as u32),
                None => None,
            };
            let err_code = match int_in(rt, "err_code", i16::MIN as i64, i16::MAX as i64) {
                Some(c) => Some(c as i16),
                None => None,
            };
            if let (Some(p), Some(c)) = (power_mw, err_code) {
                return Ok(SectionResult::Payload(SmartlifeEmeter {
                    realtime: SmartlifeEmeterRealtime { power_mw: p, err_code: c },
                }));
            }
            match section_stub(n) {
                Some(se) => Ok(SectionResult::Fault(se)),
                None => Err(ProtocolError::DecodeError),
            }
        },
        None => {
            match section_stub(n) {
                Some(se) => Ok(SectionResult::Fault(se)),
                None => Err(ProtocolError::DecodeError),
            }
        },
    }
}

/// Whether a lighting-service section is well formed.
pub open spec fn wf_sl_lighting(v: JsonVal) -> bool {
    ||| (spec_get(v, "get_light_state"@) matches Some(lv) && wf_light_state(lv))
    ||| spec_section_stub(v) is Some
}

/// How a decoded lighting-service section relates to its node.
pub open spec fn rel_sl_lighting(v: JsonVal, sr: SectionResult<SmartlifeLightingService>) -> bool {
    if spec_get(v, "get_light_state"@) matches Some(lv) && wf_light_state(lv) {
        sr matches SectionResult::Payload(l)
            && match spec_get(v, "get_light_state"@) {
                Some(lv) => rel_light_state(lv, l.light_state),
                None => false,
            }
    } else {
        spec_section_stub(v) matches Some((c, m))
            && sr matches SectionResult::Fault(se)
            && se.err_code as int == c && se.err_msg@ == m
    }
}

/// Decodes the lighting-service section.
fn decode_sl_lighting(n: &JsonNode) -> (r: core::result::Result<SectionResult<SmartlifeLightingService>, ProtocolError>)
    ensures
        match r {
            Ok(e) => rel_sl_lighting(n.deep(), e),
            Err(e) => e is DecodeError && !wf_sl_lighting(n.deep()),
        },
{
    match get(n, "get_light_state") {
        Some(lv) => {
            match decode_light_state(lv) {
                Some(ls) => Ok(SectionResult::Payload(SmartlifeLightingService {
                    light_state: ls,
                })),
                None => {
                    match section_stub(n) {
                        Some(se) => Ok(SectionResult::Fault(se)),
                        None => Err(ProtocolError::DecodeError),
                    }
                },
            }
        },
        None => {
            match section_stub(n) {
                Some(se) => Ok(SectionResult::Fault(se)),
                None => Err(ProtocolError::DecodeError),
            }
        },
    }
}

/// The five section names are pairwise distinct.
proof fn lemma_section_keys_distinct()
    ensures
        "system"@ != "emeter"@,
        "system"@ != "smartlife.iot.dimmer"@,
        "system"@ != "smartlife.iot.common.emeter"@,
        "system"@ != "smartlife.iot.smartbulb.lightingservice"@,
        "emeter"@ != "smartlife.iot.dimmer"@,
        "emeter"@ != "smartlife.iot.common.emeter"@,
        "emeter"@ != "smartlife.iot.smartbulb.lightingservice"@,
        "smartlife.iot.dimmer"@ != "smartlife.iot.common.emeter"@,
        "smartlife.iot.dimmer"@ != "smartlife.iot.smartbulb.lightingservice"@,
        "smartlife.iot.common.emeter"@ != "smartlife.iot.smartbulb.lightingservice"@,
{
    reveal_strlit("system");
    reveal_strlit("emeter");
    reveal_strlit("smartlife.iot.dimmer");
    reveal_strlit("smartlife.iot.common.emeter");
    reveal_strlit("smartlife.iot.smartbulb.lightingservice");
    assert("system"@.len() == 6);
    assert("emeter"@.len() == 6);
    assert("smartlife.iot.dimmer"@.len() == 20);
    assert("smartlife.iot.common.emeter"@.len() == 27);
    assert("smartlife.iot.smartbulb.lightingservice"@.len() == 39);
    assert("system"@[0] == 's');
    assert("emeter"@[0] == 'e');
}

/// The system-information payload of a whole reply document.
pub open spec fn sys_payload(v: JsonVal) -> Option<JsonVal> {
    match spec_get(v, "system"@) {
        Some(sv) => spec_get(sv, "get_sysinfo"@),
        None => None,
    }
}

/// Whether a whole reply document is well formed: the system payload
/// must be present and well formed, and each optional section, when
/// present, must be well formed.
pub open spec fn wf_device_data(v: JsonVal) -> bool {
    &&& v is Obj
    &&& (sys_payload(v) matches Some(si) && wf_sysinfo(si))
    &&& match spec_get(v, "emeter"@) {
        Some(ev) => wf_emeter(ev),
        None => true,
    }
    &&& match spec_get(v, "smartlife.iot.dimmer"@) {
        Some(dv) => spec_section_stub(dv) is Some,
        None => true,
    }
    &&& match spec_get(v, "smartlife.iot.common.emeter"@) {
        Some(sv) => wf_sl_emeter(sv),
        None => true,
    }
    &&& match spec_get(v, "smartlife.iot.smartbulb.lightingservice"@) {
        Some(lv) => wf_sl_lighting(lv),
        None => true,
    }
}

/// How a decoded reply relates to its document.
pub open spec fn rel_device_data(v: JsonVal, dd: DeviceData) -> bool {
    &&& (sys_payload(v) matches Some(si) && rel_sysinfo(si, dd.system.sysinfo))
    &&& match spec_get(v, "emeter"@) {
        Some(ev) => dd.emeter matches Some(e) && rel_emeter(ev, e),
        None => dd.emeter is None,
    }
    &&& match spec_get(v, "smartlife.iot.dimmer"@) {
        Some(dv) => dd.smartlife.dimmer matches Some(d)
            && spec_section_stub(dv) == Some((d.err_code as int, d.err_msg@)),
        None => dd.smartlife.dimmer is None,
    }
    &&& match spec_get(v, "smartlife.iot.common.emeter"@) {
        Some(sv) => dd.smartlife.emeter matches Some(e) && rel_sl_emeter(sv, e),
        None => dd.smartlife.emeter is None,
    }
    &&& match spec_get(v, "smartlife.iot.smartbulb.lightingservice"@) {
        Some(lv) => dd.smartlife.lightingservice matches Some(l) && rel_sl_lighting(lv, l),
        None => dd.smartlife.lightingservice is None,
    }
}

/// Decodes a whole reply document into its typed view. Succeeds exactly
/// on well-formed documents.
pub fn decode_device_data(doc: JsonNode) -> (r: core::result::Result<DeviceData, ProtocolError>)
    ensures
        match r {
            Ok(dd) => rel_device_data(doc.deep(), dd) && wf_device_data(doc.deep()),
            Err(e) => e is DecodeError && !wf_device_data(doc.deep()),
        },
{
    let ghost v = doc.deep();
    let mut members = match doc {
        JsonNode::Obj(m) => m,
        _ => { return Err(ProtocolError::DecodeError); },
    };
    let ghost o0 = crate::json::deep_members(members@);
    proof {
        assert(v == JsonVal::Obj(o0));
        reveal_strlit("system");
        reveal_strlit("emeter");
        reveal_strlit("smartlife.iot.dimmer");
        reveal_strlit("smartlife.iot.common.emeter");
        reveal_strlit("smartlife.iot.smartbulb.lightingservice");
        reveal_strlit("get_sysinfo");
    }
    let sys_node = match take_member(&mut members, "system") {
        Some(n) => n,
        None => {
            proof { assert(spec_get(v, "system"@) is None); }
            return Err(ProtocolError::DecodeError);
        },
    };
    proof {
        assert(spec_get(v, "system"@) == Some(sys_node.deep()));
    }
    let ghost o1 = crate::json::deep_members(members@);
    let sysinfo = match get(&sys_node, "get_sysinfo") {
        Some(si) => match decode_sysinfo(si) {
            Ok(s) => s,
            Err(e) => {
                proof { assert(!wf_device_data(v)); }
                return Err(e);
            },
        },
        None => {
            proof { assert(sys_payload(v) is None); }
            return Err(ProtocolError::DecodeError);
        },
    };
    let emeter = match take_member(&mut members, "emeter") {
        Some(n) => {
            proof {
                lemma_section_keys_distinct();
                assert(spec_get(v, "emeter"@) == Some(n.deep()));
            }
            match decode_emeter(n) {
                Ok(e) => Some(e),
                Err(e) => {
                    proof { assert(!wf_device_data(v)); }
                    return Err(e);
                },
            }
        },
        None => {
            proof {
                lemma_section_keys_distinct();
                assert(spec_get(v, "emeter"@) is None);
            }
            None
        },
    };
    let ghost o2 = crate::json::deep_members(members@);
    let dimmer = match take_member(&mut members, "smartlife.iot.dimmer") {
        Some(n) => {
            proof {
                lemma_section_keys_distinct();
                assert(spec_get(v, "smartlife.iot.dimmer"@) == Some(n.deep()));
            }
            match section_stub(&n) {
                Some(se) => Some(se),
                None => {
                    proof { assert(!wf_device_data(v)); }
                    return Err(ProtocolError::DecodeError);
                },
            }
        },
        None => {
            proof {
                lemma_section_keys_distinct();
                assert(spec_get(v, "smartlife.iot.dimmer"@) is None);
            }
            None
        },
    };
    let ghost o3 = crate::json::deep_members(members@);
    let sl_emeter = match take_member(&mut members, "smartlife.iot.common.emeter") {
        Some(n) => {
            proof {
                lemma_section_keys_distinct();
                assert(spec_get(v, "smartlife.iot.common.emeter"@) == Some(n.deep()));
            }
            match decode_sl_emeter(&n) {
                Ok(e) => Some(e),
                Err(e) => {
                    proof { assert(!wf_device_data(v)); }
                    return Err(e);
                },
            }
        },
        None => {
            proof {
                lemma_section_keys_distinct();
                assert(spec_get(v, "smartlife.iot.common.emeter"@) is None);
            }
            None
        },
    };
    let sl_lighting = match take_member(&mut members, "smartlife.iot.smartbulb.lightingservice") {
        Some(n) => {
            proof {
                lemma_section_keys_distinct();
                assert(spec_get(v, "smartlife.iot.smartbulb.lightingservice"@) == Some(n.deep()));
            }
            match decode_sl_lighting(&n) {
                Ok(l) => Some(l),
                Err(e) => {
                    proof { assert(!wf_device_data(v)); }
                    return Err(e);
                },
            }
        },
        None => {
            proof {
                lemma_section_keys_distinct();
                assert(spec_get(v, "smartlife.iot.smartbulb.lightingservice"@) is None);
            }
            None
        },
    };
    Ok(DeviceData {
        system: System { sysinfo },
        emeter,
        smartlife: Smartlife {
            dimmer,
            emeter: sl_emeter,
            lightingservice: sl_lighting,
        },
    })
}

} // verus!

//! Device handles: an endpoint, a fixed capability bundle resolved
//! once from the model string, and a transport to send through. Every
//! argument is validated before any network call; every reply is
//! interpreted by a verified function with an exact contract.

use vstd::prelude::*;

use crate::capabilities::{identify, emeter_service, CapabilitySet};
use crate::commands;
use crate::datatypes::{decode_device_data, decode_light_state, rel_light_state,
    wf_light_state, DftOnState, LightState, SetLightState, SysInfo};
use crate::envelope::{check_command_reply, extract_owned};
use crate::error::{Error, ProtocolError, Result};
use crate::json::{spec_get, JsonNode};
use crate::parse::{json_of, parse_json};

verus! {

/// An IPv4 address as four plain octets.
#[derive(Clone, Copy, Debug, PartialEq, Eq, Structural, Hash)]
pub struct V4Addr {
    pub a: u8,
    pub b: u8,
    pub c: u8,
    pub d: u8,
}

impl V4Addr {
    /// Whether the address lies in the loopback block.
    pub open spec fn spec_is_loopback(self) -> bool {
        self.a == 127
    }

    /// Whether the address lies in the loopback block.
    pub fn is_loopback(&self) -> (r: bool)
        ensures
            r == self.spec_is_loopback(),
    {
        self.a == 127
    }
}

/// The network address of a device: an IPv4 address and a port.
#[derive(Clone, Copy, Debug, PartialEq, Eq, Structural, Hash)]
pub struct Endpoint {
    pub ip: V4Addr,
    pub port: u16,
}

/// The port devices listen on, for commands and for discovery.
pub const DEVICE_PORT: u16 = 9999;

/// A transport that carries one request text to an endpoint and hands
/// back the reply text. Implementations open their own connection per
/// call and surface transport failures as errors; nothing is assumed
/// about the reply.
pub trait Protocol {
    /// Sends one message and returns the device's reply text.
    fn send(&self, addr: &Endpoint, msg: &str) -> Result<String>;
}

/// A raw, generic smart device: an endpoint and a transport, with no
/// typed operations.
#[derive(Clone, Debug)]
pub struct RawDevice<T: Protocol> {
    /// The device's address.
    pub addr: Endpoint,
    /// The transport used for every call.
    pub protocol: T,
}

impl<T: Protocol> RawDevice<T> {
    /// Makes a raw device from an address and a transport.
    pub fn from_parts(addr: Endpoint, protocol: T) -> (r: Self)
        ensures
            r.addr == addr,
    {
        RawDevice { addr, protocol }
    }

    /// Sends one request text and parses the reply into a document: a
    /// returned document is exactly the parse of the reply text that
    /// came back. What the document means is decided by the verified
    /// interpretation functions that callers apply to it.
    pub fn send_raw(&self, msg: &str) -> (r: Result<JsonNode>)
        ensures
            r matches Ok(doc) ==> exists|t: Seq<char>| #[trigger] json_of(t) == Some(doc.deep()),
    {
        let reply = match self.protocol.send(&self.addr, msg) {
            Ok(r) => r,
            Err(e) => { return Err(e); },
        };
        match parse_json(reply.as_str()) {
            Some(doc) => Ok(doc),
            None => Err(Error::Protocol(ProtocolError::DecodeError)),
        }
    }

    /// Fetches and decodes the device's system information.
    pub fn sysinfo(&self) -> Result<SysInfo> {
        let doc = self.send_raw(commands::sysinfo_query().as_str())?;
        match decode_device_data(doc) {
            Ok(dd) => Ok(dd.into_sysinfo()),
            Err(e) => Err(Error::Protocol(e)),
        }
    }
}

/// Reads the single-relay state out of decoded system information.
pub fn interpret_relay_is_on(si: &SysInfo) -> (r: Result<bool>)
    ensures
        match r {
            Ok(b) => si.relay_state matches Some(v) && b == (v > 0),
            Err(_) => si.relay_state is None,
        },
{
    match si.relay_state {
        Some(v) => Ok(v > 0),
        None => Err(Error::Other("No relay state".to_owned())),
    }
}

/// Reads one outlet's state out of decoded system information.
pub fn interpret_outlet_is_on(si: &SysInfo, index: usize) -> (r: Result<bool>)
    ensures
        match r {
            Ok(b) => si.children matches Some(cs) && index < cs@.len()
                && b == (cs@[index as int].state > 0),
            Err(_) => si.children is None
                || (si.children matches Some(cs) && index >= cs@.len()),
        },
{
    match &si.children {
        Some(children) => {
            if index < children.len() {
                Ok(children[index].state > 0)
            } else {
                Err(Error::Other("Invalid outlet index".to_owned()))
            }
        },
        None => Err(Error::Other("No relay state".to_owned())),
    }
}

/// Reads the on/off flag out of a decoded light state.
pub fn interpret_light_is_on(ls: &LightState) -> (r: bool)
    ensures
        r == (ls.on_off > 0),
{
    ls.on_off > 0
}

/// Reads the default-when-on parameters out of a decoded light state,
/// whichever shape they arrived in.
pub fn interpret_dft_on_state<'a>(ls: &'a LightState) -> (r: Result<&'a DftOnState>)
    ensures
        match r {
            Ok(d) => (ls.dft_off_on_state matches Some(x) && d == x)
                || (ls.dft_off_on_state is None
                    && (ls.dft_on_on_state matches Some(x) && d == x)),
            Err(_) => ls.dft_off_on_state is None && ls.dft_on_on_state is None,
        },
{
    match &ls.dft_off_on_state {
        Some(d) => Ok(d),
        None => match &ls.dft_on_on_state {
            Some(d) => Ok(d),
            None => Err(Error::Protocol(ProtocolError::DecodeError)),
        },
    }
}

/// The lighting service's name.
pub open spec fn light_service_key() -> Seq<char> {
    "smartlife.iot.smartbulb.lightingservice"@
}

/// The light-state payload of a lighting-service reply: under the
/// query member, or under the transition member as a fallback.
pub open spec fn light_payload(v: crate::json::JsonVal) -> Option<crate::json::JsonVal> {
    match spec_get(v, light_service_key()) {
        Some(sv) => match spec_get(sv, "get_light_state"@) {
            Some(p) => Some(p),
            None => spec_get(sv, "transition_light_state"@),
        },
        None => None,
    }
}

/// Whether a lighting-service reply is well formed: the section is
/// present without an embedded failure, and carries a well-formed
/// light state under one of its two members.
pub open spec fn light_reply_ok(v: crate::json::JsonVal) -> bool {
    &&& (spec_get(v, light_service_key()) matches Some(sv)
        && crate::envelope::spec_stub_error(sv) is None)
    &&& (light_payload(v) matches Some(p) && wf_light_state(p))
}

/// Reads a light state out of a lighting-service reply, separating a
/// missing section, an embedded section failure, and a malformed
/// payload.
pub fn interpret_light_reply(doc: JsonNode) -> (r: Result<LightState>)
    ensures
        match r {
            Ok(ls) => light_reply_ok(doc.deep())
                && (light_payload(doc.deep()) matches Some(lv) && rel_light_state(lv, ls)),
            Err(Error::Protocol(ProtocolError::MissingSection)) => doc.deep() is Obj
                && spec_get(doc.deep(), light_service_key()) is None,
            Err(Error::Protocol(ProtocolError::SectionError(se))) =>
                spec_get(doc.deep(), light_service_key()) matches Some(sv)
                    && crate::envelope::spec_stub_error(sv)
                        == Some((se.err_code as int, se.err_msg@)),
            Err(Error::Protocol(ProtocolError::DecodeError)) => !light_reply_ok(doc.deep()),
            Err(_) => false,
        },
{
    let ghost v = doc.deep();
    let mut members = match doc {
        JsonNode::Obj(m) => m,
        _ => { return Err(Error::Protocol(ProtocolError::DecodeError)); },
    };
    proof {
        assert(v == crate::json::JsonVal::Obj(crate::json::deep_members(members@)));
    }
    let sec = match crate::json::take_member(&mut members, "smartlife.iot.smartbulb.lightingservice") {
        Some(s) => s,
        None => { return Err(Error::Protocol(ProtocolError::MissingSection)); },
    };
    let ghost sv = sec.deep();
    proof {
        assert(spec_get(v, light_service_key()) == Some(sv));
    }
    match crate::envelope::stub_error(&sec) {
        Some((c, m)) => { return Err(Error::Protocol(crate::envelope::stub_to_error(c, m))); },
        None => {},
    }
    let mut sm = match sec {
        JsonNode::Obj(m) => m,
        _ => { return Err(Error::Protocol(ProtocolError::DecodeError)); },
    };
    proof {
        assert(sv == crate::json::JsonVal::Obj(crate::json::deep_members(sm@)));
    }
    let payload = match crate::json::take_member(&mut sm, "get_light_state") {
        Some(p) => p,
        None => {
            match crate::json::take_member(&mut sm, "transition_light_state") {
                Some(p) => p,
                None => { return Err(Error::Protocol(ProtocolError::DecodeError)); },
            }
        },
    };
    match decode_light_state(&payload) {
        Some(ls) => Ok(ls),
        None => Err(Error::Protocol(ProtocolError::DecodeError)),
    }
}

/// A device handle: the endpoint, the transport, and the capability
/// bundle fixed at identification time and never re-derived.
#[derive(Clone, Debug)]
pub struct DeviceHandle<T: Protocol> {
    /// The raw transport-level device.
    pub raw: RawDevice<T>,
    /// The fixed operation bundle.
    pub caps: CapabilitySet,
}

impl<T: Protocol> DeviceHandle<T> {
    /// Makes a handle from an endpoint, a transport, and an assumed
    /// capability bundle.
    pub fn from_parts(addr: Endpoint, protocol: T, caps: CapabilitySet) -> (r: Self)
        ensures
            r.raw.addr == addr,
            r.caps == caps,
    {
        DeviceHandle { raw: RawDevice { addr, protocol }, caps }
    }

    /// Makes a handle by probing the device once for its system
    /// information and resolving the capability bundle from its model;
    /// the handle keeps the address it was given.
    pub fn identify_at(addr: Endpoint, protocol: T) -> (r: Result<Self>)
        ensures
            r matches Ok(h) ==> h.raw.addr == addr,
    {
        let raw = RawDevice { addr, protocol };
        let si = raw.sysinfo()?;
        let caps = identify(&si);
        Ok(DeviceHandle { raw, caps })
    }

    /// Fetches and decodes the device's system information.
    pub fn sysinfo(&self) -> Result<SysInfo> {
        self.raw.sysinfo()
    }

    /// The device's user-given name.
    pub fn alias(&self) -> Result<String> {
        Ok(self.sysinfo()?.alias)
    }

    /// Renames the device and checks the command's error code.
    pub fn set_alias(&self, alias: &str) -> Result<()> {
        let cmd = commands::set_alias_command(alias);
        let doc = self.raw.send_raw(cmd.as_str())?;
        match check_command_reply(&doc, "system", "set_dev_alias") {
            Ok(()) => Ok(()),
            Err(e) => Err(Error::Protocol(e)),
        }
    }

    /// Reboots the device after one second.
    pub fn reboot(&self) -> Result<()> {
        self.reboot_with_delay(1)
    }

    /// Reboots the device after the given delay in seconds.
    pub fn reboot_with_delay(&self, delay_secs: u64) -> Result<()> {
        let cmd = commands::reboot_command(delay_secs);
        let doc = self.raw.send_raw(cmd.as_str())?;
        match check_command_reply(&doc, "system", "reboot") {
            Ok(()) => Ok(()),
            Err(e) => Err(Error::Protocol(e)),
        }
    }

    /// Whether the device is on. Bulb bundles read the light state;
    /// plug bundles read the relay state.
    pub fn is_on(&self) -> (r: Result<bool>)
        ensures
            !(self.caps.switch || self.caps.light) ==> r matches Err(Error::Usage(_)),
            r is Ok ==> self.caps.switch || self.caps.light,
    {
        if !(self.caps.switch || self.caps.light) {
            return Err(Error::Usage("this device cannot be switched".to_owned()));
        }
        if self.caps.switch_via_light {
            let ls = self.get_light_state()?;
            Ok(interpret_light_is_on(&ls))
        } else {
            let si = self.sysinfo()?;
            interpret_relay_is_on(&si)
        }
    }

    /// Whether the device is off.
    pub fn is_off(&self) -> (r: Result<bool>)
        ensures
            !(self.caps.switch || self.caps.light) ==> r matches Err(Error::Usage(_)),
            r is Ok ==> self.caps.switch || self.caps.light,
    {
        match self.is_on() {
            Ok(b) => Ok(!b),
            Err(e) => Err(e),
        }
    }

    /// Switches the device on: a relay command, or a lighting-service
    /// transition for bulb bundles.
    pub fn switch_on(&self) -> (r: Result<()>)
        ensures
            !self.caps.switch ==> r matches Err(Error::Usage(_)),
            r is Ok ==> self.caps.switch,
    {
        self.switch_state(true)
    }

    /// Switches the device off.
    pub fn switch_off(&self) -> (r: Result<()>)
        ensures
            !self.caps.switch ==> r matches Err(Error::Usage(_)),
            r is Ok ==> self.caps.switch,
    {
        self.switch_state(false)
    }

    fn switch_state(&self, on: bool) -> (r: Result<()>)
        ensures
            !self.caps.switch ==> r matches Err(Error::Usage(_)),
            r is Ok ==> self.caps.switch,
    {
        if !self.caps.switch {
            return Err(Error::Usage("this device cannot be switched".to_owned()));
        }
        if self.caps.switch_via_light {
            let cmd = commands::light_transition_command(on);
            let doc = self.raw.send_raw(cmd.as_str())?;
            // A transition reply carries the new light state.
            match interpret_light_reply(doc) {
                Ok(_) => Ok(()),
                Err(e) => Err(e),
            }
        } else {
            let cmd = commands::relay_command(on);
            let doc = self.raw.send_raw(cmd.as_str())?;
            match check_command_reply(&doc, "system", "set_relay_state") {
                Ok(()) => Ok(()),
                Err(e) => Err(Error::Protocol(e)),
            }
        }
    }

    /// Toggles the device and returns the state it was switched to.
    pub fn toggle(&self) -> (r: Result<bool>)
        ensures
            !(self.caps.switch || self.caps.light) ==> r matches Err(Error::Usage(_)),
            r is Ok ==> self.caps.switch,
    {
        if self.is_on()? {
            self.switch_off()?;
            Ok(false)
        } else {
            self.switch_on()?;
            Ok(true)
        }
    }

    /// Switches one outlet of a multi-outlet device: the outlet's
    /// target, the device identifier with the zero-padded index
    /// appended, goes in the command's addressing context.
    pub fn switch(&self, index: u64, on: bool) -> (r: Result<()>)
        ensures
            !self.caps.multi_switch ==> r matches Err(Error::Usage(_)),
            r is Ok ==> self.caps.multi_switch,
    {
        if !self.caps.multi_switch {
            return Err(Error::Usage("this device has no outlets".to_owned()));
        }
        let si = self.sysinfo()?;
        let cmd = commands::outlet_relay_command(si.device_id.as_str(), index, on);
        let doc = self.raw.send_raw(cmd.as_str())?;
        match check_command_reply(&doc, "system", "set_relay_state") {
            Ok(()) => Ok(()),
            Err(e) => Err(Error::Protocol(e)),
        }
    }

    /// Whether one outlet of a multi-outlet device is on.
    pub fn outlet_is_on(&self, index: usize) -> (r: Result<bool>)
        ensures
            !self.caps.multi_switch ==> r matches Err(Error::Usage(_)),
            r is Ok ==> self.caps.multi_switch,
    {
        if !self.caps.multi_switch {
            return Err(Error::Usage("this device has no outlets".to_owned()));
        }
        let si = self.sysinfo()?;
        interpret_outlet_is_on(&si, index)
    }

    /// Toggles one outlet and returns the state it was switched to.
    pub fn outlet_toggle(&self, index: usize) -> (r: Result<bool>)
        ensures
            !self.caps.multi_switch ==> r matches Err(Error::Usage(_)),
            r is Ok ==> self.caps.multi_switch,
    {
        if self.outlet_is_on(index)? {
            self.switch(index as u64, false)?;
            Ok(false)
        } else {
            self.switch(index as u64, true)?;
            Ok(true)
        }
    }

    /// Queries the current light state.
    pub fn get_light_state(&self) -> (r: Result<LightState>)
        ensures
            !self.caps.light ==> r matches Err(Error::Usage(_)),
            r is Ok ==> self.caps.light,
    {
        if !self.caps.light {
            return Err(Error::Usage("this device has no light".to_owned()));
        }
        let cmd = commands::light_state_query();
        let doc = self.raw.send_raw(cmd.as_str())?;
        interpret_light_reply(doc)
    }

    /// Sends a light-state transition and returns the new state. This
    /// is the low-level entry: it validates nothing.
    pub fn set_light_state(&self, state: &SetLightState) -> (r: Result<LightState>)
        ensures
            !self.caps.light ==> r matches Err(Error::Usage(_)),
            r is Ok ==> self.caps.light,
    {
        if !self.caps.light {
            return Err(Error::Usage("this device has no light".to_owned()));
        }
        let cmd = commands::set_light_state_command(state);
        let doc = self.raw.send_raw(cmd.as_str())?;
        interpret_light_reply(doc)
    }

    /// The bulb's percentage brightness.
    pub fn brightness(&self) -> (r: Result<u16>)
        ensures
            !self.caps.dimmer ==> r matches Err(Error::Usage(_)),
            r is Ok ==> self.caps.dimmer,
    {
        if !self.caps.dimmer {
            return Err(Error::Usage("this device is not dimmable".to_owned()));
        }
        let ls = self.get_light_state()?;
        let d = interpret_dft_on_state(&ls)?;
        Ok(d.brightness)
    }

    /// Sets the bulb's percentage brightness; values above 100 are
    /// rejected before any network call.
    pub fn set_brightness(&self, brightness: u16) -> (r: Result<()>)
        ensures
            brightness > 100 ==> r matches Err(Error::Usage(_)),
            !(brightness > 100) && !self.caps.dimmer ==> r matches Err(Error::Usage(_)),
            r is Ok ==> self.caps.dimmer && brightness <= 100,
    {
        if brightness > 100 {
            return Err(Error::Usage("Brightness must be between 0 and 100".to_owned()));
        }
        if !self.caps.dimmer {
            return Err(Error::Usage("this device is not dimmable".to_owned()));
        }
        let state = SetLightState {
            on_off: None,
            hue: None,
            saturation: None,
            color_temp: None,
            brightness: Some(brightness),
        };
        match self.set_light_state(&state) {
            Ok(_) => Ok(()),
            Err(e) => Err(e),
        }
    }

    /// The bulb's hue, saturation and value (brightness).
    pub fn get_hsv(&self) -> (r: Result<(u16, u16, u16)>)
        ensures
            !self.caps.colour ==> r matches Err(Error::Usage(_)),
            r is Ok ==> self.caps.colour,
    {
        if !self.caps.colour {
            return Err(Error::Usage("this device has no colour control".to_owned()));
        }
        let ls = self.get_light_state()?;
        let d = interpret_dft_on_state(&ls)?;
        Ok((d.hue, d.saturation, d.brightness))
    }

    /// Sets the bulb's hue (0 to 360), saturation (0 to 100) and value
    /// (0 to 100); out-of-range arguments are rejected before any
    /// network call.
    pub fn set_hsv(&self, hue: u16, saturation: u16, brightness: u16) -> (r: Result<()>)
        ensures
            hue > 360 ==> r matches Err(Error::Usage(_)),
            hue <= 360 && saturation > 100 ==> r matches Err(Error::Usage(_)),
            hue <= 360 && saturation <= 100 && brightness > 100
                ==> r matches Err(Error::Usage(_)),
            hue <= 360 && saturation <= 100 && brightness <= 100 && !self.caps.colour
                ==> r matches Err(Error::Usage(_)),
            r is Ok ==> self.caps.colour && hue <= 360 && saturation <= 100 && brightness <= 100,
    {
        if hue > 360 {
            return Err(Error::Usage("Hue must be between 0 and 360".to_owned()));
        }
        if saturation > 100 {
            return Err(Error::Usage("Saturation must be between 0 and 100".to_owned()));
        }
        if brightness > 100 {
            return Err(Error::Usage("Brightness must be between 0 and 100".to_owned()));
        }
        if !self.caps.colour {
            return Err(Error::Usage("this device has no colour control".to_owned()));
        }
        let state = SetLightState {
            on_off: None,
            hue: Some(hue),
            saturation: Some(saturation),
            color_temp: None,
            brightness: Some(brightness),
        };
        match self.set_light_state(&state) {
            Ok(_) => Ok(()),
            Err(e) => Err(e),
        }
    }

    /// The service name the bundle's energy operations address.
    pub fn emeter_type(&self) -> (r: String)
        ensures
            self.caps.emeter_common ==> r@ == "smartlife.iot.common.emeter"@,
            !self.caps.emeter_common ==> r@ == "emeter"@,
    {
        emeter_service(&self.caps)
    }

    /// Queries the realtime energy reading; the raw payload is handed
    /// back, since its fields vary by model.
    pub fn get_emeter_realtime(&self) -> (r: Result<JsonNode>)
        ensures
            !self.caps.emeter ==> r matches Err(Error::Usage(_)),
            r is Ok ==> self.caps.emeter,
    {
        if !self.caps.emeter {
            return Err(Error::Usage("this device has no energy meter".to_owned()));
        }
        let svc = self.emeter_type();
        let cmd = commands::emeter_realtime_command(svc.as_str());
        let doc = self.raw.send_raw(cmd.as_str())?;
        match extract_owned(doc, svc.as_str(), "get_realtime") {
            Ok(p) => Ok(p),
            Err(e) => Err(Error::Protocol(e)),
        }
    }

    /// Queries the daily energy usage of one month; months above 12
    /// are rejected before any network call.
    pub fn get_emeter_daily(&self, year: u16, month: u8) -> (r: Result<JsonNode>)
        ensures
            month > 12 ==> r matches Err(Error::Usage(_)),
            month <= 12 && !self.caps.emeter ==> r matches Err(Error::Usage(_)),
            r is Ok ==> self.caps.emeter && month <= 12,
    {
        if month > 12 {
            return Err(Error::Usage("Month must be less than 12".to_owned()));
        }
        if !self.caps.emeter {
            return Err(Error::Usage("this device has no energy meter".to_owned()));
        }
        let svc = self.emeter_type();
        let cmd = commands::emeter_daystat_command(svc.as_str(), year, month);
        let doc = self.raw.send_raw(cmd.as_str())?;
        match extract_owned(doc, svc.as_str(), "get_daystat") {
            Ok(p) => Ok(p),
            Err(e) => Err(Error::Protocol(e)),
        }
    }

    /// Queries the monthly energy usage of one year.
    pub fn get_emeter_monthly(&self, year: u16) -> (r: Result<JsonNode>)
        ensures
            !self.caps.emeter ==> r matches Err(Error::Usage(_)),
            r is Ok ==> self.caps.emeter,
    {
        if !self.caps.emeter {
            return Err(Error::Usage("this device has no energy meter".to_owned()));
        }
        let svc = self.emeter_type();
        let cmd = commands::emeter_monthstat_command(svc.as_str(), year);
        let doc = self.raw.send_raw(cmd.as_str())?;
        match extract_owned(doc, svc.as_str(), "get_monthstat") {
            Ok(p) => Ok(p),
            Err(e) => Err(Error::Protocol(e)),
        }
    }
}

} // verus!

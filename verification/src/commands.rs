//! The command envelope's request side: each operation's outbound
//! document, built as JSON text whose exact content is stated in the
//! contract. One call encodes exactly one operation; the discovery
//! query is the sole multi-section document.

use vstd::prelude::*;

use crate::datatypes::SetLightState;
use crate::text::{escape, spec_digits, spec_escape, u64_text};

verus! {

/// The text of a single-operation command document: the service name
/// maps to the operation name, which maps to the rendered arguments,
/// or to null when the operation takes none.
pub open spec fn spec_build_command(
    service: Seq<char>,
    operation: Seq<char>,
    args: Option<Seq<char>>,
) -> Seq<char> {
    "{\""@.add(spec_escape(service))
        .add("\":{\""@)
        .add(spec_escape(operation))
        .add("\":"@)
        .add(match args {
            Some(a) => a,
            None => "null"@,
        })
        .add("}}"@)
}

/// Builds a single-operation command document. One call encodes
/// exactly one operation; `args`, when given, is the operation's
/// argument object, already rendered as JSON text.
pub fn build_command(service: &str, operation: &str, args: Option<&str>) -> (r: String)
    ensures
        r@ == spec_build_command(
            service@,
            operation@,
            match args {
                Some(a) => Some(a@),
                None => None,
            },
        ),
{
    let mut out = "{\"".to_owned();
    let svc = escape(service);
    out.append(svc.as_str());
    out.append("\":{\"");
    let op = escape(operation);
    out.append(op.as_str());
    out.append("\":");
    match args {
        Some(a) => out.append(a),
        None => out.append("null"),
    }
    out.append("}}");
    proof {
        assert(out@ =~= spec_build_command(
            service@,
            operation@,
            match args {
                Some(a) => Some(a@),
                None => None,
            },
        ));
    }
    out
}

/// The one-shot query for system information.
pub fn sysinfo_query() -> (r: String)
    ensures
        r@ == "{\"system\":{\"get_sysinfo\":null}}"@,
{
    "{\"system\":{\"get_sysinfo\":null}}".to_owned()
}

/// The text of the relay-state command for one target state.
pub open spec fn spec_relay_command(on: bool) -> Seq<char> {
    if on {
        "{\"system\":{\"set_relay_state\":{\"state\":1}}}"@
    } else {
        "{\"system\":{\"set_relay_state\":{\"state\":0}}}"@
    }
}

/// The relay-state command: the default wire encoding of switching a
/// plug on or off.
pub fn relay_command(on: bool) -> (r: String)
    ensures
        r@ == spec_relay_command(on),
{
    if on {
        "{\"system\":{\"set_relay_state\":{\"state\":1}}}".to_owned()
    } else {
        "{\"system\":{\"set_relay_state\":{\"state\":0}}}".to_owned()
    }
}

/// The relay-state command for one outlet of a multi-outlet device:
/// the outlet's target goes in the command's addressing context, never
/// in the payload body.
pub open spec fn spec_outlet_relay_command(id: Seq<char>, index: int, on: bool) -> Seq<char> {
    "{\"context\":{\"child_ids\":[\""@
        .add(spec_escape(id)).add(if index < 10 { seq!['0'] } else { Seq::empty() })
        .add(spec_digits(index))
        .add("\"]},\"system\":{\"set_relay_state\":{\"state\":"@)
        .add(if on { seq!['1'] } else { seq!['0'] })
        .add("}}}"@)
}

/// Builds the relay-state command for one outlet.
pub fn outlet_relay_command(device_id: &str, index: u64, on: bool) -> (r: String)
    ensures
        r@ == spec_outlet_relay_command(device_id@, index as int, on),
{
    let mut out = "{\"context\":{\"child_ids\":[\"".to_owned();
    let id = escape(device_id);
    out.append(id.as_str());
    if index < 10 {
        proof { reveal_strlit("0"); }
        out.append("0");
    }
    let digits = u64_text(index);
    out.append(digits.as_str());
    out.append("\"]},\"system\":{\"set_relay_state\":{\"state\":");
    if on {
        proof { reveal_strlit("1"); }
        out.append("1");
    } else {
        proof { reveal_strlit("0"); }
        out.append("0");
    }
    out.append("}}}");
    proof {
        assert(out@ =~= spec_outlet_relay_command(device_id@, index as int, on));
    }
    out
}

/// The text of the rename command for one alias.
pub open spec fn spec_set_alias_command(alias: Seq<char>) -> Seq<char> {
    "{\"system\":{\"set_dev_alias\":{\"alias\":\""@
        .add(spec_escape(alias))
        .add("\"}}}"@)
}

/// Builds the rename command; the alias is escaped for JSON.
pub fn set_alias_command(alias: &str) -> (r: String)
    ensures
        r@ == spec_set_alias_command(alias@),
{
    let mut out = "{\"system\":{\"set_dev_alias\":{\"alias\":\"".to_owned();
    let a = escape(alias);
    out.append(a.as_str());
    out.append("\"}}}");
    proof {
        assert(out@ =~= spec_set_alias_command(alias@));
    }
    out
}

/// The text of the reboot command for one delay in seconds.
pub open spec fn spec_reboot_command(delay_secs: int) -> Seq<char> {
    "{\"system\":{\"reboot\":{\"delay\":"@
        .add(spec_digits(delay_secs))
        .add("}}}"@)
}

/// Builds the reboot command for a delay in whole seconds.
pub fn reboot_command(delay_secs: u64) -> (r: String)
    ensures
        r@ == spec_reboot_command(delay_secs as int),
{
    let mut out = "{\"system\":{\"reboot\":{\"delay\":".to_owned();
    let digits = u64_text(delay_secs);
    out.append(digits.as_str());
    out.append("}}}");
    proof {
        assert(out@ =~= spec_reboot_command(delay_secs as int));
    }
    out
}

/// The text of the lighting-service transition that bulb classes use
/// in place of the relay command.
pub open spec fn spec_light_transition_command(on: bool) -> Seq<char> {
    if on {
        "{\"smartlife.iot.smartbulb.lightingservice\":{\"transition_light_state\":{\"on_off\":1}}}"@
    } else {
        "{\"smartlife.iot.smartbulb.lightingservice\":{\"transition_light_state\":{\"on_off\":0}}}"@
    }
}

/// The substituted on/off encoding of bulb classes: a lighting-service
/// transition instead of the relay command.
pub fn light_transition_command(on: bool) -> (r: String)
    ensures
        r@ == spec_light_transition_command(on),
{
    if on {
        "{\"smartlife.iot.smartbulb.lightingservice\":{\"transition_light_state\":{\"on_off\":1}}}"
            .to_owned()
    } else {
        "{\"smartlife.iot.smartbulb.lightingservice\":{\"transition_light_state\":{\"on_off\":0}}}"
            .to_owned()
    }
}

/// The query for the current light state.
pub fn light_state_query() -> (r: String)
    ensures
        r@ == "{\"smartlife.iot.smartbulb.lightingservice\":{\"get_light_state\":null}}"@,
{
    "{\"smartlife.iot.smartbulb.lightingservice\":{\"get_light_state\":null}}".to_owned()
}

// ---------------------------------------------------------------------
// the light-state transition with explicit fields

/// Joins rendered parts with commas: empty for none, the single part
/// for one, and comma-separated otherwise.
pub open spec fn spec_join_comma(parts: Seq<Seq<char>>) -> Seq<char>
    decreases parts.len(),
{
    if parts.len() == 0 {
        Seq::empty()
    } else if parts.len() == 1 {
        parts[0]
    } else {
        spec_join_comma(parts.drop_last()).add(seq![',']).add(parts.last())
    }
}

/// The rendered fields of a light-state transition, in wire order,
/// absent fields skipped.
pub open spec fn spec_light_state_parts(s: SetLightState) -> Seq<Seq<char>> {
    let p0: Seq<Seq<char>> = match s.on_off {
        Some(v) => seq!["\"on_off\":"@.add(spec_digits(v as int))],
        None => Seq::empty(),
    };
    let p1: Seq<Seq<char>> = match s.hue {
        Some(v) => seq!["\"hue\":"@.add(spec_digits(v as int))],
        None => Seq::empty(),
    };
    let p2: Seq<Seq<char>> = match s.saturation {
        Some(v) => seq!["\"saturation\":"@.add(spec_digits(v as int))],
        None => Seq::empty(),
    };
    let p3: Seq<Seq<char>> = match s.color_temp {
        Some(v) => seq!["\"color_temp\":"@.add(spec_digits(v as int))],
        None => Seq::empty(),
    };
    let p4: Seq<Seq<char>> = match s.brightness {
        Some(v) => seq!["\"brightness\":"@.add(spec_digits(v as int))],
        None => Seq::empty(),
    };
    p0.add(p1).add(p2).add(p3).add(p4)
}

/// The text of the light-state transition for explicit fields.
pub open spec fn spec_set_light_state_command(s: SetLightState) -> Seq<char> {
    "{\"smartlife.iot.smartbulb.lightingservice\":{\"transition_light_state\":{"@
        .add(spec_join_comma(spec_light_state_parts(s)))
        .add("}}}"@)
}

/// A rendered decimal is never empty.
proof fn lemma_digits_len(n: int)
    ensures
        spec_digits(n).len() >= 1,
    decreases n,
{
    if n >= 10 {
        lemma_digits_len(n / 10);
    }
}

/// Appends one rendered field to the comma-joined accumulator.
fn push_part(acc: &mut String, ghost_parts: Ghost<Seq<Seq<char>>>, part: String)
    requires
        old(acc)@ == spec_join_comma(ghost_parts@),
        (ghost_parts@.len() == 0) <==> (old(acc)@.len() == 0),
        part@.len() > 0,
    ensures
        final(acc)@ == spec_join_comma(ghost_parts@.push(part@)),
        final(acc)@.len() > 0,
{
    if acc.as_str().is_empty() {
        acc.append(part.as_str());
        proof {
            assert(ghost_parts@.len() == 0);
            assert(ghost_parts@.push(part@).len() == 1);
            assert(spec_join_comma(ghost_parts@.push(part@)) == ghost_parts@.push(part@)[0]);
            assert(final(acc)@ =~= spec_join_comma(ghost_parts@.push(part@)));
        }
    } else {
        acc.append(",");
        acc.append(part.as_str());
        proof {
            reveal_strlit(",");
            assert(ghost_parts@.len() >= 1);
            let pushed = ghost_parts@.push(part@);
            assert(pushed.len() >= 2);
            assert(pushed.drop_last() =~= ghost_parts@);
            assert(pushed.last() == part@);
            assert(","@ =~= seq![',']);
            assert(final(acc)@ =~= spec_join_comma(pushed));
        }
    }
}

/// Builds the light-state transition for explicit fields.
pub fn set_light_state_command(s: &SetLightState) -> (r: String)
    ensures
        r@ == spec_set_light_state_command(*s),
{
    let mut body = String::new();
    let ghost mut parts: Seq<Seq<char>> = Seq::empty();
    proof {
        assert(body@ == spec_join_comma(parts));
    }
    match s.on_off {
        Some(v) => {
            let mut p = "\"on_off\":".to_owned();
            let d = u64_text(v as u64);
            p.append(d.as_str());
            proof {
                lemma_digits_len(v as int);
            }
            push_part(&mut body, Ghost(parts), p);
            proof {
                parts = parts.push("\"on_off\":"@.add(spec_digits(v as int)));
            }
        },
        None => {},
    }
    match s.hue {
        Some(v) => {
            let mut p = "\"hue\":".to_owned();
            let d = u64_text(v as u64);
            p.append(d.as_str());
            proof {
                lemma_digits_len(v as int);
            }
            push_part(&mut body, Ghost(parts), p);
            proof {
                parts = parts.push("\"hue\":"@.add(spec_digits(v as int)));
            }
        },
        None => {},
    }
    match s.saturation {
        Some(v) => {
            let mut p = "\"saturation\":".to_owned();
            let d = u64_text(v as u64);
            p.append(d.as_str());
            proof {
                lemma_digits_len(v as int);
            }
            push_part(&mut body, Ghost(parts), p);
            proof {
                parts = parts.push("\"saturation\":"@.add(spec_digits(v as int)));
            }
        },
        None => {},
    }
    match s.color_temp {
        Some(v) => {
            let mut p = "\"color_temp\":".to_owned();
            let d = u64_text(v as u64);
            p.append(d.as_str());
            proof {
                lemma_digits_len(v as int);
            }
            push_part(&mut body, Ghost(parts), p);
            proof {
                parts = parts.push("\"color_temp\":"@.add(spec_digits(v as int)));
            }
        },
        None => {},
    }
    match s.brightness {
        Some(v) => {
            let mut p = "\"brightness\":".to_owned();
            let d = u64_text(v as u64);
            p.append(d.as_str());
            proof {
                lemma_digits_len(v as int);
            }
            push_part(&mut body, Ghost(parts), p);
            proof {
                parts = parts.push("\"brightness\":"@.add(spec_digits(v as int)));
            }
        },
        None => {},
    }
    proof {
        assert(parts =~~= spec_light_state_parts(*s));
    }
    let mut out = "{\"smartlife.iot.smartbulb.lightingservice\":{\"transition_light_state\":{"
        .to_owned();
    out.append(body.as_str());
    out.append("}}}");
    proof {
        assert(out@ =~= spec_set_light_state_command(*s));
    }
    out
}

// ---------------------------------------------------------------------
// energy-meter commands

/// The text of the realtime energy query against one service name.
pub open spec fn spec_emeter_realtime_command(service: Seq<char>) -> Seq<char> {
    "{\""@.add(spec_escape(service)).add("\":{\"get_realtime\":null}}"@)
}

/// Builds the realtime energy query.
pub fn emeter_realtime_command(service: &str) -> (r: String)
    ensures
        r@ == spec_emeter_realtime_command(service@),
{
    let mut out = "{\"".to_owned();
    let svc = escape(service);
    out.append(svc.as_str());
    out.append("\":{\"get_realtime\":null}}");
    proof {
        assert(out@ =~= spec_emeter_realtime_command(service@));
    }
    out
}

/// The text of the daily energy query for one month of one year.
pub open spec fn spec_emeter_daystat_command(service: Seq<char>, year: int, month: int) -> Seq<char> {
    "{\""@.add(spec_escape(service))
        .add("\":{\"get_daystat\":{\"month\":"@)
        .add(spec_digits(month))
        .add(",\"year\":"@)
        .add(spec_digits(year))
        .add("}}}"@)
}

/// Builds the daily energy query.
pub fn emeter_daystat_command(service: &str, year: u16, month: u8) -> (r: String)
    ensures
        r@ == spec_emeter_daystat_command(service@, year as int, month as int),
{
    let mut out = "{\"".to_owned();
    let svc = escape(service);
    out.append(svc.as_str());
    out.append("\":{\"get_daystat\":{\"month\":");
    let m = u64_text(month as u64);
    out.append(m.as_str());
    out.append(",\"year\":");
    let y = u64_text(year as u64);
    out.append(y.as_str());
    out.append("}}}");
    proof {
        assert(out@ =~= spec_emeter_daystat_command(service@, year as int, month as int));
    }
    out
}

/// The text of the monthly energy query for one year.
pub open spec fn spec_emeter_monthstat_command(service: Seq<char>, year: int) -> Seq<char> {
    "{\""@.add(spec_escape(service))
        .add("\":{\"get_monthstat\":{\"year\":"@)
        .add(spec_digits(year))
        .add("}}}"@)
}

/// Builds the monthly energy query.
pub fn emeter_monthstat_command(service: &str, year: u16) -> (r: String)
    ensures
        r@ == spec_emeter_monthstat_command(service@, year as int),
{
    let mut out = "{\"".to_owned();
    let svc = escape(service);
    out.append(svc.as_str());
    out.append("\":{\"get_monthstat\":{\"year\":");
    let y = u64_text(year as u64);
    out.append(y.as_str());
    out.append("}}}");
    proof {
        assert(out@ =~= spec_emeter_monthstat_command(service@, year as int));
    }
    out
}

/// The multi-section discovery query: system info, energy-meter
/// realtime, dimmer parameters, and lighting-service state requested
/// in one document.
pub fn discovery_query() -> (r: String)
    ensures
        r@ == "{\"system\":{\"get_sysinfo\":null},\"emeter\":{\"get_realtime\":null},\"smartlife.iot.dimmer\":{\"get_dimmer_parameters\":null},\"smartlife.iot.common.emeter\":{\"get_realtime\":null},\"smartlife.iot.smartbulb.lightingservice\":{\"get_light_state\":null}}"@,
{
    "{\"system\":{\"get_sysinfo\":null},\"emeter\":{\"get_realtime\":null},\"smartlife.iot.dimmer\":{\"get_dimmer_parameters\":null},\"smartlife.iot.common.emeter\":{\"get_realtime\":null},\"smartlife.iot.smartbulb.lightingservice\":{\"get_light_state\":null}}".to_owned()
}

} // verus!

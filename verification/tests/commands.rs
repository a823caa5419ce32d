//! The exact wire text of each outbound command.

use tplinker::commands::{build_command, emeter_daystat_command, emeter_monthstat_command,
    emeter_realtime_command, light_state_query, light_transition_command, outlet_relay_command,
    reboot_command, relay_command, set_alias_command, set_light_state_command, sysinfo_query};
use tplinker::datatypes::SetLightState;
use tplinker::text::{escape, i64_text, str_eq, u64_text};

#[test]
fn fixed_query_texts() {
    assert_eq!(sysinfo_query(), r#"{"system":{"get_sysinfo":null}}"#);
    assert_eq!(
        light_state_query(),
        r#"{"smartlife.iot.smartbulb.lightingservice":{"get_light_state":null}}"#
    );
    assert_eq!(relay_command(true), r#"{"system":{"set_relay_state":{"state":1}}}"#);
    assert_eq!(relay_command(false), r#"{"system":{"set_relay_state":{"state":0}}}"#);
    assert_eq!(
        light_transition_command(false),
        r#"{"smartlife.iot.smartbulb.lightingservice":{"transition_light_state":{"on_off":0}}}"#
    );
}

#[test]
fn generic_build_wraps_service_and_operation() {
    assert_eq!(
        build_command("system", "get_sysinfo", None),
        r#"{"system":{"get_sysinfo":null}}"#
    );
    assert_eq!(
        build_command("emeter", "get_daystat", Some(r#"{"month":10,"year":2020}"#)),
        r#"{"emeter":{"get_daystat":{"month":10,"year":2020}}}"#
    );
    assert_eq!(
        build_command("a\"b", "op", None),
        "{\"a\\\"b\":{\"op\":null}}"
    );
}

#[test]
fn outlet_target_is_zero_padded_to_width_two() {
    assert_eq!(
        outlet_relay_command("ABC", 3, true),
        r#"{"context":{"child_ids":["ABC03"]},"system":{"set_relay_state":{"state":1}}}"#
    );
    assert_eq!(
        outlet_relay_command("ABC", 12, false),
        r#"{"context":{"child_ids":["ABC12"]},"system":{"set_relay_state":{"state":0}}}"#
    );
    assert_eq!(
        outlet_relay_command("ABC", 123, true),
        r#"{"context":{"child_ids":["ABC123"]},"system":{"set_relay_state":{"state":1}}}"#
    );
}

#[test]
fn alias_text_is_escaped() {
    assert_eq!(
        set_alias_command("da\"ve\\"),
        "{\"system\":{\"set_dev_alias\":{\"alias\":\"da\\\"ve\\\\\"}}}"
    );
    assert_eq!(
        set_alias_command("line\nbreak"),
        "{\"system\":{\"set_dev_alias\":{\"alias\":\"line\\nbreak\"}}}"
    );
}

#[test]
fn escape_of_control_characters() {
    assert_eq!(escape("a\u{01}b"), "a\\u0001b");
    assert_eq!(escape("\t"), "\\t");
    assert_eq!(escape("plain"), "plain");
}

#[test]
fn reboot_delay_in_seconds() {
    assert_eq!(reboot_command(0), r#"{"system":{"reboot":{"delay":0}}}"#);
    assert_eq!(reboot_command(3600), r#"{"system":{"reboot":{"delay":3600}}}"#);
}

#[test]
fn emeter_commands_take_the_service_name() {
    assert_eq!(
        emeter_realtime_command("emeter"),
        r#"{"emeter":{"get_realtime":null}}"#
    );
    assert_eq!(
        emeter_realtime_command("smartlife.iot.common.emeter"),
        r#"{"smartlife.iot.common.emeter":{"get_realtime":null}}"#
    );
    assert_eq!(
        emeter_daystat_command("emeter", 2020, 10),
        r#"{"emeter":{"get_daystat":{"month":10,"year":2020}}}"#
    );
    assert_eq!(
        emeter_monthstat_command("emeter", 2020),
        r#"{"emeter":{"get_monthstat":{"year":2020}}}"#
    );
}

#[test]
fn light_state_fields_in_wire_order() {
    let all = SetLightState {
        on_off: Some(1),
        hue: Some(200),
        saturation: Some(50),
        color_temp: Some(2700),
        brightness: Some(80),
    };
    assert_eq!(
        set_light_state_command(&all),
        "{\"smartlife.iot.smartbulb.lightingservice\":{\"transition_light_state\":{\"on_off\":1,\"hue\":200,\"saturation\":50,\"color_temp\":2700,\"brightness\":80}}}"
    );
    let none = SetLightState {
        on_off: None,
        hue: None,
        saturation: None,
        color_temp: None,
        brightness: None,
    };
    assert_eq!(
        set_light_state_command(&none),
        "{\"smartlife.iot.smartbulb.lightingservice\":{\"transition_light_state\":{}}}"
    );
}

#[test]
fn decimal_renderings() {
    assert_eq!(u64_text(0), "0");
    assert_eq!(u64_text(18446744073709551615), "18446744073709551615");
    assert_eq!(i64_text(-1), "-1");
    assert_eq!(i64_text(-9223372036854775808), "-9223372036854775808");
    assert_eq!(i64_text(42), "42");
}

#[test]
fn character_exact_comparison() {
    assert!(str_eq("abc", "abc"));
    assert!(!str_eq("abc", "abd"));
    assert!(!str_eq("abc", "abcd"));
    assert!(str_eq("", ""));
}

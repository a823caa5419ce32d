//! Device operations driven through a scripted transport: each test
//! hands the handle a queue of canned replies and checks both the
//! messages sent and the values returned.

use std::cell::RefCell;

use tplinker::capabilities::{caps_of, identify, model_class, CapabilitySet, DeviceClass};
use tplinker::devices::{DeviceHandle, Endpoint, Protocol, RawDevice, V4Addr};
use tplinker::datatypes::{DeviceData, SetLightState};
use tplinker::error::{Error, ProtocolError, Result};

const HS100_JSON_OFF: &str = r#"{
  "system": {
    "get_sysinfo": {
      "sw_ver": "1.5.8 Build 180815 Rel.135935",
      "hw_ver": "2.1",
      "type": "IOT.SMARTPLUGSWITCH",
      "model": "HS100(UK)",
      "mac": "00:00:00:00:00:00",
      "dev_name": "Smart Wi-Fi Plug",
      "alias": "Switch Two",
      "relay_state": 0,
      "on_time": 0,
      "active_mode": "none",
      "feature": "TIM",
      "updating": 0,
      "icon_hash": "",
      "rssi": -53,
      "led_off": 0,
      "longitude_i": 123,
      "latitude_i": 3456,
      "hwId": "00000000000000000000000000000000",
      "fwId": "00000000000000000000000000000000",
      "deviceId": "0000000000000000000000000000000000000000",
      "oemId": "FDD18403D5E8DB3613009C820963E018",
      "next_action": {
        "type": -1
      },
      "ntc_state": 0,
      "err_code": 0
    }
  },
  "emeter": {
    "get_realtime": {
      "err_code": -1,
      "err_msg": "module not support"
    }
  },
  "smartlife.iot.dimmer": {
    "err_code": -1,
    "err_msg": "module not support"
  },
  "smartlife.iot.common.emeter": {
    "err_code": -1,
    "err_msg": "module not support"
  },
  "smartlife.iot.smartbulb.lightingservice": {
    "err_code": -1,
    "err_msg": "module not support"
  }
}"#;

const HS100_JSON_ON: &str = r#"{
  "system": {
    "get_sysinfo": {
      "sw_ver": "1.5.8 Build 180815 Rel.135935",
      "hw_ver": "2.1",
      "type": "IOT.SMARTPLUGSWITCH",
      "model": "HS100(UK)",
      "mac": "00:00:00:00:00:00",
      "dev_name": "Smart Wi-Fi Plug",
      "alias": "Switch Two",
      "relay_state": 2,
      "on_time": 0,
      "active_mode": "none",
      "feature": "TIM",
      "updating": 0,
      "icon_hash": "",
      "rssi": -53,
      "led_off": 0,
      "longitude_i": 123,
      "latitude_i": 3456,
      "hwId": "00000000000000000000000000000000",
      "fwId": "00000000000000000000000000000000",
      "deviceId": "0000000000000000000000000000000000000000",
      "oemId": "FDD18403D5E8DB3613009C820963E018",
      "next_action": {
        "type": -1
      },
      "ntc_state": 0,
      "err_code": 0
    }
  },
  "emeter": {
    "get_realtime": {
      "err_code": -1,
      "err_msg": "module not support"
    }
  },
  "smartlife.iot.dimmer": {
    "err_code": -1,
    "err_msg": "module not support"
  },
  "smartlife.iot.common.emeter": {
    "err_code": -1,
    "err_msg": "module not support"
  },
  "smartlife.iot.smartbulb.lightingservice": {
    "err_code": -1,
    "err_msg": "module not support"
  }
}"#;

const HS110_JSON: &str = r#"{
  "system": {
    "get_sysinfo": {
      "err_code": 0,
      "sw_ver": "1.2.5 Build 171213 Rel.095335",
      "hw_ver": "1.0",
      "type": "IOT.SMARTPLUGSWITCH",
      "model": "HS110(UK)",
      "mac": "00:00:00:00:00:00",
      "deviceId": "0000000000000000000000000000000000000000",
      "hwId": "00000000000000000000000000000000",
      "fwId": "00000000000000000000000000000000",
      "oemId": "90AEEA7AECBF1A879FCA3C104C58C4D8",
      "alias": "Switch One",
      "dev_name": "Wi-Fi Smart Plug With Energy Monitoring",
      "icon_hash": "",
      "relay_state": 1,
      "on_time": 12521,
      "active_mode": "schedule",
      "feature": "TIM:ENE",
      "updating": 0,
      "rssi": -40,
      "led_off": 0,
      "latitude": 0.0,
      "longitude": 0.0
    }
  },
  "emeter": {
    "get_realtime": {
      "current": 0.0,
      "voltage": 300.00,
      "power": 1.0,
      "total": 1.0,
      "err_code": 0
    }
  },
  "smartlife.iot.dimmer": {
    "err_code": -1,
    "err_msg": "module not support"
  },
  "smartlife.iot.common.emeter": {
    "err_code": -1,
    "err_msg": "module not support"
  },
  "smartlife.iot.smartbulb.lightingservice": {
    "err_code": -1,
    "err_msg": "module not support"
  }
}"#;

const HS300_JSON: &str = r#"{
  "system": {
    "get_sysinfo": {
      "sw_ver": "1.0.19 Build 200224 Rel.090814",
      "hw_ver": "1.0",
      "model": "HS300(US)",
      "deviceId": "8006D152992421723AD993266C6EC3341B7DF5C6",
      "oemId": "5C9E6254BEBAED63B2B6102966D24C17",
      "hwId": "34C41AA028022D0CCEA5E678E8547C54",
      "rssi": -61,
      "longitude_i": -843913,
      "latitude_i": 337738,
      "alias": "Power Strip",
      "status": "new",
      "mic_type": "IOT.SMARTPLUGSWITCH",
      "feature": "TIM:ENE",
      "mac": "68:FF:7B:B8:8C:F6",
      "updating": 0,
      "led_off": 0,
      "children": [
        {
          "id": "01",
          "state": 1,
          "alias": "Plug 1",
          "on_time": 47724,
          "next_action": {
            "type": -1
          }
        },
        {
          "id": "00",
          "state": 1,
          "alias": "Plug 0",
          "on_time": 2357786,
          "next_action": {
            "type": -1
          }
        },
        {
          "id": "02",
          "state": 1,
          "alias": "Plug 2",
          "on_time": 47724,
          "next_action": {
            "type": -1
          }
        },
        {
          "id": "03",
          "state": 1,
          "alias": "Plug 3",
          "on_time": 47724,
          "next_action": {
            "type": -1
          }
        },
        {
          "id": "04",
          "state": 1,
          "alias": "Plug 4",
          "on_time": 45967,
          "next_action": {
            "type": -1
          }
        },
        {
          "id": "05",
          "state": 1,
          "alias": "Plug 5",
          "on_time": 3906,
          "next_action": {
            "type": -1
          }
        }
      ],
      "child_num": 6,
      "err_code": 0
    }
  },
  "emeter": {
    "get_realtime": {
      "voltage_mv": 117379,
      "current_ma": 1810,
      "power_mw": 204526,
      "total_wh": 231203,
      "err_code": 0
    }
  },
  "smartlife.iot.dimmer": {
    "err_code": -1,
    "err_msg": "module not support"
  },
  "smartlife.iot.common.emeter": {
    "err_code": -1,
    "err_msg": "module not support"
  },
  "smartlife.iot.smartbulb.lightingservice": {
    "err_code": -1,
    "err_msg": "module not support"
  }
}"#;

const LB110_JSON_OFF: &str = r#"{
  "system": {
    "get_sysinfo": {
      "sw_ver": "1.8.6 Build 180809 Rel.091659",
      "hw_ver": "1.0",
      "model": "LB110(EU)",
      "description": "Smart Wi-Fi LED Bulb with Dimmable Light",
      "alias": "Lamp",
      "mic_type": "IOT.SMARTBULB",
      "dev_state": "normal",
      "mic_mac": "000000000000",
      "deviceId": "0000000000000000000000000000000000000000",
      "oemId": "A68E15472071CB761E5CCFB388A1D8AE",
      "hwId": "00000000000000000000000000000000",
      "is_factory": false,
      "disco_ver": "1.0",
      "ctrl_protocols": {
        "name": "Linkie",
        "version": "1.0"
      },
      "light_state": {
        "on_off": 0,
        "dft_on_state": {
          "mode": "normal",
          "hue": 0,
          "saturation": 0,
          "color_temp": 2700,
          "brightness": 1
        }
      },
      "is_dimmable": 1,
      "is_color": 0,
      "is_variable_color_temp": 0,
      "preferred_state": [
        {
          "index": 0,
          "hue": 0,
          "saturation": 0,
          "color_temp": 2700,
          "brightness": 100
        },
        {
          "index": 1,
          "hue": 0,
          "saturation": 0,
          "color_temp": 2700,
          "brightness": 80
        },
        {
          "index": 2,
          "hue": 0,
          "saturation": 0,
          "color_temp": 2700,
          "brightness": 10
        },
        {
          "index": 3,
          "hue": 0,
          "saturation": 0,
          "color_temp": 2700,
          "brightness": 1
        }
      ],
      "rssi": -51,
      "active_mode": "none",
      "heapsize": 290056,
      "err_code": 0
    }
  },
  "emeter": {
    "err_code": -2001,
    "err_msg": "Module not support"
  },
  "smartlife.iot.dimmer": {
    "err_code": -2001,
    "err_msg": "Module not support"
  },
  "smartlife.iot.common.emeter": {
    "get_realtime": {
      "power_mw": 0,
      "err_code": 0
    }
  },
  "smartlife.iot.smartbulb.lightingservice": {
    "get_light_state": {
      "on_off": 0,
      "dft_on_state": {
        "mode": "normal",
        "hue": 0,
        "saturation": 0,
        "color_temp": 2700,
        "brightness": 1
      },
      "err_code": 0
    }
  }
}"#;

const LB110_JSON_ON: &str = r#"{
  "system": {
    "get_sysinfo": {
      "sw_ver": "1.8.6 Build 180809 Rel.091659",
      "hw_ver": "1.0",
      "model": "LB110(EU)",
      "description": "Smart Wi-Fi LED Bulb with Dimmable Light",
      "alias": "Lamp",
      "mic_type": "IOT.SMARTBULB",
      "dev_state": "normal",
      "mic_mac": "000000000000",
      "deviceId": "0000000000000000000000000000000000000000",
      "oemId": "A68E15472071CB761E5CCFB388A1D8AE",
      "hwId": "00000000000000000000000000000000",
      "is_factory": false,
      "disco_ver": "1.0",
      "ctrl_protocols": {
        "name": "Linkie",
        "version": "1.0"
      },
      "light_state": {
        "on_off": 1,
        "mode": "normal",
        "hue": 0,
        "saturation": 0,
        "color_temp": 2700,
        "brightness": 10
      },
      "is_dimmable": 1,
      "is_color": 0,
      "is_variable_color_temp": 0,
      "preferred_state": [
        {
          "index": 0,
          "hue": 0,
          "saturation": 0,
          "color_temp": 2700,
          "brightness": 100
        },
        {
          "index": 1,
          "hue": 0,
          "saturation": 0,
          "color_temp": 2700,
          "brightness": 80
        },
        {
          "index": 2,
          "hue": 0,
          "saturation": 0,
          "color_temp": 2700,
          "brightness": 10
        },
        {
          "index": 3,
          "hue": 0,
          "saturation": 0,
          "color_temp": 2700,
          "brightness": 1
        }
      ],
      "rssi": -48,
      "active_mode": "none",
      "heapsize": 290152,
      "err_code": 0
    }
  },
  "emeter": {
    "err_code": -2001,
    "err_msg": "Module not support"
  },
  "smartlife.iot.dimmer": {
    "err_code": -2001,
    "err_msg": "Module not support"
  },
  "smartlife.iot.common.emeter": {
    "get_realtime": {
      "power_mw": 1800,
      "err_code": 0
    }
  },
  "smartlife.iot.smartbulb.lightingservice": {
    "get_light_state": {
      "on_off": 1,
      "mode": "normal",
      "hue": 0,
      "saturation": 0,
      "color_temp": 2700,
      "brightness": 10,
      "err_code": 0
    }
  }
}"#;


struct DummyProtocol {
    msgs: RefCell<Vec<String>>,
    resps: RefCell<Vec<Result<String>>>,
}

impl DummyProtocol {
    fn new(resp: Result<String>) -> Self {
        Self::multi(vec![resp])
    }

    fn multi(resps: Vec<Result<String>>) -> Self {
        DummyProtocol {
            msgs: RefCell::new(Vec::new()),
            resps: RefCell::new(resps),
        }
    }
}

impl Protocol for DummyProtocol {
    fn send(&self, _addr: &Endpoint, msg: &str) -> Result<String> {
        self.msgs.borrow_mut().push(msg.to_string());
        self.resps.borrow_mut().remove(0)
    }
}

fn endpoint() -> Endpoint {
    Endpoint {
        ip: V4Addr { a: 0, b: 0, c: 0, d: 0 },
        port: 9999,
    }
}

fn dummy_device(caps: CapabilitySet, resps: Vec<Result<String>>) -> DeviceHandle<DummyProtocol> {
    DeviceHandle::from_parts(endpoint(), DummyProtocol::multi(resps), caps)
}

fn sent(device: &DeviceHandle<DummyProtocol>) -> Vec<String> {
    device.raw.protocol.msgs.borrow().clone()
}

fn plug_caps() -> CapabilitySet {
    caps_of(DeviceClass::HS100)
}

fn metered_plug_caps() -> CapabilitySet {
    caps_of(DeviceClass::HS110)
}

fn bulb_caps() -> CapabilitySet {
    caps_of(DeviceClass::LB110)
}

#[test]
fn device_sysinfo() {
    let device = dummy_device(plug_caps(), vec![Ok(HS100_JSON_OFF.to_string())]);

    device.sysinfo().unwrap();
}

#[test]
fn device_alias() {
    let device = dummy_device(plug_caps(), vec![Ok(HS100_JSON_OFF.to_string())]);

    assert_eq!(device.alias().unwrap(), "Switch Two".to_string());
}

#[test]
fn device_set_alias() {
    let device = dummy_device(
        plug_caps(),
        vec![Ok(r#"{"system":{"set_dev_alias":{"err_code":0}}}"#.to_string())],
    );

    device.set_alias("dave").unwrap();

    assert_eq!(sent(&device)[0], r#"{"system":{"set_dev_alias":{"alias":"dave"}}}"#);
}

#[test]
fn device_set_alias_invalid_response() {
    let device = dummy_device(
        plug_caps(),
        vec![
            Ok(r#"{"system":{"set_dev_alias":{"err_code":1}}}"#.to_string()),
            Ok(r#"{"system":{"set_dev_alias":{"invalid":1}}}"#.to_string()),
        ],
    );

    assert!(device.set_alias("dave").is_err());
    assert!(device.set_alias("dave").is_err());
}

#[test]
fn device_reboot_with_delay() {
    let device = dummy_device(
        plug_caps(),
        vec![Ok(r#"{"system":{"reboot":{"err_code":0}}}"#.to_string())],
    );

    device.reboot_with_delay(120).unwrap();

    assert_eq!(sent(&device)[0], r#"{"system":{"reboot":{"delay":120}}}"#);
}

#[test]
fn device_reboot() {
    let device = dummy_device(
        plug_caps(),
        vec![Ok(r#"{"system":{"reboot":{"err_code":0}}}"#.to_string())],
    );

    device.reboot().unwrap();

    assert_eq!(sent(&device)[0], r#"{"system":{"reboot":{"delay":1}}}"#);
}

#[test]
fn switch_is_on_off() {
    let device = dummy_device(
        plug_caps(),
        vec![
            Ok(HS100_JSON_OFF.to_string()),
            Ok(HS100_JSON_OFF.to_string()),
        ],
    );

    assert_eq!(device.is_on().unwrap(), false);
    assert_eq!(device.is_off().unwrap(), true);
}

#[test]
fn switch_on() {
    let device = dummy_device(
        plug_caps(),
        vec![Ok(r#"{"system":{"set_relay_state":{"err_code":0}}}"#.to_string())],
    );

    device.switch_on().unwrap();

    assert_eq!(sent(&device)[0], r#"{"system":{"set_relay_state":{"state":1}}}"#);
}

#[test]
fn switch_off() {
    let device = dummy_device(
        plug_caps(),
        vec![Ok(r#"{"system":{"set_relay_state":{"err_code":0}}}"#.to_string())],
    );

    device.switch_off().unwrap();

    assert_eq!(sent(&device)[0], r#"{"system":{"set_relay_state":{"state":0}}}"#);
}

#[test]
fn switch_toggle_on() {
    let device = dummy_device(
        plug_caps(),
        vec![
            Ok(HS100_JSON_OFF.to_string()),
            Ok(r#"{"system":{"set_relay_state":{"err_code":0}}}"#.to_string()),
        ],
    );

    assert_eq!(device.toggle().unwrap(), true);
    assert_eq!(
        sent(&device),
        vec![
            r#"{"system":{"get_sysinfo":null}}"#,
            r#"{"system":{"set_relay_state":{"state":1}}}"#,
        ]
    );
}

#[test]
fn switch_toggle_off() {
    let device = dummy_device(
        plug_caps(),
        vec![
            Ok(HS100_JSON_ON.to_string()),
            Ok(r#"{"system":{"set_relay_state":{"err_code":0}}}"#.to_string()),
        ],
    );

    assert_eq!(device.toggle().unwrap(), false);
    assert_eq!(
        sent(&device),
        vec![
            r#"{"system":{"get_sysinfo":null}}"#,
            r#"{"system":{"set_relay_state":{"state":0}}}"#,
        ]
    );
}

#[test]
fn get_light_state() {
    let device = dummy_device(bulb_caps(), vec![Ok(LB110_JSON_ON.to_string())]);

    assert_eq!(device.get_light_state().unwrap().on_off, 1);
    assert_eq!(
        sent(&device),
        vec![r#"{"smartlife.iot.smartbulb.lightingservice":{"get_light_state":null}}"#
            .to_string()]
    );
}

#[test]
fn set_light_state() {
    let device = dummy_device(bulb_caps(), vec![Ok(LB110_JSON_ON.to_string())]);
    let mut set_light_state = SetLightState::default();
    set_light_state.on_off = Some(1);

    assert_eq!(device.set_light_state(&set_light_state).unwrap().on_off, 1);
    assert_eq!(sent(&device), vec![
        r#"{"smartlife.iot.smartbulb.lightingservice":{"transition_light_state":{"on_off":1}}}"#.to_string(),
    ]);
}

#[test]
fn brightness() {
    let device = dummy_device(bulb_caps(), vec![Ok(LB110_JSON_ON.to_string())]);

    assert_eq!(device.brightness().unwrap(), 10);
    assert_eq!(
        sent(&device),
        vec![r#"{"smartlife.iot.smartbulb.lightingservice":{"get_light_state":null}}"#
            .to_string()]
    );
}

#[test]
fn set_brightness() {
    let device = dummy_device(bulb_caps(), vec![Ok(LB110_JSON_ON.to_string())]);

    assert!(device.set_brightness(101).is_err());
    device.set_brightness(56).unwrap();
    assert_eq!(sent(&device), vec![
        r#"{"smartlife.iot.smartbulb.lightingservice":{"transition_light_state":{"brightness":56}}}"#.to_string(),
    ]);
}

#[test]
fn get_emeter_realtime() {
    // The reply implements no emeter section, so the envelope reports
    // the feature as missing; the query on the wire is still exact.
    let device = dummy_device(metered_plug_caps(), vec![Ok("{}".to_string())]);

    assert!(matches!(
        device.get_emeter_realtime(),
        Err(Error::Protocol(ProtocolError::MissingSection))
    ));

    assert_eq!(sent(&device), vec![r#"{"emeter":{"get_realtime":null}}"#]);
}

#[test]
fn get_emeter_daily() {
    let device = dummy_device(metered_plug_caps(), vec![Ok("{}".to_string())]);

    assert!(matches!(
        device.get_emeter_daily(2020, 10),
        Err(Error::Protocol(ProtocolError::MissingSection))
    ));

    assert_eq!(
        sent(&device),
        vec![r#"{"emeter":{"get_daystat":{"month":10,"year":2020}}}"#]
    );
}

#[test]
fn get_emeter_daily_invalid_month() {
    let device = dummy_device(metered_plug_caps(), vec![Ok("{}".to_string())]);

    assert!(device.get_emeter_daily(2020, 20).is_err());
}

#[test]
fn get_emeter_monthly() {
    let device = dummy_device(metered_plug_caps(), vec![Ok("{}".to_string())]);

    assert!(matches!(
        device.get_emeter_monthly(2020),
        Err(Error::Protocol(ProtocolError::MissingSection))
    ));

    assert_eq!(
        sent(&device),
        vec![r#"{"emeter":{"get_monthstat":{"year":2020}}}"#]
    );
}

#[test]
fn emeter_realtime_payload_is_returned() {
    let device = dummy_device(
        metered_plug_caps(),
        vec![Ok(r#"{"emeter":{"get_realtime":{"power_mw":1800,"err_code":0}}}"#.to_string())],
    );

    let payload = device.get_emeter_realtime().unwrap();
    assert_eq!(tplinker::json::get_int(&payload, "power_mw"), Some(1800));
}

#[test]
fn test_raw_device_submit_success() {
    let device = RawDevice {
        addr: endpoint(),
        protocol: DummyProtocol::new(Ok(String::from(HS100_JSON_OFF))),
    };

    let device_data: tplinker::datatypes::SysInfo = device.sysinfo().unwrap();

    assert_eq!("Switch Two", device_data.alias);
}

#[test]
fn test_raw_device_submit_failure() {
    let device = RawDevice {
        addr: endpoint(),
        protocol: DummyProtocol::new(Ok(String::from("invalid"))),
    };

    assert!(device.sysinfo().is_err());
}

#[test]
fn bulb_switches_through_lighting_service() {
    let device = dummy_device(bulb_caps(), vec![Ok(LB110_JSON_ON.to_string())]);

    device.switch_on().unwrap();

    assert_eq!(sent(&device), vec![
        r#"{"smartlife.iot.smartbulb.lightingservice":{"transition_light_state":{"on_off":1}}}"#.to_string(),
    ]);
}

#[test]
fn multiswitch_outlet_addressing() {
    // Switching outlet 3 of a device whose identifier is "ABC" targets
    // "ABC03" in the command's addressing context.
    let device = dummy_device(
        caps_of(DeviceClass::HS300),
        vec![
            Ok(r#"{"system":{"get_sysinfo":{"sw_ver":"1","hw_ver":"1","mic_type":"strip",
                "model":"HS300(US)","mac":"m","deviceId":"ABC","hwId":"h","oemId":"o",
                "alias":"strip","err_code":0,"rssi":-10}}}"#
                .to_string()),
            Ok(r#"{"system":{"set_relay_state":{"err_code":0}}}"#.to_string()),
        ],
    );

    device.switch(3, true).unwrap();

    assert_eq!(
        sent(&device)[1],
        r#"{"context":{"child_ids":["ABC03"]},"system":{"set_relay_state":{"state":1}}}"#
    );
}

#[test]
fn model_resolution_earliest_pattern_wins() {
    // case-insensitive, and the first listed pattern decides
    assert_eq!(model_class("hs100(UK)"), DeviceClass::HS100);
    assert_eq!(model_class("KL110(EU)"), DeviceClass::KL110);
    // this string contains both the HS103 and the HS300 pattern;
    // HS103 is listed first and wins
    assert_eq!(model_class("HS103-HS300"), DeviceClass::HS103);
    assert_eq!(model_class("unrelated"), DeviceClass::Unknown);
}

#[test]
fn identify_resolves_bundles() {
    let doc = parse_reply(HS100_JSON_OFF);
    let caps = identify(doc.sysinfo());
    assert!(caps.switch && !caps.emeter && !caps.light);

    let doc = parse_reply(LB110_JSON_ON);
    let caps = identify(doc.sysinfo());
    assert!(caps.switch && caps.light && caps.dimmer && caps.switch_via_light);
    assert!(caps.emeter && caps.emeter_common);
}

fn parse_reply(text: &str) -> DeviceData {
    let node = tplinker::parse::parse_json(text).unwrap();
    tplinker::datatypes::decode_device_data(node).unwrap()
}

#[test]
fn discovery_end_to_end_with_mock_interface() {
    // A mock interface answers the broadcast query with a valid reply
    // that lacks an emeter section. Discovery yields one handle; the
    // energy query on it reports the feature missing, while the
    // switch-state query succeeds.
    let reply_doc = r#"{"system":{"get_sysinfo":{"sw_ver":"1","hw_ver":"1",
        "type":"IOT.SMARTPLUGSWITCH","model":"HS110(UK)","mac":"m","deviceId":"d",
        "hwId":"h","oemId":"o","alias":"plug","err_code":0,"rssi":-40,
        "relay_state":1}}}"#;

    // the device answers from its own address, unframed cipher bytes
    let framed = tplinker::codec::encrypt(reply_doc).unwrap();
    let datagram = &framed[4..];

    let sender = Endpoint {
        ip: V4Addr { a: 192, b: 168, c: 0, d: 99 },
        port: 40001,
    };
    let data = tplinker::discovery::parse_discovery_reply(datagram)
        .expect("a valid reply decodes");
    let merged = tplinker::discovery::merge_discoveries(vec![vec![(sender, data)]]);
    assert_eq!(merged.len(), 1);

    let (addr, data) = &merged[0];
    let caps = identify(data.sysinfo());
    assert!(caps.emeter, "an HS110 bundle includes energy readings");

    let device = DeviceHandle::from_parts(
        *addr,
        DummyProtocol::multi(vec![
            Ok(reply_doc.to_string()),
            Ok(reply_doc.to_string()),
        ]),
        caps,
    );

    assert!(matches!(
        device.get_emeter_realtime(),
        Err(Error::Protocol(ProtocolError::MissingSection))
    ));
    assert_eq!(device.is_on().unwrap(), true);
}

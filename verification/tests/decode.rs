//! Decoding whole reply documents into their typed views, on the
//! reply shapes of several device models.

use tplinker::datatypes::{decode_device_data, DeviceData};
use tplinker::error::ProtocolError;
use tplinker::envelope::extract;
use tplinker::json::JsonNode;
use tplinker::parse::parse_json;
use tplinker::datatypes::{GetLightState, GetLightStateResult, SectionResult};
use tplinker::error::SectionError;

const HS100_JSON_OFF: &str = r#"{
  "system": {
    "get_sysinfo": {
      "sw_ver": "1.5.8 Build 180815 Rel.135935",
      "hw_ver": "2.1",
      "type": "IOT.SMARTPLUGSWITCH",
      "model": "HS100(UK)",
      "mac": "00:00:00:00:00:00",
      "dev_name": "Smart Wi-Fi Plug",
      "alias": "Switch Two",
      "relay_state": 0,
      "on_time": 0,
      "active_mode": "none",
      "feature": "TIM",
      "updating": 0,
      "icon_hash": "",
      "rssi": -53,
      "led_off": 0,
      "longitude_i": 123,
      "latitude_i": 3456,
      "hwId": "00000000000000000000000000000000",
      "fwId": "00000000000000000000000000000000",
      "deviceId": "0000000000000000000000000000000000000000",
      "oemId": "FDD18403D5E8DB3613009C820963E018",
      "next_action": {
        "type": -1
      },
      "ntc_state": 0,
      "err_code": 0
    }
  },
  "emeter": {
    "get_realtime": {
      "err_code": -1,
      "err_msg": "module not support"
    }
  },
  "smartlife.iot.dimmer": {
    "err_code": -1,
    "err_msg": "module not support"
  },
  "smartlife.iot.common.emeter": {
    "err_code": -1,
    "err_msg": "module not support"
  },
  "smartlife.iot.smartbulb.lightingservice": {
    "err_code": -1,
    "err_msg": "module not support"
  }
}"#;

const HS100_JSON_ON: &str = r#"{
  "system": {
    "get_sysinfo": {
      "sw_ver": "1.5.8 Build 180815 Rel.135935",
      "hw_ver": "2.1",
      "type": "IOT.SMARTPLUGSWITCH",
      "model": "HS100(UK)",
      "mac": "00:00:00:00:00:00",
      "dev_name": "Smart Wi-Fi Plug",
      "alias": "Switch Two",
      "relay_state": 2,
      "on_time": 0,
      "active_mode": "none",
      "feature": "TIM",
      "updating": 0,
      "icon_hash": "",
      "rssi": -53,
      "led_off": 0,
      "longitude_i": 123,
      "latitude_i": 3456,
      "hwId": "00000000000000000000000000000000",
      "fwId": "00000000000000000000000000000000",
      "deviceId": "0000000000000000000000000000000000000000",
      "oemId": "FDD18403D5E8DB3613009C820963E018",
      "next_action": {
        "type": -1
      },
      "ntc_state": 0,
      "err_code": 0
    }
  },
  "emeter": {
    "get_realtime": {
      "err_code": -1,
      "err_msg": "module not support"
    }
  },
  "smartlife.iot.dimmer": {
    "err_code": -1,
    "err_msg": "module not support"
  },
  "smartlife.iot.common.emeter": {
    "err_code": -1,
    "err_msg": "module not support"
  },
  "smartlife.iot.smartbulb.lightingservice": {
    "err_code": -1,
    "err_msg": "module not support"
  }
}"#;

const HS110_JSON: &str = r#"{
  "system": {
    "get_sysinfo": {
      "err_code": 0,
      "sw_ver": "1.2.5 Build 171213 Rel.095335",
      "hw_ver": "1.0",
      "type": "IOT.SMARTPLUGSWITCH",
      "model": "HS110(UK)",
      "mac": "00:00:00:00:00:00",
      "deviceId": "0000000000000000000000000000000000000000",
      "hwId": "00000000000000000000000000000000",
      "fwId": "00000000000000000000000000000000",
      "oemId": "90AEEA7AECBF1A879FCA3C104C58C4D8",
      "alias": "Switch One",
      "dev_name": "Wi-Fi Smart Plug With Energy Monitoring",
      "icon_hash": "",
      "relay_state": 1,
      "on_time": 12521,
      "active_mode": "schedule",
      "feature": "TIM:ENE",
      "updating": 0,
      "rssi": -40,
      "led_off": 0,
      "latitude": 0.0,
      "longitude": 0.0
    }
  },
  "emeter": {
    "get_realtime": {
      "current": 0.0,
      "voltage": 300.00,
      "power": 1.0,
      "total": 1.0,
      "err_code": 0
    }
  },
  "smartlife.iot.dimmer": {
    "err_code": -1,
    "err_msg": "module not support"
  },
  "smartlife.iot.common.emeter": {
    "err_code": -1,
    "err_msg": "module not support"
  },
  "smartlife.iot.smartbulb.lightingservice": {
    "err_code": -1,
    "err_msg": "module not support"
  }
}"#;

const HS300_JSON: &str = r#"{
  "system": {
    "get_sysinfo": {
      "sw_ver": "1.0.19 Build 200224 Rel.090814",
      "hw_ver": "1.0",
      "model": "HS300(US)",
      "deviceId": "8006D152992421723AD993266C6EC3341B7DF5C6",
      "oemId": "5C9E6254BEBAED63B2B6102966D24C17",
      "hwId": "34C41AA028022D0CCEA5E678E8547C54",
      "rssi": -61,
      "longitude_i": -843913,
      "latitude_i": 337738,
      "alias": "Power Strip",
      "status": "new",
      "mic_type": "IOT.SMARTPLUGSWITCH",
      "feature": "TIM:ENE",
      "mac": "68:FF:7B:B8:8C:F6",
      "updating": 0,
      "led_off": 0,
      "children": [
        {
          "id": "01",
          "state": 1,
          "alias": "Plug 1",
          "on_time": 47724,
          "next_action": {
            "type": -1
          }
        },
        {
          "id": "00",
          "state": 1,
          "alias": "Plug 0",
          "on_time": 2357786,
          "next_action": {
            "type": -1
          }
        },
        {
          "id": "02",
          "state": 1,
          "alias": "Plug 2",
          "on_time": 47724,
          "next_action": {
            "type": -1
          }
        },
        {
          "id": "03",
          "state": 1,
          "alias": "Plug 3",
          "on_time": 47724,
          "next_action": {
            "type": -1
          }
        },
        {
          "id": "04",
          "state": 1,
          "alias": "Plug 4",
          "on_time": 45967,
          "next_action": {
            "type": -1
          }
        },
        {
          "id": "05",
          "state": 1,
          "alias": "Plug 5",
          "on_time": 3906,
          "next_action": {
            "type": -1
          }
        }
      ],
      "child_num": 6,
      "err_code": 0
    }
  },
  "emeter": {
    "get_realtime": {
      "voltage_mv": 117379,
      "current_ma": 1810,
      "power_mw": 204526,
      "total_wh": 231203,
      "err_code": 0
    }
  },
  "smartlife.iot.dimmer": {
    "err_code": -1,
    "err_msg": "module not support"
  },
  "smartlife.iot.common.emeter": {
    "err_code": -1,
    "err_msg": "module not support"
  },
  "smartlife.iot.smartbulb.lightingservice": {
    "err_code": -1,
    "err_msg": "module not support"
  }
}"#;

const LB110_JSON_OFF: &str = r#"{
  "system": {
    "get_sysinfo": {
      "sw_ver": "1.8.6 Build 180809 Rel.091659",
      "hw_ver": "1.0",
      "model": "LB110(EU)",
      "description": "Smart Wi-Fi LED Bulb with Dimmable Light",
      "alias": "Lamp",
      "mic_type": "IOT.SMARTBULB",
      "dev_state": "normal",
      "mic_mac": "000000000000",
      "deviceId": "0000000000000000000000000000000000000000",
      "oemId": "A68E15472071CB761E5CCFB388A1D8AE",
      "hwId": "00000000000000000000000000000000",
      "is_factory": false,
      "disco_ver": "1.0",
      "ctrl_protocols": {
        "name": "Linkie",
        "version": "1.0"
      },
      "light_state": {
        "on_off": 0,
        "dft_on_state": {
          "mode": "normal",
          "hue": 0,
          "saturation": 0,
          "color_temp": 2700,
          "brightness": 1
        }
      },
      "is_dimmable": 1,
      "is_color": 0,
      "is_variable_color_temp": 0,
      "preferred_state": [
        {
          "index": 0,
          "hue": 0,
          "saturation": 0,
          "color_temp": 2700,
          "brightness": 100
        },
        {
          "index": 1,
          "hue": 0,
          "saturation": 0,
          "color_temp": 2700,
          "brightness": 80
        },
        {
          "index": 2,
          "hue": 0,
          "saturation": 0,
          "color_temp": 2700,
          "brightness": 10
        },
        {
          "index": 3,
          "hue": 0,
          "saturation": 0,
          "color_temp": 2700,
          "brightness": 1
        }
      ],
      "rssi": -51,
      "active_mode": "none",
      "heapsize": 290056,
      "err_code": 0
    }
  },
  "emeter": {
    "err_code": -2001,
    "err_msg": "Module not support"
  },
  "smartlife.iot.dimmer": {
    "err_code": -2001,
    "err_msg": "Module not support"
  },
  "smartlife.iot.common.emeter": {
    "get_realtime": {
      "power_mw": 0,
      "err_code": 0
    }
  },
  "smartlife.iot.smartbulb.lightingservice": {
    "get_light_state": {
      "on_off": 0,
      "dft_on_state": {
        "mode": "normal",
        "hue": 0,
        "saturation": 0,
        "color_temp": 2700,
        "brightness": 1
      },
      "err_code": 0
    }
  }
}"#;

const LB110_JSON_ON: &str = r#"{
  "system": {
    "get_sysinfo": {
      "sw_ver": "1.8.6 Build 180809 Rel.091659",
      "hw_ver": "1.0",
      "model": "LB110(EU)",
      "description": "Smart Wi-Fi LED Bulb with Dimmable Light",
      "alias": "Lamp",
      "mic_type": "IOT.SMARTBULB",
      "dev_state": "normal",
      "mic_mac": "000000000000",
      "deviceId": "0000000000000000000000000000000000000000",
      "oemId": "A68E15472071CB761E5CCFB388A1D8AE",
      "hwId": "00000000000000000000000000000000",
      "is_factory": false,
      "disco_ver": "1.0",
      "ctrl_protocols": {
        "name": "Linkie",
        "version": "1.0"
      },
      "light_state": {
        "on_off": 1,
        "mode": "normal",
        "hue": 0,
        "saturation": 0,
        "color_temp": 2700,
        "brightness": 10
      },
      "is_dimmable": 1,
      "is_color": 0,
      "is_variable_color_temp": 0,
      "preferred_state": [
        {
          "index": 0,
          "hue": 0,
          "saturation": 0,
          "color_temp": 2700,
          "brightness": 100
        },
        {
          "index": 1,
          "hue": 0,
          "saturation": 0,
          "color_temp": 2700,
          "brightness": 80
        },
        {
          "index": 2,
          "hue": 0,
          "saturation": 0,
          "color_temp": 2700,
          "brightness": 10
        },
        {
          "index": 3,
          "hue": 0,
          "saturation": 0,
          "color_temp": 2700,
          "brightness": 1
        }
      ],
      "rssi": -48,
      "active_mode": "none",
      "heapsize": 290152,
      "err_code": 0
    }
  },
  "emeter": {
    "err_code": -2001,
    "err_msg": "Module not support"
  },
  "smartlife.iot.dimmer": {
    "err_code": -2001,
    "err_msg": "Module not support"
  },
  "smartlife.iot.common.emeter": {
    "get_realtime": {
      "power_mw": 1800,
      "err_code": 0
    }
  },
  "smartlife.iot.smartbulb.lightingservice": {
    "get_light_state": {
      "on_off": 1,
      "mode": "normal",
      "hue": 0,
      "saturation": 0,
      "color_temp": 2700,
      "brightness": 10,
      "err_code": 0
    }
  }
}"#;


fn decode(text: &str) -> DeviceData {
    let node = parse_json(text).expect("the fixture is valid JSON");
    decode_device_data(node).expect("the fixture decodes")
}

#[test]
fn deserialise_hs100() {
    let result = decode(HS100_JSON_OFF);

    let sysinfo = result.sysinfo();
    assert_eq!(sysinfo.hw_ver, "2.1");
    assert_eq!(sysinfo.model, "HS100(UK)");
}

#[test]
fn deserialise_hs110() {
    let result = decode(HS110_JSON);

    let sysinfo = result.sysinfo();
    assert_eq!(sysinfo.hw_ver, "1.0");
    assert_eq!(sysinfo.model, "HS110(UK)");
}

#[test]
fn deserialise_hs300() {
    let result = decode(HS300_JSON);

    let sysinfo = result.sysinfo();
    assert_eq!(sysinfo.hw_ver, "1.0");
    assert_eq!(sysinfo.model, "HS300(US)");
    assert_eq!(sysinfo.child_num, Some(6));
    assert_eq!(sysinfo.children.as_ref().map(Vec::len), Some(6));
}

#[test]
fn deserialise_lb110_off() {
    let result = decode(LB110_JSON_OFF);

    let sysinfo = result.sysinfo();
    assert_eq!(sysinfo.hw_ver, "1.0");
    assert_eq!(sysinfo.model, "LB110(EU)");
    assert_eq!(
        sysinfo
            .light_state
            .as_ref()
            .unwrap()
            .dft_on_state()
            .color_temp,
        2700
    );
    let smartlife = result.smartlife;
    assert_eq!(smartlife.emeter().unwrap().realtime.power_mw, 0);
    assert_eq!(
        smartlife
            .lightingservice()
            .unwrap()
            .light_state
            .dft_on_state()
            .color_temp,
        2700
    );
}

#[test]
fn deserialise_lb110_on() {
    let result = decode(LB110_JSON_ON);

    let sysinfo = result.sysinfo();
    assert_eq!(sysinfo.hw_ver, "1.0");
    assert_eq!(sysinfo.model, "LB110(EU)");
    assert_eq!(
        sysinfo
            .light_state
            .as_ref()
            .unwrap()
            .dft_on_state()
            .color_temp,
        2700
    );
    let smartlife = result.smartlife;
    assert_eq!(smartlife.emeter().unwrap().realtime.power_mw, 1800);
    assert_eq!(
        smartlife
            .lightingservice()
            .unwrap()
            .light_state
            .dft_on_state()
            .color_temp,
        2700
    );
}

#[test]
fn emeter_section_missing_yields_missing_section() {
    let node = parse_json(r#"{"system":{"set_relay_state":{"err_code":0}}}"#).unwrap();
    let r = extract(&node, "emeter", "get_realtime");
    assert!(matches!(r, Err(ProtocolError::MissingSection)));
}

#[test]
fn emeter_error_stub_yields_section_error() {
    let node =
        parse_json(r#"{"emeter":{"err_code":-1,"err_msg":"module not supported"}}"#).unwrap();
    let r = extract(&node, "emeter", "get_realtime");
    match r {
        Err(ProtocolError::SectionError(se)) => {
            assert_eq!(se.err_code, -1);
            assert_eq!(se.err_msg, "module not supported");
        }
        other => panic!("expected a section error, got {:?}", other),
    }
}

#[test]
fn payload_error_stub_yields_section_error() {
    let node = parse_json(
        r#"{"emeter":{"get_realtime":{"err_code":-2,"err_msg":"reading failed"}}}"#,
    )
    .unwrap();
    let r = extract(&node, "emeter", "get_realtime");
    match r {
        Err(ProtocolError::SectionError(se)) => {
            assert_eq!(se.err_code, -2);
            assert_eq!(se.err_msg, "reading failed");
        }
        other => panic!("expected a section error, got {:?}", other),
    }
}

#[test]
fn shape_mismatch_yields_decode_error() {
    let node = parse_json(r#"{"emeter":{"something_else":1}}"#).unwrap();
    let r = extract(&node, "emeter", "get_realtime");
    assert!(matches!(r, Err(ProtocolError::DecodeError)));
}

#[test]
fn sysinfo_missing_required_field_fails() {
    // the model field is absent
    let node = parse_json(
        r#"{"system":{"get_sysinfo":{"sw_ver":"1","hw_ver":"1","type":"t","mac":"m",
            "deviceId":"d","hwId":"h","oemId":"o","alias":"a","err_code":0,"rssi":-10}}}"#,
    )
    .unwrap();
    assert!(decode_device_data(node).is_err());
}

#[test]
fn json_numbers_and_lookup() {
    let node = parse_json(r#"{"a":{"b":7},"t":"x","f":1.5}"#).unwrap();
    match tplinker::json::get(&node, "a") {
        Some(inner) => assert_eq!(tplinker::json::get_int(inner, "b"), Some(7)),
        None => panic!("member a is missing"),
    }
    assert!(matches!(tplinker::json::get(&node, "f"), Some(JsonNode::Num(_))));
    assert!(tplinker::json::get(&node, "missing").is_none());
}

#[test]
fn section_result_unwrap_hands_out_the_payload() {
    let r: SectionResult<u8> = SectionResult::Payload(7);
    assert_eq!(r.unwrap(), 7);
}

#[test]
fn light_state_result_separates_payload_and_fault() {
    let doc = decode(LB110_JSON_ON);
    let ls = doc.smartlife.lightingservice().unwrap().light_state.clone();
    let ok = GetLightStateResult {
        lightingservice: SectionResult::Payload(GetLightState { light_state: ls }),
    };
    assert_eq!(ok.light_state().unwrap().on_off, 1);

    let failed = GetLightStateResult {
        lightingservice: SectionResult::Fault(SectionError {
            err_code: -1,
            err_msg: "module not support".to_string(),
        }),
    };
    assert!(failed.light_state().is_err());
}

#[test]
fn smartlife_getters_report_absent_sections() {
    let doc = decode(HS100_JSON_OFF);
    // on this model both smartlife sections are failure stubs
    assert!(doc.smartlife.emeter().is_err());
    assert!(doc.smartlife.lightingservice().is_err());
    assert!(doc.smartlife.dimmer.is_some());
}

#[test]
fn sysinfo_light_flags() {
    let lb = decode(LB110_JSON_ON);
    assert!(lb.sysinfo().is_dimmable());
    assert!(!lb.sysinfo().is_color());

    let hs = decode(HS100_JSON_OFF);
    assert!(!hs.sysinfo().is_dimmable());
    assert!(!hs.sysinfo().is_color());
}

#[test]
fn default_transition_changes_nothing() {
    let d = tplinker::datatypes::SetLightState::default();
    assert!(d.on_off.is_none());
    assert!(d.hue.is_none());
    assert!(d.saturation.is_none());
    assert!(d.color_temp.is_none());
    assert!(d.brightness.is_none());
}

#[test]
fn section_error_message_carries_code_and_text() {
    let se = tplinker::error::SectionError {
        err_code: -2001,
        err_msg: "Module not support".to_string(),
    };
    assert_eq!(se.message(), "-2001: Module not support");
}

use input_relay::coordinate::Coordinate;
use input_relay::device::DeviceEvent;
use input_relay::wire::{encode, quote};

fn expected_escape(c: char) -> String {
    match c {
        '"' => "\\\"".to_string(),
        '\\' => "\\\\".to_string(),
        '\u{8}' => "\\b".to_string(),
        '\u{9}' => "\\t".to_string(),
        '\u{a}' => "\\n".to_string(),
        '\u{c}' => "\\f".to_string(),
        '\u{d}' => "\\r".to_string(),
        c if (c as u32) < 0x20 => {
            let digits = ['0', '1', '2', '3', '4', '5', '6', '7', '8', '9', 'a', 'b', 'c', 'd', 'e', 'f'];
            let code = c as usize;
            format!("\\u00{}{}", digits[code / 16], digits[code % 16])
        }
        c => c.to_string(),
    }
}

fn expected_quote(text: &str) -> String {
    let mut out = String::from("\"");
    for c in text.chars() {
        out.push_str(&expected_escape(c));
    }
    out.push('"');
    out
}

#[test]
fn quote_plain_text() {
    assert_eq!(quote("Left"), "\"Left\"");
    assert_eq!(quote("Unknown(8)"), "\"Unknown(8)\"");
    assert_eq!(quote(""), "\"\"");
}

#[test]
fn quote_escapes_quotation_mark_and_backslash() {
    assert_eq!(quote("\""), "\"\\\"\"");
    assert_eq!(quote("\\"), "\"\\\\\"");
    assert_eq!(quote("a\"b\\c"), "\"a\\\"b\\\\c\"");
}

#[test]
fn quote_escapes_short_control_forms() {
    assert_eq!(quote("\u{8}"), "\"\\b\"");
    assert_eq!(quote("\t"), "\"\\t\"");
    assert_eq!(quote("\n"), "\"\\n\"");
    assert_eq!(quote("\u{c}"), "\"\\f\"");
    assert_eq!(quote("\r"), "\"\\r\"");
}

#[test]
fn quote_escapes_other_control_characters_in_hexadecimal() {
    assert_eq!(quote("\u{0}"), "\"\\u0000\"");
    assert_eq!(quote("\u{1}"), "\"\\u0001\"");
    assert_eq!(quote("\u{b}"), "\"\\u000b\"");
    assert_eq!(quote("\u{e}"), "\"\\u000e\"");
    assert_eq!(quote("\u{1a}"), "\"\\u001a\"");
    assert_eq!(quote("\u{1f}"), "\"\\u001f\"");
}

#[test]
fn quote_leaves_everything_else_alone() {
    assert_eq!(quote(" "), "\" \"");
    assert_eq!(quote("/"), "\"/\"");
    assert_eq!(quote("\u{7f}"), "\"\u{7f}\"");
    assert_eq!(quote("\u{80}"), "\"\u{80}\"");
    assert_eq!(quote("\u{e9}\u{4e2d}\u{1f600}"), "\"\u{e9}\u{4e2d}\u{1f600}\"");
    assert_eq!(quote("\u{2028}"), "\"\u{2028}\"");
}

#[test]
fn quote_every_character_of_the_first_planes() {
    let mut code: u32 = 0;
    while code < 0x3000 {
        if let Some(c) = char::from_u32(code) {
            let text = format!("a{}b", c);
            assert_eq!(quote(&text), expected_quote(&text), "U+{:04X}", code);
        }
        code += 1;
    }
}

#[test]
fn quote_is_read_back_unchanged() {
    let samples = ["", "Left", "a\"b", "tab\there", "\u{0}\u{1f}\u{7f}", "\\\\", "\u{1f600} ok"];
    for sample in samples {
        let back: String = serde_json::from_str(&quote(sample)).unwrap();
        assert_eq!(back, sample);
    }
}

#[test]
fn encode_mouse_press() {
    let event = DeviceEvent::mouse_press("Left".to_string());
    assert_eq!(encode(&event), "{\"kind\":\"MousePress\",\"value\":\"Left\"}");
}

#[test]
fn encode_mouse_release() {
    let event = DeviceEvent::mouse_release("Unknown(8)".to_string());
    assert_eq!(encode(&event), "{\"kind\":\"MouseRelease\",\"value\":\"Unknown(8)\"}");
}

#[test]
fn encode_keyboard_press() {
    let event = DeviceEvent::keyboard_press("KeyA".to_string());
    assert_eq!(encode(&event), "{\"kind\":\"KeyboardPress\",\"value\":\"KeyA\"}");
}

#[test]
fn encode_keyboard_release() {
    let event = DeviceEvent::keyboard_release("ShiftLeft".to_string());
    assert_eq!(encode(&event), "{\"kind\":\"KeyboardRelease\",\"value\":\"ShiftLeft\"}");
}

#[test]
fn encode_mouse_move() {
    let x = Coordinate::parse("-3").unwrap();
    let y = Coordinate::parse("1e21").unwrap();
    let event = DeviceEvent::mouse_move(x, y);
    assert_eq!(encode(&event), "{\"kind\":\"MouseMove\",\"value\":{\"x\":-3,\"y\":1e21}}");
}

#[test]
fn encode_escapes_the_name() {
    let event = DeviceEvent::keyboard_press("a\"b\\c\n".to_string());
    assert_eq!(encode(&event), "{\"kind\":\"KeyboardPress\",\"value\":\"a\\\"b\\\\c\\n\"}");
}

#[test]
fn mouse_move_round_trip() {
    let x: f64 = 120.5;
    let y: f64 = 80.0;
    let x_text = serde_json::to_string(&x).unwrap();
    let y_text = serde_json::to_string(&y).unwrap();
    let event = DeviceEvent::mouse_move(
        Coordinate::parse(&x_text).unwrap(),
        Coordinate::parse(&y_text).unwrap(),
    );
    let frame = encode(&event);
    assert_eq!(frame, "{\"kind\":\"MouseMove\",\"value\":{\"x\":120.5,\"y\":80.0}}");

    let decoded: serde_json::Value = serde_json::from_str(&frame).unwrap();
    let object = decoded.as_object().unwrap();
    assert_eq!(object.len(), 2);
    assert_eq!(object.get("kind").unwrap().as_str().unwrap(), "MouseMove");
    let value = object.get("value").unwrap().as_object().unwrap();
    assert_eq!(value.len(), 2);
    assert_eq!(value.get("x").unwrap().as_f64().unwrap(), 120.5);
    assert_eq!(value.get("y").unwrap().as_f64().unwrap(), 80.0);
}

#[test]
fn named_event_round_trip() {
    let name = "odd \"name\" \\ with \u{1} and \u{e9}";
    let event = DeviceEvent::mouse_press(name.to_string());
    let decoded: serde_json::Value = serde_json::from_str(&encode(&event)).unwrap();
    let object = decoded.as_object().unwrap();
    assert_eq!(object.len(), 2);
    assert_eq!(object.get("kind").unwrap().as_str().unwrap(), "MousePress");
    assert_eq!(object.get("value").unwrap().as_str().unwrap(), name);
}

#[test]
fn different_events_give_different_frames() {
    let number = |text: &str| Coordinate::parse(text).unwrap();
    let events = vec![
        DeviceEvent::mouse_press("Left".to_string()),
        DeviceEvent::mouse_release("Left".to_string()),
        DeviceEvent::keyboard_press("Left".to_string()),
        DeviceEvent::keyboard_release("Left".to_string()),
        DeviceEvent::mouse_press("Right".to_string()),
        DeviceEvent::mouse_press("Lef\"t".to_string()),
        DeviceEvent::mouse_press("Lef\\\"t".to_string()),
        DeviceEvent::mouse_press("{\"x\":1,\"y\":2}".to_string()),
        DeviceEvent::mouse_press("\"},\"value\":\"".to_string()),
        DeviceEvent::mouse_move(number("1"), number("2")),
        DeviceEvent::mouse_move(number("12"), number("2")),
        DeviceEvent::mouse_move(number("1"), number("22")),
        DeviceEvent::mouse_move(number("1.0"), number("2")),
        DeviceEvent::mouse_move(number("-1"), number("2")),
    ];
    let frames: Vec<String> = events.iter().map(encode).collect();
    let mut i: usize = 0;
    while i < frames.len() {
        let mut j: usize = i + 1;
        while j < frames.len() {
            assert_ne!(frames[i], frames[j]);
            j += 1;
        }
        i += 1;
    }
}

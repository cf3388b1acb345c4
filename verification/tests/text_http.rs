use robot_harness::display::{format_status, split_words, status_screen_texts, wrap_text};
use robot_harness::http::{
    escape_json_string, html_response, parse_request_line, render_error_response, route,
    split_request, static_response, str_eq, text_response, Route,
};
use robot_harness::motion::{
    effective_motion_command, gpio_from_directions, hbridge_levels, DriveSample, WheelDirection,
};
use robot_harness::model::{MotionCommand, MotorGpioState, TestKind};
use robot_harness::pins::{audio_in_summary, audio_out_summary, pin_map};
use robot_harness::text::{bool_level, decimal_string, format_uptime};

#[test]
fn decimal_and_uptime() {
    assert_eq!(decimal_string(0), "0");
    assert_eq!(decimal_string(1207), "1207");
    assert_eq!(decimal_string(u64::MAX), u64::MAX.to_string());
    assert_eq!(format_uptime(12, 34), "T+12.034s");
    assert_eq!(format_uptime(0, 0), "T+0.000s");
    assert_eq!(bool_level(true), "HIGH");
}

#[test]
fn pin_map_text() {
    assert_eq!(
        pin_map().to_string(),
        "oled[scl=GPIO9 sda=GPIO8] touch[pet=GPIO5 record=GPIO6] mic[sck=GPIO12 ws=GPIO13 sd=GPIO11] motor[in1=GPIO1 in2=GPIO2 in3=GPIO41 in4=GPIO42] speaker[lrc=GPIO14 bclk=GPIO16 din=GPIO15]"
    );
    assert_eq!(audio_in_summary(12, 13, 11), "sck=GPIO12 ws=GPIO13 sd=GPIO11");
    assert_eq!(audio_out_summary(14, 16, 15), "lrc=GPIO14 bclk=GPIO16 din=GPIO15");
}

#[test]
fn words_split_on_unicode_whitespace() {
    assert_eq!(split_words("  a\tbb\u{3000}ccc \n"), vec!["a", "bb", "ccc"]);
    assert!(split_words(" \t ").is_empty());
}

#[test]
fn wrap_fills_lines_greedily() {
    assert_eq!(
        wrap_text("pet=display record=motor", 21),
        vec!["pet=display", "record=motor"]
    );
    assert_eq!(wrap_text("a b c", 3), vec!["a b", "c"]);
    assert_eq!(wrap_text("", 21), vec![""]);
    assert_eq!(wrap_text("abcdefghijklmnopqrstuvwxyz x", 21), vec!["abcdefghijklmnopqrstuvwxyz", "x"]);
    // widths count bytes: each 'ş' is two bytes
    assert_eq!(wrap_text("şş şş", 4), vec!["şş", "şş"]);
}

#[test]
fn wrapped_lines_rejoin_to_words() {
    let text = "the quick  brown fox jumps over the lazy dog again and again";
    let lines = wrap_text(text, 10);
    assert_eq!(lines.join(" "), split_words(text).join(" "));
    assert!(lines.iter().all(|l| l.len() <= 10));
}

#[test]
fn status_screen_layout() {
    let texts = status_screen_texts("BOOT", "one two three four five six seven eight nine ten eleven twelve thirteen fourteen");
    assert_eq!(texts[0].text, "BOOT");
    assert_eq!(texts[0].y, 0);
    assert_eq!(texts.len(), 5);
    let ys: Vec<i32> = texts.iter().skip(1).map(|t| t.y).collect();
    assert_eq!(ys, vec![18, 29, 40, 51]);
    assert_eq!(texts[1].text, "one two three four");
}

#[test]
fn status_cache_text() {
    assert_eq!(format_status("DISPLAY TEST", "smiling face rendered", 0x3C), "DISPLAY TEST: smiling face rendered @0x3C");
    assert_eq!(format_status("A", "b", 0x0A), "A: b @0x0A");
}

#[test]
fn requests_split_at_blank_line() {
    let (head, body) = split_request("POST /api/system HTTP/1.1\r\nHost: x\r\n\r\n{\"a\":1}\r\n\r\n").unwrap();
    assert_eq!(head, "POST /api/system HTTP/1.1\r\nHost: x");
    assert_eq!(body, "{\"a\":1}\r\n\r\n");
    assert_eq!(
        split_request("GET / HTTP/1.1\r\n").unwrap_err(),
        "invalid HTTP request: missing CRLF separator"
    );
}

#[test]
fn request_line_parsing() {
    let (m, p) = parse_request_line("GET /api/state HTTP/1.1\r\nHost: x").unwrap();
    assert_eq!((m.as_str(), p.as_str()), ("GET", "/api/state"));
    assert_eq!(parse_request_line("").unwrap_err(), "missing HTTP request line");
    assert_eq!(parse_request_line("  \r\nHost: x").unwrap_err(), "missing HTTP method");
    assert_eq!(parse_request_line("GET\r\n").unwrap_err(), "missing HTTP path");
}

#[test]
fn routes() {
    assert_eq!(route("GET", "/"), Route::Index);
    assert_eq!(route("GET", "/index.html"), Route::Index);
    assert_eq!(route("POST", "/api/motors/arcade"), Route::ArcadeDrive);
    assert_eq!(route("GET", "/api/system"), Route::NotFound);
    assert!(str_eq("abc", "abc"));
    assert!(!str_eq("abc", "abd"));
    assert_eq!(
        static_response(Route::NotFound, "").unwrap(),
        "HTTP/1.1 404 Not Found\r\nContent-Type: text/plain; charset=utf-8\r\nContent-Length: 15\r\nConnection: close\r\nCache-Control: no-store\r\n\r\nroute not found"
    );
    assert!(static_response(Route::State, "").is_none());
}

#[test]
fn responses_count_body_bytes() {
    assert_eq!(
        text_response("200 OK", "text/plain", "ış"),
        "HTTP/1.1 200 OK\r\nContent-Type: text/plain\r\nContent-Length: 4\r\nConnection: close\r\nCache-Control: no-store\r\n\r\nış"
    );
    assert!(html_response("<p>").starts_with("HTTP/1.1 200 OK\r\nContent-Type: text/html; charset=utf-8\r\nContent-Length: 3\r\n"));
}

#[test]
fn error_responses_escape_quotes() {
    assert_eq!(escape_json_string(r#"a"b\c"#), r#"a\"b\\c"#);
    let r = render_error_response("bad \"json\"");
    assert!(r.starts_with("HTTP/1.1 400 Bad Request\r\n"));
    assert!(r.ends_with("\r\n\r\n{\"error\":\"bad \\\"json\\\"\"}"));
}

#[test]
fn drive_mapping() {
    let base = DriveSample { throttle_in_deadzone: true, turn_in_deadzone: true, turn_dominates: false, turn_positive: false, throttle_positive: false };
    assert_eq!(effective_motion_command(base), MotionCommand::Stop);
    let turn = DriveSample { turn_in_deadzone: false, turn_dominates: true, turn_positive: true, ..base };
    assert_eq!(effective_motion_command(turn), MotionCommand::TurnRight);
    let back = DriveSample { throttle_in_deadzone: false, ..base };
    assert_eq!(effective_motion_command(back), MotionCommand::Backward);
}

#[test]
fn hbridge_patterns_match_wheel_directions() {
    assert_eq!(hbridge_levels(MotionCommand::Forward), MotorGpioState { in1: true, in2: false, in3: true, in4: false });
    assert_eq!(hbridge_levels(MotionCommand::ArcadeDrive), MotorGpioState { in1: false, in2: false, in3: false, in4: false });
    assert_eq!(
        gpio_from_directions(WheelDirection::Forward, WheelDirection::Reverse),
        hbridge_levels(MotionCommand::TurnRight)
    );
    assert_eq!(
        gpio_from_directions(WheelDirection::Idle, WheelDirection::Idle),
        hbridge_levels(MotionCommand::Stop)
    );
    assert_eq!(TestKind::AudioOut.label_tr(), "Hoparlör Hazırlık Testi");
}

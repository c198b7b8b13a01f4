use std::cell::RefCell;

use rmcp_xdotool::parse::parse_lenient_i32;
use rmcp_xdotool::translate::{
    click_at_args, double_click_args, move_mouse_args, scroll_args, search_window_args,
    type_text_args, window_geometry_args,
};
use rmcp_xdotool::{
    default_button, default_clicks, default_delay, default_search_type, ClickAtParams,
    ClickParams, Direction, ErrorKind, KeyPressParams, MoveMouseParams, ProcessOutput,
    ScrollParams, SearchKind, SearchWindowParams, ToolError, TypeTextParams, WindowIdParams,
    XdotoolServer,
};

fn exited(success: bool, stdout: &str, stderr: &str) -> Result<ProcessOutput, String> {
    Ok(ProcessOutput {
        success,
        stdout: stdout.to_string(),
        stderr: stderr.to_string(),
    })
}

fn strs(v: &[String]) -> Vec<&str> {
    v.iter().map(|s| s.as_str()).collect()
}

fn error_of(r: Result<String, ToolError>) -> (ErrorKind, String) {
    match r {
        Ok(t) => panic!("expected an error, got {:?}", t),
        Err(e) => (e.kind, e.message),
    }
}

#[test]
fn button_names_for_every_number() {
    assert_eq!(XdotoolServer::button_name(1), "left");
    assert_eq!(XdotoolServer::button_name(2), "middle");
    assert_eq!(XdotoolServer::button_name(3), "right");
    assert_eq!(XdotoolServer::button_name(0), "unknown");
    assert_eq!(XdotoolServer::button_name(4), "unknown");
    assert_eq!(XdotoolServer::button_name(255), "unknown");
}

#[test]
fn click_passes_unknown_button_on() {
    let server = XdotoolServer::new();
    let seen = RefCell::new(Vec::new());
    let r = server.click(ClickParams { button: 9 }, |a| {
        *seen.borrow_mut() = a;
        exited(true, "", "")
    });
    assert_eq!(strs(&seen.borrow()), vec!["click", "9"]);
    assert_eq!(r.unwrap(), "Clicked unknown mouse button");
}

#[test]
fn scroll_directions_in_any_case() {
    let server = XdotoolServer::new();
    for (word, wheel) in [("up", "4"), ("DOWN", "5"), ("Left", "6"), ("rIGHT", "7")] {
        let seen = RefCell::new(Vec::new());
        let r = server.scroll(
            ScrollParams { direction: word.to_string(), clicks: 2 },
            |a| {
                *seen.borrow_mut() = a;
                exited(true, "", "")
            },
        );
        assert_eq!(strs(&seen.borrow()), vec!["click", "--repeat", "2", wheel]);
        assert_eq!(r.unwrap(), format!("Scrolled {} 2 clicks", word));
    }
}

#[test]
fn scroll_refuses_unknown_direction_before_running() {
    let server = XdotoolServer::new();
    let ran = RefCell::new(false);
    let r = server.scroll(
        ScrollParams { direction: "sideways".to_string(), clicks: 3 },
        |_| {
            *ran.borrow_mut() = true;
            exited(true, "", "")
        },
    );
    assert!(!*ran.borrow());
    let (kind, message) = error_of(r);
    assert_eq!(kind, ErrorKind::Invalid);
    assert_eq!(message, "Invalid direction. Use: up, down, left, right");
}

#[test]
fn direction_parsing() {
    assert_eq!(Direction::from_lowercase("up"), Some(Direction::Up));
    assert_eq!(Direction::from_lowercase("UP"), None);
    assert_eq!(Direction::parse("Right").ok(), Some(Direction::Right));
    assert_eq!(Direction::Left.wheel_button(), 6);
    assert!(Direction::parse("").is_err());
}

#[test]
fn reads_give_the_same_reply_twice() {
    let server = XdotoolServer::new();
    let first = server.get_active_window(|_| exited(true, "58720263\n", ""));
    let second = server.get_active_window(|_| exited(true, "58720263\n", ""));
    assert_eq!(first.unwrap(), "Active window ID: 58720263");
    assert_eq!(second.unwrap(), "Active window ID: 58720263");
    let p1 = server.get_mouse_position(|_| exited(true, "X=3\nY=4\nSCREEN=0\n", ""));
    let p2 = server.get_mouse_position(|_| exited(true, "X=3\nY=4\nSCREEN=0\n", ""));
    assert_eq!(p1.unwrap(), p2.unwrap());
}

#[test]
fn geometry_query_keeps_window_id() {
    let id = "0x1 'odd\" id";
    let args = window_geometry_args(id);
    assert_eq!(strs(&args), vec!["getwindowgeometry", "--shell", id]);
}

#[test]
fn search_failure_exit_is_no_match() {
    let server = XdotoolServer::new();
    let r = server.search_window(
        SearchWindowParams { query: "firefox".to_string(), search_type: "any".to_string() },
        |_| exited(false, "", ""),
    );
    assert_eq!(r.unwrap(), "No windows found matching 'firefox'");
}

#[test]
fn search_empty_output_is_no_match() {
    let server = XdotoolServer::new();
    let r = server.search_window(
        SearchWindowParams { query: "x".to_string(), search_type: "name".to_string() },
        |_| exited(true, "", ""),
    );
    assert_eq!(r.unwrap(), "No windows found matching 'x'");
}

#[test]
fn search_lists_every_window() {
    let server = XdotoolServer::new();
    let seen = RefCell::new(Vec::new());
    let r = server.search_window(
        SearchWindowParams { query: "term".to_string(), search_type: "CLASS".to_string() },
        |a| {
            *seen.borrow_mut() = a;
            exited(true, "101\n102\n103\n", "")
        },
    );
    assert_eq!(strs(&seen.borrow()), vec!["search", "--class", "term"]);
    assert_eq!(r.unwrap(), "Found 3 window(s):\n101\n102\n103");
}

#[test]
fn search_launch_failure_is_an_error() {
    let server = XdotoolServer::new();
    let r = server.search_window(
        SearchWindowParams { query: "q".to_string(), search_type: "any".to_string() },
        |_| Err("No such file or directory (os error 2)".to_string()),
    );
    let (kind, message) = error_of(r);
    assert_eq!(kind, ErrorKind::Launch);
    assert_eq!(message, "Failed to run xdotool: No such file or directory (os error 2)");
}

#[test]
fn search_kind_flags() {
    assert_eq!(SearchKind::parse("Name"), SearchKind::Name);
    assert_eq!(SearchKind::parse("classname"), SearchKind::ClassName);
    assert_eq!(SearchKind::parse("bogus"), SearchKind::Any);
    assert_eq!(strs(&search_window_args(SearchKind::ClassName, "a")), vec!["search", "--classname", "a"]);
    assert_eq!(strs(&search_window_args(SearchKind::Any, "a b")), vec!["search", "a b"]);
}

#[test]
fn move_scenario() {
    assert_eq!(strs(&move_mouse_args(100, 200)), vec!["mousemove", "100", "200"]);
    let server = XdotoolServer::new();
    let r = server.move_mouse(MoveMouseParams { x: 100, y: 200 }, |_| exited(true, "", ""));
    assert_eq!(r.unwrap(), "Mouse moved to (100, 200)");
}

#[test]
fn move_negative_coordinates() {
    assert_eq!(strs(&move_mouse_args(-5, i32::MIN)), vec!["mousemove", "-5", "-2147483648"]);
}

#[test]
fn click_at_scenario() {
    assert_eq!(strs(&click_at_args(50, 60, 3)), vec!["mousemove", "50", "60", "click", "3"]);
    let server = XdotoolServer::new();
    let r = server.click_at(ClickAtParams { x: 50, y: 60, button: 3 }, |_| exited(true, "", ""));
    assert_eq!(r.unwrap(), "Clicked right at (50, 60)");
}

#[test]
fn type_text_scenario() {
    assert_eq!(strs(&type_text_args("hi", default_delay())), vec!["type", "--delay", "12", "hi"]);
    let server = XdotoolServer::new();
    let r = server.type_text(
        TypeTextParams { text: "hi".to_string(), delay: default_delay() },
        |_| exited(true, "", ""),
    );
    assert_eq!(r.unwrap(), "Typed: \"hi\"");
}

#[test]
fn scroll_scenario() {
    assert_eq!(strs(&scroll_args(Direction::Up, default_clicks())), vec!["click", "--repeat", "3", "4"]);
    let server = XdotoolServer::new();
    let r = server.scroll(
        ScrollParams { direction: "UP".to_string(), clicks: default_clicks() },
        |_| exited(true, "", ""),
    );
    assert_eq!(r.unwrap(), "Scrolled UP 3 clicks");
}

#[test]
fn mouse_position_scenario() {
    let server = XdotoolServer::new();
    let r = server.get_mouse_position(|_| exited(true, "X=10\nY=20\n", ""));
    assert_eq!(r.unwrap(), "Mouse position: (10, 20)");
    let r = server.get_mouse_position(|_| exited(true, "X=10\n", ""));
    assert_eq!(r.unwrap(), "Mouse position: (10, 0)");
}

#[test]
fn mouse_position_lenient_values() {
    let server = XdotoolServer::new();
    let r = server.get_mouse_position(|_| exited(true, "X=abc\r\nY=-7\r\nX=+8\n", ""));
    assert_eq!(r.unwrap(), "Mouse position: (8, -7)");
}

#[test]
fn geometry_reads_every_field() {
    let server = XdotoolServer::new();
    let seen = RefCell::new(Vec::new());
    let r = server.get_window_geometry(
        WindowIdParams { window_id: "42".to_string() },
        |a| {
            *seen.borrow_mut() = a;
            exited(true, "WINDOW=42\nX=5\nY=-7\nWIDTH=800\nHEIGHT=abc\nSCREEN=1\n", "")
        },
    );
    assert_eq!(strs(&seen.borrow()), vec!["getwindowgeometry", "--shell", "42"]);
    assert_eq!(
        r.unwrap(),
        "Window 42 geometry:\n  Position: (5, -7)\n  Size: 800x0\n  Screen: 1"
    );
}

#[test]
fn window_name_is_trimmed() {
    let server = XdotoolServer::new();
    let r = server.get_window_name(
        WindowIdParams { window_id: "42".to_string() },
        |_| exited(true, "  Terminal \n", ""),
    );
    assert_eq!(r.unwrap(), "Window 42 title: Terminal");
}

#[test]
fn failed_exit_carries_stderr() {
    let server = XdotoolServer::new();
    let r = server.key_press(KeyPressParams { key: "nokey".to_string() }, |_| {
        exited(false, "", "(symbol) No such key name 'nokey'")
    });
    let (kind, message) = error_of(r);
    assert_eq!(kind, ErrorKind::Failed);
    assert_eq!(message, "xdotool error: (symbol) No such key name 'nokey'");
}

#[test]
fn key_press_echoes_key() {
    let server = XdotoolServer::new();
    let seen = RefCell::new(Vec::new());
    let r = server.key_press(KeyPressParams { key: "ctrl+shift+t".to_string() }, |a| {
        *seen.borrow_mut() = a;
        exited(true, "", "")
    });
    assert_eq!(strs(&seen.borrow()), vec!["key", "ctrl+shift+t"]);
    assert_eq!(r.unwrap(), "Pressed key: ctrl+shift+t");
}

#[test]
fn double_click_runs_two_left_clicks() {
    assert_eq!(strs(&double_click_args()), vec!["click", "--repeat", "2", "1"]);
    let server = XdotoolServer::new();
    assert_eq!(server.double_click(|_| exited(true, "", "")).unwrap(), "Double-clicked");
}

#[test]
fn launch_failure_is_an_error() {
    let server = XdotoolServer::new();
    let r = server.move_mouse(MoveMouseParams { x: 1, y: 2 }, |_| Err("denied".to_string()));
    let (kind, message) = error_of(r);
    assert_eq!(kind, ErrorKind::Launch);
    assert_eq!(message, "Failed to run xdotool: denied");
}

#[test]
fn defaults() {
    assert_eq!(default_button(), 1);
    assert_eq!(default_delay(), 12);
    assert_eq!(default_clicks(), 3);
    assert_eq!(default_search_type(), "any");
    let server = XdotoolServer::default();
    let r = server.click(ClickParams { button: default_button() }, |_| exited(true, "", ""));
    assert_eq!(r.unwrap(), "Clicked left mouse button");
}

#[test]
fn lenient_integer_parsing() {
    let p = |s: &str| parse_lenient_i32(&s.chars().collect(), 0);
    assert_eq!(p("15"), 15);
    assert_eq!(p("+15"), 15);
    assert_eq!(p("-0"), 0);
    assert_eq!(p("2147483647"), 2147483647);
    assert_eq!(p("2147483648"), 0);
    assert_eq!(p("-2147483648"), -2147483648);
    assert_eq!(p("-2147483649"), 0);
    assert_eq!(p("000000000000000000042"), 42);
    assert_eq!(p("99999999999999999999"), 0);
    assert_eq!(p(""), 0);
    assert_eq!(p("-"), 0);
    assert_eq!(p("+"), 0);
    assert_eq!(p("1 "), 0);
    assert_eq!(p("1\r"), 0);
    assert_eq!(parse_lenient_i32(&"X=-12".chars().collect(), 2), -12);
}

//! The catalog of operations: each validates its parameters, runs the
//! utility once through the runner it is given, and shapes the reply.
use vstd::prelude::*;
use crate::reply::{
    active_window_message, button_label, clicked_at_message, clicked_at_text, clicked_message,
    clicked_text, finish, geometry_message, geometry_text, moved_message, moved_text,
    position_message, position_text, pressed_message, pressed_text, run_result, scrolled_message,
    scrolled_text, search_reply, search_result, stdout_of, stdout_text, typed_message, typed_text,
    window_title_message, window_title_text, active_window_text,
};
use crate::text::{lower_of, owned, trim_of, trimmed};
use crate::tool::{
    direction_of, invalid_direction_text, reply_view, search_kind_of, ClickAtParams, ClickParams,
    Direction, ErrorKind, KeyPressParams, MoveMouseParams, ProcessOutput, ScrollParams, SearchKind, SearchWindowParams,
    ToolError, TypeTextParams, WindowIdParams,
};
use crate::translate::{
    active_window_args, active_window_argv, click_args, click_argv, click_at_args, click_at_argv,
    double_click_args, double_click_argv, geometry_argv, key_argv, key_press_args,
    mouse_position_args, move_argv, move_mouse_args, position_argv, scroll_args, scroll_argv,
    search_argv, search_window_args, texts, type_argv, type_text_args, window_geometry_args,
    window_name_args, window_name_argv,
};

verus! {

/// The server's description of itself.
pub const INSTRUCTIONS: &'static str = "Mouse and keyboard automation via xdotool. Move, click, type, scroll.";

/// The name of the utility that every operation runs.
pub const PROGRAM: &'static str = "xdotool";

#[derive(Debug)]
pub struct XdotoolServer {}

impl Default for XdotoolServer {
    fn default() -> (r: XdotoolServer)
        ensures
            r == (XdotoolServer {  }),
    {
        XdotoolServer::new()
    }
}

impl XdotoolServer {
    pub fn new() -> (r: XdotoolServer)
        ensures
            r == (XdotoolServer {  }),
    {
        XdotoolServer {  }
    }

    /// Moves the pointer to `(x, y)`.
    pub fn move_mouse<F>(&self, params: MoveMouseParams, run: F) -> (r: Result<String, ToolError>) where
        F: FnOnce(Vec<String>) -> Result<ProcessOutput, String>,
        requires
            forall|a: Vec<String>| run.requires((a,)),
        ensures
            exists|a: Vec<String>, out: Result<ProcessOutput, String>|
                #[trigger] run.ensures((a,), out) && texts(a@) == move_argv(params.x, params.y)
                    && reply_view(r) == run_result(out, moved_text(params.x, params.y)),
    {
        let args = move_mouse_args(params.x, params.y);
        let out = run(args);
        finish(&out, moved_message(params.x, params.y))
    }

    /// Clicks `button` where the pointer is; any button number is passed on.
    pub fn click<F>(&self, params: ClickParams, run: F) -> (r: Result<String, ToolError>) where
        F: FnOnce(Vec<String>) -> Result<ProcessOutput, String>,
        requires
            forall|a: Vec<String>| run.requires((a,)),
        ensures
            exists|a: Vec<String>, out: Result<ProcessOutput, String>|
                #[trigger] run.ensures((a,), out) && texts(a@) == click_argv(params.button)
                    && reply_view(r) == run_result(out, clicked_text(params.button)),
    {
        let args = click_args(params.button);
        let out = run(args);
        finish(&out, clicked_message(params.button))
    }

    /// Moves the pointer to `(x, y)` and clicks `button` there, in one run.
    pub fn click_at<F>(&self, params: ClickAtParams, run: F) -> (r: Result<String, ToolError>) where
        F: FnOnce(Vec<String>) -> Result<ProcessOutput, String>,
        requires
            forall|a: Vec<String>| run.requires((a,)),
        ensures
            exists|a: Vec<String>, out: Result<ProcessOutput, String>|
                #[trigger] run.ensures((a,), out) && texts(a@) == click_at_argv(params.x, params.y, params.button)
                    && reply_view(r) == run_result(out, clicked_at_text(params.x, params.y, params.button)),
    {
        let args = click_at_args(params.x, params.y, params.button);
        let out = run(args);
        finish(&out, clicked_at_message(params.x, params.y, params.button))
    }

    /// Types `text`, waiting `delay` milliseconds between keystrokes.
    pub fn type_text<F>(&self, params: TypeTextParams, run: F) -> (r: Result<String, ToolError>) where
        F: FnOnce(Vec<String>) -> Result<ProcessOutput, String>,
        requires
            forall|a: Vec<String>| run.requires((a,)),
        ensures
            exists|a: Vec<String>, out: Result<ProcessOutput, String>|
                #[trigger] run.ensures((a,), out) && texts(a@) == type_argv(params.text@, params.delay)
                    && reply_view(r) == run_result(out, typed_text(params.text@)),
    {
        let args = type_text_args(params.text.as_str(), params.delay);
        let out = run(args);
        finish(&out, typed_message(params.text.as_str()))
    }

    /// Presses a key or a combination, named as the utility names them.
    pub fn key_press<F>(&self, params: KeyPressParams, run: F) -> (r: Result<String, ToolError>) where
        F: FnOnce(Vec<String>) -> Result<ProcessOutput, String>,
        requires
            forall|a: Vec<String>| run.requires((a,)),
        ensures
            exists|a: Vec<String>, out: Result<ProcessOutput, String>|
                #[trigger] run.ensures((a,), out) && texts(a@) == key_argv(params.key@)
                    && reply_view(r) == run_result(out, pressed_text(params.key@)),
    {
        let args = key_press_args(params.key.as_str());
        let out = run(args);
        finish(&out, pressed_message(params.key.as_str()))
    }

    /// Reads the pointer position; a field missing from the output reads as zero.
    pub fn get_mouse_position<F>(&self, run: F) -> (r: Result<String, ToolError>) where
        F: FnOnce(Vec<String>) -> Result<ProcessOutput, String>,
        requires
            forall|a: Vec<String>| run.requires((a,)),
        ensures
            exists|a: Vec<String>, out: Result<ProcessOutput, String>|
                #[trigger] run.ensures((a,), out) && texts(a@) == position_argv()
                    && reply_view(r) == run_result(out, position_text(stdout_of(out))),
    {
        let args = mouse_position_args();
        let out = run(args);
        finish(&out, position_message(stdout_text(&out)))
    }

    /// Double-clicks the left button where the pointer is.
    pub fn double_click<F>(&self, run: F) -> (r: Result<String, ToolError>) where
        F: FnOnce(Vec<String>) -> Result<ProcessOutput, String>,
        requires
            forall|a: Vec<String>| run.requires((a,)),
        ensures
            exists|a: Vec<String>, out: Result<ProcessOutput, String>|
                #[trigger] run.ensures((a,), out) && texts(a@) == double_click_argv()
                    && reply_view(r) == run_result(out, "Double-clicked"@),
    {
        let args = double_click_args();
        let out = run(args);
        finish(&out, owned("Double-clicked"))
    }

    /// Searches windows by `query`; a search without a match is no error.
    pub fn search_window<F>(&self, params: SearchWindowParams, run: F) -> (r: Result<String, ToolError>) where
        F: FnOnce(Vec<String>) -> Result<ProcessOutput, String>,
        requires
            forall|a: Vec<String>| run.requires((a,)),
        ensures
            exists|a: Vec<String>, out: Result<ProcessOutput, String>|
                #[trigger] run.ensures((a,), out) && texts(a@) == search_argv(search_kind_of(lower_of(params.search_type@)), params.query@)
                    && reply_view(r) == search_result(params.query@, out),
    {
        let args = search_window_args(SearchKind::parse(params.search_type.as_str()), params.query.as_str());
        let out = run(args);
        search_reply(params.query.as_str(), &out)
    }

    /// Reads the id of the focused window.
    pub fn get_active_window<F>(&self, run: F) -> (r: Result<String, ToolError>) where
        F: FnOnce(Vec<String>) -> Result<ProcessOutput, String>,
        requires
            forall|a: Vec<String>| run.requires((a,)),
        ensures
            exists|a: Vec<String>, out: Result<ProcessOutput, String>|
                #[trigger] run.ensures((a,), out) && texts(a@) == active_window_argv()
                    && reply_view(r) == run_result(out, active_window_text(trim_of(stdout_of(out)))),
    {
        let args = active_window_args();
        let out = run(args);
        finish(&out, active_window_message(trimmed(stdout_text(&out))))
    }

    /// Reads the position, size and screen of a window; a field missing from the output reads as zero.
    pub fn get_window_geometry<F>(&self, params: WindowIdParams, run: F) -> (r: Result<String, ToolError>) where
        F: FnOnce(Vec<String>) -> Result<ProcessOutput, String>,
        requires
            forall|a: Vec<String>| run.requires((a,)),
        ensures
            exists|a: Vec<String>, out: Result<ProcessOutput, String>|
                #[trigger] run.ensures((a,), out) && texts(a@) == geometry_argv(params.window_id@)
                    && reply_view(r) == run_result(out, geometry_text(params.window_id@, stdout_of(out))),
    {
        let args = window_geometry_args(params.window_id.as_str());
        let out = run(args);
        finish(&out, geometry_message(params.window_id.as_str(), stdout_text(&out)))
    }

    /// Reads the title of a window.
    pub fn get_window_name<F>(&self, params: WindowIdParams, run: F) -> (r: Result<String, ToolError>) where
        F: FnOnce(Vec<String>) -> Result<ProcessOutput, String>,
        requires
            forall|a: Vec<String>| run.requires((a,)),
        ensures
            exists|a: Vec<String>, out: Result<ProcessOutput, String>|
                #[trigger] run.ensures((a,), out) && texts(a@) == window_name_argv(params.window_id@)
                    && reply_view(r) == run_result(out, window_title_text(params.window_id@, trim_of(stdout_of(out)))),
    {
        let args = window_name_args(params.window_id.as_str());
        let out = run(args);
        finish(&out, window_title_message(params.window_id.as_str(), trimmed(stdout_text(&out))))
    }

    /// Scrolls `clicks` times in a direction named in any case; an unknown
    /// direction is refused before anything runs.
    pub fn scroll<F>(&self, params: ScrollParams, run: F) -> (r: Result<String, ToolError>) where
        F: FnOnce(Vec<String>) -> Result<ProcessOutput, String>,
        requires
            forall|a: Vec<String>| run.requires((a,)),
        ensures
            match direction_of(lower_of(params.direction@)) {
                None => reply_view(r) == Err::<Seq<char>, (ErrorKind, Seq<char>)>(
                    (ErrorKind::Invalid, invalid_direction_text()),
                ),
                Some(d) => exists|a: Vec<String>, out: Result<ProcessOutput, String>|
                    #[trigger] run.ensures((a,), out) && texts(a@) == scroll_argv(d, params.clicks)
                        && reply_view(r) == run_result(
                        out,
                        scrolled_text(params.direction@, params.clicks),
                    ),
            },
    {
        let direction = match Direction::parse(params.direction.as_str()) {
            Ok(d) => d,
            Err(e) => {
                return Err(e);
            },
        };
        let args = scroll_args(direction, params.clicks);
        let out = run(args);
        finish(&out, scrolled_message(params.direction.as_str(), params.clicks))
    }

    /// The name of a mouse button; numbers other than 1, 2, 3 are "unknown".
    pub fn button_name(button: u8) -> (r: &'static str)
        ensures
            r@ == button_label(button),
    {
        match button {
            1 => "left",
            2 => "middle",
            3 => "right",
            _ => "unknown",
        }
    }
}

} // verus!

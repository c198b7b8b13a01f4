//! The reply to a call, made from what running the utility gave.
use vstd::prelude::*;
use crate::parse::{lines_of, output_field, output_lines, read_field};
use crate::server::XdotoolServer;
use crate::text::{int_text, nat_text, owned, push_int, push_nat, trim_of, trimmed};
use crate::tool::{reply_view, ErrorKind, ProcessOutput, ToolError};

verus! {

/// A reply as its kind and text.
pub type ReplyView = Result<Seq<char>, (ErrorKind, Seq<char>)>;

/// Whether the utility started and exited with status zero.
pub open spec fn succeeded(out: Result<ProcessOutput, String>) -> bool {
    out matches Ok(o) && o.success
}

/// What the utility printed on its standard output, if it ran.
pub open spec fn stdout_of(out: Result<ProcessOutput, String>) -> Seq<char> {
    match out {
        Ok(o) => o.stdout@,
        Err(_) => seq![],
    }
}

/// The error for a run that did not succeed: a launch error carries the
/// reason it could not start, an exit error the utility's standard error.
pub open spec fn failure_view(out: Result<ProcessOutput, String>) -> ReplyView {
    match out {
        Err(e) => Err((ErrorKind::Launch, "Failed to run xdotool: "@ + e@)),
        Ok(o) => Err((ErrorKind::Failed, "xdotool error: "@ + o.stderr@)),
    }
}

/// The reply `ok` where the run succeeded, else its error.
pub open spec fn run_result(out: Result<ProcessOutput, String>, ok: Seq<char>) -> ReplyView {
    if succeeded(out) {
        Ok(ok)
    } else {
        failure_view(out)
    }
}

pub open spec fn button_label(button: u8) -> Seq<char> {
    if button == 1 {
        "left"@
    } else if button == 2 {
        "middle"@
    } else if button == 3 {
        "right"@
    } else {
        "unknown"@
    }
}

pub open spec fn pair_text(x: int, y: int) -> Seq<char> {
    "("@ + int_text(x) + ", "@ + int_text(y) + ")"@
}

pub open spec fn moved_text(x: i32, y: i32) -> Seq<char> {
    "Mouse moved to "@ + pair_text(x as int, y as int)
}

pub open spec fn clicked_text(button: u8) -> Seq<char> {
    "Clicked "@ + button_label(button) + " mouse button"@
}

pub open spec fn clicked_at_text(x: i32, y: i32, button: u8) -> Seq<char> {
    "Clicked "@ + button_label(button) + " at "@ + pair_text(x as int, y as int)
}

pub open spec fn typed_text(text: Seq<char>) -> Seq<char> {
    "Typed: \""@ + text + "\""@
}

pub open spec fn pressed_text(key: Seq<char>) -> Seq<char> {
    "Pressed key: "@ + key
}

pub open spec fn scrolled_text(direction: Seq<char>, clicks: u32) -> Seq<char> {
    "Scrolled "@ + direction + " "@ + int_text(clicks as int) + " clicks"@
}

/// The pointer position that `getmouselocation --shell` printed.
pub open spec fn position_text(stdout: Seq<char>) -> Seq<char> {
    "Mouse position: "@ + pair_text(
        output_field(stdout, "X="@) as int,
        output_field(stdout, "Y="@) as int,
    )
}

pub open spec fn no_windows_text(query: Seq<char>) -> Seq<char> {
    "No windows found matching '"@ + query + "'"@
}

pub open spec fn found_text(count: nat, listing: Seq<char>) -> Seq<char> {
    "Found "@ + nat_text(count) + " window(s):\n"@ + listing
}

/// A search that ran and printed at least one window id lists them; any
/// other run that started is a search with no match.
pub open spec fn search_result(query: Seq<char>, out: Result<ProcessOutput, String>) -> ReplyView {
    match out {
        Err(_) => failure_view(out),
        Ok(o) => if o.success && lines_of(o.stdout@).len() > 0 {
            Ok(found_text(lines_of(o.stdout@).len(), trim_of(o.stdout@)))
        } else {
            Ok(no_windows_text(query))
        },
    }
}

pub open spec fn active_window_text(window_id: Seq<char>) -> Seq<char> {
    "Active window ID: "@ + window_id
}

/// The geometry that `getwindowgeometry --shell` printed.
pub open spec fn geometry_text(window_id: Seq<char>, stdout: Seq<char>) -> Seq<char> {
    "Window "@ + window_id + " geometry:\n  Position: "@ + pair_text(
        output_field(stdout, "X="@) as int,
        output_field(stdout, "Y="@) as int,
    ) + "\n  Size: "@ + int_text(output_field(stdout, "WIDTH="@) as int) + "x"@ + int_text(
        output_field(stdout, "HEIGHT="@) as int,
    ) + "\n  Screen: "@ + int_text(output_field(stdout, "SCREEN="@) as int)
}

pub open spec fn window_title_text(window_id: Seq<char>, title: Seq<char>) -> Seq<char> {
    "Window "@ + window_id + " title: "@ + title
}

/// What the utility printed on its standard output; empty if it did not start.
pub fn stdout_text(out: &Result<ProcessOutput, String>) -> (r: &str)
    ensures
        r@ == stdout_of(*out),
{
    match out {
        Ok(o) => o.stdout.as_str(),
        Err(_) => {
            proof {
                reveal_strlit("");
            }
            ""
        },
    }
}

/// The error of a run that did not succeed.
pub fn failure(out: &Result<ProcessOutput, String>) -> (r: Result<String, ToolError>)
    requires
        !succeeded(*out),
    ensures
        reply_view(r) == failure_view(*out),
{
    match out {
        Err(e) => {
            let mut m = owned("Failed to run xdotool: ");
            m.push_str(e.as_str());
            Err(ToolError { kind: ErrorKind::Launch, message: m })
        },
        Ok(o) => {
            let mut m = owned("xdotool error: ");
            m.push_str(o.stderr.as_str());
            Err(ToolError { kind: ErrorKind::Failed, message: m })
        },
    }
}

/// The reply `ok` where the run succeeded, else its error.
pub fn finish(out: &Result<ProcessOutput, String>, ok: String) -> (r: Result<String, ToolError>)
    ensures
        reply_view(r) == run_result(*out, ok@),
{
    match out {
        Ok(o) => {
            if o.success {
                return Ok(ok);
            }
        },
        Err(_) => {},
    }
    failure(out)
}

fn push_pair(s: &mut String, x: i64, y: i64)
    ensures
        final(s)@ == old(s)@ + pair_text(x as int, y as int),
{
    s.push_str("(");
    push_int(s, x);
    s.push_str(", ");
    push_int(s, y);
    s.push_str(")");
    assert(s@ =~= old(s)@ + pair_text(x as int, y as int));
}

pub fn moved_message(x: i32, y: i32) -> (r: String)
    ensures
        r@ == moved_text(x, y),
{
    let mut s = owned("Mouse moved to ");
    push_pair(&mut s, x as i64, y as i64);
    s
}

pub fn clicked_message(button: u8) -> (r: String)
    ensures
        r@ == clicked_text(button),
{
    let mut s = owned("Clicked ");
    s.push_str(XdotoolServer::button_name(button));
    s.push_str(" mouse button");
    assert(s@ =~= clicked_text(button));
    s
}

pub fn clicked_at_message(x: i32, y: i32, button: u8) -> (r: String)
    ensures
        r@ == clicked_at_text(x, y, button),
{
    let mut s = owned("Clicked ");
    s.push_str(XdotoolServer::button_name(button));
    s.push_str(" at ");
    push_pair(&mut s, x as i64, y as i64);
    assert(s@ =~= clicked_at_text(x, y, button));
    s
}

pub fn typed_message(text: &str) -> (r: String)
    ensures
        r@ == typed_text(text@),
{
    let mut s = owned("Typed: \"");
    s.push_str(text);
    s.push_str("\"");
    s
}

pub fn pressed_message(key: &str) -> (r: String)
    ensures
        r@ == pressed_text(key@),
{
    let mut s = owned("Pressed key: ");
    s.push_str(key);
    s
}

pub fn scrolled_message(direction: &str, clicks: u32) -> (r: String)
    ensures
        r@ == scrolled_text(direction@, clicks),
{
    let mut s = owned("Scrolled ");
    s.push_str(direction);
    s.push_str(" ");
    push_int(&mut s, clicks as i64);
    s.push_str(" clicks");
    assert(s@ =~= scrolled_text(direction@, clicks));
    s
}

pub fn position_message(stdout: &str) -> (r: String)
    ensures
        r@ == position_text(stdout@),
{
    let lines = output_lines(stdout);
    let x = read_field(&lines, "X=");
    let y = read_field(&lines, "Y=");
    let mut s = owned("Mouse position: ");
    push_pair(&mut s, x as i64, y as i64);
    s
}

pub fn no_windows_message(query: &str) -> (r: String)
    ensures
        r@ == no_windows_text(query@),
{
    let mut s = owned("No windows found matching '");
    s.push_str(query);
    s.push_str("'");
    s
}

/// The reply for `count` windows found, followed by their listing.
pub fn found_windows_message(count: u64, listing: &str) -> (r: String)
    ensures
        r@ == found_text(count as nat, listing@),
{
    let mut s = owned("Found ");
    push_nat(&mut s, count);
    s.push_str(" window(s):\n");
    s.push_str(listing);
    assert(s@ =~= found_text(count as nat, listing@));
    s
}

pub fn active_window_message(window_id: &str) -> (r: String)
    ensures
        r@ == active_window_text(window_id@),
{
    let mut s = owned("Active window ID: ");
    s.push_str(window_id);
    s
}

pub fn geometry_message(window_id: &str, stdout: &str) -> (r: String)
    ensures
        r@ == geometry_text(window_id@, stdout@),
{
    let lines = output_lines(stdout);
    let x = read_field(&lines, "X=");
    let y = read_field(&lines, "Y=");
    let width = read_field(&lines, "WIDTH=");
    let height = read_field(&lines, "HEIGHT=");
    let screen = read_field(&lines, "SCREEN=");
    let mut s = owned("Window ");
    s.push_str(window_id);
    s.push_str(" geometry:\n  Position: ");
    push_pair(&mut s, x as i64, y as i64);
    s.push_str("\n  Size: ");
    push_int(&mut s, width as i64);
    s.push_str("x");
    push_int(&mut s, height as i64);
    s.push_str("\n  Screen: ");
    push_int(&mut s, screen as i64);
    assert(s@ =~= geometry_text(window_id@, stdout@));
    s
}

pub fn window_title_message(window_id: &str, title: &str) -> (r: String)
    ensures
        r@ == window_title_text(window_id@, title@),
{
    let mut s = owned("Window ");
    s.push_str(window_id);
    s.push_str(" title: ");
    s.push_str(title);
    assert(s@ =~= window_title_text(window_id@, title@));
    s
}

/// The reply to a window search.
pub fn search_reply(query: &str, out: &Result<ProcessOutput, String>) -> (r: Result<
    String,
    ToolError,
>)
    ensures
        reply_view(r) == search_result(query@, *out),
{
    match out {
        Err(_) => failure(out),
        Ok(o) => {
            if o.success {
                let lines = output_lines(o.stdout.as_str());
                if lines.len() > 0 {
                    let listing = trimmed(o.stdout.as_str());
                    return Ok(found_windows_message(lines.len() as u64, listing));
                }
            }
            Ok(no_windows_message(query))
        },
    }
}

} // verus!

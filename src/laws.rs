//! Properties that hold across the operations, stated over the spec
//! functions that their contracts use.
use vstd::prelude::*;
use crate::parse::lines_of;
use crate::reply::{
    active_window_text, button_label, clicked_at_text, clicked_text, found_text, no_windows_text,
    position_text, run_result, search_result, stdout_of, succeeded, ReplyView,
};
use crate::text::{lower_of, trim_of};
use crate::tool::{direction_of, wheel_of, Direction, ProcessOutput};
use crate::translate::{active_window_argv, geometry_argv, position_argv};

verus! {

/// Buttons 1, 2 and 3 are named left, middle and right, every other number
/// is named unknown, and a click that ran is never refused for its button.
pub proof fn button_names(button: u8, x: i32, y: i32, out: Result<ProcessOutput, String>)
    requires
        succeeded(out),
    ensures
        button == 1 ==> button_label(button) == "left"@,
        button == 2 ==> button_label(button) == "middle"@,
        button == 3 ==> button_label(button) == "right"@,
        !(1 <= button <= 3) ==> button_label(button) == "unknown"@,
        run_result(out, clicked_text(button)) == ReplyView::Ok(clicked_text(button)),
        run_result(out, clicked_at_text(x, y, button)) == ReplyView::Ok(
            clicked_at_text(x, y, button),
        ),
{
}

/// A direction word, in any case, names up, down, left or right, which
/// scroll with buttons 4, 5, 6 and 7; every other word names no direction.
pub proof fn direction_buttons(word: Seq<char>)
    ensures
        lower_of(word) == "up"@ ==> direction_of(lower_of(word)) == Some(Direction::Up)
            && wheel_of(Direction::Up) == 4,
        lower_of(word) == "down"@ ==> direction_of(lower_of(word)) == Some(Direction::Down)
            && wheel_of(Direction::Down) == 5,
        lower_of(word) == "left"@ ==> direction_of(lower_of(word)) == Some(Direction::Left)
            && wheel_of(Direction::Left) == 6,
        lower_of(word) == "right"@ ==> direction_of(lower_of(word)) == Some(Direction::Right)
            && wheel_of(Direction::Right) == 7,
        !(lower_of(word) == "up"@ || lower_of(word) == "down"@ || lower_of(word) == "left"@
            || lower_of(word) == "right"@) ==> direction_of(lower_of(word)) is None,
{
    reveal_strlit("up");
    reveal_strlit("down");
    reveal_strlit("left");
    reveal_strlit("right");
    assert("up"@[0] != "down"@[0] && "up"@[0] != "left"@[0] && "down"@[0] != "left"@[0]);
}

/// Reading the active window or the pointer position runs a fixed command
/// and changes nothing, so two runs that print the same give the same reply.
pub proof fn reads_repeat(first: Result<ProcessOutput, String>, second: Result<ProcessOutput, String>)
    requires
        first == second,
    ensures
        active_window_argv() == seq!["getactivewindow"@],
        position_argv() == seq!["getmouselocation"@, "--shell"@],
        run_result(first, active_window_text(trim_of(stdout_of(first)))) == run_result(
            second,
            active_window_text(trim_of(stdout_of(second))),
        ),
        run_result(first, position_text(stdout_of(first))) == run_result(
            second,
            position_text(stdout_of(second)),
        ),
{
}

/// A geometry query passes the window id on as its third argument, unchanged.
pub proof fn geometry_query_keeps_id(window_id: Seq<char>)
    ensures
        geometry_argv(window_id).len() == 3,
        geometry_argv(window_id)[0] == "getwindowgeometry"@,
        geometry_argv(window_id)[1] == "--shell"@,
        geometry_argv(window_id)[2] == window_id,
{
}

/// A search that started is never an error: a run that failed or printed no
/// line finds no window, and one that printed `n` lines reports `n` windows.
pub proof fn search_never_fails(query: Seq<char>, out: Result<ProcessOutput, String>)
    requires
        out is Ok,
    ensures
        search_result(query, out) is Ok,
        !succeeded(out) ==> search_result(query, out) == ReplyView::Ok(no_windows_text(query)),
        succeeded(out) && lines_of(stdout_of(out)).len() == 0 ==> search_result(query, out) == ReplyView::Ok(no_windows_text(query)),
        succeeded(out) && lines_of(stdout_of(out)).len() > 0 ==> search_result(query, out) == ReplyView::Ok(found_text(lines_of(stdout_of(out)).len(), trim_of(stdout_of(out)))),
{
}

} // verus!

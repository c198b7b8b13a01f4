//! The argument vector that each operation hands to the utility.
use vstd::prelude::*;
use crate::text::{int_string, int_text, owned};
use crate::tool::{SearchKind, wheel_of, Direction};

verus! {

/// The text of each argument.
pub open spec fn texts(a: Seq<String>) -> Seq<Seq<char>> {
    a.map_values(|s: String| s@)
}

pub open spec fn move_argv(x: i32, y: i32) -> Seq<Seq<char>> {
    seq!["mousemove"@, int_text(x as int), int_text(y as int)]
}

pub open spec fn click_argv(button: u8) -> Seq<Seq<char>> {
    seq!["click"@, int_text(button as int)]
}

pub open spec fn click_at_argv(x: i32, y: i32, button: u8) -> Seq<Seq<char>> {
    seq!["mousemove"@, int_text(x as int), int_text(y as int), "click"@, int_text(button as int)]
}

pub open spec fn type_argv(text: Seq<char>, delay: u32) -> Seq<Seq<char>> {
    seq!["type"@, "--delay"@, int_text(delay as int), text]
}

pub open spec fn key_argv(key: Seq<char>) -> Seq<Seq<char>> {
    seq!["key"@, key]
}

pub open spec fn scroll_argv(direction: Direction, clicks: u32) -> Seq<Seq<char>> {
    seq!["click"@, "--repeat"@, int_text(clicks as int), int_text(wheel_of(direction) as int)]
}

pub open spec fn position_argv() -> Seq<Seq<char>> {
    seq!["getmouselocation"@, "--shell"@]
}

pub open spec fn double_click_argv() -> Seq<Seq<char>> {
    seq!["click"@, "--repeat"@, "2"@, "1"@]
}

/// The flag that restricts a search to one kind of match, if any.
pub open spec fn search_flag(kind: SearchKind) -> Seq<Seq<char>> {
    match kind {
        SearchKind::Name => seq!["--name"@],
        SearchKind::Class => seq!["--class"@],
        SearchKind::ClassName => seq!["--classname"@],
        SearchKind::Any => seq![],
    }
}

pub open spec fn search_argv(kind: SearchKind, query: Seq<char>) -> Seq<Seq<char>> {
    seq!["search"@] + search_flag(kind) + seq![query]
}

pub open spec fn active_window_argv() -> Seq<Seq<char>> {
    seq!["getactivewindow"@]
}

pub open spec fn geometry_argv(window_id: Seq<char>) -> Seq<Seq<char>> {
    seq!["getwindowgeometry"@, "--shell"@, window_id]
}

pub open spec fn window_name_argv(window_id: Seq<char>) -> Seq<Seq<char>> {
    seq!["getwindowname"@, window_id]
}

pub fn move_mouse_args(x: i32, y: i32) -> (r: Vec<String>)
    ensures
        texts(r@) == move_argv(x, y),
{
    let r = vec![owned("mousemove"), int_string(x as i64), int_string(y as i64)];
    assert(texts(r@) =~= move_argv(x, y));
    r
}

pub fn click_args(button: u8) -> (r: Vec<String>)
    ensures
        texts(r@) == click_argv(button),
{
    let r = vec![owned("click"), int_string(button as i64)];
    assert(texts(r@) =~= click_argv(button));
    r
}

pub fn click_at_args(x: i32, y: i32, button: u8) -> (r: Vec<String>)
    ensures
        texts(r@) == click_at_argv(x, y, button),
{
    let r = vec![
        owned("mousemove"),
        int_string(x as i64),
        int_string(y as i64),
        owned("click"),
        int_string(button as i64),
    ];
    assert(texts(r@) =~= click_at_argv(x, y, button));
    r
}

pub fn type_text_args(text: &str, delay: u32) -> (r: Vec<String>)
    ensures
        texts(r@) == type_argv(text@, delay),
{
    let r = vec![owned("type"), owned("--delay"), int_string(delay as i64), owned(text)];
    assert(texts(r@) =~= type_argv(text@, delay));
    r
}

pub fn key_press_args(key: &str) -> (r: Vec<String>)
    ensures
        texts(r@) == key_argv(key@),
{
    let r = vec![owned("key"), owned(key)];
    assert(texts(r@) =~= key_argv(key@));
    r
}

pub fn scroll_args(direction: Direction, clicks: u32) -> (r: Vec<String>)
    ensures
        texts(r@) == scroll_argv(direction, clicks),
{
    let r = vec![
        owned("click"),
        owned("--repeat"),
        int_string(clicks as i64),
        int_string(direction.wheel_button() as i64),
    ];
    assert(texts(r@) =~= scroll_argv(direction, clicks));
    r
}

pub fn mouse_position_args() -> (r: Vec<String>)
    ensures
        texts(r@) == position_argv(),
{
    let r = vec![owned("getmouselocation"), owned("--shell")];
    assert(texts(r@) =~= position_argv());
    r
}

pub fn double_click_args() -> (r: Vec<String>)
    ensures
        texts(r@) == double_click_argv(),
{
    let r = vec![owned("click"), owned("--repeat"), owned("2"), owned("1")];
    assert(texts(r@) =~= double_click_argv());
    r
}

pub fn search_window_args(kind: SearchKind, query: &str) -> (r: Vec<String>)
    ensures
        texts(r@) == search_argv(kind, query@),
{
    let mut r = vec![owned("search")];
    match kind {
        SearchKind::Name => r.push(owned("--name")),
        SearchKind::Class => r.push(owned("--class")),
        SearchKind::ClassName => r.push(owned("--classname")),
        SearchKind::Any => {},
    }
    r.push(owned(query));
    assert(texts(r@) =~= search_argv(kind, query@));
    r
}

pub fn active_window_args() -> (r: Vec<String>)
    ensures
        texts(r@) == active_window_argv(),
{
    let r = vec![owned("getactivewindow")];
    assert(texts(r@) =~= active_window_argv());
    r
}

pub fn window_geometry_args(window_id: &str) -> (r: Vec<String>)
    ensures
        texts(r@) == geometry_argv(window_id@),
{
    let r = vec![owned("getwindowgeometry"), owned("--shell"), owned(window_id)];
    assert(texts(r@) =~= geometry_argv(window_id@));
    r
}

pub fn window_name_args(window_id: &str) -> (r: Vec<String>)
    ensures
        texts(r@) == window_name_argv(window_id@),
{
    let r = vec![owned("getwindowname"), owned(window_id)];
    assert(texts(r@) =~= window_name_argv(window_id@));
    r
}

} // verus!

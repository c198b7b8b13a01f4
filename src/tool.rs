//! The values that flow through one call: parameters with their defaults,
//! the outcome of running the utility, and the error kinds of a reply.
use vstd::prelude::*;
use crate::text::{lower_of, lowercase, owned, same_text};

verus! {

pub fn default_button() -> (r: u8)
    ensures
        r == 1,
{
    1
}

pub fn default_delay() -> (r: u32)
    ensures
        r == 12,
{
    12
}

pub fn default_clicks() -> (r: u32)
    ensures
        r == 3,
{
    3
}

pub fn default_search_type() -> (r: String)
    ensures
        r@ == "any"@,
{
    owned("any")
}

#[derive(Clone, Debug)]
pub struct MoveMouseParams {
    pub x: i32,
    pub y: i32,
}

#[derive(Clone, Debug)]
pub struct ClickParams {
    pub button: u8,
}

#[derive(Clone, Debug)]
pub struct ClickAtParams {
    pub x: i32,
    pub y: i32,
    pub button: u8,
}

#[derive(Clone, Debug)]
pub struct TypeTextParams {
    pub text: String,
    /// Delay between keystrokes, in milliseconds.
    pub delay: u32,
}

#[derive(Clone, Debug)]
pub struct KeyPressParams {
    pub key: String,
}

#[derive(Clone, Debug)]
pub struct ScrollParams {
    pub direction: String,
    pub clicks: u32,
}

#[derive(Clone, Debug)]
pub struct SearchWindowParams {
    pub query: String,
    pub search_type: String,
}

#[derive(Clone, Debug)]
pub struct WindowIdParams {
    pub window_id: String,
}

/// What running the utility gave: whether it exited with status zero, and
/// its two output streams as text.
#[derive(Clone, Debug)]
pub struct ProcessOutput {
    pub success: bool,
    pub stdout: String,
    pub stderr: String,
}

#[derive(Clone, Copy, Debug, PartialEq, Eq, Structural)]
pub enum ErrorKind {
    /// A parameter was refused before anything ran.
    Invalid,
    /// The utility could not be started.
    Launch,
    /// The utility ran and exited with a non-zero status.
    Failed,
}

#[derive(Clone, Debug)]
pub struct ToolError {
    pub kind: ErrorKind,
    pub message: String,
}

/// A reply as its kind and text.
pub open spec fn reply_view(r: Result<String, ToolError>) -> Result<Seq<char>, (ErrorKind, Seq<char>)> {
    match r {
        Ok(t) => Ok(t@),
        Err(e) => Err((e.kind, e.message@)),
    }
}

#[derive(Clone, Copy, Debug, PartialEq, Eq, Structural)]
pub enum Direction {
    Up,
    Down,
    Left,
    Right,
}

/// The direction that a lowercase word names, if any.
pub open spec fn direction_of(s: Seq<char>) -> Option<Direction> {
    if s == "up"@ {
        Some(Direction::Up)
    } else if s == "down"@ {
        Some(Direction::Down)
    } else if s == "left"@ {
        Some(Direction::Left)
    } else if s == "right"@ {
        Some(Direction::Right)
    } else {
        None
    }
}

/// The mouse button that scrolls in direction `d`.
pub open spec fn wheel_of(d: Direction) -> u8 {
    match d {
        Direction::Up => 4,
        Direction::Down => 5,
        Direction::Left => 6,
        Direction::Right => 7,
    }
}

pub open spec fn invalid_direction_text() -> Seq<char> {
    "Invalid direction. Use: up, down, left, right"@
}

impl Direction {
    /// The direction that an already lowercase word names.
    pub fn from_lowercase(s: &str) -> (r: Option<Direction>)
        ensures
            r == direction_of(s@),
    {
        if same_text(s, "up") {
            Some(Direction::Up)
        } else if same_text(s, "down") {
            Some(Direction::Down)
        } else if same_text(s, "left") {
            Some(Direction::Left)
        } else if same_text(s, "right") {
            Some(Direction::Right)
        } else {
            None
        }
    }

    /// The direction that `s` names in any case; any other word is refused.
    pub fn parse(s: &str) -> (r: Result<Direction, ToolError>)
        ensures
            match direction_of(lower_of(s@)) {
                Some(d) => r == Ok::<Direction, ToolError>(d),
                None => (r matches Err(e) && e.kind == ErrorKind::Invalid && e.message@
                    == invalid_direction_text()),
            },
    {
        let lowered = lowercase(s);
        match Direction::from_lowercase(lowered.as_str()) {
            Some(d) => Ok(d),
            None => Err(ToolError {
                kind: ErrorKind::Invalid,
                message: owned("Invalid direction. Use: up, down, left, right"),
            }),
        }
    }

    pub fn wheel_button(self) -> (r: u8)
        ensures
            r == wheel_of(self),
    {
        match self {
            Direction::Up => 4,
            Direction::Down => 5,
            Direction::Left => 6,
            Direction::Right => 7,
        }
    }
}

#[derive(Clone, Copy, Debug, PartialEq, Eq, Structural)]
pub enum SearchKind {
    Name,
    Class,
    ClassName,
    /// No restriction: the utility's own default.
    Any,
}

/// The search kind that a lowercase word names; any other word means `Any`.
pub open spec fn search_kind_of(s: Seq<char>) -> SearchKind {
    if s == "name"@ {
        SearchKind::Name
    } else if s == "class"@ {
        SearchKind::Class
    } else if s == "classname"@ {
        SearchKind::ClassName
    } else {
        SearchKind::Any
    }
}

impl SearchKind {
    /// The search kind that an already lowercase word names.
    pub fn from_lowercase(s: &str) -> (r: SearchKind)
        ensures
            r == search_kind_of(s@),
    {
        if same_text(s, "name") {
            SearchKind::Name
        } else if same_text(s, "class") {
            SearchKind::Class
        } else if same_text(s, "classname") {
            SearchKind::ClassName
        } else {
            SearchKind::Any
        }
    }

    /// The search kind that `s` names in any case, falling back to `Any`.
    pub fn parse(s: &str) -> (r: SearchKind)
        ensures
            r == search_kind_of(lower_of(s@)),
    {
        let lowered = lowercase(s);
        SearchKind::from_lowercase(lowered.as_str())
    }
}

} // verus!

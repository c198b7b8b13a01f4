//! Translation layer between named desktop-automation calls and the argument
//! vectors of the `xdotool` command-line utility, together with the parsing
//! and shaping of what that utility prints.

pub mod text;
pub mod parse;
pub mod tool;
pub mod translate;
pub mod reply;
pub mod server;
pub mod laws;

pub use server::{XdotoolServer, INSTRUCTIONS, PROGRAM};
pub use tool::{
    default_button, default_clicks, default_delay, default_search_type, ClickAtParams,
    ClickParams, Direction, ErrorKind, KeyPressParams, MoveMouseParams, ProcessOutput,
    ScrollParams, SearchKind, SearchWindowParams, ToolError, TypeTextParams, WindowIdParams,
};

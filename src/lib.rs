//! Control of a media player over the session bus: the commands a caller may
//! give, the bus operations each one takes, and the text of a play position.

pub mod command;
pub mod dispatch;
pub mod number;
pub mod position;

pub use command::{
    parse_command, service_address, Command, Failure, METHOD_TIMEOUT_MS, PLAYER_INTERFACE,
    PLAYER_PATH, PROPERTY_TIMEOUT_MS, SERVICE_PREFIX,
};
pub use number::parse_i64;
pub use position::format_position;
pub use dispatch::{Action, Dispatch, Event, Property, Stage};

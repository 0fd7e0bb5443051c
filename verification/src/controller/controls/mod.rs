pub mod dbus_mode;
pub mod media;
pub mod paddle;
pub mod volume;
pub mod zoom;

pub use dbus_mode::{DbusEvent, DbusMode};
pub use media::Media;
pub use volume::Volume;
pub use zoom::Zoom;

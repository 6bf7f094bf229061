//! A StatusNotifierItem / DBusMenu protocol adapter: it publishes a tray
//! icon's metadata and context menu over the session bus and bridges bus
//! callbacks into a poll-driven event queue.

pub mod bridge;
pub mod dbusmenu;
pub mod item;
pub mod text;
pub mod tray;

//! Decision layer of a desktop-shell application: the health-check summary
//! over two local services, and the routing tables that turn tray, menu,
//! shortcut and window events into shell actions. The host-framework wiring
//! that carries these decisions out lives outside the library.

pub mod health;
pub mod routing;

//! A monthly budget tracker's interactive session: field buffers, the modal
//! key-driven state machine, the payment list viewport, and the screen plan
//! (gauge, popups, cursor placement).

pub mod number;
pub mod field;
pub mod session;
pub mod gauge;
pub mod layout;

//! The state side of an immediate-mode toolkit: widgets are declared anew in
//! every frame, and what they were in the frame before is kept here under the
//! names that the caller gives them.
//!
//! `ui` is the store of that state, `text_box` and `toggle` are the two
//! widgets with their state machines, `rectangle` and `text_box::locate` tell
//! what the pointer is over, and `text_box::edit` puts typed text and pressed
//! keys into a text. All positions and extents are whole pixels (`point`),
//! and a text is a list of characters with their advance widths (`label`):
//! measuring and painting are left to the caller.

pub mod dimensions;
pub mod keyboard;
pub mod label;
pub mod mouse;
pub mod point;
pub mod position;
pub mod rectangle;
pub mod text_box;
pub mod toggle;
pub mod ui;
pub mod widget;

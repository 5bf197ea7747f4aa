//! Tab bar logic: the tab list, the interaction state machine of the tab
//! content, drag-and-drop reordering and the icon layout rules.
pub mod search;
pub mod status;
pub mod style;
pub mod tab;
pub mod tab_bar;

pub use status::Status;
pub use tab::TabLabel;
pub use tab_bar::{Position, TabBar};

//! A tab strip for terminal user interfaces: a selection state over a fixed,
//! ordered list of tabs, and a renderer configuration that lays the tabs out
//! as one horizontal strip with the selected tab highlighted.
pub mod color;
pub mod state;
pub mod strip;

pub use state::TabsState;
pub use strip::{Area, Strip, TabLine, Tabs};

//! A tab strip for a host file browser: per-tab navigation history, the tab
//! collection, the strip's input and paint rules, and the rules by which the
//! host's navigation entry points are intercepted.

pub mod desk_band;
pub mod detour;
pub mod host;
pub mod idl;
pub mod settings;
pub mod tabs;

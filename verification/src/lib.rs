//! Core browsing engine for a terminal viewer of a remote function
//! inventory and its time-windowed log events: keyword filtering,
//! selection and viewport windowing, date-range editing, cached list
//! loading with paginated refresh, and screen navigation.

pub mod cal;
pub mod clock;
pub mod config;
pub mod date_range;
pub mod filter;
pub mod function_selection;
pub mod log_viewer;
pub mod nav;
pub mod profiles;
pub mod source;
pub mod text;
pub mod utils;
pub mod viewport;

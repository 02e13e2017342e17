//! Client-side core of a sensor-session dashboard: the incremental loader
//! that polls a backend for a session's datapoints, the formatter that turns
//! them into table rows, the pager over those rows, and the small state
//! machines behind the login and session panels.
pub mod account;
pub mod data_window;
pub mod device;
pub mod login;
pub mod pager;
pub mod records;
pub mod sessions;
pub mod timestamp;
pub mod view_select;

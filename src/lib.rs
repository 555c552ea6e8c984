//! Selection, rendering and result handling for the commands that run after
//! a port scan: descriptor headers, tag selection, command templates and exit
//! statuses.
pub mod text;
pub mod descriptor;
pub mod script;

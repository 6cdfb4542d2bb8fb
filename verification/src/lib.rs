//! Process supervisor for a desktop shell: decides, for each window-system
//! event, which backend-process and window actions to perform, in what order,
//! and what to log about each outcome. The host performs the actions; every
//! decision here is verified.

pub mod backend;
pub mod plan;
pub mod supervisor;

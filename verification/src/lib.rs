//! Creating a hosted repository from the command line: the editable
//! parameter template, the comment stripping of its relaxed JSON, the
//! decisions of one edit session, and the options that drive it.

pub mod cli;
pub mod error;
pub mod git;
pub mod http;
pub mod json;
pub mod session;
pub mod strip;
pub mod template;
pub mod watcher;

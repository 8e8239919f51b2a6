//! Keeps a git repository and a TFS workspace in step: `fetch` brings the
//! TFS changesets that the `tfs` branch lacks into it as commits, `push`
//! checks the changes of the current branch in to TFS. Each is a session
//! that decides every command to run; the runner performs the commands and
//! answers with their outcome.

use vstd::prelude::*;

pub mod changes;
pub mod command;
pub mod error;
pub mod fetch;
pub mod fetch_tfs;
pub mod history;
pub mod output;
pub mod pattern;
pub mod progress;
pub mod push;
pub mod scan;
pub mod session;
pub mod text;
pub mod time;
pub mod workfold;

pub use command::{Action, Command};
pub use error::Error;
pub use fetch_tfs::fetch_tfs;
pub use push::push;
pub use session::Session;

verus! {

} // verus!

//! Locating or installing the DBML language-server binary.
//!
//! The crate models the resolution procedure as an explicit state machine:
//! each step decides, from the current phase and the outcome of the previous
//! probe, which phase comes next and which host actions (file checks, command
//! invocations, status reports) to perform. The host glue that actually spawns
//! processes lives outside the library; everything decided here is verified.

use vstd::prelude::*;

pub mod resolver;
pub mod status;
pub mod text;

pub use resolver::Action;
pub use resolver::CommandOutput;
pub use resolver::DbmlExtension;
pub use resolver::Event;
pub use resolver::LaunchSpec;
pub use resolver::Os;
pub use resolver::Phase;
pub use status::InstallationStatus;
pub use status::ResolveError;
pub use text::first_line_trimmed;

verus! {

/// Greeting stub for the DBML text interface: wraps the input in a fixed
/// diagnostic message.
pub fn parse_dbml(input: &str) -> (r: String)
    ensures
        r@ == "Parsed DBML: "@ + input@,
{
    let mut out = "Parsed DBML: ".to_owned();
    out.append(input);
    out
}

} // verus!

//! The shared startup context.
//!
//! The process builds exactly one `Data` value at startup — the process start
//! time paired with the loaded credential — and shares it read-only with
//! every component for the remainder of the process.

use crate::credential::credential_error_message;
use crate::credential::get_token;
use crate::credential::trim_spec;
use crate::credential::CredentialUnavailable;
use vstd::prelude::*;

verus! {

/// The process-wide, read-only context: created once at startup, never
/// changed afterwards.
pub struct Data {
    /// When the process started, in milliseconds of whichever clock the
    /// caller reads at startup.
    pub start_time: u64,
    /// The credential, trimmed of surrounding whitespace.
    pub token: String,
}

impl Data {
    /// Builds the context from the start time and the loaded credential.
    pub fn new(start_time: u64, token: String) -> (d: Data)
        ensures
            d.start_time == start_time,
            d.token == token,
    {
        Data { start_time, token }
    }
}

/// The deciding half of process startup: from the outcome of reading the
/// credential file, either the shared context (with the credential trimmed)
/// or the fatal credential error. On failure no context exists, so the
/// caller cannot proceed to establish a gateway connection.
pub fn startup(start_time: u64, contents: Option<String>) -> (r: Result<
    Data,
    CredentialUnavailable,
>)
    ensures
        contents is Some ==> r is Ok && r->Ok_0.token@ == trim_spec(contents->0@)
            && r->Ok_0.start_time == start_time,
        contents is None ==> r is Err && r->Err_0.message@ == credential_error_message(),
{
    match get_token(contents) {
        Ok(token) => Ok(Data::new(start_time, token)),
        Err(e) => Err(e),
    }
}

} // verus!

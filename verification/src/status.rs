use vstd::prelude::*;
use crate::error::{ErrorView, FetchError};
use crate::text::str_eq;

verus! {

/// The closed set of conditions the status page reports for one server.
#[derive(Clone, Copy, Debug, PartialEq, Eq, Structural)]
pub enum ServerStatus {
    Good,
    Busy,
    Full,
    Maintenance,
}

/// Which status, if any, a keyword stands for: exactly the four known
/// keywords map to a variant, and any other keyword maps to nothing.
pub open spec fn spec_keyword_status(kw: Seq<char>) -> Option<ServerStatus> {
    if kw == "good"@ {
        Some(ServerStatus::Good)
    } else if kw == "busy"@ {
        Some(ServerStatus::Busy)
    } else if kw == "full"@ {
        Some(ServerStatus::Full)
    } else if kw == "maintenance"@ {
        Some(ServerStatus::Maintenance)
    } else {
        None
    }
}

/// Maps a status keyword to its variant; a keyword outside the known set
/// is an `UnknownStatus` error that carries the keyword itself.
pub fn status_from_keyword(kw: &str) -> (r: Result<ServerStatus, FetchError>)
    ensures
        match r {
            Ok(s) => spec_keyword_status(kw@) == Some(s),
            Err(e) => spec_keyword_status(kw@) is None && e@ == ErrorView::UnknownStatus(kw@),
        },
{
    if str_eq(kw, "good") {
        Ok(ServerStatus::Good)
    } else if str_eq(kw, "busy") {
        Ok(ServerStatus::Busy)
    } else if str_eq(kw, "full") {
        Ok(ServerStatus::Full)
    } else if str_eq(kw, "maintenance") {
        Ok(ServerStatus::Maintenance)
    } else {
        Err(FetchError::UnknownStatus(kw.to_owned()))
    }
}

/// The display name of each status variant.
pub open spec fn spec_label(s: ServerStatus) -> Seq<char> {
    match s {
        ServerStatus::Good => "Good"@,
        ServerStatus::Busy => "Busy"@,
        ServerStatus::Full => "Full"@,
        ServerStatus::Maintenance => "Maintenance"@,
    }
}

impl ServerStatus {
    /// The variant's display name, for log lines and the notification body.
    pub fn label(&self) -> (r: &'static str)
        ensures
            r@ == spec_label(*self),
    {
        match self {
            ServerStatus::Good => "Good",
            ServerStatus::Busy => "Busy",
            ServerStatus::Full => "Full",
            ServerStatus::Maintenance => "Maintenance",
        }
    }
}

} // verus!

use vstd::prelude::*;
use vstd::string::StringExecFns;

verus! {

/// Everything that can keep one polling round from resolving a status:
/// a transport failure reported by the caller, one of the three ways the
/// page can lack the expected structure, or a keyword outside the known set.
#[derive(Debug, PartialEq, Eq)]
pub enum FetchError {
    /// The page could not be fetched; carries the transport's own message.
    Transport(String),
    /// No server entry's trimmed text equals the requested name.
    ServerNotFound,
    /// The matched entry has no descendant status node.
    StatusNodeMissing,
    /// The status node's class list has no class with the status prefix.
    KeywordMissing,
    /// The status keyword is none of the four known ones; carries it.
    UnknownStatus(String),
}

/// The mathematical image of a `FetchError`: the same five cases over
/// sequences of characters.
pub enum ErrorView {
    Transport(Seq<char>),
    ServerNotFound,
    StatusNodeMissing,
    KeywordMissing,
    UnknownStatus(Seq<char>),
}

impl View for FetchError {
    type V = ErrorView;

    open spec fn view(&self) -> ErrorView {
        match self {
            FetchError::Transport(m) => ErrorView::Transport(m@),
            FetchError::ServerNotFound => ErrorView::ServerNotFound,
            FetchError::StatusNodeMissing => ErrorView::StatusNodeMissing,
            FetchError::KeywordMissing => ErrorView::KeywordMissing,
            FetchError::UnknownStatus(kw) => ErrorView::UnknownStatus(kw@),
        }
    }
}

/// The log line contents for each error case.
pub open spec fn spec_message(e: ErrorView) -> Seq<char> {
    match e {
        ErrorView::Transport(m) => m,
        ErrorView::ServerNotFound => "missing server wrapper for selected server"@,
        ErrorView::StatusNodeMissing => "missing status wrapper for selected server"@,
        ErrorView::KeywordMissing => "missing status on wrapper for selected server"@,
        ErrorView::UnknownStatus(kw) => "unknown status: "@ + kw,
    }
}

impl FetchError {
    /// A human-readable description of the error, for the retry log line.
    pub fn message(&self) -> (r: String)
        ensures
            r@ == spec_message(self@),
    {
        match self {
            FetchError::Transport(m) => m.clone(),
            FetchError::ServerNotFound => "missing server wrapper for selected server".to_owned(),
            FetchError::StatusNodeMissing => "missing status wrapper for selected server".to_owned(),
            FetchError::KeywordMissing => "missing status on wrapper for selected server".to_owned(),
            FetchError::UnknownStatus(kw) => {
                let mut m = "unknown status: ".to_owned();
                m.append(kw.as_str());
                m
            },
        }
    }
}

} // verus!

use vstd::prelude::*;

use crate::digits::{decimal_of, decimal_string};

verus! {

/// The one error type of the downloader core. Each failure that crosses into
/// the core from a collaborator (network, filesystem, decoder) is wrapped in
/// the variant of its taxonomy entry at that boundary.
#[derive(Debug)]
pub enum DownloadError {
    /// The configuration is contradictory; fatal before any task is dispatched.
    Configuration(String),
    /// The compressed manifest is malformed or truncated; fatal to the run.
    ManifestDecode(String),
    /// A single locator is not a well-formed URL; scoped to its task.
    UrlParse(String),
    /// A response carried a permanent, non-retryable status; scoped to its task.
    FetchStatus(u16),
    /// The retry budget ran out; carries the attempts used and the last
    /// underlying failure; scoped to its task.
    FetchExhausted { attempts: u64, last: String },
    /// Writing the destination file failed; scoped to its task.
    SinkIo(String),
}

/// Mathematical image of a `DownloadError`: the variant with its payloads as
/// ghost values. Contracts that pass errors along speak of this view, so that
/// a copied error provably reports the same failure.
pub enum ErrorView {
    Configuration(Seq<char>),
    ManifestDecode(Seq<char>),
    UrlParse(Seq<char>),
    FetchStatus(u16),
    FetchExhausted(u64, Seq<char>),
    SinkIo(Seq<char>),
}

impl View for DownloadError {
    type V = ErrorView;

    open spec fn view(&self) -> ErrorView {
        match self {
            DownloadError::Configuration(s) => ErrorView::Configuration(s@),
            DownloadError::ManifestDecode(s) => ErrorView::ManifestDecode(s@),
            DownloadError::UrlParse(s) => ErrorView::UrlParse(s@),
            DownloadError::FetchStatus(c) => ErrorView::FetchStatus(*c),
            DownloadError::FetchExhausted { attempts, last } => ErrorView::FetchExhausted(
                *attempts,
                last@,
            ),
            DownloadError::SinkIo(s) => ErrorView::SinkIo(s@),
        }
    }
}

impl Clone for DownloadError {
    /// A clone reports the same failure: the same variant with the same
    /// payloads.
    fn clone(&self) -> (r: Self)
        ensures
            r@ == self@,
    {
        match self {
            DownloadError::Configuration(s) => DownloadError::Configuration(s.clone()),
            DownloadError::ManifestDecode(s) => DownloadError::ManifestDecode(s.clone()),
            DownloadError::UrlParse(s) => DownloadError::UrlParse(s.clone()),
            DownloadError::FetchStatus(c) => DownloadError::FetchStatus(*c),
            DownloadError::FetchExhausted { attempts, last } => DownloadError::FetchExhausted {
                attempts: *attempts,
                last: last.clone(),
            },
            DownloadError::SinkIo(s) => DownloadError::SinkIo(s.clone()),
        }
    }
}

impl DownloadError {
    /// The text `describe` renders for this error.
    pub open spec fn spec_message(&self) -> Seq<char> {
        match self {
            DownloadError::Configuration(s) => "configuration error: "@ + s@,
            DownloadError::ManifestDecode(s) => "manifest decode error: "@ + s@,
            DownloadError::UrlParse(s) => "invalid locator: "@ + s@,
            DownloadError::FetchStatus(c) => "permanent response status "@ + decimal_of(
                *c as nat,
            ),
            DownloadError::FetchExhausted { attempts, last } => "retries exhausted after "@
                + decimal_of(*attempts as nat) + " attempts: "@ + last@,
            DownloadError::SinkIo(s) => "sink error: "@ + s@,
        }
    }

    /// One line saying what failed, for reporting.
    pub fn describe(&self) -> (r: String)
        ensures
            r@ == self.spec_message(),
    {
        match self {
            DownloadError::Configuration(s) => {
                let mut r = "configuration error: ".to_owned();
                r.append(s.as_str());
                r
            },
            DownloadError::ManifestDecode(s) => {
                let mut r = "manifest decode error: ".to_owned();
                r.append(s.as_str());
                r
            },
            DownloadError::UrlParse(s) => {
                let mut r = "invalid locator: ".to_owned();
                r.append(s.as_str());
                r
            },
            DownloadError::FetchStatus(c) => {
                let mut r = "permanent response status ".to_owned();
                let d = decimal_string(*c as u64);
                r.append(d.as_str());
                r
            },
            DownloadError::FetchExhausted { attempts, last } => {
                let mut r = "retries exhausted after ".to_owned();
                let d = decimal_string(*attempts);
                r.append(d.as_str());
                r.append(" attempts: ");
                r.append(last.as_str());
                r
            },
            DownloadError::SinkIo(s) => {
                let mut r = "sink error: ".to_owned();
                r.append(s.as_str());
                r
            },
        }
    }

    /// True of the variants that end the whole run rather than one task.
    pub fn is_fatal(&self) -> (r: bool)
        ensures
            r <==> (self is Configuration || self is ManifestDecode),
    {
        match self {
            DownloadError::Configuration(_) => true,
            DownloadError::ManifestDecode(_) => true,
            _ => false,
        }
    }
}

} // verus!

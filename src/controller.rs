//! The URL controller: reads the URL in force, and validates, saves and applies
//! a new one.

use vstd::prelude::*;
use crate::config::{ConfigStore, config_frame, current_url};

verus! {

/// Whether the url crate parses the text as an absolute URL.
pub uninterp spec fn parses_as_url(s: Seq<char>) -> bool;

/// The url crate's description of why the text is not an absolute URL.
pub uninterp spec fn url_error_text(s: Seq<char>) -> Seq<char>;

/// Whether the URL the url crate parses from the text has an authority (its
/// scheme is followed by `//`).
pub uninterp spec fn has_authority_of(s: Seq<char>) -> bool;

/// The reason given when the text parses but has no authority.
pub const MISSING_AUTHORITY: &'static str = "a scheme and an authority are required";

/// A server URL the controller accepts: absolute, with an authority.
pub open spec fn accepted_url(s: Seq<char>) -> bool {
    parses_as_url(s) && has_authority_of(s)
}

/// Why the controller refuses a text.
pub open spec fn rejection_text(s: Seq<char>) -> Seq<char> {
    if !parses_as_url(s) {
        url_error_text(s)
    } else {
        MISSING_AUTHORITY@
    }
}

/// Relies on url::Url::parse, for whether the text is an absolute URL; on
/// url::Url::has_authority, for whether that URL has an authority; and on the
/// Display of url::ParseError for the reason when the text does not parse.
#[verifier::external_body]
fn parse_url(s: &str) -> (r: Result<bool, String>)
    ensures
        r is Ok <==> parses_as_url(s@),
        r is Ok ==> r->Ok_0 == has_authority_of(s@),
        r is Err ==> r->Err_0@ == url_error_text(s@),
{
    url::Url::parse(s).map(|u| u.has_authority()).map_err(|e| e.to_string())
}

/// The one error a caller of the controller can see.
pub enum UpdateError {
    /// The candidate is not an absolute URL with an authority; `diagnostic`
    /// says why.
    InvalidUrl { diagnostic: String },
}

impl UpdateError {
    /// The reason for the refusal.
    pub open spec fn diagnostic_view(&self) -> Seq<char> {
        match self {
            UpdateError::InvalidUrl { diagnostic } => diagnostic@,
        }
    }

    /// The text shown to the user: `Invalid URL: ` then the diagnostic.
    pub fn message(&self) -> (r: String)
        ensures
            r@ == "Invalid URL: "@ + self.diagnostic_view(),
    {
        match self {
            UpdateError::InvalidUrl { diagnostic } => {
                let mut text = String::from_str("Invalid URL: ");
                text.append(diagnostic.as_str());
                text
            },
        }
    }
}

/// What the shell must do once an update has been accepted.
#[derive(PartialEq, Eq, Structural, Clone, Copy, Debug)]
pub enum Effect {
    /// Relaunch the whole process, so that startup reads the new URL.
    RestartRequested,
}

/// Checks that the candidate is an absolute URL with a scheme and an authority.
pub fn validate_url(candidate: &str) -> (r: Result<(), UpdateError>)
    ensures
        r is Ok <==> accepted_url(candidate@),
        r is Err ==> r->Err_0.diagnostic_view() == rejection_text(candidate@),
{
    match parse_url(candidate) {
        Ok(true) => Ok(()),
        Ok(false) => Err(UpdateError::InvalidUrl { diagnostic: String::from_str(MISSING_AUTHORITY) }),
        Err(diagnostic) => Err(UpdateError::InvalidUrl { diagnostic }),
    }
}

/// The URL in force: the saved one, or the default.
pub fn get_current_url(store: &ConfigStore) -> (r: String)
    ensures
        r@ == current_url(store@),
{
    store.load()
}

/// Validates the candidate; when it is an absolute URL with an authority,
/// saves it and asks for a restart, after which the URL in force is the
/// candidate. A rejected candidate leaves the store as it was and asks for
/// nothing.
pub fn update_url(store: &mut ConfigStore, url: &str) -> (r: Result<Effect, UpdateError>)
    ensures
        r is Ok <==> accepted_url(url@),
        r is Ok ==> r == Ok::<Effect, UpdateError>(Effect::RestartRequested) && final(store)@ == Some(
            config_frame(url@),
        ) && current_url(final(store)@) == url@,
        r is Err ==> r->Err_0.diagnostic_view() == rejection_text(url@) && *final(store) == *old(
            store,
        ),
{
    match validate_url(url) {
        Ok(()) => {
            store.save(url);
            Ok(Effect::RestartRequested)
        },
        Err(e) => Err(e),
    }
}

} // verus!

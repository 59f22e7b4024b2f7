//! The errors that reach a visitor, and how the page that shows them is chosen.

use crate::text::{replace, replace_all, str_eq};
use vstd::prelude::*;
use vstd::std_specs::convert::FromSpecImpl;

verus! {

/// Why a request could not be served.
#[derive(Debug)]
pub enum ApiError {
    /// The backend could not be reached, or did not answer in time.
    Transport(String),
    /// The backend refused the call; the text is the token it gave.
    Upstream(String),
    /// The backend's answer did not have the expected shape.
    Deserialize(String),
    /// The front-end itself refused the request.
    Rejected(String),
}

impl ApiError {
    /// The text by which the error is known: the backend's token, or the message.
    pub open spec fn text(&self) -> Seq<char> {
        match self {
            ApiError::Transport(message) => message@,
            ApiError::Upstream(token) => token@,
            ApiError::Deserialize(message) => message@,
            ApiError::Rejected(message) => message@,
        }
    }

    /// The text by which the error is known.
    pub fn message(&self) -> (message: String)
        ensures
            message@ == self.text(),
    {
        match self {
            ApiError::Transport(message) => message.clone(),
            ApiError::Upstream(token) => token.clone(),
            ApiError::Deserialize(message) => message.clone(),
            ApiError::Rejected(message) => message.clone(),
        }
    }

    /// Whether the backend refused the call because the session it was given
    /// is not valid.
    pub open spec fn is_not_logged_in(&self) -> bool {
        self matches ApiError::Upstream(token) && token@ == "not_logged_in"@
    }

    /// Decides whether the backend refused the call for want of a valid session.
    pub fn not_logged_in(&self) -> (refused: bool)
        ensures
            refused == self.is_not_logged_in(),
    {
        match self {
            ApiError::Upstream(token) => str_eq(token.as_str(), "not_logged_in"),
            _ => false,
        }
    }

    /// A copy of the error.
    pub fn duplicate(&self) -> (copy: ApiError)
        ensures
            copy == *self,
    {
        match self {
            ApiError::Transport(message) => ApiError::Transport(message.clone()),
            ApiError::Upstream(token) => ApiError::Upstream(token.clone()),
            ApiError::Deserialize(message) => ApiError::Deserialize(message.clone()),
            ApiError::Rejected(message) => ApiError::Rejected(message.clone()),
        }
    }
}

/// Whether `results[at]` is the first failure among `results`.
pub open spec fn is_first_failure<T>(results: Seq<Result<T, ApiError>>, at: int) -> bool {
    &&& 0 <= at < results.len()
    &&& results[at] is Err
    &&& forall|j: int| 0 <= j < at ==> (#[trigger] results[j]) is Ok
}

/// Whether none of `results` is a failure.
pub open spec fn all_succeeded<T>(results: Seq<Result<T, ApiError>>) -> bool {
    forall|j: int| 0 <= j < results.len() ==> (#[trigger] results[j]) is Ok
}

/// Joins the results of calls that were made side by side: the values of
/// all of them, in order, or the error of the first that failed.
pub fn collect_results<T>(results: Vec<Result<T, ApiError>>) -> (joined: Result<Vec<T>, ApiError>)
    ensures
        match joined {
            Ok(values) => {
                &&& all_succeeded(results@)
                &&& values@.len() == results@.len()
                &&& forall|i: int|
                    0 <= i < values@.len() ==> results@[i] == Ok::<T, ApiError>(
                        #[trigger] values@[i],
                    )
            },
            Err(error) => exists|at: int|
                is_first_failure(results@, at) && #[trigger] results@[at] == Err::<T, ApiError>(
                    error,
                ),
        },
{
    let ghost all = results@;
    let mut rest = crate::vecs::reverse(results);
    let mut values: Vec<T> = Vec::new();
    while rest.len() > 0
        invariant
            all == results@,
            rest@ == all.reverse().take(rest@.len() as int),
            rest@.len() <= all.len(),
            values@.len() == all.len() - rest@.len(),
            forall|i: int|
                0 <= i < values@.len() ==> all[i] == Ok::<T, ApiError>(#[trigger] values@[i]),
        decreases rest.len(),
    {
        let ghost at = all.len() - rest@.len();
        let result = rest.pop().unwrap();
        assert(result == all[at]);
        match result {
            Ok(value) => {
                values.push(value);
            },
            Err(error) => {
                assert(is_first_failure(all, at)) by {
                    assert forall|j: int| 0 <= j < at implies (#[trigger] all[j]) is Ok by {
                        assert(all[j] == Ok::<T, ApiError>(values@[j]));
                    }
                }
                return Err(error);
            },
        }
    }
    assert(all_succeeded(all)) by {
        assert forall|j: int| 0 <= j < all.len() implies (#[trigger] all[j]) is Ok by {
            assert(all[j] == Ok::<T, ApiError>(values@[j]));
        }
    }
    Ok(values)
}

/// An error on its way to the visitor.
#[derive(Debug)]
pub struct ErrorPage(pub ApiError);

impl From<ApiError> for ErrorPage {
    fn from(error: ApiError) -> (page: ErrorPage) {
        ErrorPage(error)
    }
}

impl FromSpecImpl<ApiError> for ErrorPage {
    open spec fn obeys_from_spec() -> bool {
        true
    }

    open spec fn from_spec(error: ApiError) -> ErrorPage {
        ErrorPage(error)
    }
}

/// The template that shows an error.
#[derive(Clone, Copy, Debug, PartialEq, Eq, Structural)]
pub enum ErrorTemplate {
    /// The site's ordinary message page, within the site's frame.
    Message,
    /// The bare error page, used where nothing is known of the site.
    Error,
}

/// What is sent to the visitor for an error.
#[derive(Debug)]
pub struct ErrorView {
    pub template: ErrorTemplate,
    pub title: String,
    /// The raw error text; given only on the bare error page.
    pub error: Option<String>,
    /// The HTTP status of the answer.
    pub status: u16,
}

/// The status with which every error page is answered.
pub const ERROR_STATUS: u16 = 500;

/// The text shown for the error `key`: its translation where the catalogue
/// has one, else the key itself.
pub open spec fn localized(key: Seq<char>, translation: Option<Seq<char>>) -> Seq<char> {
    match translation {
        Some(text) => text,
        None => key,
    }
}

/// Chooses the text shown for the error `key`, given what the catalogue holds
/// for it in the visitor's language.
pub fn localize_error_message(key: String, translation: Option<String>) -> (message: String)
    ensures
        message@ == localized(
            key@,
            match translation {
                Some(text) => Some(text@),
                None => None,
            },
        ),
{
    match translation {
        Some(text) => text,
        None => key,
    }
}

/// Whether translations into `language` are left out of the catalogue.
pub open spec fn is_ignored_language(language: Seq<char>) -> bool {
    ||| language == "lt"@
    ||| language == "ar"@
    ||| language == "uk"@
    ||| language == "ru"@
    ||| language == "cy"@
    ||| language == "sr_Latn"@
    ||| language == "sk"@
    ||| language == "pl"@
    ||| language == "cs"@
    ||| language == "ga"@
}

/// The language that a translation file named `file_name` is entered under
/// in the catalogue, or `None` where the file is left out.
pub fn catalogue_language(file_name: &str) -> (language: Option<String>)
    ensures
        match language {
            Some(name) => name@ == replace_all(file_name@, ".json"@, Seq::empty())
                && !is_ignored_language(name@),
            None => is_ignored_language(replace_all(file_name@, ".json"@, Seq::empty())),
        },
{
    proof {
        reveal_strlit("");
    }
    let language = replace(file_name, ".json", "");
    assert(""@ =~= Seq::<char>::empty());
    let name = language.as_str();
    let ignored = str_eq(name, "lt") || str_eq(name, "ar") || str_eq(name, "uk") || str_eq(
        name,
        "ru",
    ) || str_eq(name, "cy") || str_eq(name, "sr_Latn") || str_eq(name, "sk") || str_eq(name, "pl")
        || str_eq(name, "cs") || str_eq(name, "ga");
    if ignored {
        None
    } else {
        Some(language)
    }
}

impl ErrorPage {
    /// What is shown for this error. Where the site is known (`site_known`),
    /// the site's message page carries the text chosen by
    /// [`localize_error_message`] from `translation`; else the bare error page
    /// carries the raw text as title and as error.
    pub fn respond_to(self, site_known: bool, translation: Option<String>) -> (view: ErrorView)
        ensures
            view.status == ERROR_STATUS,
            site_known ==> view.template == ErrorTemplate::Message && view.error is None
                && view.title@ == localized(
                self.0.text(),
                match translation {
                    Some(text) => Some(text@),
                    None => None,
                },
            ),
            !site_known ==> view.template == ErrorTemplate::Error && view.title@ == self.0.text()
                && view.error is Some && view.error->0@ == self.0.text(),
    {
        let error = self.0.message();
        if site_known {
            let message = localize_error_message(error, translation);
            ErrorView { template: ErrorTemplate::Message, title: message, error: None, status: 500 }
        } else {
            let title = error.clone();
            ErrorView { template: ErrorTemplate::Error, title, error: Some(error), status: 500 }
        }
    }
}

} // verus!

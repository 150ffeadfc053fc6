use vstd::prelude::*;

use crate::error::{text_result, Error, ErrorView};
use crate::text::starts_with;

verus! {

/// Where traces go when no endpoint is configured.
pub const CLOUD_URL: &'static str = "https://api.axiom.co";

/// What every API token begins with.
pub const TOKEN_PREFIX: &'static str = "xaat-";

/// A setting that the environment can supply when the builder was given none.
#[derive(Clone, Copy, Debug, PartialEq, Eq)]
pub enum Setting {
    /// The API token, from `AXIOM_TOKEN`.
    Token,
    /// The dataset name, from `AXIOM_DATASET`.
    Dataset,
    /// The endpoint, from `AXIOM_URL`.
    Url,
}

/// A token must be present, non-empty and begin with [`TOKEN_PREFIX`]; it is
/// then taken as it is.
pub open spec fn spec_validate_token(token: Option<Seq<char>>) -> Result<Seq<char>, ErrorView> {
    match token {
        None => Err(ErrorView::MissingToken),
        Some(text) => if text.len() == 0 {
            Err(ErrorView::EmptyToken)
        } else if !TOKEN_PREFIX@.is_prefix_of(text) {
            Err(ErrorView::InvalidToken)
        } else {
            Ok(text)
        },
    }
}

/// A dataset name must be present and non-empty; it is then taken as it is.
pub open spec fn spec_validate_dataset(name: Option<Seq<char>>) -> Result<Seq<char>, ErrorView> {
    match name {
        None => Err(ErrorView::MissingDatasetName),
        Some(text) => if text.len() == 0 {
            Err(ErrorView::EmptyDatasetName)
        } else {
            Ok(text)
        },
    }
}

/// Any endpoint is taken as it is, and [`CLOUD_URL`] stands in for a missing
/// one. Whether the text is a URL is decided when the pipeline is assembled.
pub open spec fn spec_validate_url(url: Option<Seq<char>>) -> Result<Seq<char>, ErrorView> {
    match url {
        None => Ok(CLOUD_URL@),
        Some(text) => Ok(text),
    }
}

/// Checks an API token.
pub fn validate_token(token: Option<String>) -> (r: Result<String, Error>)
    ensures
        text_result(r) == spec_validate_token(token.deep_view()),
{
    match token {
        None => Err(Error::MissingToken),
        Some(text) => {
            if text.as_str().is_empty() {
                Err(Error::EmptyToken)
            } else if !starts_with(text.as_str(), TOKEN_PREFIX) {
                Err(Error::InvalidToken)
            } else {
                Ok(text)
            }
        },
    }
}

/// Checks a dataset name.
pub fn validate_dataset(name: Option<String>) -> (r: Result<String, Error>)
    ensures
        text_result(r) == spec_validate_dataset(name.deep_view()),
{
    match name {
        None => Err(Error::MissingDatasetName),
        Some(text) => {
            if text.as_str().is_empty() {
                Err(Error::EmptyDatasetName)
            } else {
                Ok(text)
            }
        },
    }
}

/// Picks the endpoint text: the one given, or [`CLOUD_URL`].
pub fn validate_url(url: Option<String>) -> (r: Result<String, Error>)
    ensures
        text_result(r) == spec_validate_url(url.deep_view()),
{
    match url {
        None => Ok(CLOUD_URL.to_owned()),
        Some(text) => Ok(text),
    }
}

impl Setting {
    /// The name of the environment variable that supplies this setting.
    pub open spec fn spec_env_var_name(self) -> Seq<char> {
        match self {
            Setting::Token => "AXIOM_TOKEN"@,
            Setting::Dataset => "AXIOM_DATASET"@,
            Setting::Url => "AXIOM_URL"@,
        }
    }

    /// What this setting's check makes of a value, or of none.
    pub open spec fn spec_validate(self, value: Option<Seq<char>>) -> Result<
        Seq<char>,
        ErrorView,
    > {
        match self {
            Setting::Token => spec_validate_token(value),
            Setting::Dataset => spec_validate_dataset(value),
            Setting::Url => spec_validate_url(value),
        }
    }

    /// The name of the environment variable that supplies this setting.
    pub fn env_var_name(self) -> (name: &'static str)
        ensures
            name@ == self.spec_env_var_name(),
    {
        match self {
            Setting::Token => "AXIOM_TOKEN",
            Setting::Dataset => "AXIOM_DATASET",
            Setting::Url => "AXIOM_URL",
        }
    }

    /// Checks a value, or the lack of one, as this setting requires.
    pub fn validate(self, value: Option<String>) -> (r: Result<String, Error>)
        ensures
            text_result(r) == self.spec_validate(value.deep_view()),
    {
        match self {
            Setting::Token => validate_token(value),
            Setting::Dataset => validate_dataset(value),
            Setting::Url => validate_url(value),
        }
    }
}

} // verus!

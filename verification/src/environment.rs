use vstd::prelude::*;

use crate::error::{Error, ErrorView};
use crate::setting::Setting;

verus! {

/// What reading one environment variable gave.
#[derive(Debug)]
pub enum EnvValue {
    /// The variable is not set.
    Unset,
    /// The variable holds this text.
    Value(String),
    /// The variable is set to something that is not text.
    NotUnicode,
}

/// An [`EnvValue`] with its text as a sequence of characters.
pub enum EnvValueView {
    Unset,
    Value(Seq<char>),
    NotUnicode,
}

impl View for EnvValue {
    type V = EnvValueView;

    open spec fn view(&self) -> EnvValueView {
        match *self {
            EnvValue::Unset => EnvValueView::Unset,
            EnvValue::Value(text) => EnvValueView::Value(text@),
            EnvValue::NotUnicode => EnvValueView::NotUnicode,
        }
    }
}

/// The text that a variable supplies, if it supplies any, or the error for a
/// variable that holds no text.
pub open spec fn spec_get_env(env_var_name: Seq<char>, value: EnvValueView) -> Result<
    Option<Seq<char>>,
    ErrorView,
> {
    match value {
        EnvValueView::Unset => Ok(None),
        EnvValueView::Value(text) => Ok(Some(text)),
        EnvValueView::NotUnicode => Err(ErrorView::EnvVarNotUnicode(env_var_name)),
    }
}

/// The view of what [`get_env`] returns.
pub open spec fn lookup_view(r: Result<Option<String>, Error>) -> Result<
    Option<Seq<char>>,
    ErrorView,
> {
    match r {
        Ok(found) => Ok(found.deep_view()),
        Err(e) => Err(e@),
    }
}

/// Turns what reading the variable `env_var_name` gave into the text it
/// supplies, if any.
pub fn get_env(env_var_name: &'static str, value: EnvValue) -> (r: Result<Option<String>, Error>)
    ensures
        lookup_view(r) == spec_get_env(env_var_name@, value@),
{
    match value {
        EnvValue::Value(text) => Ok(Some(text)),
        EnvValue::Unset => Ok(None),
        EnvValue::NotUnicode => Err(Error::EnvVarNotUnicode(env_var_name.to_owned())),
    }
}

/// What reading the environment gave for the three variables that supply a
/// setting.
#[derive(Debug)]
pub struct Environment {
    /// `AXIOM_TOKEN`.
    pub token: EnvValue,
    /// `AXIOM_DATASET`.
    pub dataset: EnvValue,
    /// `AXIOM_URL`.
    pub url: EnvValue,
}

/// An [`Environment`] with its texts as sequences of characters.
pub struct EnvironmentView {
    pub token: EnvValueView,
    pub dataset: EnvValueView,
    pub url: EnvValueView,
}

impl View for Environment {
    type V = EnvironmentView;

    open spec fn view(&self) -> EnvironmentView {
        EnvironmentView { token: self.token@, dataset: self.dataset@, url: self.url@ }
    }
}

impl EnvironmentView {
    /// The environment in which none of the three variables is set.
    pub open spec fn unset() -> EnvironmentView {
        EnvironmentView {
            token: EnvValueView::Unset,
            dataset: EnvValueView::Unset,
            url: EnvValueView::Unset,
        }
    }

    /// What the environment holds for `setting`.
    pub open spec fn of(self, setting: Setting) -> EnvValueView {
        match setting {
            Setting::Token => self.token,
            Setting::Dataset => self.dataset,
            Setting::Url => self.url,
        }
    }
}

impl Default for Environment {
    /// The environment in which none of the three variables is set.
    fn default() -> (env: Environment)
        ensures
            env@ == EnvironmentView::unset(),
    {
        Environment { token: EnvValue::Unset, dataset: EnvValue::Unset, url: EnvValue::Unset }
    }
}

} // verus!

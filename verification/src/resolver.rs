use vstd::prelude::*;

use crate::environment::{get_env, EnvValue, EnvValueView};
use crate::error::{text_result, Error, ErrorView};
use crate::setting::{Setting, CLOUD_URL, TOKEN_PREFIX};

verus! {

/// The effective value of one setting.
///
/// With `skip_env` the environment counts for nothing and the explicit value,
/// or the lack of one, goes to the setting's check. Otherwise a variable that
/// holds no text is an error whatever else was given; an explicit value
/// outranks the variable's; and where neither is there, the setting's check
/// may still supply a default, failing which the variable is reported missing.
pub open spec fn spec_resolve(
    skip_env: bool,
    setting: Setting,
    explicit: Option<Seq<char>>,
    env: EnvValueView,
) -> Result<Seq<char>, ErrorView> {
    if skip_env {
        setting.spec_validate(explicit)
    } else {
        match env {
            EnvValueView::NotUnicode => Err(
                ErrorView::EnvVarNotUnicode(setting.spec_env_var_name()),
            ),
            EnvValueView::Value(text) => if explicit is Some {
                setting.spec_validate(explicit)
            } else {
                setting.spec_validate(Some(text))
            },
            EnvValueView::Unset => if explicit is Some {
                setting.spec_validate(explicit)
            } else {
                match setting.spec_validate(None) {
                    Ok(default) => Ok(default),
                    Err(_) => Err(ErrorView::EnvVarMissing(setting.spec_env_var_name())),
                }
            },
        }
    }
}

/// Computes the effective value of `setting` from the value given to the
/// builder, what reading the setting's environment variable gave, and whether
/// the environment is to be left out.
pub fn resolve(skip_env: bool, setting: Setting, explicit: Option<String>, env: EnvValue) -> (r:
    Result<String, Error>)
    ensures
        text_result(r) == spec_resolve(skip_env, setting, explicit.deep_view(), env@),
{
    if skip_env {
        return setting.validate(explicit);
    }
    let found = match get_env(setting.env_var_name(), env) {
        Ok(found) => found,
        Err(e) => {
            return Err(e);
        },
    };
    if explicit.is_some() {
        setting.validate(explicit)
    } else if found.is_some() {
        setting.validate(found)
    } else {
        match setting.validate(None) {
            Ok(default) => Ok(default),
            Err(_) => Err(Error::EnvVarMissing(setting.env_var_name())),
        }
    }
}

/// With the environment left out, what the environment holds makes no
/// difference to any setting.
pub proof fn lemma_skipped_environment_is_ignored(
    setting: Setting,
    explicit: Option<Seq<char>>,
    env: EnvValueView,
    other_env: EnvValueView,
)
    ensures
        spec_resolve(true, setting, explicit, env) == spec_resolve(
            true,
            setting,
            explicit,
            other_env,
        ),
{
}

/// With the environment left out and no explicit value, the token and the
/// dataset name fail with their own "missing" error, whatever the environment
/// holds. The endpoint is not covered: it has a default.
pub proof fn lemma_missing_without_environment(setting: Setting, env: EnvValueView)
    requires
        !(setting is Url),
    ensures
        setting is Token ==> spec_resolve(true, setting, None, env) == Err::<
            Seq<char>,
            ErrorView,
        >(ErrorView::MissingToken),
        setting is Dataset ==> spec_resolve(true, setting, None, env) == Err::<
            Seq<char>,
            ErrorView,
        >(ErrorView::MissingDatasetName),
{
}

/// With the variable unset, an explicit value that passes the setting's check
/// is the result.
pub proof fn lemma_explicit_without_variable(setting: Setting, explicit: Seq<char>)
    requires
        setting.spec_validate(Some(explicit)) is Ok,
    ensures
        spec_resolve(false, setting, Some(explicit), EnvValueView::Unset) == Ok::<
            Seq<char>,
            ErrorView,
        >(explicit),
{
}

/// With the variable set to a text, an explicit value that passes the
/// setting's check is still the result: the explicit value wins.
pub proof fn lemma_explicit_outranks_variable(
    setting: Setting,
    explicit: Seq<char>,
    variable: Seq<char>,
)
    requires
        setting.spec_validate(Some(explicit)) is Ok,
    ensures
        spec_resolve(false, setting, Some(explicit), EnvValueView::Value(variable)) == Ok::<
            Seq<char>,
            ErrorView,
        >(explicit),
{
}

/// With no explicit value, a variable whose text passes the setting's check
/// supplies the result.
pub proof fn lemma_variable_without_explicit(setting: Setting, variable: Seq<char>)
    requires
        setting.spec_validate(Some(variable)) is Ok,
    ensures
        spec_resolve(false, setting, None, EnvValueView::Value(variable)) == Ok::<
            Seq<char>,
            ErrorView,
        >(variable),
{
}

/// A variable that holds no text fails the resolution under the variable's
/// name, whether or not an explicit value was given.
pub proof fn lemma_malformed_variable_always_fails(setting: Setting, explicit: Option<Seq<char>>)
    ensures
        spec_resolve(false, setting, explicit, EnvValueView::NotUnicode) == Err::<
            Seq<char>,
            ErrorView,
        >(ErrorView::EnvVarNotUnicode(setting.spec_env_var_name())),
{
}

/// With the variable unset and no explicit value, the token and the dataset
/// name are reported missing under their variable's name. The endpoint is not
/// covered: it has a default.
pub proof fn lemma_nothing_given(setting: Setting)
    requires
        !(setting is Url),
    ensures
        spec_resolve(false, setting, None, EnvValueView::Unset) == Err::<Seq<char>, ErrorView>(
            ErrorView::EnvVarMissing(setting.spec_env_var_name()),
        ),
{
}

/// An endpoint that is given neither to the builder nor by the environment,
/// or not to the builder while the environment is left out, is the default.
pub proof fn lemma_endpoint_falls_back(skip_env: bool, env: EnvValueView)
    requires
        skip_env || env is Unset,
    ensures
        spec_resolve(skip_env, Setting::Url, None, env) == Ok::<Seq<char>, ErrorView>(
            CLOUD_URL@,
        ),
{
}

/// A resolved token is not empty and begins with the token prefix, and a
/// resolved dataset name is not empty, wherever they came from.
pub proof fn lemma_resolved_value_is_checked(
    skip_env: bool,
    setting: Setting,
    explicit: Option<Seq<char>>,
    env: EnvValueView,
)
    ensures
        spec_resolve(skip_env, setting, explicit, env) matches Ok(value) ==> {
            &&& !(setting is Url) ==> value.len() > 0
            &&& setting is Token ==> TOKEN_PREFIX@.is_prefix_of(value)
        },
{
}

/// A resolved value has exactly one source: the explicit value where there
/// is one; else the variable's text, unless the environment is left out;
/// else, for the endpoint alone, the default.
pub proof fn lemma_resolved_value_has_one_source(
    skip_env: bool,
    setting: Setting,
    explicit: Option<Seq<char>>,
    env: EnvValueView,
)
    ensures
        spec_resolve(skip_env, setting, explicit, env) matches Ok(value) ==> {
            if explicit is Some {
                explicit == Some(value)
            } else if !skip_env && env is Value {
                env == EnvValueView::Value(value)
            } else {
                setting is Url && value == CLOUD_URL@
            }
        },
{
}

} // verus!

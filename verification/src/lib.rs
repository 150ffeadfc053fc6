//! Configuration for sending traces to Axiom over OpenTelemetry.
//!
//! A [`Builder`] collects the API token, the dataset name, the endpoint and the
//! resource tags. Each of the first three may also come from the environment;
//! [`resolve`] decides which source wins and checks the value. Nothing here
//! performs I/O: the environment is handed in as a value, and the outcome is
//! a plain description of the exporter pipeline to install. A [`Guard`] keeps
//! track of the one shutdown that an installed pipeline is owed.
//!
//! What holds of the resolution in general is proved in [`resolver`], next to
//! the function it is about.

pub mod builder;
pub mod endpoint;
pub mod environment;
pub mod error;
pub mod guard;
pub mod pipeline;
pub mod resolver;
pub mod setting;
pub mod text;

pub use builder::{Builder, BuilderView};
pub use endpoint::{endpoint_from, parse_view, parsed_url, spec_endpoint};
pub use environment::{
    get_env, lookup_view, spec_get_env, EnvValue, EnvValueView, Environment, EnvironmentView,
};
pub use error::{text_result, Error, ErrorView};
pub use guard::{Guard, Release};
pub use pipeline::{
    duration_from_secs, headers, names_differ, pipeline_result, resource, spec_assemble,
    spec_headers, spec_resource, spec_sdk_attributes, spec_timeout, spec_user_agent,
    timeout_or_default, user_agent, Pairs, PairsView, PipelineConfig, PipelineConfigView,
    DEFAULT_TIMEOUT_SECS, SDK_LANGUAGE, SDK_NAME, SDK_VERSION,
};
pub use resolver::{resolve, spec_resolve};
pub use setting::{
    spec_validate_dataset, spec_validate_token, spec_validate_url, validate_dataset,
    validate_token, validate_url, Setting, CLOUD_URL, TOKEN_PREFIX,
};
pub use text::starts_with;

use vstd::prelude::*;

verus! {

/// Anchor for the usage examples of the README, so that they are compiled
/// and run together with the documentation tests.
pub struct ReadmeDoctests;

/// A builder that knows the service name and nothing else.
#[must_use]
pub fn builder(service_name: &str) -> (builder: Builder)
    ensures
        builder@ == (BuilderView { service_name: Some(service_name@), ..BuilderView::empty() }),
{
    Builder::default().with_service_name(service_name)
}

/// A builder that knows the service name and what reading the environment
/// gave. Nothing is checked yet: a variable that is missing or unfit shows
/// when the settings are resolved.
#[must_use]
pub fn builder_with_env(service_name: &str, environment: Environment) -> (builder: Builder)
    ensures
        builder@ == (BuilderView {
            service_name: Some(service_name@),
            environment: environment@,
            ..BuilderView::empty()
        }),
{
    Builder::default().with_env(environment).with_service_name(service_name)
}

} // verus!

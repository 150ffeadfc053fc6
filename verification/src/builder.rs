use std::time::Duration;
use vstd::prelude::*;

use crate::endpoint::{parse_url, parsed_url};
use crate::environment::{Environment, EnvironmentView};
use crate::error::{Error, ErrorView};
use crate::pipeline::{
    pipeline_result, spec_assemble, Pairs, PairsView, PipelineConfig, PipelineConfigView,
};
use crate::resolver::{resolve, spec_resolve};
use crate::setting::Setting;

verus! {

/// Collects the settings of a tracer that sends its spans to Axiom.
///
/// Every `with_` method replaces one setting and checks nothing; the checks
/// are made by [`Builder::tracer`]. The token, the dataset name and the
/// endpoint may also come from the environment, which the builder knows only
/// as the value given to [`Builder::with_env`].
#[derive(Debug)]
pub struct Builder {
    dataset_name: Option<String>,
    token: Option<String>,
    url: Option<String>,
    tags: Pairs,
    trace_config: Option<opentelemetry_sdk::trace::Config>,
    service_name: Option<String>,
    timeout: Option<Duration>,
    skip_environment: bool,
    environment: Environment,
}

/// A [`Builder`] with its texts as sequences of characters.
pub struct BuilderView {
    pub dataset_name: Option<Seq<char>>,
    pub token: Option<Seq<char>>,
    pub url: Option<Seq<char>>,
    pub tags: PairsView,
    pub trace_config: Option<opentelemetry_sdk::trace::Config>,
    pub service_name: Option<Seq<char>>,
    pub timeout: Option<Duration>,
    pub skip_environment: bool,
    pub environment: EnvironmentView,
}

impl BuilderView {
    /// The builder to which nothing was given: no setting, no tag, the
    /// environment not left out and none of its variables set.
    pub open spec fn empty() -> BuilderView {
        BuilderView {
            dataset_name: None,
            token: None,
            url: None,
            tags: Seq::empty(),
            trace_config: None,
            service_name: None,
            timeout: None,
            skip_environment: false,
            environment: EnvironmentView::unset(),
        }
    }

    /// The value given to the builder for `setting`.
    pub open spec fn explicit(self, setting: Setting) -> Option<Seq<char>> {
        match setting {
            Setting::Token => self.token,
            Setting::Dataset => self.dataset_name,
            Setting::Url => self.url,
        }
    }

    /// The effective value of `setting`, or why there is none.
    pub open spec fn resolved(self, setting: Setting) -> Result<Seq<char>, ErrorView> {
        spec_resolve(
            self.skip_environment,
            setting,
            self.explicit(setting),
            self.environment.of(setting),
        )
    }

    /// What [`Builder::tracer`] returns: the first error among the token, the
    /// dataset name, the endpoint text and its reading as a URL, in this
    /// order, or else the pipeline configuration.
    pub open spec fn tracer(self) -> Result<PipelineConfigView, ErrorView> {
        match self.resolved(Setting::Token) {
            Err(e) => Err(e),
            Ok(token) => match self.resolved(Setting::Dataset) {
                Err(e) => Err(e),
                Ok(dataset) => match self.resolved(Setting::Url) {
                    Err(e) => Err(e),
                    Ok(url) => spec_assemble(
                        token,
                        dataset,
                        parsed_url(url),
                        self.tags,
                        self.service_name,
                        self.trace_config,
                        self.timeout,
                    ),
                },
            },
        }
    }
}

impl View for Builder {
    type V = BuilderView;

    closed spec fn view(&self) -> BuilderView {
        BuilderView {
            dataset_name: self.dataset_name.deep_view(),
            token: self.token.deep_view(),
            url: self.url.deep_view(),
            tags: self.tags.deep_view(),
            trace_config: self.trace_config,
            service_name: self.service_name.deep_view(),
            timeout: self.timeout,
            skip_environment: self.skip_environment,
            environment: self.environment@,
        }
    }
}

impl Default for Builder {
    /// The builder to which nothing was given.
    fn default() -> (builder: Builder)
        ensures
            builder@ == BuilderView::empty(),
    {
        let tags: Pairs = Vec::new();
        assert(tags.deep_view() =~= Seq::empty());
        Builder {
            dataset_name: None,
            token: None,
            url: None,
            tags,
            trace_config: None,
            service_name: None,
            timeout: None,
            skip_environment: false,
            environment: Environment::default(),
        }
    }
}

impl Builder {
    /// Sets the name of the dataset that stores the traces.
    #[must_use]
    pub fn with_dataset(self, dataset_name: &str) -> (builder: Builder)
        ensures
            builder@ == (BuilderView { dataset_name: Some(dataset_name@), ..self@ }),
    {
        let mut builder = self;
        builder.dataset_name = Some(dataset_name.to_owned());
        builder
    }

    /// Sets the API token.
    #[must_use]
    pub fn with_token(self, token: &str) -> (builder: Builder)
        ensures
            builder@ == (BuilderView { token: Some(token@), ..self@ }),
    {
        let mut builder = self;
        builder.token = Some(token.to_owned());
        builder
    }

    /// Sets the endpoint. Without one, the spans go to Axiom Cloud.
    #[must_use]
    pub fn with_url(self, url: &str) -> (builder: Builder)
        ensures
            builder@ == (BuilderView { url: Some(url@), ..self@ }),
    {
        let mut builder = self;
        builder.url = Some(url.to_owned());
        builder
    }

    /// Sets the tracer configuration, which is handed on as it is.
    #[must_use]
    pub fn with_trace_config(self, trace_config: opentelemetry_sdk::trace::Config) -> (builder:
        Builder)
        ensures
            builder@ == (BuilderView { trace_config: Some(trace_config), ..self@ }),
    {
        let mut builder = self;
        builder.trace_config = Some(trace_config);
        builder
    }

    /// Sets the service name, which becomes the resource attribute
    /// `service.name`.
    #[must_use]
    pub fn with_service_name(self, service_name: &str) -> (builder: Builder)
        ensures
            builder@ == (BuilderView { service_name: Some(service_name@), ..self@ }),
    {
        let mut builder = self;
        builder.service_name = Some(service_name.to_owned());
        builder
    }

    /// Sets the resource tags, in place of any set before.
    #[must_use]
    pub fn with_tags(self, tags: Pairs) -> (builder: Builder)
        ensures
            builder@ == (BuilderView { tags: tags.deep_view(), ..self@ }),
    {
        let mut builder = self;
        builder.tags = tags;
        builder
    }

    /// Sets how long one export may take.
    #[must_use]
    pub fn with_timeout(self, timeout: Duration) -> (builder: Builder)
        ensures
            builder@ == (BuilderView { timeout: Some(timeout), ..self@ }),
    {
        let mut builder = self;
        builder.timeout = Some(timeout);
        builder
    }

    /// Hands the builder what reading the environment gave, in place of
    /// anything handed to it before. Values given to the builder itself keep
    /// their precedence, whether they are set before this call or after it.
    #[must_use]
    pub fn with_env(self, environment: Environment) -> (builder: Builder)
        ensures
            builder@ == (BuilderView { environment: environment@, ..self@ }),
    {
        let mut builder = self;
        builder.environment = environment;
        builder
    }

    /// Leaves the environment out: from now on only values given to the
    /// builder itself count.
    #[must_use]
    pub fn no_env(self) -> (builder: Builder)
        ensures
            builder@ == (BuilderView { skip_environment: true, ..self@ }),
    {
        let mut builder = self;
        builder.skip_environment = true;
        builder
    }

    /// The API token given to the builder, if any.
    pub fn token(&self) -> (token: &Option<String>)
        ensures
            token.deep_view() == self@.token,
    {
        &self.token
    }

    /// The dataset name given to the builder, if any.
    pub fn dataset_name(&self) -> (dataset_name: &Option<String>)
        ensures
            dataset_name.deep_view() == self@.dataset_name,
    {
        &self.dataset_name
    }

    /// The endpoint given to the builder, if any.
    pub fn url(&self) -> (url: &Option<String>)
        ensures
            url.deep_view() == self@.url,
    {
        &self.url
    }

    /// Whether the environment is left out. Where it is, there is no need to
    /// read it.
    pub fn skips_environment(&self) -> (skip: bool)
        ensures
            skip == self@.skip_environment,
    {
        self.skip_environment
    }

    /// Resolves the token, the dataset name and the endpoint, reads the
    /// endpoint as a URL, and puts together what the exporter pipeline is
    /// installed with. The first setting that fails ends the work.
    pub fn tracer(self) -> (r: Result<PipelineConfig, Error>)
        ensures
            pipeline_result(r) == self@.tracer(),
    {
        let Builder {
            dataset_name,
            token,
            url,
            tags,
            trace_config,
            service_name,
            timeout,
            skip_environment,
            environment,
        } = self;
        let Environment { token: env_token, dataset: env_dataset, url: env_url } = environment;
        let token = match resolve(skip_environment, Setting::Token, token, env_token) {
            Ok(token) => token,
            Err(e) => {
                return Err(e);
            },
        };
        let dataset = match resolve(skip_environment, Setting::Dataset, dataset_name, env_dataset) {
            Ok(dataset) => dataset,
            Err(e) => {
                return Err(e);
            },
        };
        let url = match resolve(skip_environment, Setting::Url, url, env_url) {
            Ok(url) => url,
            Err(e) => {
                return Err(e);
            },
        };
        let parsed = parse_url(url.as_str());
        PipelineConfig::assemble(token, dataset, parsed, tags, service_name, trace_config, timeout)
    }
}

} // verus!

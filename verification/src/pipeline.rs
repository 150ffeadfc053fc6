use std::time::Duration;
use vstd::prelude::*;
use vstd::string::StringExecFns;

use crate::endpoint::{endpoint_from, parse_view, spec_endpoint};
use crate::error::{Error, ErrorView};

verus! {

/// `opentelemetry_sdk::trace::Config`, the tracer configuration of the SDK.
/// Its values are carried through unopened.
#[verifier::external_type_specification]
#[verifier::external_body]
pub struct ExTraceConfig(opentelemetry_sdk::trace::Config);

/// The name under which this library reports itself.
pub const SDK_NAME: &'static str = "tracing-axiom";

/// The version under which this library reports itself.
pub const SDK_VERSION: &'static str = "0.7.0";

/// The language under which this library reports itself.
pub const SDK_LANGUAGE: &'static str = "rust";

/// The seconds an export may take when no timeout is configured.
pub const DEFAULT_TIMEOUT_SECS: u64 = 3;

/// The duration that `Duration::from_secs` makes of a number of seconds.
pub uninterp spec fn duration_from_secs(secs: u64) -> Duration;

/// `Duration::from_secs`. Believed, not proved: the same number of seconds
/// gives the same duration, which has the name [`duration_from_secs`].
pub assume_specification[ Duration::from_secs ](secs: u64) -> (d: Duration)
    ensures
        d == duration_from_secs(secs),
;

/// The constant `resource::SERVICE_NAME` of
/// `opentelemetry_semantic_conventions`. Believed, not proved: it is the text
/// `service.name`.
#[verifier::external_body]
fn service_name_key() -> (key: &'static str)
    ensures
        key@ == "service.name"@,
{
    opentelemetry_semantic_conventions::resource::SERVICE_NAME
}

/// The constant `resource::TELEMETRY_SDK_NAME` of
/// `opentelemetry_semantic_conventions`. Believed, not proved: it is the text
/// `telemetry.sdk.name`.
#[verifier::external_body]
fn telemetry_sdk_name_key() -> (key: &'static str)
    ensures
        key@ == "telemetry.sdk.name"@,
{
    opentelemetry_semantic_conventions::resource::TELEMETRY_SDK_NAME
}

/// The constant `resource::TELEMETRY_SDK_VERSION` of
/// `opentelemetry_semantic_conventions`. Believed, not proved: it is the text
/// `telemetry.sdk.version`.
#[verifier::external_body]
fn telemetry_sdk_version_key() -> (key: &'static str)
    ensures
        key@ == "telemetry.sdk.version"@,
{
    opentelemetry_semantic_conventions::resource::TELEMETRY_SDK_VERSION
}

/// The constant `resource::TELEMETRY_SDK_LANGUAGE` of
/// `opentelemetry_semantic_conventions`. Believed, not proved: it is the text
/// `telemetry.sdk.language`.
#[verifier::external_body]
fn telemetry_sdk_language_key() -> (key: &'static str)
    ensures
        key@ == "telemetry.sdk.language"@,
{
    opentelemetry_semantic_conventions::resource::TELEMETRY_SDK_LANGUAGE
}

/// A list of named texts: header lines or resource attributes, in order.
pub type Pairs = Vec<(String, String)>;

/// The view of [`Pairs`].
pub type PairsView = Seq<(Seq<char>, Seq<char>)>;

/// The text by which this library names itself to the server.
pub open spec fn spec_user_agent() -> Seq<char> {
    SDK_NAME@ + "/"@ + SDK_VERSION@
}

/// The header lines of every export request: the token as a bearer
/// credential, the dataset, and the user agent.
pub open spec fn spec_headers(token: Seq<char>, dataset: Seq<char>) -> PairsView {
    seq![
        ("Authorization"@, "Bearer "@ + token),
        ("X-Axiom-Dataset"@, dataset),
        ("User-Agent"@, spec_user_agent()),
    ]
}

/// The attributes that describe this library as the telemetry SDK.
pub open spec fn spec_sdk_attributes() -> PairsView {
    seq![
        ("telemetry.sdk.name"@, SDK_NAME@),
        ("telemetry.sdk.version"@, SDK_VERSION@),
        ("telemetry.sdk.language"@, SDK_LANGUAGE@),
    ]
}

/// The resource attributes: the caller's tags in their order, then the
/// attributes of the SDK, then the service name if there is one. A tag under
/// the key of a later attribute stays where it is; nothing is dropped.
pub open spec fn spec_resource(tags: PairsView, service_name: Option<Seq<char>>) -> PairsView {
    let described = tags + spec_sdk_attributes();
    match service_name {
        Some(name) => described.push(("service.name"@, name)),
        None => described,
    }
}

/// The timeout of an export: the one configured, or
/// [`DEFAULT_TIMEOUT_SECS`] seconds.
pub open spec fn spec_timeout(timeout: Option<Duration>) -> Duration {
    match timeout {
        Some(configured) => configured,
        None => duration_from_secs(DEFAULT_TIMEOUT_SECS),
    }
}

/// All that the exporter pipeline is installed with.
#[derive(Debug)]
pub struct PipelineConfig {
    /// Where the spans are posted.
    pub endpoint: String,
    /// The header lines of every request, under pairwise different names.
    pub headers: Pairs,
    /// The resource attributes, in the order in which they are attached.
    pub resource: Pairs,
    /// The tracer configuration that the caller supplied, if any.
    pub trace_config: Option<opentelemetry_sdk::trace::Config>,
    /// How long one export may take.
    pub timeout: Duration,
}

/// A [`PipelineConfig`] with its texts as sequences of characters.
pub struct PipelineConfigView {
    pub endpoint: Seq<char>,
    pub headers: PairsView,
    pub resource: PairsView,
    pub trace_config: Option<opentelemetry_sdk::trace::Config>,
    pub timeout: Duration,
}

impl View for PipelineConfig {
    type V = PipelineConfigView;

    open spec fn view(&self) -> PipelineConfigView {
        PipelineConfigView {
            endpoint: self.endpoint@,
            headers: self.headers.deep_view(),
            resource: self.resource.deep_view(),
            trace_config: self.trace_config,
            timeout: self.timeout,
        }
    }
}

/// The view of a pipeline configuration or an error, whichever a result holds.
pub open spec fn pipeline_result(r: Result<PipelineConfig, Error>) -> Result<
    PipelineConfigView,
    ErrorView,
> {
    match r {
        Ok(config) => Ok(config@),
        Err(e) => Err(e@),
    }
}

/// The pipeline configuration that resolved settings and a parser's outcome
/// amount to: none if the endpoint is no URL.
pub open spec fn spec_assemble(
    token: Seq<char>,
    dataset: Seq<char>,
    parsed: Result<Seq<char>, url::ParseError>,
    tags: PairsView,
    service_name: Option<Seq<char>>,
    trace_config: Option<opentelemetry_sdk::trace::Config>,
    timeout: Option<Duration>,
) -> Result<PipelineConfigView, ErrorView> {
    match spec_endpoint(parsed) {
        Err(e) => Err(e),
        Ok(endpoint) => Ok(
            PipelineConfigView {
                endpoint,
                headers: spec_headers(token, dataset),
                resource: spec_resource(tags, service_name),
                trace_config,
                timeout: spec_timeout(timeout),
            },
        ),
    }
}

/// Whether no name occurs twice among the pairs.
pub open spec fn names_differ(pairs: PairsView) -> bool {
    forall|i: int, j: int| 0 <= i < j < pairs.len() ==> pairs[i].0 != pairs[j].0
}

/// No two header lines bear the same name, whatever the token and the
/// dataset are: the lines can be told apart by name, as the entries of a map.
pub proof fn lemma_header_names_differ(token: Seq<char>, dataset: Seq<char>)
    ensures
        names_differ(spec_headers(token, dataset)),
{
    reveal_strlit("Authorization");
    reveal_strlit("X-Axiom-Dataset");
    reveal_strlit("User-Agent");
    assert("Authorization"@[0] != "X-Axiom-Dataset"@[0]);
    assert("Authorization"@[0] != "User-Agent"@[0]);
    assert("X-Axiom-Dataset"@[0] != "User-Agent"@[0]);
}

/// Appends the pair of `name` and `value`.
fn push_pair(pairs: &mut Pairs, name: &str, value: String)
    ensures
        final(pairs).deep_view() == old(pairs).deep_view().push((name@, value@)),
{
    pairs.push((name.to_owned(), value));
}

/// The text by which this library names itself to the server.
pub fn user_agent() -> (agent: String)
    ensures
        agent@ == spec_user_agent(),
{
    let mut agent = SDK_NAME.to_owned();
    agent.append("/");
    agent.append(SDK_VERSION);
    agent
}

/// The header lines for a token and a dataset.
pub fn headers(token: &str, dataset: String) -> (lines: Pairs)
    ensures
        lines.deep_view() == spec_headers(token@, dataset@),
        names_differ(lines.deep_view()),
{
    let mut bearer = "Bearer ".to_owned();
    bearer.append(token);
    let mut lines: Pairs = Vec::new();
    push_pair(&mut lines, "Authorization", bearer);
    push_pair(&mut lines, "X-Axiom-Dataset", dataset);
    push_pair(&mut lines, "User-Agent", user_agent());
    proof {
        lemma_header_names_differ(token@, dataset@);
    }
    lines
}

/// The resource attributes for the caller's tags and service name.
pub fn resource(tags: Pairs, service_name: Option<String>) -> (attributes: Pairs)
    ensures
        attributes.deep_view() == spec_resource(tags.deep_view(), service_name.deep_view()),
{
    let mut attributes = tags;
    push_pair(&mut attributes, telemetry_sdk_name_key(), SDK_NAME.to_owned());
    push_pair(&mut attributes, telemetry_sdk_version_key(), SDK_VERSION.to_owned());
    push_pair(&mut attributes, telemetry_sdk_language_key(), SDK_LANGUAGE.to_owned());
    if let Some(name) = service_name {
        push_pair(&mut attributes, service_name_key(), name);
    }
    attributes
}

/// The timeout of an export: the one configured, or the default.
pub fn timeout_or_default(timeout: Option<Duration>) -> (effective: Duration)
    ensures
        effective == spec_timeout(timeout),
{
    match timeout {
        Some(configured) => configured,
        None => Duration::from_secs(DEFAULT_TIMEOUT_SECS),
    }
}

impl PipelineConfig {
    /// Puts together the pipeline configuration from resolved settings and
    /// from what the URL parser made of the endpoint. Fails with
    /// [`Error::InvalidUrl`] where the parser refused, and not otherwise.
    pub fn assemble(
        token: String,
        dataset: String,
        parsed: Result<String, url::ParseError>,
        tags: Pairs,
        service_name: Option<String>,
        trace_config: Option<opentelemetry_sdk::trace::Config>,
        timeout: Option<Duration>,
    ) -> (r: Result<PipelineConfig, Error>)
        ensures
            pipeline_result(r) == spec_assemble(
                token@,
                dataset@,
                parse_view(parsed),
                tags.deep_view(),
                service_name.deep_view(),
                trace_config,
                timeout,
            ),
    {
        let endpoint = match endpoint_from(parsed) {
            Ok(endpoint) => endpoint,
            Err(e) => {
                return Err(e);
            },
        };
        Ok(
            PipelineConfig {
                endpoint,
                headers: headers(token.as_str(), dataset),
                resource: resource(tags, service_name),
                trace_config,
                timeout: timeout_or_default(timeout),
            },
        )
    }
}

} // verus!

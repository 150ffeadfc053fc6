use vstd::prelude::*;

verus! {

/// `url::ParseError`, the reason the `url` crate gives for refusing a text.
/// Its values are carried through unopened.
#[verifier::external_type_specification]
#[verifier::external_body]
pub struct ExParseError(url::ParseError);

/// `opentelemetry::trace::TraceError`, what installing an exporter pipeline
/// fails with. Its values are carried through unopened.
#[verifier::external_type_specification]
#[verifier::external_body]
pub struct ExTraceError(opentelemetry::trace::TraceError);

/// `tracing_subscriber::util::TryInitError`, what installing a second global
/// subscriber fails with. Its values are carried through unopened.
#[verifier::external_type_specification]
#[verifier::external_body]
pub struct ExTryInitError(tracing_subscriber::util::TryInitError);

/// Everything that can go wrong between a builder and a running tracer.
#[derive(Debug)]
pub enum Error {
    /// The exporter pipeline could not be installed.
    TraceConfigurationFailed(opentelemetry::trace::TraceError),
    /// A global subscriber was installed already.
    SubscriberAlreadyInitialized(tracing_subscriber::util::TryInitError),
    /// No API token was given.
    MissingToken,
    /// The API token is the empty string.
    EmptyToken,
    /// The API token does not carry the prefix of an API token.
    InvalidToken,
    /// No dataset name was given.
    MissingDatasetName,
    /// The dataset name is the empty string.
    EmptyDatasetName,
    /// The endpoint is not an absolute URL.
    InvalidUrl(url::ParseError),
    /// The named environment variable holds something that is not text.
    EnvVarNotUnicode(String),
    /// The named environment variable is required and not set.
    EnvVarMissing(&'static str),
}

/// An [`Error`] with its texts as sequences of characters.
pub enum ErrorView {
    TraceConfigurationFailed(opentelemetry::trace::TraceError),
    SubscriberAlreadyInitialized(tracing_subscriber::util::TryInitError),
    MissingToken,
    EmptyToken,
    InvalidToken,
    MissingDatasetName,
    EmptyDatasetName,
    InvalidUrl(url::ParseError),
    EnvVarNotUnicode(Seq<char>),
    EnvVarMissing(Seq<char>),
}

impl View for Error {
    type V = ErrorView;

    open spec fn view(&self) -> ErrorView {
        match *self {
            Error::TraceConfigurationFailed(e) => ErrorView::TraceConfigurationFailed(e),
            Error::SubscriberAlreadyInitialized(e) => ErrorView::SubscriberAlreadyInitialized(e),
            Error::MissingToken => ErrorView::MissingToken,
            Error::EmptyToken => ErrorView::EmptyToken,
            Error::InvalidToken => ErrorView::InvalidToken,
            Error::MissingDatasetName => ErrorView::MissingDatasetName,
            Error::EmptyDatasetName => ErrorView::EmptyDatasetName,
            Error::InvalidUrl(e) => ErrorView::InvalidUrl(e),
            Error::EnvVarNotUnicode(name) => ErrorView::EnvVarNotUnicode(name@),
            Error::EnvVarMissing(name) => ErrorView::EnvVarMissing(name@),
        }
    }
}

/// The view of a text or an error, whichever a result holds.
pub open spec fn text_result(r: Result<String, Error>) -> Result<Seq<char>, ErrorView> {
    match r {
        Ok(text) => Ok(text@),
        Err(e) => Err(e@),
    }
}

} // verus!

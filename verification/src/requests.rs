//! What a fetch from the data provider came to: a series or a classified error.

use vstd::prelude::*;

use crate::quote::{strictly_ascending, QuoteRecord, QuoteSeries};

verus! {

/// How a request to the data provider failed, as the provider reports it.
#[derive(Clone, Copy, Debug, PartialEq, Eq, Structural)]
pub enum ProviderFailure {
    /// The provider answered with a status other than success.
    FetchFailed,
    /// The answer could not be read as the expected structure.
    DeserializeFailed,
    /// The provider could not be reached.
    ConnectionFailed,
    /// The answer was not valid JSON.
    InvalidJson,
    /// The answer held no data.
    EmptyDataSet,
    /// The answer's columns did not agree in length.
    DataInconsistency,
    /// The client that talks to the provider could not be set up.
    BuilderFailed,
}

/// Why a refresh brought no series.
#[derive(Clone, Copy, Debug, PartialEq, Eq, Structural)]
pub enum FetchError {
    /// The transport failed before the provider answered.
    Network,
    /// The provider was reached and returned an error or nothing.
    Provider,
    /// The provider's payload was malformed.
    Parse,
}

/// The class of error that each provider failure falls under.
pub open spec fn error_class(failure: ProviderFailure) -> FetchError {
    match failure {
        ProviderFailure::ConnectionFailed | ProviderFailure::BuilderFailed => FetchError::Network,
        ProviderFailure::FetchFailed | ProviderFailure::EmptyDataSet => FetchError::Provider,
        ProviderFailure::DeserializeFailed
        | ProviderFailure::InvalidJson
        | ProviderFailure::DataInconsistency => FetchError::Parse,
    }
}

/// The outcome of a fetch whose raw answer is `response`. An answer without
/// bars is a provider error, bars that are not strictly ascending are a parse
/// error, any other bars are the series, and a failure of the provider comes
/// out as its class.
pub open spec fn history_outcome(
    response: Result<Seq<QuoteRecord>, ProviderFailure>,
) -> Result<Seq<QuoteRecord>, FetchError> {
    match response {
        Ok(records) => if records.len() == 0 {
            Err(FetchError::Provider)
        } else if strictly_ascending(records) {
            Ok(records)
        } else {
            Err(FetchError::Parse)
        },
        Err(failure) => Err(error_class(failure)),
    }
}

/// The view of a raw answer: the bars as a sequence.
pub open spec fn response_view(
    response: Result<Vec<QuoteRecord>, ProviderFailure>,
) -> Result<Seq<QuoteRecord>, ProviderFailure> {
    match response {
        Ok(records) => Ok(records@),
        Err(failure) => Err(failure),
    }
}

/// The view of a fetch outcome: the series as a sequence of bars.
pub open spec fn outcome_view(
    outcome: Result<QuoteSeries, FetchError>,
) -> Result<Seq<QuoteRecord>, FetchError> {
    match outcome {
        Ok(series) => Ok(series@),
        Err(error) => Err(error),
    }
}

/// A fetch brings a series only when the provider answered with bars, and
/// then exactly those bars: there is at least one, and they are strictly
/// ascending.
pub proof fn fetched_series_is_the_answer(response: Result<Seq<QuoteRecord>, ProviderFailure>)
    ensures
        history_outcome(response) matches Ok(series) ==> response matches Ok(bars) && bars
            == series && series.len() > 0 && strictly_ascending(series),
        response is Err ==> history_outcome(response) is Err,
{
}

/// Classifies a provider failure.
pub fn classify(failure: ProviderFailure) -> (error: FetchError)
    ensures
        error == error_class(failure),
{
    match failure {
        ProviderFailure::ConnectionFailed => FetchError::Network,
        ProviderFailure::BuilderFailed => FetchError::Network,
        ProviderFailure::FetchFailed => FetchError::Provider,
        ProviderFailure::EmptyDataSet => FetchError::Provider,
        ProviderFailure::DeserializeFailed => FetchError::Parse,
        ProviderFailure::InvalidJson => FetchError::Parse,
        ProviderFailure::DataInconsistency => FetchError::Parse,
    }
}

/// Turns the provider's raw answer into the outcome of the fetch.
pub fn get_history(
    response: Result<Vec<QuoteRecord>, ProviderFailure>,
) -> (outcome: Result<QuoteSeries, FetchError>)
    ensures
        outcome_view(outcome) == history_outcome(response_view(response)),
{
    match response {
        Ok(records) => if records.len() == 0 {
            Err(FetchError::Provider)
        } else {
            match QuoteSeries::new(records) {
                Some(series) => Ok(series),
                None => Err(FetchError::Parse),
            }
        },
        Err(failure) => Err(classify(failure)),
    }
}

} // verus!

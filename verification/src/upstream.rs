//! One request for one symbol: where it goes, and what its answer means.

use vstd::prelude::*;
use vstd::string::*;
use crate::json::document;
use crate::quote::{decoded, DecodeError, Quote, QuoteView};

verus! {

/// Where quotes are asked for.
pub const QUOTE_URL_BASE: &'static str = "https://sandbox.iexapis.com/stable/stock";

/// What follows the symbol in a request for its quote. The credential goes
/// behind the letter `T`.
pub const QUOTE_URL_QUERY: &'static str = "/quote?token=T";

/// The lowest HTTP status that counts as a failure.
pub const FIRST_FAILURE_STATUS: u16 = 400;

/// The address that the quote of a symbol is asked from.
pub open spec fn url_of(symbol: Seq<char>, credential: Seq<char>) -> Seq<char> {
    QUOTE_URL_BASE@ + "/"@ + symbol + QUOTE_URL_QUERY@ + credential
}

/// Builds the address that the quote of a symbol is asked from.
pub fn quote_url(symbol: &str, credential: &str) -> (r: String)
    ensures
        r@ == url_of(symbol@, credential@),
{
    let mut url = String::from_str(QUOTE_URL_BASE);
    url.append("/");
    url.append(symbol);
    url.append(QUOTE_URL_QUERY);
    url.append(credential);
    url
}

/// Why a fetch gave no quote.
#[derive(Clone, Copy, Debug, PartialEq, Eq, Structural)]
pub enum FailureKind {
    /// The request did not get an answer: connecting, sending or reading
    /// failed or timed out.
    Transport,
    /// The upstream answered with this status, which is 400 or above.
    Status(u16),
    /// The answer's body is no quote.
    Decode(DecodeError),
}

/// A failed fetch: the symbol that was asked for, and what went wrong.
#[derive(Debug)]
pub struct FetchFailure {
    pub symbol: String,
    pub kind: FailureKind,
}

/// A failed fetch as a mathematical value.
pub struct FailedFetch {
    pub symbol: Seq<char>,
    pub kind: FailureKind,
}

impl View for FetchFailure {
    type V = FailedFetch;

    open spec fn view(&self) -> FailedFetch {
        FailedFetch { symbol: self.symbol@, kind: self.kind }
    }
}

impl FailureKind {
    /// What the failure is called in a log line.
    pub open spec fn text(self) -> Seq<char> {
        match self {
            FailureKind::Transport => "request failed"@,
            FailureKind::Status(_) => "upstream answered with an error status"@,
            FailureKind::Decode(_) => "response body is not a quote"@,
        }
    }

    /// What the failure is called in a log line.
    pub fn describe(&self) -> (r: &'static str)
        ensures
            r@ == self.text(),
    {
        match self {
            FailureKind::Transport => "request failed",
            FailureKind::Status(_) => "upstream answered with an error status",
            FailureKind::Decode(_) => "response body is not a quote",
        }
    }
}

impl FailedFetch {
    /// The log line for the failure. It names the symbol and never the
    /// credential.
    pub open spec fn line(self) -> Seq<char> {
        "Failed to retrieve quote for "@ + self.symbol + ": "@ + self.kind.text()
    }
}

impl FetchFailure {
    /// A fetch of `symbol` that did not get an answer.
    pub fn transport(symbol: &str) -> (r: FetchFailure)
        ensures
            r@ == (FailedFetch { symbol: symbol@, kind: FailureKind::Transport }),
    {
        FetchFailure { symbol: String::from_str(symbol), kind: FailureKind::Transport }
    }

    /// The log line for the failure.
    pub fn message(&self) -> (r: String)
        ensures
            r@ == self@.line(),
    {
        let mut line = String::from_str("Failed to retrieve quote for ");
        line.append(self.symbol.as_str());
        line.append(": ");
        line.append(self.kind.describe());
        line
    }
}

/// What an answer means: a failure where the status is 400 or above or the
/// body is no quote, else the quote in the body.
pub open spec fn interpreted(symbol: Seq<char>, status: u16, body: Result<QuoteView, DecodeError>) -> Result<
    QuoteView,
    FailedFetch,
> {
    if status >= FIRST_FAILURE_STATUS {
        Err(FailedFetch { symbol, kind: FailureKind::Status(status) })
    } else {
        match body {
            Ok(quote) => Ok(quote),
            Err(e) => Err(FailedFetch { symbol, kind: FailureKind::Decode(e) }),
        }
    }
}

/// Whether a fetch's result is the given outcome, both sides taken by their
/// views.
pub open spec fn outcome_is(r: Result<Quote, FetchFailure>, outcome: Result<QuoteView, FailedFetch>) -> bool {
    match r {
        Ok(quote) => outcome == Ok::<QuoteView, FailedFetch>(quote@),
        Err(failure) => outcome == Err::<QuoteView, FailedFetch>(failure@),
    }
}

/// A decoding result with the quote taken by its view.
pub open spec fn decoding_view(r: Result<Quote, DecodeError>) -> Result<QuoteView, DecodeError> {
    match r {
        Ok(quote) => Ok(quote@),
        Err(e) => Err(e),
    }
}

/// Judges an answer by its status and by what decoding its body gave.
pub fn classify(symbol: &str, status: u16, body: Result<Quote, DecodeError>) -> (r: Result<Quote, FetchFailure>)
    ensures
        outcome_is(r, interpreted(symbol@, status, decoding_view(body))),
{
    if status >= FIRST_FAILURE_STATUS {
        return Err(FetchFailure { symbol: String::from_str(symbol), kind: FailureKind::Status(status) });
    }
    match body {
        Ok(quote) => Ok(quote),
        Err(e) => Err(FetchFailure { symbol: String::from_str(symbol), kind: FailureKind::Decode(e) }),
    }
}

/// Judges the answer to a request for the quote of `symbol`.
pub fn interpret_response(symbol: &str, status: u16, body: &[u8]) -> (r: Result<Quote, FetchFailure>)
    ensures
        outcome_is(r, interpreted(symbol@, status, decoded(document(body@)))),
        r matches Ok(quote) ==> quote.well_formed(),
{
    let body = Quote::decode(body);
    classify(symbol, status, body)
}

} // verus!

//! The quote record and its decoding from an upstream response body.

use vstd::prelude::*;
use crate::json::{document, member, members, parse_document, real_bits, Shape};

verus! {

/// Upstream name of the ticker symbol.
pub const KEY_SYMBOL: &'static str = "symbol";

/// Upstream name of the company's display name.
pub const KEY_COMPANY_NAME: &'static str = "companyName";

/// Upstream name of the latest price.
pub const KEY_LATEST_PRICE: &'static str = "latestPrice";

/// Upstream name of the latest traded volume.
pub const KEY_LATEST_VOLUME: &'static str = "latestVolume";

/// Upstream name of the market capitalisation.
pub const KEY_MARKET_CAP: &'static str = "marketCap";

/// The exponent bits of a double; all set in an infinity or a NaN.
pub const EXPONENT_MASK: u64 = 0x7ff0_0000_0000_0000;

/// A price, carried as the bit pattern of a double.
#[derive(Clone, Copy, Debug, PartialEq, Eq, Structural)]
pub struct Price {
    pub bits: u64,
}

impl Price {
    /// Neither an infinity nor a NaN.
    pub open spec fn is_finite(self) -> bool {
        self.bits & EXPONENT_MASK != EXPONENT_MASK
    }

    pub fn from_bits(bits: u64) -> (r: Price)
        ensures
            r.bits == bits,
    {
        Price { bits }
    }

    pub fn to_bits(&self) -> (r: u64)
        ensures
            r == self.bits,
    {
        self.bits
    }

    pub fn finite(&self) -> (r: bool)
        ensures
            r == self.is_finite(),
    {
        self.bits & EXPONENT_MASK != EXPONENT_MASK
    }
}

/// The five members that a quote is made of.
#[derive(Clone, Copy, Debug, PartialEq, Eq, Structural)]
pub enum Field {
    Symbol,
    CompanyName,
    LatestPrice,
    LatestVolume,
    MarketCap,
}

/// Why a response body is no quote.
#[derive(Clone, Copy, Debug, PartialEq, Eq, Structural)]
pub enum DecodeError {
    /// The body is not one well-formed JSON text.
    Malformed,
    /// The document has no member of that name.
    Missing(Field),
    /// The member is there but holds a value of another JSON type.
    Mistyped(Field),
    /// The price is an infinity or a NaN.
    NonFinitePrice,
}

/// What looking up one member gave.
pub enum Lookup<T> {
    Absent,
    Mistyped,
    Present(T),
}

/// One symbol at one instant.
#[derive(Debug)]
pub struct Quote {
    pub symbol: String,
    pub company_name: String,
    pub latest_price: Price,
    pub latest_volume: i64,
    pub market_cap: i64,
}

/// A quote as a mathematical value.
pub struct QuoteView {
    pub symbol: Seq<char>,
    pub company_name: Seq<char>,
    pub latest_price: Price,
    pub latest_volume: i64,
    pub market_cap: i64,
}

impl View for Quote {
    type V = QuoteView;

    open spec fn view(&self) -> QuoteView {
        QuoteView {
            symbol: self.symbol@,
            company_name: self.company_name@,
            latest_price: self.latest_price,
            latest_volume: self.latest_volume,
            market_cap: self.market_cap,
        }
    }
}

/// The text member `key` of a document.
pub open spec fn text_member(doc: Map<Seq<char>, Shape>, key: Seq<char>) -> Lookup<Seq<char>> {
    if !doc.contains_key(key) {
        Lookup::Absent
    } else {
        match doc[key] {
            Shape::Text(text) => Lookup::Present(text),
            _ => Lookup::Mistyped,
        }
    }
}

/// The integer member `key` of a document.
pub open spec fn integer_member(doc: Map<Seq<char>, Shape>, key: Seq<char>) -> Lookup<i64> {
    if !doc.contains_key(key) {
        Lookup::Absent
    } else {
        match doc[key] {
            Shape::Number { integer: Some(n), real_bits } => Lookup::Present(n),
            _ => Lookup::Mistyped,
        }
    }
}

/// The numeric member `key` of a document, as the bits of a double.
pub open spec fn real_member(doc: Map<Seq<char>, Shape>, key: Seq<char>) -> Lookup<u64> {
    if !doc.contains_key(key) {
        Lookup::Absent
    } else {
        match doc[key] {
            Shape::Number { integer, real_bits } => Lookup::Present(real_bits),
            _ => Lookup::Mistyped,
        }
    }
}

/// The failure that a lookup stands for, if it is one.
pub open spec fn lookup_failure<T>(lookup: Lookup<T>, field: Field) -> Option<DecodeError> {
    match lookup {
        Lookup::Absent => Some(DecodeError::Missing(field)),
        Lookup::Mistyped => Some(DecodeError::Mistyped(field)),
        Lookup::Present(_) => None,
    }
}

/// The quote that five lookups make, or the first failure among them in the
/// order symbol, company name, price, volume, market capitalisation.
pub open spec fn assemble(
    symbol: Lookup<Seq<char>>,
    company_name: Lookup<Seq<char>>,
    latest_price: Lookup<u64>,
    latest_volume: Lookup<i64>,
    market_cap: Lookup<i64>,
) -> Result<QuoteView, DecodeError> {
    if let Some(e) = lookup_failure(symbol, Field::Symbol) {
        Err(e)
    } else if let Some(e) = lookup_failure(company_name, Field::CompanyName) {
        Err(e)
    } else if let Some(e) = lookup_failure(latest_price, Field::LatestPrice) {
        Err(e)
    } else if !(Price { bits: latest_price->Present_0 }).is_finite() {
        Err(DecodeError::NonFinitePrice)
    } else if let Some(e) = lookup_failure(latest_volume, Field::LatestVolume) {
        Err(e)
    } else if let Some(e) = lookup_failure(market_cap, Field::MarketCap) {
        Err(e)
    } else {
        Ok(
            QuoteView {
                symbol: symbol->Present_0,
                company_name: company_name->Present_0,
                latest_price: Price { bits: latest_price->Present_0 },
                latest_volume: latest_volume->Present_0,
                market_cap: market_cap->Present_0,
            },
        )
    }
}

/// The quote that a parsed document holds.
pub open spec fn decoded(doc: Option<Map<Seq<char>, Shape>>) -> Result<QuoteView, DecodeError> {
    match doc {
        None => Err(DecodeError::Malformed),
        Some(m) => assemble(
            text_member(m, KEY_SYMBOL@),
            text_member(m, KEY_COMPANY_NAME@),
            real_member(m, KEY_LATEST_PRICE@),
            integer_member(m, KEY_LATEST_VOLUME@),
            integer_member(m, KEY_MARKET_CAP@),
        ),
    }
}

/// A text lookup by its characters.
pub open spec fn text_view(lookup: Lookup<String>) -> Lookup<Seq<char>> {
    match lookup {
        Lookup::Absent => Lookup::Absent,
        Lookup::Mistyped => Lookup::Mistyped,
        Lookup::Present(text) => Lookup::Present(text@),
    }
}

/// Whether a result is the given outcome, the quote taken by its view.
pub open spec fn yields(r: Result<Quote, DecodeError>, outcome: Result<QuoteView, DecodeError>) -> bool {
    match r {
        Ok(quote) => outcome == Ok::<QuoteView, DecodeError>(quote@),
        Err(e) => outcome == Err::<QuoteView, DecodeError>(e),
    }
}

impl Quote {
    /// Every quote that decoding hands out has a finite price.
    pub open spec fn well_formed(&self) -> bool {
        self.latest_price.is_finite()
    }

    /// Builds a quote from the five looked-up members.
    pub fn from_members(
        symbol: Lookup<String>,
        company_name: Lookup<String>,
        latest_price: Lookup<u64>,
        latest_volume: Lookup<i64>,
        market_cap: Lookup<i64>,
    ) -> (r: Result<Quote, DecodeError>)
        ensures
            yields(
                r,
                assemble(text_view(symbol), text_view(company_name), latest_price, latest_volume, market_cap),
            ),
            r matches Ok(quote) ==> quote.well_formed(),
    {
        let symbol = match symbol {
            Lookup::Present(text) => text,
            Lookup::Absent => { return Err(DecodeError::Missing(Field::Symbol)); },
            Lookup::Mistyped => { return Err(DecodeError::Mistyped(Field::Symbol)); },
        };
        let company_name = match company_name {
            Lookup::Present(text) => text,
            Lookup::Absent => { return Err(DecodeError::Missing(Field::CompanyName)); },
            Lookup::Mistyped => { return Err(DecodeError::Mistyped(Field::CompanyName)); },
        };
        let latest_price = match latest_price {
            Lookup::Present(bits) => Price::from_bits(bits),
            Lookup::Absent => { return Err(DecodeError::Missing(Field::LatestPrice)); },
            Lookup::Mistyped => { return Err(DecodeError::Mistyped(Field::LatestPrice)); },
        };
        if !latest_price.finite() {
            return Err(DecodeError::NonFinitePrice);
        }
        let latest_volume = match latest_volume {
            Lookup::Present(n) => n,
            Lookup::Absent => { return Err(DecodeError::Missing(Field::LatestVolume)); },
            Lookup::Mistyped => { return Err(DecodeError::Mistyped(Field::LatestVolume)); },
        };
        let market_cap = match market_cap {
            Lookup::Present(n) => n,
            Lookup::Absent => { return Err(DecodeError::Missing(Field::MarketCap)); },
            Lookup::Mistyped => { return Err(DecodeError::Mistyped(Field::MarketCap)); },
        };
        Ok(Quote { symbol, company_name, latest_price, latest_volume, market_cap })
    }

    /// Decodes one upstream response body.
    pub fn decode(body: &[u8]) -> (r: Result<Quote, DecodeError>)
        ensures
            yields(r, decoded(document(body@))),
            r matches Ok(quote) ==> quote.well_formed(),
    {
        let value = match parse_document(body) {
            Ok(value) => value,
            Err(_) => { return Err(DecodeError::Malformed); },
        };
        let symbol = lookup_text(&value, KEY_SYMBOL);
        let company_name = lookup_text(&value, KEY_COMPANY_NAME);
        let latest_price = lookup_real(&value, KEY_LATEST_PRICE);
        let latest_volume = lookup_integer(&value, KEY_LATEST_VOLUME);
        let market_cap = lookup_integer(&value, KEY_MARKET_CAP);
        Quote::from_members(symbol, company_name, latest_price, latest_volume, market_cap)
    }
}

fn lookup_text(value: &serde_json::Value, key: &str) -> (r: Lookup<String>)
    ensures
        text_view(r) == text_member(members(*value), key@),
{
    match member(value, key) {
        None => Lookup::Absent,
        Some(found) => match found.as_str() {
            Some(text) => Lookup::Present(text.to_owned()),
            None => Lookup::Mistyped,
        },
    }
}

fn lookup_integer(value: &serde_json::Value, key: &str) -> (r: Lookup<i64>)
    ensures
        r == integer_member(members(*value), key@),
{
    match member(value, key) {
        None => Lookup::Absent,
        Some(found) => match found.as_i64() {
            Some(n) => Lookup::Present(n),
            None => Lookup::Mistyped,
        },
    }
}

fn lookup_real(value: &serde_json::Value, key: &str) -> (r: Lookup<u64>)
    ensures
        r == real_member(members(*value), key@),
{
    match member(value, key) {
        None => Lookup::Absent,
        Some(found) => match real_bits(found) {
            Some(bits) => Lookup::Present(bits),
            None => Lookup::Mistyped,
        },
    }
}

} // verus!

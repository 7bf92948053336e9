//! The three gauge families and the publishing of quotes into them.
//!
//! The families are `prometheus` gauge vectors. Verus does not look inside
//! that crate: a family is a sealed value here, what it holds has a name, and
//! the few functions that reach into it state what they do to those contents.

use vstd::prelude::*;
use crate::quote::{Price, Quote, QuoteView};

verus! {

/// Prefix of every metric name.
pub const NAMESPACE: &'static str = "stocks";

/// Name of the label that carries the ticker symbol.
pub const LABEL_SYMBOL: &'static str = "symbol";

/// Name of the label that carries the company's display name.
pub const LABEL_COMPANY_NAME: &'static str = "company_name";

pub const LATEST_PRICE_NAME: &'static str = "latest_price";

pub const LATEST_PRICE_HELP: &'static str = "Latest stock price";

pub const LATEST_VOLUME_NAME: &'static str = "latest_volume";

pub const LATEST_VOLUME_HELP: &'static str = "Latest stock volume";

pub const MARKET_CAP_NAME: &'static str = "market_cap";

pub const MARKET_CAP_HELP: &'static str = "Market capitalization";

#[verifier::external_type_specification]
#[verifier::external_body]
pub struct ExMetricsError(prometheus_exporter::prometheus::Error);

/// A family of integer gauges with the two labels symbol and company name.
///
/// A family is only ever made with two label names, so asking it for the
/// gauge of two label values cannot fail.
#[verifier::external_body]
pub struct IntFamily {
    inner: prometheus_exporter::prometheus::IntGaugeVec,
}

/// A family of real-valued gauges with the two labels symbol and company
/// name. Its values are handed in and out as the bits of a double.
///
/// A family is only ever made with two label names, so asking it for the
/// gauge of two label values cannot fail.
#[verifier::external_body]
pub struct RealFamily {
    inner: prometheus_exporter::prometheus::GaugeVec,
}

/// The key under which a family files the cell of a label tuple: a 64-bit
/// hash of the bytes of the two label values, the one after the other. Label
/// tuples with the same key share their cells.
pub uninterp spec fn label_key(symbol: Seq<char>, company_name: Seq<char>) -> u64;

/// The cells of an integer family: the value of each, by its key.
pub uninterp spec fn int_cells(family: IntFamily) -> Map<u64, i64>;

/// The cells of a real-valued family: the bits of each value, by its key.
pub uninterp spec fn real_cells(family: RealFamily) -> Map<u64, u64>;

/// What a family is made with, as it is shown in a scrape.
pub struct Description {
    /// The metric's name with its namespace in front.
    pub full_name: Seq<char>,
    pub help: Seq<char>,
    /// The names of the labels, in the order in which their values are given.
    pub labels: Seq<Seq<char>>,
}

/// What an integer family was made with.
pub uninterp spec fn int_description(family: IntFamily) -> Description;

/// What a real-valued family was made with.
pub uninterp spec fn real_description(family: RealFamily) -> Description;

/// A letter of the ASCII alphabet or an underscore.
pub open spec fn is_name_letter(c: char) -> bool {
    ||| 0x41 <= c as int <= 0x5a
    ||| 0x61 <= c as int <= 0x7a
    ||| c == '_'
}

/// A character that may stand anywhere in a name; in a metric's name a colon
/// is one too.
pub open spec fn is_name_start(c: char, colon: bool) -> bool {
    is_name_letter(c) || (colon && c == ':')
}

/// A character that may stand anywhere in a name but at its start.
pub open spec fn is_name_part(c: char, colon: bool) -> bool {
    is_name_start(c, colon) || 0x30 <= c as int <= 0x39
}

/// A name that prometheus takes: not empty, no digit at its start, and made
/// of ASCII letters, digits and underscores, in a metric's name colons too.
pub open spec fn is_name(s: Seq<char>, colon: bool) -> bool {
    &&& s.len() > 0
    &&& is_name_start(s[0], colon)
    &&& forall|i: int| 0 <= i < s.len() ==> is_name_part(#[trigger] s[i], colon)
}

/// A metric's name with its namespace in front.
pub open spec fn full_name(namespace: Seq<char>, name: Seq<char>) -> Seq<char> {
    if name.len() == 0 {
        name
    } else if namespace.len() == 0 {
        name
    } else {
        namespace + "_"@ + name
    }
}

/// Whether a family can be made with these texts: the help is not empty, the
/// full name is a metric's name, and the two labels are two different names.
pub open spec fn creatable(
    namespace: Seq<char>,
    name: Seq<char>,
    help: Seq<char>,
    first_label: Seq<char>,
    second_label: Seq<char>,
) -> bool {
    &&& help.len() > 0
    &&& is_name(full_name(namespace, name), true)
    &&& is_name(first_label, false)
    &&& is_name(second_label, false)
    &&& first_label != second_label
}

/// What a family made with these texts is described by.
pub open spec fn described(
    namespace: Seq<char>,
    name: Seq<char>,
    help: Seq<char>,
    first_label: Seq<char>,
    second_label: Seq<char>,
) -> Description {
    Description { full_name: full_name(namespace, name), help, labels: seq![first_label, second_label] }
}

/// `IntGaugeVec::new` on options built by `Opts::new` and `Opts::namespace`:
/// it succeeds exactly where the texts are `creatable`, and the family that
/// comes back is described by them and has no cells yet.
#[verifier::external_body]
fn new_int_family(
    namespace: &str,
    name: &str,
    help: &str,
    first_label: &str,
    second_label: &str,
) -> (r: Result<IntFamily, prometheus_exporter::prometheus::Error>)
    ensures
        r is Ok <==> creatable(namespace@, name@, help@, first_label@, second_label@),
        match r {
            Ok(family) => int_cells(family) == Map::<u64, i64>::empty(),
            Err(_) => true,
        },
        match r {
            Ok(family) => int_description(family) == described(
                namespace@,
                name@,
                help@,
                first_label@,
                second_label@,
            ),
            Err(_) => true,
        },
{
    let opts = prometheus_exporter::prometheus::Opts::new(name, help).namespace(namespace);
    let inner = prometheus_exporter::prometheus::IntGaugeVec::new(opts, &[first_label, second_label])?;
    Ok(IntFamily { inner })
}

/// `GaugeVec::new` on options built by `Opts::new` and `Opts::namespace`: it
/// succeeds exactly where the texts are `creatable`, and the family that
/// comes back is described by them and has no cells yet.
#[verifier::external_body]
fn new_real_family(
    namespace: &str,
    name: &str,
    help: &str,
    first_label: &str,
    second_label: &str,
) -> (r: Result<RealFamily, prometheus_exporter::prometheus::Error>)
    ensures
        r is Ok <==> creatable(namespace@, name@, help@, first_label@, second_label@),
        match r {
            Ok(family) => real_cells(family) == Map::<u64, u64>::empty(),
            Err(_) => true,
        },
        match r {
            Ok(family) => real_description(family) == described(
                namespace@,
                name@,
                help@,
                first_label@,
                second_label@,
            ),
            Err(_) => true,
        },
{
    let opts = prometheus_exporter::prometheus::Opts::new(name, help).namespace(namespace);
    let inner = prometheus_exporter::prometheus::GaugeVec::new(opts, &[first_label, second_label])?;
    Ok(RealFamily { inner })
}

/// `prometheus::register` on a handle to the family. Whether it succeeds
/// depends on what the process has registered before.
#[verifier::external_body]
fn register_int_family(family: &IntFamily) -> Result<(), prometheus_exporter::prometheus::Error> {
    prometheus_exporter::prometheus::register(Box::new(family.inner.clone()))
}

/// `prometheus::register` on a handle to the family. Whether it succeeds
/// depends on what the process has registered before.
#[verifier::external_body]
fn register_real_family(family: &RealFamily) -> Result<(), prometheus_exporter::prometheus::Error> {
    prometheus_exporter::prometheus::register(Box::new(family.inner.clone()))
}

/// `with_label_values` and then `set` on the gauge: the cell of the label
/// tuple holds the value afterwards, and is made if it was not there; no
/// other cell changes, nor what the family was made with.
#[verifier::external_body]
fn set_int_cell(family: &mut IntFamily, symbol: &str, company_name: &str, value: i64)
    ensures
        int_cells(*final(family)) == int_cells(*old(family)).insert(label_key(symbol@, company_name@), value),
        int_description(*final(family)) == int_description(*old(family)),
{
    family.inner.with_label_values(&[symbol, company_name]).set(value);
}

/// `with_label_values` and then `set` on the gauge, the value given by its
/// bits: the cell of the label tuple holds the value afterwards, and is made
/// if it was not there; no other cell changes, nor what the family was made
/// with.
#[verifier::external_body]
fn set_real_cell(family: &mut RealFamily, symbol: &str, company_name: &str, bits: u64)
    ensures
        real_cells(*final(family)) == real_cells(*old(family)).insert(label_key(symbol@, company_name@), bits),
        real_description(*final(family)) == real_description(*old(family)),
{
    family.inner.with_label_values(&[symbol, company_name]).set(
        <<prometheus_exporter::prometheus::core::AtomicF64 as prometheus_exporter::prometheus::core::Atomic>::T>::from_bits(
            bits,
        ),
    );
}

/// `with_label_values` and then `get` on the gauge: the value of the label
/// tuple's cell. A cell that was not there is made, at zero. What the family
/// was made with stays.
#[verifier::external_body]
fn read_int_cell(family: &mut IntFamily, symbol: &str, company_name: &str) -> (value: i64)
    ensures
        int_cells(*final(family)) == with_cell(int_cells(*old(family)), label_key(symbol@, company_name@), 0i64),
        int_description(*final(family)) == int_description(*old(family)),
        int_cells(*final(family))[label_key(symbol@, company_name@)] == value,
{
    family.inner.with_label_values(&[symbol, company_name]).get()
}

/// `with_label_values` and then `get` on the gauge, the value handed on by
/// its bits: the value of the label tuple's cell. A cell that was not there
/// is made, at zero. What the family was made with stays.
#[verifier::external_body]
fn read_real_cell(family: &mut RealFamily, symbol: &str, company_name: &str) -> (bits: u64)
    ensures
        real_cells(*final(family)) == with_cell(real_cells(*old(family)), label_key(symbol@, company_name@), 0u64),
        real_description(*final(family)) == real_description(*old(family)),
        real_cells(*final(family))[label_key(symbol@, company_name@)] == bits,
{
    family.inner.with_label_values(&[symbol, company_name]).get().to_bits()
}

/// `Collector::collect` on the family, which hands out one collected family,
/// for the number of its samples: one for each cell.
#[verifier::external_body]
fn count_int_cells(family: &IntFamily) -> (count: usize)
    ensures
        count == int_cells(*family).dom().len(),
{
    prometheus_exporter::prometheus::core::Collector::collect(&family.inner)[0].get_metric().len()
}

/// The cells with one at `key` for certain: the old one where there was one,
/// else a new one at `initial`.
pub open spec fn with_cell<V>(cells: Map<u64, V>, key: u64, initial: V) -> Map<u64, V> {
    if cells.contains_key(key) {
        cells
    } else {
        cells.insert(key, initial)
    }
}

/// The three gauge families.
#[derive(Clone, Copy, Debug, PartialEq, Eq, Structural)]
pub enum Family {
    LatestPrice,
    LatestVolume,
    MarketCap,
}

/// Why the registry could not be set up.
#[derive(Clone, Copy, Debug, PartialEq, Eq, Structural)]
pub enum RegistryError {
    /// The family could not be created.
    NotCreated(Family),
    /// The family could not be registered for scraping.
    NotRegistered(Family),
}

/// The values of one label tuple's three cells.
#[derive(Clone, Copy, Debug, PartialEq, Eq, Structural)]
pub struct Sample {
    pub latest_price: Price,
    pub latest_volume: i64,
    pub market_cap: i64,
}

/// The state of the three families: each family's cells by their keys, a
/// price by its bits.
pub struct Cells {
    pub latest_price: Map<u64, u64>,
    pub latest_volume: Map<u64, i64>,
    pub market_cap: Map<u64, i64>,
}

impl Cells {
    /// No cell in any family.
    pub open spec fn empty() -> Cells {
        Cells { latest_price: Map::empty(), latest_volume: Map::empty(), market_cap: Map::empty() }
    }

    /// The three families hold cells for the same label tuples, a finite
    /// number of them.
    pub open spec fn aligned(self) -> bool {
        &&& self.latest_price.dom().finite()
        &&& self.latest_price.dom() =~= self.latest_volume.dom()
        &&& self.latest_volume.dom() =~= self.market_cap.dom()
    }

    /// Whether the label tuple filed under `key` has its cells.
    pub open spec fn has(self, key: u64) -> bool {
        &&& self.latest_price.contains_key(key)
        &&& self.latest_volume.contains_key(key)
        &&& self.market_cap.contains_key(key)
    }

    /// The values of the three cells filed under `key`.
    pub open spec fn at(self, key: u64) -> Sample {
        Sample {
            latest_price: Price { bits: self.latest_price[key] },
            latest_volume: self.latest_volume[key],
            market_cap: self.market_cap[key],
        }
    }

    /// The state after a quote was published.
    pub open spec fn published(self, quote: QuoteView) -> Cells {
        let key = label_key(quote.symbol, quote.company_name);
        Cells {
            latest_price: self.latest_price.insert(key, quote.latest_price.bits),
            latest_volume: self.latest_volume.insert(key, quote.latest_volume),
            market_cap: self.market_cap.insert(key, quote.market_cap),
        }
    }

    /// The state after the quotes were published one after the other.
    pub open spec fn published_all(self, quotes: Seq<QuoteView>) -> Cells
        decreases quotes.len(),
    {
        if quotes.len() == 0 {
            self
        } else {
            self.published_all(quotes.drop_last()).published(quotes.last())
        }
    }

    /// The state after the cells filed under `key` were looked at: cells that
    /// were not there are made, at zero.
    pub open spec fn observed(self, key: u64) -> Cells {
        Cells {
            latest_price: with_cell(self.latest_price, key, 0u64),
            latest_volume: with_cell(self.latest_volume, key, 0i64),
            market_cap: with_cell(self.market_cap, key, 0i64),
        }
    }
}

impl QuoteView {
    /// The key under which the quote's cells are filed.
    pub open spec fn key(self) -> u64 {
        label_key(self.symbol, self.company_name)
    }

    /// The values that the quote gives its three cells.
    pub open spec fn sample(self) -> Sample {
        Sample {
            latest_price: self.latest_price,
            latest_volume: self.latest_volume,
            market_cap: self.market_cap,
        }
    }
}

/// The three gauge families that quotes are published into.
pub struct Registry {
    latest_price: RealFamily,
    latest_volume: IntFamily,
    market_cap: IntFamily,
}

impl View for Registry {
    type V = Cells;

    closed spec fn view(&self) -> Cells {
        Cells {
            latest_price: real_cells(self.latest_price),
            latest_volume: int_cells(self.latest_volume),
            market_cap: int_cells(self.market_cap),
        }
    }
}

/// What each of the three families is made with: the namespace `stocks`, its
/// own name and help text, and the labels symbol and company name.
pub open spec fn standard(family: Family) -> Description {
    match family {
        Family::LatestPrice => described(
            NAMESPACE@,
            LATEST_PRICE_NAME@,
            LATEST_PRICE_HELP@,
            LABEL_SYMBOL@,
            LABEL_COMPANY_NAME@,
        ),
        Family::LatestVolume => described(
            NAMESPACE@,
            LATEST_VOLUME_NAME@,
            LATEST_VOLUME_HELP@,
            LABEL_SYMBOL@,
            LABEL_COMPANY_NAME@,
        ),
        Family::MarketCap => described(
            NAMESPACE@,
            MARKET_CAP_NAME@,
            MARKET_CAP_HELP@,
            LABEL_SYMBOL@,
            LABEL_COMPANY_NAME@,
        ),
    }
}

/// A text of lower-case letters and underscores that does not begin with an
/// underscore is a name, and stays one behind another such text and an
/// underscore.
proof fn lemma_plain_names(namespace: Seq<char>, name: Seq<char>)
    requires
        namespace.len() > 0,
        name.len() > 0,
        forall|i: int| 0 <= i < namespace.len() ==> is_name_letter(#[trigger] namespace[i]),
        forall|i: int| 0 <= i < name.len() ==> is_name_letter(#[trigger] name[i]),
    ensures
        is_name(name, false),
        is_name(full_name(namespace, name), true),
{
    reveal_strlit("_");
    let full = namespace + "_"@ + name;
    assert forall|i: int| 0 <= i < full.len() implies is_name_part(#[trigger] full[i], true) by {
        if i < namespace.len() {
            assert(full[i] == namespace[i]);
        } else if i == namespace.len() {
            assert(full[i] == '_');
        } else {
            assert(full[i] == name[i - namespace.len() - 1]);
        }
    }
    assert(full[0] == namespace[0]);
}

/// The texts that the three families are made with are such that each family
/// can be made.
pub proof fn lemma_standard_creatable()
    ensures
        creatable(NAMESPACE@, LATEST_PRICE_NAME@, LATEST_PRICE_HELP@, LABEL_SYMBOL@, LABEL_COMPANY_NAME@),
        creatable(NAMESPACE@, LATEST_VOLUME_NAME@, LATEST_VOLUME_HELP@, LABEL_SYMBOL@, LABEL_COMPANY_NAME@),
        creatable(NAMESPACE@, MARKET_CAP_NAME@, MARKET_CAP_HELP@, LABEL_SYMBOL@, LABEL_COMPANY_NAME@),
{
    reveal_strlit("stocks");
    reveal_strlit("symbol");
    reveal_strlit("company_name");
    reveal_strlit("latest_price");
    reveal_strlit("latest_volume");
    reveal_strlit("market_cap");
    reveal_strlit("Latest stock price");
    reveal_strlit("Latest stock volume");
    reveal_strlit("Market capitalization");
    lemma_plain_names(NAMESPACE@, LABEL_SYMBOL@);
    lemma_plain_names(NAMESPACE@, LABEL_COMPANY_NAME@);
    lemma_plain_names(NAMESPACE@, LATEST_PRICE_NAME@);
    lemma_plain_names(NAMESPACE@, LATEST_VOLUME_NAME@);
    lemma_plain_names(NAMESPACE@, MARKET_CAP_NAME@);
}

/// The three families go by the names `stocks_latest_price`,
/// `stocks_latest_volume` and `stocks_market_cap`, each with the labels
/// `symbol` and `company_name`.
pub proof fn lemma_standard_names()
    ensures
        standard(Family::LatestPrice).full_name == "stocks_latest_price"@,
        standard(Family::LatestVolume).full_name == "stocks_latest_volume"@,
        standard(Family::MarketCap).full_name == "stocks_market_cap"@,
        standard(Family::LatestPrice).help == "Latest stock price"@,
        standard(Family::LatestVolume).help == "Latest stock volume"@,
        standard(Family::MarketCap).help == "Market capitalization"@,
        forall|family: Family| #[trigger] standard(family).labels == seq!["symbol"@, "company_name"@],
{
    reveal_strlit("stocks");
    reveal_strlit("_");
    reveal_strlit("latest_price");
    reveal_strlit("latest_volume");
    reveal_strlit("market_cap");
    reveal_strlit("stocks_latest_price");
    reveal_strlit("stocks_latest_volume");
    reveal_strlit("stocks_market_cap");
    assert(standard(Family::LatestPrice).full_name =~= "stocks_latest_price"@);
    assert(standard(Family::LatestVolume).full_name =~= "stocks_latest_volume"@);
    assert(standard(Family::MarketCap).full_name =~= "stocks_market_cap"@);
}

/// The registry that three attempts to create a family make, or the first
/// family in the order price, volume, market capitalisation that is missing.
pub open spec fn assembled(
    latest_price: Result<RealFamily, prometheus_exporter::prometheus::Error>,
    latest_volume: Result<IntFamily, prometheus_exporter::prometheus::Error>,
    market_cap: Result<IntFamily, prometheus_exporter::prometheus::Error>,
) -> Result<Cells, RegistryError> {
    if latest_price is Err {
        Err(RegistryError::NotCreated(Family::LatestPrice))
    } else if latest_volume is Err {
        Err(RegistryError::NotCreated(Family::LatestVolume))
    } else if market_cap is Err {
        Err(RegistryError::NotCreated(Family::MarketCap))
    } else {
        Ok(
            Cells {
                latest_price: real_cells(latest_price->Ok_0),
                latest_volume: int_cells(latest_volume->Ok_0),
                market_cap: int_cells(market_cap->Ok_0),
            },
        )
    }
}

/// The outcome of three attempts to register a family: the first family in
/// the order price, volume, market capitalisation that was refused, if any.
pub open spec fn registered(
    latest_price: Result<(), prometheus_exporter::prometheus::Error>,
    latest_volume: Result<(), prometheus_exporter::prometheus::Error>,
    market_cap: Result<(), prometheus_exporter::prometheus::Error>,
) -> Result<(), RegistryError> {
    if latest_price is Err {
        Err(RegistryError::NotRegistered(Family::LatestPrice))
    } else if latest_volume is Err {
        Err(RegistryError::NotRegistered(Family::LatestVolume))
    } else if market_cap is Err {
        Err(RegistryError::NotRegistered(Family::MarketCap))
    } else {
        Ok(())
    }
}

impl Registry {
    /// What one of the registry's families was made with.
    pub closed spec fn description(&self, family: Family) -> Description {
        match family {
            Family::LatestPrice => real_description(self.latest_price),
            Family::LatestVolume => int_description(self.latest_volume),
            Family::MarketCap => int_description(self.market_cap),
        }
    }

    /// The invariant of a registry: every label tuple has its cell in all
    /// three families or in none, and each family is made with its own name,
    /// help text and labels.
    pub open spec fn well_formed(&self) -> bool {
        &&& self@.aligned()
        &&& forall|family: Family| #[trigger] self.description(family) == standard(family)
    }

    /// Creates the three families, each with its own name, help text and
    /// labels, and with no cell in any. This always succeeds.
    pub fn new() -> (r: Result<Registry, RegistryError>)
        ensures
            r is Ok,
            r matches Ok(registry) ==> registry@ == Cells::empty() && registry.well_formed(),
    {
        proof {
            lemma_standard_creatable();
        }
        let latest_price = new_real_family(
            NAMESPACE,
            LATEST_PRICE_NAME,
            LATEST_PRICE_HELP,
            LABEL_SYMBOL,
            LABEL_COMPANY_NAME,
        );
        let latest_volume = new_int_family(
            NAMESPACE,
            LATEST_VOLUME_NAME,
            LATEST_VOLUME_HELP,
            LABEL_SYMBOL,
            LABEL_COMPANY_NAME,
        );
        let market_cap = new_int_family(
            NAMESPACE,
            MARKET_CAP_NAME,
            MARKET_CAP_HELP,
            LABEL_SYMBOL,
            LABEL_COMPANY_NAME,
        );
        Registry::from_families(latest_price, latest_volume, market_cap)
    }

    /// Makes a registry of three families, where all three were created.
    pub fn from_families(
        latest_price: Result<RealFamily, prometheus_exporter::prometheus::Error>,
        latest_volume: Result<IntFamily, prometheus_exporter::prometheus::Error>,
        market_cap: Result<IntFamily, prometheus_exporter::prometheus::Error>,
    ) -> (r: Result<Registry, RegistryError>)
        ensures
            match r {
                Ok(registry) => assembled(latest_price, latest_volume, market_cap) == Ok::<Cells, RegistryError>(
                    registry@,
                ),
                Err(e) => assembled(latest_price, latest_volume, market_cap) == Err::<Cells, RegistryError>(e),
            },
            r matches Ok(registry) ==> {
                &&& registry.description(Family::LatestPrice) == real_description(latest_price->Ok_0)
                &&& registry.description(Family::LatestVolume) == int_description(latest_volume->Ok_0)
                &&& registry.description(Family::MarketCap) == int_description(market_cap->Ok_0)
            },
    {
        let latest_price = match latest_price {
            Ok(family) => family,
            Err(_) => { return Err(RegistryError::NotCreated(Family::LatestPrice)); },
        };
        let latest_volume = match latest_volume {
            Ok(family) => family,
            Err(_) => { return Err(RegistryError::NotCreated(Family::LatestVolume)); },
        };
        let market_cap = match market_cap {
            Ok(family) => family,
            Err(_) => { return Err(RegistryError::NotCreated(Family::MarketCap)); },
        };
        Ok(Registry { latest_price, latest_volume, market_cap })
    }

    /// Registers the three families with the process-wide collector registry,
    /// from which the scrape endpoint serves them. The cells stay as they are.
    pub fn expose(&self) -> (r: Result<(), RegistryError>)
        ensures
            r matches Err(e) ==> e is NotRegistered,
    {
        let latest_price = register_real_family(&self.latest_price);
        let latest_volume = register_int_family(&self.latest_volume);
        let market_cap = register_int_family(&self.market_cap);
        Registry::registration(latest_price, latest_volume, market_cap)
    }

    /// Sums up three attempts to register a family.
    pub fn registration(
        latest_price: Result<(), prometheus_exporter::prometheus::Error>,
        latest_volume: Result<(), prometheus_exporter::prometheus::Error>,
        market_cap: Result<(), prometheus_exporter::prometheus::Error>,
    ) -> (r: Result<(), RegistryError>)
        ensures
            r == registered(latest_price, latest_volume, market_cap),
    {
        if latest_price.is_err() {
            Err(RegistryError::NotRegistered(Family::LatestPrice))
        } else if latest_volume.is_err() {
            Err(RegistryError::NotRegistered(Family::LatestVolume))
        } else if market_cap.is_err() {
            Err(RegistryError::NotRegistered(Family::MarketCap))
        } else {
            Ok(())
        }
    }

    /// How many label tuples have their cells.
    pub fn tuples(&self) -> (r: usize)
        requires
            self.well_formed(),
        ensures
            r == self@.latest_price.dom().len(),
            r == self@.latest_volume.dom().len(),
            r == self@.market_cap.dom().len(),
    {
        count_int_cells(&self.latest_volume)
    }

    /// Reads the three cells of a label tuple. Cells that are not there yet
    /// are made, at zero.
    pub fn sample(&mut self, symbol: &str, company_name: &str) -> (r: Sample)
        requires
            old(self).well_formed(),
        ensures
            final(self)@ == old(self)@.observed(label_key(symbol@, company_name@)),
            final(self).well_formed(),
            r == final(self)@.at(label_key(symbol@, company_name@)),
    {
        let bits = read_real_cell(&mut self.latest_price, symbol, company_name);
        let latest_volume = read_int_cell(&mut self.latest_volume, symbol, company_name);
        let market_cap = read_int_cell(&mut self.market_cap, symbol, company_name);
        proof {
            assert forall|family: Family| #[trigger] self.description(family) == standard(family) by {
                assert(old(self).description(family) == standard(family));
            }
        }
        Sample { latest_price: Price::from_bits(bits), latest_volume, market_cap }
    }
}

/// Publishing keeps the three families aligned.
pub proof fn lemma_published_aligned(cells: Cells, quote: QuoteView)
    requires
        cells.aligned(),
    ensures
        cells.published(quote).aligned(),
{
}

/// Publishing a quote a second time changes nothing: the cells are as after
/// the first time, and those of the quote's label tuple hold its values.
pub proof fn lemma_publish_idempotent(cells: Cells, quote: QuoteView)
    ensures
        cells.published(quote).published(quote) == cells.published(quote),
        cells.published(quote).has(quote.key()),
        cells.published(quote).at(quote.key()) == quote.sample(),
{
    let once = cells.published(quote);
    let twice = once.published(quote);
    assert(twice.latest_price =~= once.latest_price);
    assert(twice.latest_volume =~= once.latest_volume);
    assert(twice.market_cap =~= once.market_cap);
}

/// A published quote stands until its label tuple's key is published to
/// again: after a run of publishes, the cells of a quote that no later one
/// shares its key with hold that quote's values.
pub proof fn lemma_latest_publish_stands(cells: Cells, quotes: Seq<QuoteView>, i: int)
    requires
        0 <= i < quotes.len(),
        forall|j: int| i < j < quotes.len() ==> (#[trigger] quotes[j]).key() != quotes[i].key(),
    ensures
        cells.published_all(quotes).has(quotes[i].key()),
        cells.published_all(quotes).at(quotes[i].key()) == quotes[i].sample(),
    decreases quotes.len(),
{
    if i < quotes.len() - 1 {
        let front = quotes.drop_last();
        assert forall|j: int| i < j < front.len() implies (#[trigger] front[j]).key() != front[i].key() by {
            assert(front[j] == quotes[j]);
        }
        lemma_latest_publish_stands(cells, front, i);
        assert(quotes.last() == quotes[quotes.len() - 1]);
    }
}

/// The last writer wins: after a run of publishes that share one label
/// tuple, the tuple's three cells hold the values of the last quote.
pub proof fn lemma_last_writer_wins(cells: Cells, quotes: Seq<QuoteView>)
    requires
        quotes.len() > 0,
        forall|j: int|
            0 <= j < quotes.len() ==> (#[trigger] quotes[j]).symbol == quotes[0].symbol && quotes[j].company_name
                == quotes[0].company_name,
    ensures
        cells.published_all(quotes).has(label_key(quotes[0].symbol, quotes[0].company_name)),
        cells.published_all(quotes).at(label_key(quotes[0].symbol, quotes[0].company_name))
            == quotes.last().sample(),
{
    assert(quotes.last().key() == quotes[0].key());
    lemma_latest_publish_stands(cells, quotes, quotes.len() - 1);
}

/// Publishing leaves the cells of every other key as they were.
pub proof fn lemma_publish_is_local(cells: Cells, quote: QuoteView, key: u64)
    requires
        key != quote.key(),
    ensures
        cells.published(quote).has(key) == cells.has(key),
        cells.published(quote).at(key) == cells.at(key),
{
}

/// A publish makes cells for a label tuple that has none, and no others: the
/// number of label tuples goes up by one for a new tuple and stays for a
/// known one.
pub proof fn lemma_publish_counts(cells: Cells, quote: QuoteView)
    requires
        cells.aligned(),
    ensures
        cells.published(quote).latest_price.dom().len() == cells.latest_price.dom().len() + (if cells.has(
            quote.key(),
        ) {
            0int
        } else {
            1int
        }),
{
}

/// Cells are never removed: what has its cells keeps them through every
/// publish.
pub proof fn lemma_cells_persist(cells: Cells, quote: QuoteView, key: u64)
    requires
        cells.has(key),
    ensures
        cells.published(quote).has(key),
{
}

/// Publishes one quote: the three cells of its label tuple take its values
/// and are made where they are not there yet. No other cell changes.
pub fn publish_metrics(registry: &mut Registry, quote: Quote)
    requires
        old(registry).well_formed(),
    ensures
        final(registry)@ == old(registry)@.published(quote@),
        final(registry).well_formed(),
        final(registry)@.has(quote@.key()),
        final(registry)@.at(quote@.key()) == quote@.sample(),
{
    set_real_cell(
        &mut registry.latest_price,
        quote.symbol.as_str(),
        quote.company_name.as_str(),
        quote.latest_price.to_bits(),
    );
    set_int_cell(
        &mut registry.latest_volume,
        quote.symbol.as_str(),
        quote.company_name.as_str(),
        quote.latest_volume,
    );
    set_int_cell(&mut registry.market_cap, quote.symbol.as_str(), quote.company_name.as_str(), quote.market_cap);
    proof {
        assert forall|family: Family| #[trigger] registry.description(family) == standard(family) by {
            assert(old(registry).description(family) == standard(family));
        }
    }
}

} // verus!

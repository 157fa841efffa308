//! Last-price requests and responses.

use vstd::prelude::*;

use crate::models::structs::{Quotation, QuotationView};

verus! {

/// Which venue's last price is requested.
#[derive(Debug, Clone, Copy, PartialEq, Eq, Structural)]
pub enum LastPriceType {
    Unspecified,
    Exchange,
    Dealer,
}

/// Catalog visibility status requested from the vendor.
#[derive(Debug, Clone, Copy, PartialEq, Eq, Structural)]
pub enum InstrumentStatus {
    Unspecified,
    Base,
    All,
}

/// A last-price request for a set of instruments.
#[derive(Debug)]
pub struct GetLastPricesRequest {
    pub instrument_id: Vec<String>,
    pub last_price_type: LastPriceType,
    pub instrument_status: InstrumentStatus,
}

impl GetLastPricesRequest {
    /// A last-price request over the given instruments.
    pub fn new(
        instrument_id: Vec<String>,
        last_price_type: LastPriceType,
        instrument_status: InstrumentStatus,
    ) -> (r: GetLastPricesRequest)
        ensures
            r.instrument_id@ == instrument_id@,
            r.last_price_type == last_price_type,
            r.instrument_status == instrument_status,
    {
        GetLastPricesRequest { instrument_id, last_price_type, instrument_status }
    }
}

/// The last observed price of one instrument.
#[derive(Debug)]
pub struct LastPrice {
    pub figi: String,
    pub price: Quotation,
    pub time: String,
    pub instrument_uid: String,
    pub last_price_type: LastPriceType,
}

/// Mathematical image of a [`LastPrice`].
pub ghost struct LastPriceView {
    pub figi: Seq<char>,
    pub price: QuotationView,
    pub time: Seq<char>,
    pub instrument_uid: Seq<char>,
    pub last_price_type: LastPriceType,
}

impl View for LastPrice {
    type V = LastPriceView;

    open spec fn view(&self) -> LastPriceView {
        LastPriceView {
            figi: self.figi@,
            price: self.price@,
            time: self.time@,
            instrument_uid: self.instrument_uid@,
            last_price_type: self.last_price_type,
        }
    }
}

/// Last prices for all requested instruments.
#[derive(Debug)]
pub struct GetLastPricesResponse {
    pub last_prices: Vec<LastPrice>,
}

impl View for GetLastPricesResponse {
    type V = Seq<LastPriceView>;

    open spec fn view(&self) -> Seq<LastPriceView> {
        self.last_prices@.map_values(|p: LastPrice| p@)
    }
}

} // verus!

//! Typed single-instrument lookup: the richer revision of the lookup
//! record, with enumerated statuses and kinds.

use vstd::prelude::*;

use crate::models::enums::InstrumentType;
use crate::models::structs::Quotation;

verus! {

/// How an instrument id in a lookup request is to be read.
#[derive(Debug)]
pub enum InstrumentIdType {
    Unspecified,
    Figi,
    Ticker,
    Uid,
    PositionUid,
}

/// Vendor-reported trading status of an instrument.
#[derive(Debug)]
pub enum TradingStatus {
    Unspecified,
    NotAvailableForTrading,
    OpeningPeriod,
    ClosingPeriod,
    BreakInTrading,
    NormalTrading,
    ClosingAuction,
    DarkPoolAuction,
    DiscreteAuction,
    OpeningAuctionPeriod,
    TradingAtClosingAuctionPrice,
    SessionAssigned,
    SessionClose,
    SessionOpen,
    DealerNormalTrading,
    DealerBreakInTrading,
    DealerNotAvailableForTrading,
}

/// The venue an instrument actually trades on.
#[derive(Debug)]
pub enum RealExchange {
    Unspecified,
    Moex,
    Rts,
    Otc,
    Dealer,
}

/// Brand colors and logo of an instrument.
#[derive(Debug)]
pub struct BrandData {
    pub logo_name: String,
    pub logo_base_color: String,
    pub text_color: String,
}

/// The full per-instrument record of a lookup, every field optional.
#[derive(Debug, Default)]
pub struct Instrument {
    pub figi: Option<String>,
    pub ticker: Option<String>,
    pub class_code: Option<String>,
    pub isin: Option<String>,
    pub lot: Option<i32>,
    pub currency: Option<String>,
    pub klong: Option<Quotation>,
    pub kshort: Option<Quotation>,
    pub dlong: Option<Quotation>,
    pub dshort: Option<Quotation>,
    pub dlong_min: Option<Quotation>,
    pub dshort_min: Option<Quotation>,
    pub short_enabled_flag: Option<bool>,
    pub name: Option<String>,
    pub exchange: Option<String>,
    pub country_of_risk: Option<String>,
    pub country_of_risk_name: Option<String>,
    pub instrument_type: Option<String>,
    pub trading_status: Option<TradingStatus>,
    pub otc_flag: Option<bool>,
    pub buy_available_flag: Option<bool>,
    pub sell_available_flag: Option<bool>,
    pub min_price_increment: Option<Quotation>,
    pub api_trade_available_flag: Option<bool>,
    pub uid: Option<String>,
    pub real_exchange: Option<RealExchange>,
    pub position_uid: Option<String>,
    pub asset_uid: Option<String>,
    pub for_iis_flag: Option<bool>,
    pub for_qual_investor_flag: Option<bool>,
    pub weekend_flag: Option<bool>,
    pub blocked_tca_flag: Option<bool>,
    pub instrument_kind: Option<InstrumentType>,
    pub first_1min_candle_date: Option<String>,
    pub first_1day_candle_date: Option<String>,
    pub brand: Option<BrandData>,
    pub dlong_client: Option<Quotation>,
    pub dshort_client: Option<Quotation>,
}

/// A lookup request: one id, read as `id_type` says.
#[derive(Debug)]
pub struct GetInstrumentByRequest {
    pub id_type: InstrumentIdType,
    pub class_code: Option<String>,
    pub id: String,
}

impl GetInstrumentByRequest {
    /// A lookup request for the given id.
    pub fn new(id_type: InstrumentIdType, class_code: Option<String>, id: String) -> (r:
        GetInstrumentByRequest)
        ensures
            r.id_type == id_type,
            r.class_code == class_code,
            r.id@ == id@,
    {
        GetInstrumentByRequest { id_type, class_code, id }
    }
}

/// A lookup's result.
#[derive(Debug)]
pub struct InstrumentResponse {
    pub instrument: Instrument,
}

} // verus!

//! Trading statuses, earlier revision: the same tradability rule,
//! specified per instrument against the response's view.

use vstd::prelude::*;

use crate::text::str_eq;

verus! {

/// Vendor-reported trading status of an instrument.
#[derive(Debug, Clone, Copy, PartialEq, Eq, Structural)]
pub enum TradingStatus {
    Unspecified,
    NotAvailableForTrading,
    OpeningPeriod,
    ClosingPeriod,
    BreakInTrading,
    NormalTrading,
    ClosingAuction,
    DarkPoolAuction,
    DiscreteAuction,
    OpeningAuctionPeriod,
    TradingAtClosingAuctionPrice,
    SessionAssigned,
    SessionClose,
    SessionOpen,
    DealerNormalTrading,
    DealerBreakInTrading,
    DealerNotAvailableForTrading,
}

/// A trading-status request for a set of instruments.
#[derive(Debug)]
pub struct GetTradingStatusesRequest {
    pub instrument_id: Vec<String>,
}

/// Status of one instrument.
#[derive(Debug)]
pub struct TradingStatusResponse {
    pub figi: String,
    pub trading_status: Option<TradingStatus>,
    pub limit_order_available_flag: bool,
    pub market_order_available_flag: bool,
    pub api_trade_available_flag: bool,
    pub instrument_uid: String,
    pub bestprice_order_available_flag: bool,
    pub only_best_price: bool,
}

/// Mathematical image of a [`TradingStatusResponse`].
pub ghost struct TradingStatusView {
    pub figi: Seq<char>,
    pub trading_status: Option<TradingStatus>,
    pub limit_order_available_flag: bool,
    pub market_order_available_flag: bool,
    pub api_trade_available_flag: bool,
    pub instrument_uid: Seq<char>,
    pub bestprice_order_available_flag: bool,
    pub only_best_price: bool,
}

impl View for TradingStatusResponse {
    type V = TradingStatusView;

    open spec fn view(&self) -> TradingStatusView {
        TradingStatusView {
            figi: self.figi@,
            trading_status: self.trading_status,
            limit_order_available_flag: self.limit_order_available_flag,
            market_order_available_flag: self.market_order_available_flag,
            api_trade_available_flag: self.api_trade_available_flag,
            instrument_uid: self.instrument_uid@,
            bestprice_order_available_flag: self.bestprice_order_available_flag,
            only_best_price: self.only_best_price,
        }
    }
}

/// Statuses for all requested instruments.
#[derive(Debug)]
pub struct GetTradingStatusesResponse {
    pub trading_statuses: Vec<TradingStatusResponse>,
}

impl View for GetTradingStatusesResponse {
    type V = Seq<TradingStatusView>;

    open spec fn view(&self) -> Seq<TradingStatusView> {
        self.trading_statuses@.map_values(|s: TradingStatusResponse| s@)
    }
}

/// The tradability rule: vendor status is normal trading and API trading
/// is enabled.
pub open spec fn spec_available(s: TradingStatusView) -> bool {
    s.api_trade_available_flag && s.trading_status == Some(TradingStatus::NormalTrading)
}

/// First reported status of the given instrument.
pub open spec fn spec_find_status(s: Seq<TradingStatusView>, uid: Seq<char>) -> Option<
    TradingStatusView,
>
    decreases s.len(),
{
    if s.len() == 0 {
        None
    } else if s[0].instrument_uid == uid {
        Some(s[0])
    } else {
        spec_find_status(s.drop_first(), uid)
    }
}

/// The first match only depends on what comes at or after the first
/// candidate position.
proof fn lemma_find_status_skip(s: Seq<TradingStatusView>, uid: Seq<char>, i: int)
    requires
        0 <= i <= s.len(),
        forall|j: int| 0 <= j < i ==> (#[trigger] s[j]).instrument_uid != uid,
    ensures
        spec_find_status(s, uid) == spec_find_status(s.skip(i), uid),
    decreases i,
{
    if i > 0 {
        lemma_find_status_skip(s.drop_first(), uid, i - 1);
        assert(s.drop_first().skip(i - 1) =~= s.skip(i));
    } else {
        assert(s.skip(0) =~= s);
    }
}

impl GetTradingStatusesResponse {
    /// Whether the given instrument is tradable this cycle: it was
    /// reported, with normal trading and API trading enabled.
    pub fn is_instrument_available(&self, instrument_uid: &str) -> (r: bool)
        ensures
            r == match spec_find_status(self@, instrument_uid@) {
                Some(s) => spec_available(s),
                None => false,
            },
    {
        match self.get_instrument_status(instrument_uid) {
            Some(status) => {
                status.api_trade_available_flag && matches!(
                    status.trading_status,
                    Some(TradingStatus::NormalTrading),
                )
            },
            None => false,
        }
    }

    /// The full reported status of the given instrument, if any.
    pub fn get_instrument_status(&self, instrument_uid: &str) -> (r: Option<
        &TradingStatusResponse,
    >)
        ensures
            match r {
                Some(s) => spec_find_status(self@, instrument_uid@) == Some(s@),
                None => spec_find_status(self@, instrument_uid@) is None,
            },
    {
        let ghost all = self@;
        let mut k: usize = 0;
        while k < self.trading_statuses.len()
            invariant
                0 <= k as int <= self.trading_statuses@.len(),
                all == self@,
                all.len() == self.trading_statuses@.len(),
                forall|j: int|
                    0 <= j < k as int ==> (#[trigger] all[j]).instrument_uid != instrument_uid@,
            decreases self.trading_statuses@.len() - k,
        {
            let status = &self.trading_statuses[k];
            proof {
                assert(status@ == all[k as int]);
            }
            if str_eq(status.instrument_uid.as_str(), instrument_uid) {
                proof {
                    lemma_find_status_skip(all, instrument_uid@, k as int);
                    assert(all.skip(k as int)[0] == all[k as int]);
                }
                return Some(status);
            }
            k = k + 1;
        }
        proof {
            lemma_find_status_skip(all, instrument_uid@, all.len() as int);
            assert(all.skip(all.len() as int) =~= Seq::<TradingStatusView>::empty());
        }
        None
    }
}

} // verus!

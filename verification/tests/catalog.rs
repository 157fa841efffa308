//! Catalog queries: flattening, filtering, ticker lookup, the sorted
//! universe filter, and trading statuses.

use better_call_put::bot::Bot;
use better_call_put::instruments::get_assets::{
    Asset, GetAssetsRequest, GetAssetsResponse, Instrument, InstrumentStatus, IntoUid,
};
use better_call_put::market_data_service::get_trading_statuses::{
    GetTradingStatusesResponse, TradingStatus, TradingStatusResponse,
};
use better_call_put::models::enums::InstrumentType;
use better_call_put::quotes::get_trading_statuses as q;

fn instr(uid: &str, ticker: &str, class_code: &str, instrument_type: &str) -> Instrument {
    Instrument {
        uid: uid.to_string(),
        figi: format!("FIGI-{}", uid),
        instrument_type: instrument_type.to_string(),
        ticker: ticker.to_string(),
        class_code: class_code.to_string(),
        links: Vec::new(),
        instrument_kind: instrument_type.to_string(),
        position_uid: format!("pos-{}", uid),
    }
}

fn catalog() -> GetAssetsResponse {
    GetAssetsResponse {
        assets: vec![
            Asset {
                uid: "a1".to_string(),
                asset_type: "ASSET_TYPE_SECURITY".to_string(),
                name: "first".to_string(),
                instruments: vec![
                    instr("u1", "ZZZ", "TQBR", "share"),
                    instr("u2", "AAA", "TQBR", "share"),
                ],
            },
            Asset {
                uid: "a2".to_string(),
                asset_type: "ASSET_TYPE_SECURITY".to_string(),
                name: "second".to_string(),
                instruments: vec![
                    instr("u3", "MMM", "TQBR", "bond"),
                    instr("u4", "AAA", "SPBX", "share"),
                    instr("u5", "KKK", "TQBR", "share"),
                ],
            },
        ],
    }
}

#[test]
fn flattens_in_catalog_order() {
    let c = catalog();
    let all = c.get_all_instruments();
    let uids: Vec<&str> = all.iter().map(|i| i.uid.as_str()).collect();
    assert_eq!(uids, vec!["u1", "u2", "u3", "u4", "u5"]);
}

#[test]
fn filters_by_class_and_type() {
    let c = catalog();
    let uids = c.filter_instruments("TQBR", "share");
    assert_eq!(uids, vec!["u1".to_string(), "u2".to_string(), "u5".to_string()]);
    let none = c.filter_instruments("TQBR", "option");
    assert!(none.is_empty());
}

#[test]
fn finds_first_ticker_by_uid() {
    let c = catalog();
    assert_eq!(c.get_instrument_ticker("u3"), Some("MMM".to_string()));
    assert_eq!(c.get_instrument_ticker("u4"), Some("AAA".to_string()));
    assert_eq!(c.get_instrument_ticker("nope"), None);
}

#[test]
fn sorted_filter_orders_by_ticker() {
    let c = catalog();
    let sorted = Bot::filter_instruments(c, "TQBR", "share");
    let tickers: Vec<&str> = sorted.iter().map(|i| i.ticker.as_str()).collect();
    assert_eq!(tickers, vec!["AAA", "KKK", "ZZZ"]);
}

#[test]
fn sorted_filter_keeps_equal_tickers_stable() {
    let c = GetAssetsResponse {
        assets: vec![Asset {
            uid: "a".to_string(),
            asset_type: "t".to_string(),
            name: "n".to_string(),
            instruments: vec![
                instr("first", "SAME", "X", "share"),
                instr("mid", "AAAA", "X", "share"),
                instr("second", "SAME", "X", "share"),
            ],
        }],
    };
    let sorted = Bot::filter_instruments(c, "X", "share");
    let uids: Vec<&str> = sorted.iter().map(|i| i.uid.as_str()).collect();
    assert_eq!(uids, vec!["mid", "first", "second"]);
}

#[test]
fn uid_copies_round_trip() {
    let ids = vec!["x".to_string(), "y".to_string()];
    assert_eq!(ids.into_uids(), ids);
}

#[test]
fn request_carries_its_fields() {
    let r = GetAssetsRequest::new(InstrumentType::Share, InstrumentStatus::Base);
    assert!(matches!(r.instrument_type, InstrumentType::Share));
    assert!(matches!(r.instrument_status, InstrumentStatus::Base));
}

#[test]
fn instrument_type_names() {
    assert_eq!(InstrumentType::Share.as_str(), "share");
    assert_eq!(InstrumentType::Bond.as_str(), "bond");
    assert_eq!(InstrumentType::ClearingCertificate.as_str(), "clearing_certificate");
    assert_eq!(InstrumentType::Unspecified.as_str(), "unspecified");
}

fn status(uid: &str, api: bool, ts: Option<TradingStatus>) -> TradingStatusResponse {
    TradingStatusResponse {
        figi: format!("FIGI-{}", uid),
        trading_status: ts,
        limit_order_available_flag: true,
        market_order_available_flag: true,
        api_trade_available_flag: api,
        instrument_uid: uid.to_string(),
        bestprice_order_available_flag: false,
        only_best_price: false,
    }
}

#[test]
fn tradability_needs_normal_trading_and_api() {
    let resp = GetTradingStatusesResponse {
        trading_statuses: vec![
            status("u1", true, Some(TradingStatus::NormalTrading)),
            status("u2", false, Some(TradingStatus::NormalTrading)),
            status("u3", true, Some(TradingStatus::BreakInTrading)),
            status("u4", true, None),
        ],
    };
    assert!(resp._is_instrument_available("u1"));
    assert!(!resp._is_instrument_available("u2"));
    assert!(!resp._is_instrument_available("u3"));
    assert!(!resp._is_instrument_available("u4"));
    assert!(!resp._is_instrument_available("unknown"));
    assert!(resp._get_instrument_status("u2").is_some());
    assert!(resp._get_instrument_status("unknown").is_none());
    assert_eq!(resp.get_available_instruments(), vec!["u1".to_string()]);
}

#[test]
fn earlier_revision_agrees_on_tradability() {
    let resp = q::GetTradingStatusesResponse {
        trading_statuses: vec![
            q::TradingStatusResponse {
                figi: "f".to_string(),
                trading_status: Some(q::TradingStatus::NormalTrading),
                limit_order_available_flag: false,
                market_order_available_flag: false,
                api_trade_available_flag: true,
                instrument_uid: "u1".to_string(),
                bestprice_order_available_flag: false,
                only_best_price: false,
            },
        ],
    };
    assert!(resp.is_instrument_available("u1"));
    assert!(!resp.is_instrument_available("u9"));
    assert!(resp.get_instrument_status("u1").is_some());
}

fn expected_separator() -> String {
    format!(
        "+{}+{}+{}+{}+{}+{}+\n",
        "-".repeat(38),
        "-".repeat(12),
        "-".repeat(14),
        "-".repeat(14),
        "-".repeat(38),
        "-".repeat(17)
    )
}

fn expected_cell(value: &str, width: usize) -> String {
    let space_width = width - 2;
    if value.len() > space_width {
        format!(" {}... |", &value[..space_width - 3])
    } else {
        format!(" {:<w$} |", value, w = space_width)
    }
}

fn expected_row(cells: &[&str]) -> String {
    let widths = [38usize, 12, 14, 14, 38, 17];
    let mut line = String::from("|");
    for (value, width) in cells.iter().zip(widths.iter()) {
        line.push_str(&expected_cell(value, *width));
    }
    line.push('\n');
    line
}

#[test]
fn renders_the_instrument_table_exactly() {
    let i = instr("u1", "ZZZ", "TQBR", "share");
    let table = Bot::print_instruments(&[i]);
    let expected = format!(
        "{sep}{header}{sep}{row}{sep}",
        sep = expected_separator(),
        header = expected_row(&["UID", "TICKER", "CLASS_CODE", "FIGI", "POSITION_UID", "INSTRUMENT_TYPE"]),
        row = expected_row(&["u1", "ZZZ", "TQBR", "FIGI-u1", "pos-u1", "share"]),
    );
    assert_eq!(table, expected);
}

#[test]
fn truncates_overlong_cells_with_an_ellipsis() {
    let long_ticker = "ABCDEFGHIJKLMNOP";
    let i = instr("u1", long_ticker, "TQBR", "share");
    let table = Bot::print_instruments(&[i]);
    // ticker column is 12 wide: 7 characters, then the ellipsis
    assert!(table.contains(" ABCDEFG... |"));
    assert!(!table.contains(long_ticker));
}

#[test]
fn empty_listing_renders_as_nothing() {
    assert_eq!(Bot::print_instruments(&[]), "");
    let empty = GetAssetsResponse { assets: Vec::new() };
    assert_eq!(empty._print_instruments(), "");
}

#[test]
fn catalog_table_covers_every_asset() {
    let c = catalog();
    let table = c._print_instruments();
    for uid in ["u1", "u2", "u3", "u4", "u5"] {
        assert!(table.contains(&format!("| {}", uid)));
    }
}

#[test]
fn filtered_listing_is_a_heading_and_dashed_lines() {
    let s = GetAssetsResponse::print_filtered_instruments(&vec!["a".to_string(), "b".to_string()]);
    assert_eq!(s, "Filtered instruments:\n- a\n- b\n");
    let none = GetAssetsResponse::print_filtered_instruments(&Vec::new());
    assert_eq!(none, "Filtered instruments:\n");
}

#[test]
fn ticker_order_is_lexicographic_with_prefixes_first() {
    let c = GetAssetsResponse {
        assets: vec![Asset {
            uid: "a".to_string(),
            asset_type: "t".to_string(),
            name: "n".to_string(),
            instruments: vec![
                instr("u1", "ABC", "X", "share"),
                instr("u2", "AB", "X", "share"),
                instr("u3", "ABD", "X", "share"),
                instr("u4", "A", "X", "share"),
            ],
        }],
    };
    let sorted = Bot::filter_instruments(c, "X", "share");
    let tickers: Vec<&str> = sorted.iter().map(|i| i.ticker.as_str()).collect();
    assert_eq!(tickers, vec!["A", "AB", "ABC", "ABD"]);
}

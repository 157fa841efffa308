//! Instrument classification as the vendor API names it.

use vstd::prelude::*;

verus! {

/// Kind of tradable instrument in the vendor's catalog.
#[derive(Debug, Clone, PartialEq, Eq, Structural)]
pub enum InstrumentType {
    Unspecified,
    Bond,
    Currency,
    Etf,
    Futures,
    Share,
    Option,
    Index,
    Commodity,
    CryptoCurrency,
    Sp,
    ClearingCertificate,
}

/// The lower-case name `as_str` returns for each kind.
pub open spec fn instrument_type_str(t: InstrumentType) -> Seq<char> {
    match t {
        InstrumentType::Unspecified => "unspecified"@,
        InstrumentType::Bond => "bond"@,
        InstrumentType::Currency => "currency"@,
        InstrumentType::Etf => "etf"@,
        InstrumentType::Futures => "futures"@,
        InstrumentType::Share => "share"@,
        InstrumentType::Option => "option"@,
        InstrumentType::Index => "index"@,
        InstrumentType::Commodity => "commodity"@,
        InstrumentType::CryptoCurrency => "cryptocurrency"@,
        InstrumentType::Sp => "sp"@,
        InstrumentType::ClearingCertificate => "clearing_certificate"@,
    }
}

impl InstrumentType {
    /// Lower-case filter name of this instrument kind.
    pub fn as_str(&self) -> (s: &str)
        ensures
            s@ == instrument_type_str(*self),
    {
        match self {
            InstrumentType::Unspecified => "unspecified",
            InstrumentType::Bond => "bond",
            InstrumentType::Currency => "currency",
            InstrumentType::Etf => "etf",
            InstrumentType::Futures => "futures",
            InstrumentType::Share => "share",
            InstrumentType::Option => "option",
            InstrumentType::Index => "index",
            InstrumentType::Commodity => "commodity",
            InstrumentType::CryptoCurrency => "cryptocurrency",
            InstrumentType::Sp => "sp",
            InstrumentType::ClearingCertificate => "clearing_certificate",
        }
    }
}

} // verus!

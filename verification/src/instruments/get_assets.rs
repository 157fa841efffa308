//! The asset catalog and the pure queries the scanner runs over it.
//!
//! The catalog arrives as a list of assets, each carrying its instruments.
//! All scanner decisions flatten that nesting into one instrument sequence
//! in catalog order; the queries below are specified against that
//! flattened sequence of instrument views.

use vstd::prelude::*;

use crate::models::enums::InstrumentType;
use crate::text::str_eq;

verus! {

/// Catalog visibility status requested from the vendor.
#[derive(Debug, Clone, Copy)]
pub enum InstrumentStatus {
    Unspecified,
    Base,
    All,
}

/// Kind of asset in the catalog.
#[derive(Debug, Clone)]
pub enum AssetType {
    Unspecified,
    Currency,
    Commodity,
    Index,
    Security,
}

/// A relation from an instrument to another catalog entity.
#[derive(Debug)]
pub struct Link {
    pub link_type: String,
    pub instrument_uid: String,
}

/// Mathematical image of a [`Link`].
pub ghost struct LinkView {
    pub link_type: Seq<char>,
    pub instrument_uid: Seq<char>,
}

impl View for Link {
    type V = LinkView;

    open spec fn view(&self) -> LinkView {
        LinkView { link_type: self.link_type@, instrument_uid: self.instrument_uid@ }
    }
}

impl Clone for Link {
    fn clone(&self) -> (r: Link)
        ensures
            r@ == self@,
    {
        Link { link_type: self.link_type.clone(), instrument_uid: self.instrument_uid.clone() }
    }
}

/// One tradable instrument of an asset.
#[derive(Debug)]
pub struct Instrument {
    pub uid: String,
    pub figi: String,
    pub instrument_type: String,
    pub ticker: String,
    pub class_code: String,
    pub links: Vec<Link>,
    pub instrument_kind: String,
    pub position_uid: String,
}

/// Mathematical image of an [`Instrument`].
pub ghost struct InstrumentView {
    pub uid: Seq<char>,
    pub figi: Seq<char>,
    pub instrument_type: Seq<char>,
    pub ticker: Seq<char>,
    pub class_code: Seq<char>,
    pub links: Seq<LinkView>,
    pub instrument_kind: Seq<char>,
    pub position_uid: Seq<char>,
}

impl View for Instrument {
    type V = InstrumentView;

    open spec fn view(&self) -> InstrumentView {
        InstrumentView {
            uid: self.uid@,
            figi: self.figi@,
            instrument_type: self.instrument_type@,
            ticker: self.ticker@,
            class_code: self.class_code@,
            links: self.links@.map_values(|l: Link| l@),
            instrument_kind: self.instrument_kind@,
            position_uid: self.position_uid@,
        }
    }
}

fn clone_links(links: &Vec<Link>) -> (r: Vec<Link>)
    ensures
        r@.map_values(|l: Link| l@) == links@.map_values(|l: Link| l@),
{
    let mut r: Vec<Link> = Vec::new();
    let mut i: usize = 0;
    while i < links.len()
        invariant
            0 <= i as int <= links@.len(),
            r@.map_values(|l: Link| l@) == links@.take(i as int).map_values(|l: Link| l@),
        decreases links@.len() - i,
    {
        let ghost r0 = r@;
        r.push(links[i].clone());
        proof {
            r0.lemma_push_map_commute(|l: Link| l@, r@.last());
            links@.lemma_map_take_succ(|l: Link| l@, i as int);
            assert(r@.map_values(|l: Link| l@) =~= links@.take(i as int + 1).map_values(
                |l: Link| l@,
            ));
        }
        i = i + 1;
    }
    proof {
        assert(links@.take(links@.len() as int) =~= links@);
    }
    r
}

impl Clone for Instrument {
    fn clone(&self) -> (r: Instrument)
        ensures
            r@ == self@,
    {
        Instrument {
            uid: self.uid.clone(),
            figi: self.figi.clone(),
            instrument_type: self.instrument_type.clone(),
            ticker: self.ticker.clone(),
            class_code: self.class_code.clone(),
            links: clone_links(&self.links),
            instrument_kind: self.instrument_kind.clone(),
            position_uid: self.position_uid.clone(),
        }
    }
}

/// One asset and the instruments it is traded through.
#[derive(Debug)]
pub struct Asset {
    pub uid: String,
    pub asset_type: String,
    pub name: String,
    pub instruments: Vec<Instrument>,
}

/// Mathematical image of an [`Asset`].
pub ghost struct AssetView {
    pub uid: Seq<char>,
    pub asset_type: Seq<char>,
    pub name: Seq<char>,
    pub instruments: Seq<InstrumentView>,
}

impl View for Asset {
    type V = AssetView;

    open spec fn view(&self) -> AssetView {
        AssetView {
            uid: self.uid@,
            asset_type: self.asset_type@,
            name: self.name@,
            instruments: self.instruments@.map_values(|i: Instrument| i@),
        }
    }
}

/// The full asset catalog.
#[derive(Debug)]
pub struct GetAssetsResponse {
    pub assets: Vec<Asset>,
}

impl View for GetAssetsResponse {
    type V = Seq<AssetView>;

    open spec fn view(&self) -> Seq<AssetView> {
        self.assets@.map_values(|a: Asset| a@)
    }
}

/// Everything that can hand out the instrument uids it stands for.
pub trait IntoUid {
    /// The uids, as character sequences.
    spec fn spec_uids(&self) -> Seq<Seq<char>>;

    /// Copies the uids out.
    fn into_uids(&self) -> (uids: Vec<String>)
        ensures
            uids.deep_view() == self.spec_uids(),
    ;
}

impl IntoUid for Vec<String> {
    open spec fn spec_uids(&self) -> Seq<Seq<char>> {
        self.deep_view()
    }

    fn into_uids(&self) -> (uids: Vec<String>)
        ensures
            uids.deep_view() == self.spec_uids(),
    {
        let mut r: Vec<String> = Vec::new();
        let mut i: usize = 0;
        while i < self.len()
            invariant
                0 <= i as int <= self@.len(),
                r@ == self@.subrange(0, i as int),
            decreases self@.len() - i,
        {
            r.push(self[i].clone());
            proof {
                assert(r@ =~= self@.subrange(0, i as int + 1));
            }
            i = i + 1;
        }
        proof {
            assert(r@ =~= self@);
            assert(r.deep_view() =~= self.deep_view());
        }
        r
    }
}

/// A request for the asset catalog.
#[derive(Debug)]
pub struct GetAssetsRequest {
    pub instrument_type: InstrumentType,
    pub instrument_status: InstrumentStatus,
}

impl GetAssetsRequest {
    /// A catalog request for the given instrument kind and status.
    pub fn new(instrument_type: InstrumentType, instrument_status: InstrumentStatus) -> (r:
        GetAssetsRequest)
        ensures
            r.instrument_type == instrument_type,
            r.instrument_status == instrument_status,
    {
        GetAssetsRequest { instrument_type, instrument_status }
    }
}

/// The catalog's instruments as one flat sequence, in catalog order.
pub open spec fn spec_all_instruments(r: GetAssetsResponse) -> Seq<InstrumentView> {
    r@.map_values(|a: AssetView| a.instruments).flatten()
}

/// An instrument passes the scanner's class/type filter.
pub open spec fn matches_filter(
    i: InstrumentView,
    class_code: Seq<char>,
    instrument_type: Seq<char>,
) -> bool {
    i.class_code == class_code && i.instrument_type == instrument_type
}

/// Ticker of the first catalog instrument carrying the given uid.
pub open spec fn spec_find_ticker(s: Seq<InstrumentView>, uid: Seq<char>) -> Option<Seq<char>>
    decreases s.len(),
{
    if s.len() == 0 {
        None
    } else if s[0].uid == uid {
        Some(s[0].ticker)
    } else {
        spec_find_ticker(s.drop_first(), uid)
    }
}

/// The first match only depends on what comes at or after the first
/// candidate position.
proof fn lemma_find_ticker_skip(s: Seq<InstrumentView>, uid: Seq<char>, i: int)
    requires
        0 <= i <= s.len(),
        forall|j: int| 0 <= j < i ==> (#[trigger] s[j]).uid != uid,
    ensures
        spec_find_ticker(s, uid) == spec_find_ticker(s.skip(i), uid),
    decreases i,
{
    if i > 0 {
        lemma_find_ticker_skip(s.drop_first(), uid, i - 1);
        assert(s.drop_first().skip(i - 1) =~= s.skip(i));
    } else {
        assert(s.skip(0) =~= s);
    }
}

impl GetAssetsResponse {
    /// All instruments of all assets, flattened in catalog order.
    pub fn get_all_instruments(&self) -> (r: Vec<&Instrument>)
        ensures
            r@.map_values(|i: &Instrument| i@) == spec_all_instruments(*self),
    {
        let ghost per_asset = self@.map_values(|a: AssetView| a.instruments);
        let mut r: Vec<&Instrument> = Vec::new();
        let mut ai: usize = 0;
        while ai < self.assets.len()
            invariant
                0 <= ai as int <= self.assets@.len(),
                per_asset == self@.map_values(|a: AssetView| a.instruments),
                per_asset.len() == self.assets@.len(),
                forall|k: int|
                    0 <= k < per_asset.len() ==> #[trigger] per_asset[k] == self.assets@[k]@
                        .instruments,
                r@.map_values(|i: &Instrument| i@) == per_asset.take(ai as int).flatten(),
            decreases self.assets@.len() - ai,
        {
            let asset = &self.assets[ai];
            let ghost instrs = asset@.instruments;
            let mut ii: usize = 0;
            while ii < asset.instruments.len()
                invariant
                    0 <= ii as int <= asset.instruments@.len(),
                    asset == &self.assets[ai as int],
                    (ai as int) < self.assets@.len(),
                    instrs == asset@.instruments,
                    instrs.len() == asset.instruments@.len(),
                    per_asset == self@.map_values(|a: AssetView| a.instruments),
                    per_asset.len() == self.assets@.len(),
                    forall|k: int|
                        0 <= k < per_asset.len() ==> #[trigger] per_asset[k] == self.assets@[k]@
                            .instruments,
                    r@.map_values(|i: &Instrument| i@) == per_asset.take(ai as int).flatten()
                        + instrs.take(ii as int),
                decreases asset.instruments@.len() - ii,
            {
                let ghost r0 = r@;
                r.push(&asset.instruments[ii]);
                proof {
                    r0.lemma_push_map_commute(|i: &Instrument| i@, r@.last());
                    assert(instrs[ii as int] == asset.instruments@[ii as int]@);
                    assert(r@.map_values(|i: &Instrument| i@) =~= per_asset.take(
                        ai as int,
                    ).flatten() + instrs.take(ii as int + 1));
                }
                ii = ii + 1;
            }
            proof {
                assert(instrs.take(instrs.len() as int) =~= instrs);
                assert(per_asset[ai as int] == instrs);
                assert(per_asset.take(ai as int).push(instrs) =~= per_asset.take(ai as int + 1));
                per_asset.take(ai as int).lemma_flatten_push(instrs);
            }
            ai = ai + 1;
        }
        proof {
            assert(per_asset.take(per_asset.len() as int) =~= per_asset);
        }
        r
    }

    /// Renders the whole catalog's instruments as a bordered
    /// fixed-width table, exactly
    /// [`crate::render::spec_instrument_table`] of the flattened
    /// catalog.
    pub fn _print_instruments(&self) -> (r: String)
        ensures
            r@ == crate::render::spec_instrument_table(spec_all_instruments(*self)),
    {
        let all = self.get_all_instruments();
        crate::render::instrument_table(&all)
    }

    /// Renders the filtered-uid listing: a heading and one dashed line
    /// per uid.
    pub fn print_filtered_instruments(instruments: &Vec<String>) -> (r: String)
        ensures
            r@ == seq!['F', 'i', 'l', 't', 'e', 'r', 'e', 'd', ' ', 'i', 'n', 's', 't', 'r',
                'u', 'm', 'e', 'n', 't', 's', ':', '\n'] + crate::render::spec_uid_lines(
                instruments.deep_view(),
            ),
    {
        crate::render::uid_listing(instruments)
    }

    /// Uids of the catalog instruments passing the class/type filter, in
    /// catalog order.
    pub fn filter_instruments(&self, class_code: &str, instrument_type: &str) -> (r: Vec<String>)
        ensures
            r.deep_view() == spec_all_instruments(*self).filter(
                |i: InstrumentView| matches_filter(i, class_code@, instrument_type@),
            ).map_values(|i: InstrumentView| i.uid),
    {
        let ghost all = spec_all_instruments(*self);
        let ghost pred = |i: InstrumentView| matches_filter(i, class_code@, instrument_type@);
        let flat = self.get_all_instruments();
        let mut r: Vec<String> = Vec::new();
        let mut k: usize = 0;
        while k < flat.len()
            invariant
                0 <= k as int <= flat@.len(),
                flat@.map_values(|i: &Instrument| i@) == all,
                flat@.len() == all.len(),
                pred == (|i: InstrumentView| matches_filter(i, class_code@, instrument_type@)),
                r.deep_view() == all.take(k as int).filter(pred).map_values(
                    |i: InstrumentView| i.uid,
                ),
            decreases flat@.len() - k,
        {
            let inst = flat[k];
            proof {
                assert(inst@ == all[k as int]);
            }
            let keep = str_eq(inst.class_code.as_str(), class_code) && str_eq(
                inst.instrument_type.as_str(),
                instrument_type,
            );
            proof {
                lemma_filter_take_step(all, pred, k as int);
            }
            if keep {
                let ghost r0 = r@;
                r.push(inst.uid.clone());
                proof {
                    all.take(k as int).filter(pred).lemma_push_map_commute(
                        |i: InstrumentView| i.uid,
                        all[k as int],
                    );
                    assert(r.deep_view() =~= all.take(k as int + 1).filter(pred).map_values(
                        |i: InstrumentView| i.uid,
                    ));
                }
            } else {
                proof {
                    assert(r.deep_view() =~= all.take(k as int + 1).filter(pred).map_values(
                        |i: InstrumentView| i.uid,
                    ));
                }
            }
            k = k + 1;
        }
        proof {
            assert(all.take(all.len() as int) =~= all);
        }
        r
    }

    /// Ticker of the first catalog instrument with the given uid, if any.
    pub fn get_instrument_ticker(&self, instrument_uid: &str) -> (r: Option<String>)
        ensures
            match r {
                Some(t) => spec_find_ticker(spec_all_instruments(*self), instrument_uid@) == Some(
                    t@,
                ),
                None => spec_find_ticker(spec_all_instruments(*self), instrument_uid@) is None,
            },
    {
        let ghost all = spec_all_instruments(*self);
        let flat = self.get_all_instruments();
        let mut k: usize = 0;
        while k < flat.len()
            invariant
                0 <= k as int <= flat@.len(),
                all == spec_all_instruments(*self),
                flat@.map_values(|i: &Instrument| i@) == all,
                flat@.len() == all.len(),
                forall|j: int| 0 <= j < k as int ==> (#[trigger] all[j]).uid != instrument_uid@,
            decreases flat@.len() - k,
        {
            let inst = flat[k];
            proof {
                assert(inst@ == all[k as int]);
            }
            if str_eq(inst.uid.as_str(), instrument_uid) {
                proof {
                    lemma_find_ticker_skip(all, instrument_uid@, k as int);
                    assert(all.skip(k as int)[0] == all[k as int]);
                    assert(all[k as int].uid == instrument_uid@);
                    assert(all.skip(k as int).len() > 0);
                    assert(spec_find_ticker(all.skip(k as int), instrument_uid@) == Some(
                        all[k as int].ticker,
                    ));
                }
                return Some(inst.ticker.clone());
            }
            k = k + 1;
        }
        proof {
            lemma_find_ticker_skip(all, instrument_uid@, all.len() as int);
            assert(all.skip(all.len() as int) =~= Seq::<InstrumentView>::empty());
        }
        None
    }
}

/// One step of filtering a growing prefix.
pub proof fn lemma_filter_take_step<A>(s: Seq<A>, pred: spec_fn(A) -> bool, i: int)
    requires
        0 <= i < s.len(),
    ensures
        s.take(i + 1).filter(pred) == if pred(s[i]) {
            s.take(i).filter(pred).push(s[i])
        } else {
            s.take(i).filter(pred)
        },
{
    reveal(Seq::filter);
    assert(s.take(i + 1).drop_last() =~= s.take(i));
    assert(s.take(i + 1).last() == s[i]);
}

} // verus!

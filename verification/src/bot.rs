//! The scanning bot's core: signal detection, per-instrument strategies,
//! scan-cycle orchestration and notification decisions.

pub mod notifier;
pub mod scanner;
pub mod signal;
pub mod trade;

use vstd::multiset::Multiset;
use vstd::prelude::*;

use crate::instruments::get_assets::{
    matches_filter, spec_all_instruments, GetAssetsResponse, Instrument, InstrumentView,
};
use crate::text::{lemma_lex_le_total, lemma_lex_le_trans, lex_le, str_le};

verus! {

/// The scanning bot's namespace for catalog-wide operations.
pub struct Bot {}

/// `x` placed behind every element of `s` whose ticker is less than or
/// equal to `x`'s: the insertion step of a stable insertion sort.
pub open spec fn spec_insert_by_ticker(s: Seq<InstrumentView>, x: InstrumentView) -> Seq<
    InstrumentView,
>
    decreases s.len(),
{
    if s.len() == 0 {
        seq![x]
    } else if lex_le(s[0].ticker, x.ticker) {
        seq![s[0]] + spec_insert_by_ticker(s.drop_first(), x)
    } else {
        seq![x] + s
    }
}

/// Stable insertion sort by ticker. Its result is the unique reordering
/// that is sorted by ticker and keeps the original relative order of
/// equal tickers, so it pins down exactly what a stable sort returns.
pub open spec fn spec_sort_by_ticker(s: Seq<InstrumentView>) -> Seq<InstrumentView>
    decreases s.len(),
{
    if s.len() == 0 {
        Seq::empty()
    } else {
        spec_insert_by_ticker(spec_sort_by_ticker(s.drop_last()), s.last())
    }
}

/// Non-decreasing tickers.
pub open spec fn sorted_by_ticker(s: Seq<InstrumentView>) -> bool {
    forall|i: int, j: int| 0 <= i < j < s.len() ==> lex_le(s[i].ticker, s[j].ticker)
}

/// Inserting keeps sortedness and adds exactly the new element.
proof fn lemma_insert_by_ticker_props(s: Seq<InstrumentView>, x: InstrumentView)
    ensures
        spec_insert_by_ticker(s, x).to_multiset() == s.to_multiset().insert(x),
        sorted_by_ticker(s) ==> sorted_by_ticker(spec_insert_by_ticker(s, x)),
        spec_insert_by_ticker(s, x).len() == s.len() + 1,
    decreases s.len(),
{
    broadcast use vstd::seq_lib::group_to_multiset_ensures;
    broadcast use vstd::seq_lib::lemma_multiset_commutative;

    let r = spec_insert_by_ticker(s, x);
    if s.len() == 0 {
        assert(seq![x] =~= Seq::<InstrumentView>::empty().push(x));
        assert(r.to_multiset() =~= s.to_multiset().insert(x));
    } else if lex_le(s[0].ticker, x.ticker) {
        let s1 = s.drop_first();
        lemma_insert_by_ticker_props(s1, x);
        let r1 = spec_insert_by_ticker(s1, x);
        assert(r == seq![s[0]] + r1);
        assert(seq![s[0]].to_multiset() =~= Multiset::<InstrumentView>::empty().insert(s[0]));
        assert(seq![s[0]] + s1 =~= s);
        assert(r.to_multiset() =~= s.to_multiset().insert(x));
        if sorted_by_ticker(s) {
            assert(sorted_by_ticker(s1)) by {
                assert(forall|i: int, j: int|
                    0 <= i < j < s1.len() ==> s1[i] == s[i + 1] && s1[j] == s[j + 1]);
            }
            assert(sorted_by_ticker(r1));
            // The head is bounded by x and by every element of s1, and the
            // elements of r1 are exactly x and those of s1.
            assert forall|k: int| 1 <= k < r.len() implies lex_le(r[0].ticker, r[k].ticker) by {
                assert(r[k] == r1[k - 1]);
                assert(r1.to_multiset().contains(r1[k - 1]));
                if r1[k - 1] != x {
                    assert(s1.to_multiset().contains(r1[k - 1]));
                    let m = choose|m: int| 0 <= m < s1.len() && s1[m] == r1[k - 1];
                    assert(s[0] == r[0] && s1[m] == s[m + 1]);
                }
            }
            assert(sorted_by_ticker(r)) by {
                assert(forall|i: int, j: int|
                    1 <= i < j < r.len() ==> r[i] == r1[i - 1] && r[j] == r1[j - 1]);
            }
        }
    } else {
        assert(r == seq![x] + s);
        assert(seq![x].to_multiset() =~= Multiset::<InstrumentView>::empty().insert(x));
        assert(r.to_multiset() =~= s.to_multiset().insert(x));
        if sorted_by_ticker(s) {
            lemma_lex_le_total(s[0].ticker, x.ticker);
            assert forall|k: int| 1 <= k < r.len() implies lex_le(r[0].ticker, r[k].ticker) by {
                assert(r[k] == s[k - 1]);
                if k > 1 {
                    lemma_lex_le_trans(x.ticker, s[0].ticker, s[k - 1].ticker);
                }
            }
            assert(sorted_by_ticker(r)) by {
                assert(forall|i: int, j: int|
                    1 <= i < j < r.len() ==> r[i] == s[i - 1] && r[j] == s[j - 1]);
            }
        }
    }
}

/// Law: the sorted catalog slice is ordered by ticker.
pub proof fn lemma_sort_by_ticker_sorted(s: Seq<InstrumentView>)
    ensures
        sorted_by_ticker(spec_sort_by_ticker(s)),
    decreases s.len(),
{
    if s.len() > 0 {
        lemma_sort_by_ticker_sorted(s.drop_last());
        lemma_insert_by_ticker_props(spec_sort_by_ticker(s.drop_last()), s.last());
    }
}

/// Law: sorting only reorders; every instrument keeps its multiplicity.
pub proof fn lemma_sort_by_ticker_permutes(s: Seq<InstrumentView>)
    ensures
        spec_sort_by_ticker(s).to_multiset() == s.to_multiset(),
        spec_sort_by_ticker(s).len() == s.len(),
    decreases s.len(),
{
    broadcast use vstd::seq_lib::group_to_multiset_ensures;

    if s.len() > 0 {
        lemma_sort_by_ticker_permutes(s.drop_last());
        lemma_insert_by_ticker_props(spec_sort_by_ticker(s.drop_last()), s.last());
        assert(s.drop_last().push(s.last()) =~= s);
    }
}

/// Where the scan stops: the first index whose element's ticker exceeds
/// `x`'s, so insertion there keeps equal tickers in arrival order.
proof fn lemma_insert_at(s: Seq<InstrumentView>, x: InstrumentView, pos: int)
    requires
        0 <= pos <= s.len(),
        forall|j: int| 0 <= j < pos ==> lex_le((#[trigger] s[j]).ticker, x.ticker),
        pos < s.len() ==> !lex_le(s[pos].ticker, x.ticker),
    ensures
        spec_insert_by_ticker(s, x) == s.take(pos) + seq![x] + s.skip(pos),
    decreases pos,
{
    if pos == 0 {
        if s.len() == 0 {
            assert(spec_insert_by_ticker(s, x) =~= s.take(0) + seq![x] + s.skip(0));
        } else {
            assert(spec_insert_by_ticker(s, x) =~= s.take(0) + seq![x] + s.skip(0));
        }
    } else {
        let s1 = s.drop_first();
        assert(lex_le(s[0].ticker, x.ticker));
        lemma_insert_at(s1, x, pos - 1);
        assert(seq![s[0]] + (s1.take(pos - 1) + seq![x] + s1.skip(pos - 1)) =~= s.take(pos)
            + seq![x] + s.skip(pos));
    }
}

/// First index of `v` whose ticker exceeds `x`'s.
fn insert_pos(v: &Vec<Instrument>, x: &Instrument) -> (pos: usize)
    ensures
        0 <= pos <= v@.len(),
        forall|j: int| 0 <= j < pos ==> lex_le((#[trigger] v@[j])@.ticker, x@.ticker),
        pos < v@.len() ==> !lex_le(v@[pos as int]@.ticker, x@.ticker),
{
    let mut pos: usize = 0;
    while pos < v.len()
        invariant
            0 <= pos as int <= v@.len(),
            forall|j: int| 0 <= j < pos ==> lex_le((#[trigger] v@[j])@.ticker, x@.ticker),
        decreases v@.len() - pos,
    {
        if !str_le(v[pos].ticker.as_str(), x.ticker.as_str()) {
            return pos;
        }
        pos = pos + 1;
    }
    pos
}

/// Inserts `x` behind every element whose ticker is less than or equal.
fn insert_by_ticker(v: &mut Vec<Instrument>, x: Instrument)
    ensures
        final(v)@.map_values(|i: Instrument| i@) == spec_insert_by_ticker(
            old(v)@.map_values(|i: Instrument| i@),
            x@,
        ),
{
    let ghost vs = v@.map_values(|i: Instrument| i@);
    let pos = insert_pos(v, &x);
    proof {
        lemma_insert_at(vs, x@, pos as int);
    }
    let ghost xv = x@;
    v.insert(pos, x);
    proof {
        assert(v@.map_values(|i: Instrument| i@) =~= vs.take(pos as int) + seq![xv] + vs.skip(
            pos as int,
        ));
    }
}

impl Bot {
    /// Renders the instruments as a bordered fixed-width table, exactly
    /// [`crate::render::spec_instrument_table`]; an empty listing
    /// renders as the empty string.
    pub fn print_instruments(instruments: &[Instrument]) -> (r: String)
        ensures
            r@ == crate::render::spec_instrument_table(
                instruments@.map_values(|i: Instrument| i@),
            ),
    {
        let ghost views = instruments@.map_values(|i: Instrument| i@);
        let mut refs: Vec<&Instrument> = Vec::new();
        let mut k: usize = 0;
        while k < instruments.len()
            invariant
                0 <= k as int <= instruments@.len(),
                views == instruments@.map_values(|i: Instrument| i@),
                views.len() == instruments@.len(),
                refs@.map_values(|i: &Instrument| i@) == views.take(k as int),
            decreases instruments@.len() - k,
        {
            let ghost r0 = refs@;
            refs.push(&instruments[k]);
            proof {
                r0.lemma_push_map_commute(|i: &Instrument| i@, refs@.last());
                assert(refs@.map_values(|i: &Instrument| i@) =~= views.take(k as int + 1));
            }
            k = k + 1;
        }
        proof {
            assert(views.take(views.len() as int) =~= views);
        }
        crate::render::instrument_table(&refs)
    }

    /// Catalog instruments passing the class/type filter, stable-sorted by
    /// ticker for a reproducible evaluation order.
    pub fn filter_instruments(
        response: GetAssetsResponse,
        class_code: &str,
        instrument_type: &str,
    ) -> (r: Vec<Instrument>)
        ensures
            r@.map_values(|i: Instrument| i@) == spec_sort_by_ticker(
                spec_all_instruments(response).filter(
                    |i: InstrumentView| matches_filter(i, class_code@, instrument_type@),
                ),
            ),
            sorted_by_ticker(r@.map_values(|i: Instrument| i@)),
            r@.map_values(|i: Instrument| i@).to_multiset() == spec_all_instruments(
                response,
            ).filter(
                |i: InstrumentView| matches_filter(i, class_code@, instrument_type@),
            ).to_multiset(),
    {
        let ghost all = spec_all_instruments(response);
        let ghost pred = |i: InstrumentView| matches_filter(i, class_code@, instrument_type@);
        let flat = response.get_all_instruments();
        let mut r: Vec<Instrument> = Vec::new();
        let mut k: usize = 0;
        while k < flat.len()
            invariant
                0 <= k as int <= flat@.len(),
                flat@.map_values(|i: &Instrument| i@) == all,
                flat@.len() == all.len(),
                pred == (|i: InstrumentView| matches_filter(i, class_code@, instrument_type@)),
                r@.map_values(|i: Instrument| i@) == spec_sort_by_ticker(
                    all.take(k as int).filter(pred),
                ),
            decreases flat@.len() - k,
        {
            let inst = flat[k];
            proof {
                assert(inst@ == all[k as int]);
                crate::instruments::get_assets::lemma_filter_take_step(all, pred, k as int);
            }
            let keep = crate::text::str_eq(inst.class_code.as_str(), class_code)
                && crate::text::str_eq(inst.instrument_type.as_str(), instrument_type);
            if keep {
                let x = inst.clone();
                proof {
                    let fprev = all.take(k as int).filter(pred);
                    assert(fprev.push(x@).drop_last() =~= fprev);
                    assert(all.take(k as int + 1).filter(pred) == fprev.push(x@));
                }
                insert_by_ticker(&mut r, x);
            }
            k = k + 1;
        }
        proof {
            assert(all.take(all.len() as int) =~= all);
            lemma_sort_by_ticker_sorted(all.filter(pred));
            lemma_sort_by_ticker_permutes(all.filter(pred));
        }
        r
    }
}

} // verus!

//! Verified fixed-width table rendering for instrument listings.
//!
//! The table layout is pinned down character by character: a border
//! line, a header, and one bordered row per instrument, each cell
//! left-aligned in its column and truncated with an ellipsis when it
//! does not fit. What a caller prints is exactly `spec_instrument_table`
//! of the instruments it passed.

use vstd::prelude::*;

use crate::instruments::get_assets::{Instrument, InstrumentView};

verus! {

/// `n` spaces.
pub open spec fn spec_spaces(n: nat) -> Seq<char>
    decreases n,
{
    if n == 0 {
        Seq::empty()
    } else {
        spec_spaces((n - 1) as nat).push(' ')
    }
}

/// `n` dashes.
pub open spec fn spec_dashes(n: nat) -> Seq<char>
    decreases n,
{
    if n == 0 {
        Seq::empty()
    } else {
        spec_dashes((n - 1) as nat).push('-')
    }
}

/// One cell of a row: the value left-aligned in `w - 2` characters
/// between single spaces, closed by `|`; a value that does not fit is
/// cut and marked with an ellipsis.
pub open spec fn spec_cell(s: Seq<char>, w: nat) -> Seq<char>
    recommends
        w >= 6,
{
    let sw = (w - 2) as nat;
    if s.len() > sw {
        seq![' '] + s.take(sw as int - 3) + seq!['.', '.', '.', ' ', '|']
    } else {
        seq![' '] + s + spec_spaces((sw - s.len()) as nat) + seq![' ', '|']
    }
}

/// The border between rows.
pub open spec fn spec_separator_line() -> Seq<char> {
    seq!['+'] + spec_dashes(38) + seq!['+'] + spec_dashes(12) + seq!['+'] + spec_dashes(14)
        + seq!['+'] + spec_dashes(14) + seq!['+'] + spec_dashes(38) + seq!['+'] + spec_dashes(17)
        + seq!['+'] + seq!['\n']
}

/// The column titles.
pub open spec fn spec_header_line() -> Seq<char> {
    seq!['|'] + spec_cell(seq!['U', 'I', 'D'], 38) + spec_cell(
        seq!['T', 'I', 'C', 'K', 'E', 'R'],
        12,
    ) + spec_cell(seq!['C', 'L', 'A', 'S', 'S', '_', 'C', 'O', 'D', 'E'], 14) + spec_cell(
        seq!['F', 'I', 'G', 'I'],
        14,
    ) + spec_cell(seq!['P', 'O', 'S', 'I', 'T', 'I', 'O', 'N', '_', 'U', 'I', 'D'], 38)
        + spec_cell(
        seq!['I', 'N', 'S', 'T', 'R', 'U', 'M', 'E', 'N', 'T', '_', 'T', 'Y', 'P', 'E'],
        17,
    ) + seq!['\n']
}

/// One instrument's row.
pub open spec fn spec_instrument_row(i: InstrumentView) -> Seq<char> {
    seq!['|'] + spec_cell(i.uid, 38) + spec_cell(i.ticker, 12) + spec_cell(i.class_code, 14)
        + spec_cell(i.figi, 14) + spec_cell(i.position_uid, 38) + spec_cell(i.instrument_type, 17)
        + seq!['\n']
}

/// The rows, each closed by a border.
pub open spec fn spec_rows(s: Seq<InstrumentView>) -> Seq<char>
    decreases s.len(),
{
    if s.len() == 0 {
        Seq::empty()
    } else {
        spec_instrument_row(s[0]) + spec_separator_line() + spec_rows(s.drop_first())
    }
}

/// The whole table; an empty listing renders as nothing.
pub open spec fn spec_instrument_table(s: Seq<InstrumentView>) -> Seq<char> {
    if s.len() == 0 {
        Seq::empty()
    } else {
        spec_separator_line() + spec_header_line() + spec_separator_line() + spec_rows(s)
    }
}

/// Peeling the last row off.
proof fn lemma_rows_snoc(s: Seq<InstrumentView>, x: InstrumentView)
    ensures
        spec_rows(s.push(x)) == spec_rows(s) + spec_instrument_row(x) + spec_separator_line(),
    decreases s.len(),
{
    let p = s.push(x);
    assert(spec_rows(p) == spec_instrument_row(p[0]) + spec_separator_line() + spec_rows(
        p.drop_first(),
    ));
    if s.len() == 0 {
        assert(p[0] == x);
        assert(p.drop_first() =~= Seq::<InstrumentView>::empty());
        assert(spec_rows(Seq::<InstrumentView>::empty()) =~= Seq::<char>::empty());
        assert(spec_rows(s) =~= Seq::<char>::empty());
        assert(spec_rows(p) =~= spec_rows(s) + spec_instrument_row(x) + spec_separator_line());
    } else {
        assert(p[0] == s[0]);
        assert(p.drop_first() =~= s.drop_first().push(x));
        lemma_rows_snoc(s.drop_first(), x);
        assert(spec_rows(s) == spec_instrument_row(s[0]) + spec_separator_line() + spec_rows(
            s.drop_first(),
        ));
        assert(spec_rows(p) =~= spec_rows(s) + spec_instrument_row(x) + spec_separator_line());
    }
}

fn push_spaces(out: &mut String, n: usize)
    ensures
        final(out)@ == old(out)@ + spec_spaces(n as nat),
{
    let ghost base = out@;
    let mut i: usize = 0;
    while i < n
        invariant
            0 <= i as int <= n as int,
            out@ == base + spec_spaces(i as nat),
        decreases n - i,
    {
        out.append(" ");
        proof {
            reveal_strlit(" ");
            assert(" "@ =~= seq![' ']);
            assert(out@ =~= base + spec_spaces((i + 1) as nat));
        }
        i = i + 1;
    }
    proof {
        assert(out@ =~= base + spec_spaces(n as nat));
    }
}

fn push_dashes(out: &mut String, n: usize)
    ensures
        final(out)@ == old(out)@ + spec_dashes(n as nat),
{
    let ghost base = out@;
    let mut i: usize = 0;
    while i < n
        invariant
            0 <= i as int <= n as int,
            out@ == base + spec_dashes(i as nat),
        decreases n - i,
    {
        out.append("-");
        proof {
            reveal_strlit("-");
            assert("-"@ =~= seq!['-']);
            assert(out@ =~= base + spec_dashes((i + 1) as nat));
        }
        i = i + 1;
    }
    proof {
        assert(out@ =~= base + spec_dashes(n as nat));
    }
}

fn push_cell(out: &mut String, value: &str, w: usize)
    requires
        6 <= w,
    ensures
        final(out)@ == old(out)@ + spec_cell(value@, w as nat),
{
    let ghost base = out@;
    let sw = w - 2;
    let len = value.unicode_len();
    if len > sw {
        let t = value.substring_char(0, sw - 3);
        out.append(" ");
        out.append(t);
        out.append("... |");
        proof {
            reveal_strlit(" ");
            reveal_strlit("... |");
            assert(" "@ =~= seq![' ']);
            assert("... |"@ =~= seq!['.', '.', '.', ' ', '|']);
            assert(out@ =~= base + spec_cell(value@, w as nat));
        }
    } else {
        out.append(" ");
        out.append(value);
        push_spaces(out, sw - len);
        out.append(" |");
        proof {
            reveal_strlit(" ");
            reveal_strlit(" |");
            assert(" "@ =~= seq![' ']);
            assert(" |"@ =~= seq![' ', '|']);
            assert(out@ =~= base + spec_cell(value@, w as nat));
        }
    }
}

fn push_separator(out: &mut String)
    ensures
        final(out)@ == old(out)@ + spec_separator_line(),
{
    let ghost base = out@;
    out.append("+");
    push_dashes(out, 38);
    out.append("+");
    push_dashes(out, 12);
    out.append("+");
    push_dashes(out, 14);
    out.append("+");
    push_dashes(out, 14);
    out.append("+");
    push_dashes(out, 38);
    out.append("+");
    push_dashes(out, 17);
    out.append("+");
    out.append("\n");
    proof {
        reveal_strlit("+");
        reveal_strlit("\n");
        assert("+"@ =~= seq!['+']);
        assert("\n"@ =~= seq!['\n']);
        assert(out@ =~= base + spec_separator_line());
    }
}

fn push_header(out: &mut String)
    ensures
        final(out)@ == old(out)@ + spec_header_line(),
{
    let ghost base = out@;
    out.append("|");
    proof {
        reveal_strlit("UID");
        reveal_strlit("TICKER");
        reveal_strlit("CLASS_CODE");
        reveal_strlit("FIGI");
        reveal_strlit("POSITION_UID");
        reveal_strlit("INSTRUMENT_TYPE");
        assert("UID"@ =~= seq!['U', 'I', 'D']);
        assert("TICKER"@ =~= seq!['T', 'I', 'C', 'K', 'E', 'R']);
        assert("CLASS_CODE"@ =~= seq!['C', 'L', 'A', 'S', 'S', '_', 'C', 'O', 'D', 'E']);
        assert("FIGI"@ =~= seq!['F', 'I', 'G', 'I']);
        assert("POSITION_UID"@ =~= seq!['P', 'O', 'S', 'I', 'T', 'I', 'O', 'N', '_', 'U', 'I',
            'D']);
        assert("INSTRUMENT_TYPE"@ =~= seq!['I', 'N', 'S', 'T', 'R', 'U', 'M', 'E', 'N', 'T', '_',
            'T', 'Y', 'P', 'E']);
    }
    push_cell(out, "UID", 38);
    push_cell(out, "TICKER", 12);
    push_cell(out, "CLASS_CODE", 14);
    push_cell(out, "FIGI", 14);
    push_cell(out, "POSITION_UID", 38);
    push_cell(out, "INSTRUMENT_TYPE", 17);
    out.append("\n");
    proof {
        reveal_strlit("|");
        reveal_strlit("\n");
        assert("|"@ =~= seq!['|']);
        assert("\n"@ =~= seq!['\n']);
        assert(out@ =~= base + spec_header_line());
    }
}

fn push_row(out: &mut String, i: &Instrument)
    ensures
        final(out)@ == old(out)@ + spec_instrument_row(i@),
{
    let ghost base = out@;
    out.append("|");
    push_cell(out, i.uid.as_str(), 38);
    push_cell(out, i.ticker.as_str(), 12);
    push_cell(out, i.class_code.as_str(), 14);
    push_cell(out, i.figi.as_str(), 14);
    push_cell(out, i.position_uid.as_str(), 38);
    push_cell(out, i.instrument_type.as_str(), 17);
    out.append("\n");
    proof {
        reveal_strlit("|");
        reveal_strlit("\n");
        assert("|"@ =~= seq!['|']);
        assert("\n"@ =~= seq!['\n']);
        assert(out@ =~= base + spec_instrument_row(i@));
    }
}

/// Renders the whole table of the given instruments.
pub fn instrument_table(instruments: &Vec<&Instrument>) -> (r: String)
    ensures
        r@ == spec_instrument_table(instruments@.map_values(|i: &Instrument| i@)),
{
    let ghost views = instruments@.map_values(|i: &Instrument| i@);
    let mut out = String::new();
    if instruments.len() == 0 {
        proof {
            assert(out@ =~= spec_instrument_table(views));
        }
        return out;
    }
    push_separator(&mut out);
    push_header(&mut out);
    push_separator(&mut out);
    let ghost head = spec_separator_line() + spec_header_line() + spec_separator_line();
    proof {
        assert(out@ =~= head + spec_rows(views.take(0)));
    }
    let mut k: usize = 0;
    while k < instruments.len()
        invariant
            0 <= k as int <= instruments@.len(),
            views == instruments@.map_values(|i: &Instrument| i@),
            views.len() == instruments@.len(),
            head == spec_separator_line() + spec_header_line() + spec_separator_line(),
            out@ == head + spec_rows(views.take(k as int)),
        decreases instruments@.len() - k,
    {
        push_row(&mut out, instruments[k]);
        push_separator(&mut out);
        proof {
            lemma_rows_snoc(views.take(k as int), views[k as int]);
            assert(views.take(k as int).push(views[k as int]) =~= views.take(k as int + 1));
            assert(out@ =~= head + spec_rows(views.take(k as int + 1)));
        }
        k = k + 1;
    }
    proof {
        assert(views.take(views.len() as int) =~= views);
        assert(out@ =~= spec_instrument_table(views));
    }
    out
}

/// The filtered-uids listing: a heading and one dashed line per uid.
pub open spec fn spec_uid_lines(s: Seq<Seq<char>>) -> Seq<char>
    decreases s.len(),
{
    if s.len() == 0 {
        Seq::empty()
    } else {
        seq!['-', ' '] + s[0] + seq!['\n'] + spec_uid_lines(s.drop_first())
    }
}

/// Peeling the last uid line off.
proof fn lemma_uid_lines_snoc(s: Seq<Seq<char>>, x: Seq<char>)
    ensures
        spec_uid_lines(s.push(x)) == spec_uid_lines(s) + (seq!['-', ' '] + x + seq!['\n']),
    decreases s.len(),
{
    let p = s.push(x);
    assert(spec_uid_lines(p) == seq!['-', ' '] + p[0] + seq!['\n'] + spec_uid_lines(
        p.drop_first(),
    ));
    if s.len() == 0 {
        assert(p[0] == x);
        assert(p.drop_first() =~= Seq::<Seq<char>>::empty());
        assert(spec_uid_lines(Seq::<Seq<char>>::empty()) =~= Seq::<char>::empty());
        assert(spec_uid_lines(s) =~= Seq::<char>::empty());
        assert(spec_uid_lines(p) =~= spec_uid_lines(s) + (seq!['-', ' '] + x + seq!['\n']));
    } else {
        assert(p[0] == s[0]);
        assert(p.drop_first() =~= s.drop_first().push(x));
        lemma_uid_lines_snoc(s.drop_first(), x);
        assert(spec_uid_lines(s) == seq!['-', ' '] + s[0] + seq!['\n'] + spec_uid_lines(
            s.drop_first(),
        ));
        assert(spec_uid_lines(p) =~= spec_uid_lines(s) + (seq!['-', ' '] + x + seq!['\n']));
    }
}

/// Renders the filtered-instrument listing.
pub fn uid_listing(uids: &Vec<String>) -> (r: String)
    ensures
        r@ == seq!['F', 'i', 'l', 't', 'e', 'r', 'e', 'd', ' ', 'i', 'n', 's', 't', 'r', 'u',
            'm', 'e', 'n', 't', 's', ':', '\n'] + spec_uid_lines(uids.deep_view()),
{
    let mut out = String::new();
    out.append("Filtered instruments:\n");
    let ghost heading = seq!['F', 'i', 'l', 't', 'e', 'r', 'e', 'd', ' ', 'i', 'n', 's', 't',
        'r', 'u', 'm', 'e', 'n', 't', 's', ':', '\n'];
    proof {
        reveal_strlit("Filtered instruments:\n");
        assert("Filtered instruments:\n"@ =~= heading);
        assert(uids.deep_view().take(0) =~= Seq::<Seq<char>>::empty());
        assert(out@ =~= heading + spec_uid_lines(uids.deep_view().take(0)));
    }
    let mut k: usize = 0;
    while k < uids.len()
        invariant
            0 <= k as int <= uids@.len(),
            uids.deep_view().len() == uids@.len(),
            forall|j: int|
                0 <= j < uids@.len() ==> #[trigger] uids.deep_view()[j] == uids@[j]@,
            heading == seq!['F', 'i', 'l', 't', 'e', 'r', 'e', 'd', ' ', 'i', 'n', 's', 't',
                'r', 'u', 'm', 'e', 'n', 't', 's', ':', '\n'],
            out@ == heading + spec_uid_lines(uids.deep_view().take(k as int)),
        decreases uids@.len() - k,
    {
        out.append("- ");
        out.append(uids[k].as_str());
        out.append("\n");
        proof {
            reveal_strlit("- ");
            reveal_strlit("\n");
            assert("- "@ =~= seq!['-', ' ']);
            assert("\n"@ =~= seq!['\n']);
            lemma_uid_lines_snoc(uids.deep_view().take(k as int), uids.deep_view()[k as int]);
            assert(uids.deep_view().take(k as int).push(uids.deep_view()[k as int])
                =~= uids.deep_view().take(k as int + 1));
            assert(out@ =~= heading + spec_uid_lines(uids.deep_view().take(k as int + 1)));
        }
        k = k + 1;
    }
    proof {
        assert(uids.deep_view().take(uids.deep_view().len() as int) =~= uids.deep_view());
    }
    out
}

} // verus!

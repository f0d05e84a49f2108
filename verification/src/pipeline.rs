//! The view pipeline: category filter, search stage and viewport windowing.
//!
//! `get_filtered_logs` runs the three stages in order and is the one place
//! that reconciles the scroll offset with the length of what is shown.

use vstd::prelude::*;

use crate::fuzzy::{fuzzy_filter, fuzzy_matches};
use crate::model::{refresh_spec, Filter, Model, ModelV, JUMP_TOP_OFFSET};

verus! {

/// `needle` occurs in `hay` as a contiguous run of characters.
pub open spec fn contains_seq(hay: Seq<char>, needle: Seq<char>) -> bool {
    exists|i: int|
        0 <= i && i + needle.len() <= hay.len() && #[trigger] hay.subrange(i, i + needle.len())
            == needle
}

/// The keyword a category filter looks for; the empty keyword for `NONE`
/// and for the picker marker `SELECT`, which every line contains.
pub open spec fn keyword(f: Filter) -> Seq<char> {
    match f {
        Filter::INFO => "INFO"@,
        Filter::WARNING => "WARNING"@,
        Filter::ERROR => "ERROR"@,
        Filter::CRITICAL => "CRITICAL"@,
        Filter::DEBUG => "DEBUG"@,
        Filter::SELECT => ""@,
        Filter::NONE => ""@,
    }
}

/// The executable counterpart of [`keyword`].
pub fn keyword_str(f: Filter) -> (r: &'static str)
    ensures
        r@ == keyword(f),
{
    match f {
        Filter::INFO => "INFO",
        Filter::WARNING => "WARNING",
        Filter::ERROR => "ERROR",
        Filter::CRITICAL => "CRITICAL",
        Filter::DEBUG => "DEBUG",
        Filter::SELECT => "",
        Filter::NONE => "",
    }
}

/// Relies on `str::contains` with a `&str` pattern: true exactly when the
/// pattern occurs as a contiguous substring of the string.
#[verifier::external_body]
pub(crate) fn str_contains(hay: &str, needle: &str) -> (r: bool)
    ensures
        r == contains_seq(hay@, needle@),
{
    hay.contains(needle)
}

/// The filter stage: the lines that contain the filter's keyword, in order,
/// without deduplication.  `NONE` and `SELECT` keep every line.
pub open spec fn filter_spec(lines: Seq<Seq<char>>, f: Filter) -> Seq<Seq<char>> {
    lines.filter(|l: Seq<char>| contains_seq(l, keyword(f)))
}

/// Applies the filter stage.
pub fn filter_lines(lines: &Vec<String>, f: Filter) -> (r: Vec<String>)
    ensures
        r@.map_values(|l: String| l@) == filter_spec(lines@.map_values(|l: String| l@), f),
{
    broadcast use vstd::seq_lib::group_seq_properties;

    let kw = keyword_str(f);
    let mut out: Vec<String> = Vec::new();
    let ghost all: Seq<Seq<char>> = lines@.map_values(|l: String| l@);
    let mut i: usize = 0;
    while i < lines.len()
        invariant
            i <= lines.len(),
            kw@ == keyword(f),
            all == lines@.map_values(|l: String| l@),
            out@.map_values(|l: String| l@) == filter_spec(all.take(i as int), f),
        decreases lines.len() - i,
    {
        let ghost prev = out@.map_values(|l: String| l@);
        let line = &lines[i];
        assert(line@ == all[i as int]);
        let keep = str_contains(line.as_str(), kw);
        proof {
            assert(keep == contains_seq(all[i as int], keyword(f)));
            all.take(i as int).lemma_filter_push(
                all[i as int],
                |l: Seq<char>| contains_seq(l, keyword(f)),
            );
            assert(all.take(i + 1) =~= all.take(i as int).push(all[i as int]));
        }
        if keep {
            out.push(line.clone());
            assert(out@.map_values(|l: String| l@) =~= prev.push(all[i as int]));
        }
        i = i + 1;
    }
    proof {
        assert(all.take(lines.len() as int) =~= all);
    }
    out
}

/// The scroll offset actually used by windowing: clamped so that the window
/// never reaches past the start of the sequence.
pub open spec fn clamp_offset(off: nat, n: nat, h: nat) -> nat {
    let limit: nat = if n >= h { (n - h) as nat } else { 0 };
    if off > limit {
        limit
    } else {
        off
    }
}

/// Viewport windowing: the contiguous slice of at most `h` lines that ends
/// `off` lines before the newest line, with `off` clamped by
/// [`clamp_offset`] so the window is exactly `h` lines whenever the
/// sequence is long enough.
pub open spec fn window_spec(lines: Seq<Seq<char>>, off: nat, h: nat) -> Seq<Seq<char>> {
    let off2 = clamp_offset(off, lines.len(), h) as int;
    let end = lines.len() - off2;
    let start = if end - h >= 0 {
        end - h
    } else {
        0
    };
    lines.subrange(start, end)
}

/// Applies viewport windowing to concrete lines.
pub fn crop(lines: &Vec<String>, offset: usize, height: usize) -> (r: Vec<String>)
    ensures
        r@.map_values(|l: String| l@) == window_spec(
            lines@.map_values(|l: String| l@),
            offset as nat,
            height as nat,
        ),
{
    let n = lines.len();
    let limit = n.saturating_sub(height);
    let off = if offset > limit {
        limit
    } else {
        offset
    };
    let end = n - off;
    let start = if end >= height {
        end - height
    } else {
        0
    };
    let ghost all: Seq<Seq<char>> = lines@.map_values(|l: String| l@);
    let mut out: Vec<String> = Vec::new();
    let mut i: usize = start;
    while i < end
        invariant
            start <= i <= end,
            end <= lines.len(),
            all == lines@.map_values(|l: String| l@),
            out@.map_values(|l: String| l@) == all.subrange(start as int, i as int),
        decreases end - i,
    {
        let ghost prev = out@.map_values(|l: String| l@);
        out.push(lines[i].clone());
        proof {
            assert(out@.map_values(|l: String| l@) =~= prev.push(all[i as int]));
            assert(all.subrange(start as int, i + 1) =~= all.subrange(
                start as int,
                i as int,
            ).push(all[i as int]));
        }
        i = i + 1;
    }
    proof {
        assert(out@.map_values(|l: String| l@) =~= window_spec(
            all,
            offset as nat,
            height as nat,
        ));
    }
    out
}

/// The given lines in reverse order.
fn reverse_lines(v: Vec<String>) -> (r: Vec<String>)
    ensures
        r@ == v@.reverse(),
{
    let ghost v0 = v@;
    let mut v = v;
    let mut out: Vec<String> = Vec::new();
    proof {
        assert(v@ =~= v0.subrange(0, v@.len() as int));
    }
    while v.len() > 0
        invariant
            v@ == v0.subrange(0, v@.len() as int),
            out@.len() + v@.len() == v0.len(),
            forall|j: int| 0 <= j < out@.len() ==> out@[j] == v0[v0.len() - 1 - j],
        decreases v.len(),
    {
        let ghost m = v@.len() as int;
        let x = v.pop().unwrap();
        proof {
            assert(x == v0[m - 1]);
            assert(v@ =~= v0.subrange(0, m - 1));
        }
        out.push(x);
    }
    proof {
        assert(out@ =~= v0.reverse());
    }
    out
}

/// The search stage: with an empty query a no-op, else it replaces the lines
/// with the fuzzy matches of the query, reversed so that the best-scored
/// candidates end nearest the bottom of the view.
pub fn apply_search(model: &Model, logs: &mut Vec<String>) -> (matched: bool)
    ensures
        matched == (model@.search_input.len() > 0),
        matched ==> final(logs)@.map_values(|l: String| l@) == fuzzy_matches(
            model@.search_input,
            old(logs)@.map_values(|l: String| l@),
        ).reverse(),
        !matched ==> final(logs)@ == old(logs)@,
{
    if model.search_input.len() > 0 {
        let found = fuzzy_filter(&model.search_input, logs);
        let ghost found_views = found@.map_values(|l: String| l@);
        let rev = reverse_lines(found);
        proof {
            assert(rev@.map_values(|l: String| l@) =~= found_views.reverse());
        }
        *logs = rev;
        true
    } else {
        false
    }
}

/// What `get_filtered_logs` returns: the filtered lines, reduced to the
/// reversed fuzzy matches when a query is active, else cut to the viewport
/// window.
pub open spec fn display_spec(m: ModelV) -> Seq<Seq<char>> {
    let fl = filter_spec(m.logs, m.log_filter);
    if m.search_input.len() > 0 {
        fuzzy_matches(m.search_input, fl).reverse()
    } else {
        window_spec(fl, m.view_offset, m.view_height)
    }
}

/// The scroll offset after a display pass: reconciled against the length of
/// what the active stages produced.
pub open spec fn offset_after_view(m: ModelV) -> nat {
    let fl = filter_spec(m.logs, m.log_filter);
    let n = if m.search_input.len() > 0 {
        fuzzy_matches(m.search_input, fl).len()
    } else {
        fl.len()
    };
    clamp_offset(m.view_offset, n, m.view_height)
}

/// Runs the whole pipeline: filter, search, windowing.  Returns the lines to
/// draw, newest last, and re-clamps the model's scroll offset against the
/// length of the sequence the lines were cut from.
pub fn get_filtered_logs(model: &mut Model) -> (r: Vec<String>)
    requires
        old(model)@.wf(),
    ensures
        r@.map_values(|l: String| l@) == display_spec(old(model)@),
        final(model)@ == (ModelV { view_offset: offset_after_view(old(model)@), ..old(model)@ }),
        final(model)@.wf(),
{
    let mut logs = filter_lines(&model.logs, model.log_filter);
    let searched = apply_search(model, &mut logs);
    let limit = logs.len().saturating_sub(model.view_height);
    if model.view_offset > limit {
        model.view_offset = limit;
    }
    proof {
        let fl = filter_spec(old(model)@.logs, old(model)@.log_filter);
        let nlen: nat = if old(model)@.search_input.len() > 0 {
            fuzzy_matches(old(model)@.search_input, fl).len()
        } else {
            fl.len()
        };
        assert(logs@.map_values(|l: String| l@).len() == logs@.len());
        assert(logs@.len() == nlen);
        assert(model@.view_offset == clamp_offset(
            old(model)@.view_offset,
            nlen,
            old(model)@.view_height,
        ));
        assert(model@ =~= (ModelV { view_offset: offset_after_view(old(model)@), ..old(model)@ }));
    }
    if searched {
        logs
    } else {
        let cropped = crop(&logs, model.view_offset, model.view_height);
        proof {
            let fl = filter_spec(old(model)@.logs, old(model)@.log_filter);
            assert(window_spec(fl, model@.view_offset, model@.view_height) =~= window_spec(
                fl,
                old(model)@.view_offset,
                old(model)@.view_height,
            ));
        }
        cropped
    }
}

/// Shape of the viewport window: it always holds `min(height, len)` lines,
/// and when the offset needs no clamping its last line lies `offset` lines
/// before the newest line.
pub proof fn lemma_window_shape(lines: Seq<Seq<char>>, off: nat, h: nat)
    ensures
        window_spec(lines, off, h).len() == vstd::math::min(h as int, lines.len() as int),
        h > 0 && off + h <= lines.len() ==> window_spec(lines, off, h).last() == lines[lines.len()
            - 1 - off],
        h > 0 && off == 0 && lines.len() > 0 ==> window_spec(lines, off, h).last()
            == lines[lines.len() - 1],
{
}

/// Every line of a sequence whose lines all carry the keyword passes the
/// filter unchanged.
proof fn lemma_filter_all_kept(lines: Seq<Seq<char>>, f: Filter)
    requires
        forall|i: int| 0 <= i < lines.len() ==> contains_seq(#[trigger] lines[i], keyword(f)),
    ensures
        filter_spec(lines, f) == lines,
    decreases lines.len(),
{
    reveal(Seq::filter);
    if lines.len() > 0 {
        lemma_filter_all_kept(lines.drop_last(), f);
        assert(filter_spec(lines, f) =~= lines.drop_last().push(lines.last()));
        assert(lines.drop_last().push(lines.last()) =~= lines);
    }
}

/// The filter stage with `NONE` or `SELECT` is a pass-through: the output
/// equals the input, so applying it twice equals applying it once.
pub proof fn lemma_filter_pass_through(lines: Seq<Seq<char>>)
    ensures
        filter_spec(lines, Filter::NONE) == lines,
        filter_spec(lines, Filter::SELECT) == lines,
{
    reveal_strlit("");
    assert forall|l: Seq<char>| #[trigger] contains_seq(l, ""@) by {
        assert(l.subrange(0, 0 + ""@.len() as int) =~= ""@);
    }
    lemma_filter_all_kept(lines, Filter::NONE);
    lemma_filter_all_kept(lines, Filter::SELECT);
}

/// The filter stage is idempotent for every category: filtering what was
/// already filtered changes nothing.
pub proof fn lemma_filter_idempotent(lines: Seq<Seq<char>>, f: Filter)
    ensures
        filter_spec(filter_spec(lines, f), f) == filter_spec(lines, f),
{
    let fl = filter_spec(lines, f);
    assert forall|i: int| 0 <= i < fl.len() implies contains_seq(#[trigger] fl[i], keyword(f)) by {
        lines.lemma_filter_pred(|l: Seq<char>| contains_seq(l, keyword(f)), i);
    }
    lemma_filter_all_kept(fl, f);
}

/// Offset compensation: when lines were appended to the store while the
/// user had scrolled away from the newest line, a refresh grows the offset
/// by exactly the number of appended lines, and with no filter and no query
/// the very same window of historical lines stays on screen.
pub proof fn lemma_refresh_keeps_window(m: ModelV, new_logs: Seq<Seq<char>>)
    requires
        m.view_offset > 0,
        m.log_filter is NONE,
        m.search_input.len() == 0,
        m.logs.len() < new_logs.len(),
        new_logs.take(m.logs.len() as int) == m.logs,
        m.view_offset + m.view_height <= m.logs.len(),
        m.view_offset + (new_logs.len() - m.logs.len()) <= usize::MAX,
    ensures
        refresh_spec(m, new_logs).view_offset == m.view_offset + (new_logs.len() - m.logs.len()),
        display_spec(refresh_spec(m, new_logs)) == display_spec(m),
{
    let m2 = refresh_spec(m, new_logs);
    lemma_filter_pass_through(m.logs);
    lemma_filter_pass_through(new_logs);
    let ll = m.logs.len() as int;
    let k = m.view_offset as int;
    let h = m.view_height as int;
    assert(display_spec(m) == m.logs.subrange(ll - k - h, ll - k));
    assert(display_spec(m2) == new_logs.subrange(ll - k - h, ll - k));
    assert forall|j: int| ll - k - h <= j < ll - k implies new_logs[j] == m.logs[j] by {
        assert(new_logs.take(ll)[j] == new_logs[j]);
    }
    assert(new_logs.subrange(ll - k - h, ll - k) =~= m.logs.subrange(ll - k - h, ll - k));
}

/// The sentinel offset written by the completed two-key jump makes the
/// window show the oldest available lines: the first `height` of them, or
/// all of them when fewer.
pub proof fn lemma_jump_offset_shows_oldest(lines: Seq<Seq<char>>, h: nat)
    requires
        lines.len() <= JUMP_TOP_OFFSET as nat + h,
    ensures
        window_spec(lines, JUMP_TOP_OFFSET as nat, h) == if h <= lines.len() {
            lines.take(h as int)
        } else {
            lines
        },
{
    if h <= lines.len() {
        assert(window_spec(lines, JUMP_TOP_OFFSET as nat, h) =~= lines.take(h as int));
    } else {
        assert(window_spec(lines, JUMP_TOP_OFFSET as nat, h) =~= lines);
    }
}

} // verus!



//! The log tail extractor: the most recent lines of a log that a pattern
//! matches, and the text that its first capture group took from each.

use vstd::prelude::*;
use crate::pattern::{capture_first, captured_view, first_group, MetricPattern};

verus! {

/// The largest number of extracted metrics that one tick keeps.
pub const METRIC_CAP: usize = 10;

/// What one tick learned from the log.
#[derive(Debug)]
pub struct LogReport {
    /// The extracted texts, the most recent first.
    pub metrics: Vec<String>,
    /// Whether a log was configured and could not be opened.
    pub open_failed: bool,
}

/// The texts of a sequence of strings.
pub open spec fn texts(v: Seq<String>) -> Seq<Seq<char>> {
    Seq::new(v.len(), |i: int| v[i]@)
}

/// What a line contributes, given what the pattern found in it: nothing
/// where the pattern did not match; otherwise the text of the first capture
/// group, which is empty where the group took no part in the match.
pub open spec fn yielded(found: Option<Option<Seq<char>>>) -> Option<Seq<char>> {
    match found {
        None => None,
        Some(None) => Some(Seq::empty()),
        Some(Some(text)) => Some(text),
    }
}

/// What each of `lines` contributes under the pattern `source`.
pub open spec fn line_yields(source: Seq<char>, lines: Seq<Seq<char>>) -> Seq<Option<Seq<char>>> {
    Seq::new(lines.len(), |i: int| yielded(first_group(source, lines[i])))
}

/// The contributions of a scan from the last line towards the first that
/// stops after `cap` of them: the most recent first.
pub open spec fn recent(yields: Seq<Option<Seq<char>>>, cap: nat) -> Seq<Seq<char>>
    decreases yields.len(),
{
    if yields.len() == 0 || cap == 0 {
        Seq::empty()
    } else {
        match yields.last() {
            Some(text) => seq![text] + recent(yields.drop_last(), (cap - 1) as nat),
            None => recent(yields.drop_last(), cap),
        }
    }
}

/// All contributions, in the order of their lines.
pub open spec fn contributions(yields: Seq<Option<Seq<char>>>) -> Seq<Seq<char>>
    decreases yields.len(),
{
    if yields.len() == 0 {
        Seq::empty()
    } else {
        match yields.last() {
            Some(text) => contributions(yields.drop_last()).push(text),
            None => contributions(yields.drop_last()),
        }
    }
}

/// The first `n` of `texts`, or all of them where there are fewer.
pub open spec fn at_most(texts: Seq<Seq<char>>, n: nat) -> Seq<Seq<char>> {
    if texts.len() <= n {
        texts
    } else {
        texts.take(n as int)
    }
}

/// The views of per-line contributions held as strings.
pub open spec fn yields_view(v: Seq<Option<String>>) -> Seq<Option<Seq<char>>> {
    Seq::new(v.len(), |i: int| optional_text(v[i]))
}

/// A scan keeps the contributions of all lines in reverse order, cut off
/// after the cap: the latest first, no line's text twice, none left out
/// before the cap is reached.
pub proof fn recent_is_latest_first(yields: Seq<Option<Seq<char>>>, cap: nat)
    ensures
        recent(yields, cap) == at_most(contributions(yields).reverse(), cap),
        recent(yields, cap).len() <= cap,
    decreases yields.len(),
{
    let all = contributions(yields);
    if yields.len() == 0 || cap == 0 {
        assert(recent(yields, cap) =~= at_most(all.reverse(), cap));
    } else {
        let rest = yields.drop_last();
        match yields.last() {
            Some(text) => {
                recent_is_latest_first(rest, (cap - 1) as nat);
                let earlier = contributions(rest);
                assert(all.reverse() =~= seq![text] + earlier.reverse());
                assert(at_most(all.reverse(), cap) =~= seq![text] + at_most(
                    earlier.reverse(),
                    (cap - 1) as nat,
                ));
            },
            None => {
                recent_is_latest_first(rest, cap);
            },
        }
    }
}

/// The text of an optional string.
pub open spec fn optional_text(s: Option<String>) -> Option<Seq<char>> {
    match s {
        Some(text) => Some(text@),
        None => None,
    }
}

/// What a line contributes, given what the pattern found in it: nothing
/// where it did not match, the text of the first capture group where it did,
/// and the empty text where that group took no part in the match.
pub fn contribution_of(found: Option<Option<String>>) -> (r: Option<String>)
    ensures
        optional_text(r) == yielded(captured_view(found)),
{
    match found {
        None => None,
        Some(None) => {
            let text = String::new();
            assert(text@ =~= Seq::<char>::empty());
            Some(text)
        },
        Some(Some(text)) => Some(text),
    }
}

/// Keeps the most recent `cap` of the given contributions, the most recent
/// first.
pub fn select_recent(found: &Vec<Option<String>>, cap: usize) -> (out: Vec<String>)
    ensures
        texts(out@) == recent(yields_view(found@), cap as nat),
        texts(out@) == at_most(contributions(yields_view(found@)).reverse(), cap as nat),
        out@.len() <= cap,
{
    let ghost all = yields_view(found@);
    let mut out: Vec<String> = Vec::new();
    let mut i: usize = found.len();
    assert(all.take(i as int) =~= all);
    while i > 0 && out.len() < cap
        invariant
            i <= found.len(),
            out.len() <= cap,
            all == yields_view(found@),
            texts(out@) + recent(all.take(i as int), (cap - out.len()) as nat) == recent(all, cap as nat),
        decreases i,
    {
        let ghost before = texts(out@);
        let ghost scanned = all.take(i as int);
        assert(scanned.drop_last() =~= all.take(i - 1));
        assert(scanned.last() == all[i - 1]);
        i = i - 1;
        match &found[i] {
            Some(text) => {
                out.push(text.clone());
                assert(texts(out@) =~= before + seq![text@]);
                assert(before + (seq![text@] + recent(all.take(i as int), (cap - out.len()) as nat))
                    =~= texts(out@) + recent(all.take(i as int), (cap - out.len()) as nat));
            },
            None => {},
        }
    }
    assert(texts(out@) + Seq::<Seq<char>>::empty() =~= texts(out@));
    proof {
        recent_is_latest_first(all, cap as nat);
    }
    out
}

/// Scans `lines` from the last towards the first and keeps, for each line
/// that the pattern matches, the text of the first capture group, until ten
/// are kept or the lines are exhausted. The most recent match comes first;
/// lines without a match are passed over.
pub fn extract_metrics(lines: &Vec<String>, pattern: &MetricPattern) -> (out: Vec<String>)
    ensures
        texts(out@) == recent(line_yields(pattern@, texts(lines@)), METRIC_CAP as nat),
        texts(out@) == at_most(
            contributions(line_yields(pattern@, texts(lines@))).reverse(),
            METRIC_CAP as nat,
        ),
        out@.len() <= METRIC_CAP,
{
    let ghost all = line_yields(pattern@, texts(lines@));
    let cap: usize = METRIC_CAP;
    let mut out: Vec<String> = Vec::new();
    let mut i: usize = lines.len();
    assert(all.take(i as int) =~= all);
    while i > 0 && out.len() < cap
        invariant
            i <= lines.len(),
            out.len() <= cap,
            all == line_yields(pattern@, texts(lines@)),
            texts(out@) + recent(all.take(i as int), (cap - out.len()) as nat) == recent(all, cap as nat),
        decreases i,
    {
        let ghost before = texts(out@);
        let ghost scanned = all.take(i as int);
        assert(scanned.drop_last() =~= all.take(i - 1));
        assert(scanned.last() == all[i - 1]);
        i = i - 1;
        let found = capture_first(pattern, lines[i].as_str());
        assert(all[i as int] == yielded(captured_view(found)));
        match contribution_of(found) {
            Some(text) => {
                out.push(text);
                assert(texts(out@) =~= before + seq![text@]);
                assert(before + (seq![text@] + recent(all.take(i as int), (cap - out.len()) as nat))
                    =~= texts(out@) + recent(all.take(i as int), (cap - out.len()) as nat));
            },
            None => {},
        }
    }
    assert(texts(out@) + Seq::<Seq<char>>::empty() =~= texts(out@));
    proof {
        recent_is_latest_first(all, cap as nat);
    }
    out
}

} // verus!

//! The Progress Resolver: a pure mapping from a lyric line and an elapsed
//! time to the highlight state a window paints from.

use vstd::prelude::*;

use crate::lyrics::{
    lemma_prefix_duration_mono, prefix_duration, total_duration, LyricLine, LyricWord, LyricsData,
};

verus! {

/// An exact rational in the unit interval: `num / den` with `num <= den`.
#[derive(Clone, Copy, Debug, PartialEq, Eq, Structural)]
pub struct Fraction {
    pub num: u64,
    pub den: u64,
}

impl Fraction {
    pub open spec fn wf(self) -> bool {
        1 <= self.den && self.num <= self.den
    }

    pub open spec fn is_zero(self) -> bool {
        self.num == 0
    }

    pub open spec fn is_one(self) -> bool {
        self.num == self.den
    }
}

/// The fraction representing no progress.
pub open spec fn frac_zero() -> Fraction {
    Fraction { num: 0, den: 1 }
}

/// The fraction representing full progress.
pub open spec fn frac_one() -> Fraction {
    Fraction { num: 1, den: 1 }
}

/// The derived visual state of a line at one elapsed time: which word is
/// being sung, how far through that word, and how far through the line.
#[derive(Clone, Copy, Debug, PartialEq, Eq, Structural)]
pub struct HighlightState {
    /// Index of the word being sung, or `None` when no word is (plain line,
    /// line not started with no words, or line fully sung).
    pub active_word_index: Option<usize>,
    /// Progress through the active word; equal to `line_progress` when no
    /// word is active.
    pub word_progress: Fraction,
    /// Progress through the whole line.
    pub line_progress: Fraction,
}

/// Index of the first word at or after `i` whose cumulative duration exceeds
/// `t`; `ws.len()` when every word has been sung by time `t`.
pub open spec fn active_index_from(ws: Seq<LyricWord>, t: int, i: int) -> int
    decreases ws.len() - i,
{
    if i < 0 || i >= ws.len() {
        ws.len() as int
    } else if prefix_duration(ws, i + 1) > t {
        i
    } else {
        active_index_from(ws, t, i + 1)
    }
}

/// Index of the first word whose cumulative duration exceeds `t`, or
/// `ws.len()` when `t` is past the total duration.
pub open spec fn active_index(ws: Seq<LyricWord>, t: int) -> int {
    active_index_from(ws, t, 0)
}

/// Highlight state of a plain line: fully highlighted once started, with no
/// word-level progress defined.
pub open spec fn plain_highlight(t: int) -> HighlightState {
    HighlightState {
        active_word_index: None,
        word_progress: if t > 0 { frac_one() } else { frac_zero() },
        line_progress: if t > 0 { frac_one() } else { frac_zero() },
    }
}

/// The time-to-progress mapping shared by both line representations.
/// An empty word sequence behaves exactly like a plain line.
pub open spec fn highlight_spec(line: LyricLine, t: int) -> HighlightState {
    match line {
        LyricLine::PlainLine { .. } => plain_highlight(t),
        LyricLine::WordTimedLine { words, .. } => {
            if words@.len() == 0 {
                plain_highlight(t)
            } else if t >= total_duration(words@) {
                HighlightState {
                    active_word_index: None,
                    word_progress: frac_one(),
                    line_progress: frac_one(),
                }
            } else {
                let k = active_index(words@, t);
                HighlightState {
                    active_word_index: Some(k as usize),
                    word_progress: Fraction {
                        num: (t - prefix_duration(words@, k)) as u64,
                        den: words@[k].duration_ms,
                    },
                    line_progress: Fraction { num: t as u64, den: total_duration(words@) as u64 },
                }
            }
        },
    }
}

/// Bounds and the defining property of `active_index_from`: the result `k`
/// is the first index at or after `i` whose cumulative duration exceeds `t`,
/// so the sweep has passed every word before `k` and not yet finished word
/// `k` itself.
pub proof fn lemma_active_index_from_props(ws: Seq<LyricWord>, t: int, i: int)
    requires
        0 <= i <= ws.len(),
        prefix_duration(ws, i) <= t,
    ensures
        ({
            let k = active_index_from(ws, t, i);
            &&& i <= k <= ws.len()
            &&& prefix_duration(ws, k) <= t
            &&& k < ws.len() ==> t < prefix_duration(ws, k + 1)
            &&& k < ws.len() ==> ws[k].duration_ms > 0
        }),
    decreases ws.len() - i,
{
    if i < ws.len() && prefix_duration(ws, i + 1) <= t {
        lemma_active_index_from_props(ws, t, i + 1);
    }
}

/// Convenience form of the defining property at the start of the sweep.
pub proof fn lemma_active_index_props(ws: Seq<LyricWord>, t: int)
    requires
        0 <= t,
    ensures
        ({
            let k = active_index(ws, t);
            &&& 0 <= k <= ws.len()
            &&& prefix_duration(ws, k) <= t
            &&& k < ws.len() ==> t < prefix_duration(ws, k + 1)
            &&& k < ws.len() ==> ws[k].duration_ms > 0
            &&& (k == ws.len() <==> t >= total_duration(ws))
        }),
{
    lemma_active_index_from_props(ws, t, 0);
    let k = active_index(ws, t);
    if k < ws.len() {
        lemma_prefix_duration_mono(ws, k + 1, ws.len() as int);
    }
}

/// The active word index never regresses as elapsed time increases.
pub proof fn lemma_active_index_from_mono(ws: Seq<LyricWord>, t1: int, t2: int, i: int)
    requires
        t1 <= t2,
    ensures
        active_index_from(ws, t1, i) <= active_index_from(ws, t2, i),
    decreases ws.len() - i,
{
    if 0 <= i && i < ws.len() {
        if prefix_duration(ws, i + 1) > t2 {
            // both stop at i
        } else if prefix_duration(ws, i + 1) > t1 {
            lemma_active_index_from_lb(ws, t2, i + 1);
        } else {
            lemma_active_index_from_mono(ws, t1, t2, i + 1);
        }
    }
}

/// The sweep never points before where it started.
pub proof fn lemma_active_index_from_lb(ws: Seq<LyricWord>, t: int, i: int)
    requires
        0 <= i <= ws.len(),
    ensures
        i <= active_index_from(ws, t, i),
    decreases ws.len() - i,
{
    if i < ws.len() && prefix_duration(ws, i + 1) <= t {
        lemma_active_index_from_lb(ws, t, i + 1);
    }
}

/// The active word index of the resolved highlight state is monotonically
/// non-decreasing in elapsed time: for a fixed line it never regresses, and
/// once no word is active none ever becomes active again.
pub proof fn lemma_active_word_monotone(line: LyricLine, t1: int, t2: int)
    requires
        0 <= t1 <= t2,
    ensures
        ({
            let h1 = highlight_spec(line, t1);
            let h2 = highlight_spec(line, t2);
            &&& (h1.active_word_index is Some && h2.active_word_index is Some)
                ==> h1.active_word_index->Some_0 <= h2.active_word_index->Some_0
            &&& h1.active_word_index is None ==> h2.active_word_index is None
        }),
{
    match line {
        LyricLine::PlainLine { .. } => {},
        LyricLine::WordTimedLine { words, .. } => {
            if words@.len() > 0 {
                lemma_vec_len_bound(&words);
                lemma_active_index_from_mono(words@, t1, t2, 0);
                lemma_active_index_props(words@, t1);
                lemma_active_index_props(words@, t2);
            }
        },
    }
}

/// Any sequence viewed from a vector fits the machine's index range.
proof fn lemma_vec_len_bound(v: &Vec<LyricWord>)
    ensures
        v@.len() <= usize::MAX,
{
    assert(vstd::std_specs::vec::spec_vec_len(v) == v@.len());
}

/// Past the total duration of a non-empty word-timed line, the line is fully
/// sung: no word is active and line progress is one.
pub proof fn lemma_line_complete(line: LyricLine, t: int)
    requires
        line matches LyricLine::WordTimedLine { words, .. } && words@.len() > 0
            && t >= total_duration(words@),
    ensures
        highlight_spec(line, t).active_word_index is None,
        highlight_spec(line, t).line_progress.is_one(),
{
}

/// A word of zero duration is never the active word: it resolves to full
/// progress the instant it is reached and the sweep advances past it, so the
/// resolver never divides by its duration. The word that is active always
/// has a positive duration.
pub proof fn lemma_zero_duration_word_skipped(line: LyricLine, t: int, j: int)
    requires
        0 <= t,
        line matches LyricLine::WordTimedLine { words, .. } && 0 <= j < words@.len()
            && words@[j].duration_ms == 0,
    ensures
        highlight_spec(line, t).active_word_index != Some(j as usize),
        highlight_spec(line, t).active_word_index matches Some(k)
            ==> (line matches LyricLine::WordTimedLine { words, .. }
                && words@[k as int].duration_ms > 0),
{
    match line {
        LyricLine::WordTimedLine { words, .. } => {
            if words@.len() > 0 && t < total_duration(words@) {
                lemma_vec_len_bound(&words);
                lemma_active_index_props(words@, t);
                let k = active_index(words@, t);
                assert(k != j);
            }
        },
        LyricLine::PlainLine { .. } => {},
    }
}

/// Resolves a line and an elapsed time to the highlight state to paint.
/// Pure and deterministic: the result is exactly `highlight_spec`, and both
/// progress fractions are well formed.
pub fn resolve(data: &LyricsData, t: u64) -> (r: HighlightState)
    requires
        data.wf(),
    ensures
        r == highlight_spec(data.line, t as int),
        r.word_progress.wf(),
        r.line_progress.wf(),
{
    let full = HighlightState {
        active_word_index: None,
        word_progress: Fraction { num: 1, den: 1 },
        line_progress: Fraction { num: 1, den: 1 },
    };
    let untouched = HighlightState {
        active_word_index: None,
        word_progress: Fraction { num: 0, den: 1 },
        line_progress: Fraction { num: 0, den: 1 },
    };
    match &data.line {
        LyricLine::PlainLine { .. } => {
            if t > 0 {
                full
            } else {
                untouched
            }
        },
        LyricLine::WordTimedLine { words, .. } => {
            if words.len() == 0 {
                if t > 0 {
                    full
                } else {
                    untouched
                }
            } else {
                let total = data.get_full_duration();
                if t >= total {
                    proof {
                        lemma_prefix_duration_mono(words@, 0, words@.len() as int);
                    }
                    full
                } else {
                    let ghost ws = words@;
                    let mut cum: u64 = 0;
                    let mut i: usize = 0;
                    while i < words.len()
                        invariant
                            0 <= i <= words.len(),
                            cum == prefix_duration(ws, i as int),
                            cum <= t,
                            t < total,
                            total == total_duration(ws),
                            ws == words@,
                            data.line matches LyricLine::WordTimedLine { words: wv, .. }
                                && wv@ == ws,
                            total_duration(ws) <= u64::MAX,
                            active_index(ws, t as int) == active_index_from(ws, t as int, i as int),
                        decreases words.len() - i,
                    {
                        proof {
                            lemma_prefix_duration_mono(ws, i as int + 1, ws.len() as int);
                        }
                        let d = words[i].duration_ms;
                        if cum + d > t {
                            proof {
                                assert(prefix_duration(ws, i as int + 1) == cum + d);
                                assert(active_index_from(ws, t as int, i as int) == i as int);
                            }
                            return HighlightState {
                                active_word_index: Some(i),
                                word_progress: Fraction { num: t - cum, den: d },
                                line_progress: Fraction { num: t, den: total },
                            };
                        }
                        cum = cum + d;
                        i = i + 1;
                    }
                    // Unreachable: the whole sequence summed to `total`, yet
                    // the loop requires `cum <= t < total`.
                    proof {
                        assert(false);
                    }
                    full
                }
            }
        },
    }
}

} // verus!

//! The lyric-line data model: plain lines and word-timed (karaoke) lines.

use vstd::prelude::*;

verus! {

/// One word of a word-timed line, shown highlighted for `duration_ms`
/// milliseconds once it becomes active.
pub struct LyricWord {
    pub text: String,
    pub duration_ms: u64,
}

/// The two lyric representations that share one time-to-progress mapping:
/// a line without internal timing, and a line subdivided into timed words.
pub enum LyricLine {
    PlainLine { text: String },
    WordTimedLine { words: Vec<LyricWord>, line_index: u64 },
}

/// The lyric line currently being sung, together with the live playback
/// fields that are set externally and never derived.
pub struct LyricsData {
    pub line: LyricLine,
    /// While playing: the timestamp in milliseconds at which this line became
    /// current, so elapsed time is `now - start_time`. While paused: the
    /// frozen playback position itself, as the pause/scrub call set it.
    pub start_time: u64,
    pub paused: bool,
}

/// Sum of the durations of the first `i` words of `ws`.
pub open spec fn prefix_duration(ws: Seq<LyricWord>, i: int) -> int
    decreases i,
{
    if i <= 0 {
        0
    } else {
        prefix_duration(ws, i - 1) + ws[i - 1].duration_ms
    }
}

/// Total duration of a timed word sequence: the sum of all word durations.
pub open spec fn total_duration(ws: Seq<LyricWord>) -> int {
    prefix_duration(ws, ws.len() as int)
}

/// Prefix sums of word durations are non-negative and non-decreasing.
pub proof fn lemma_prefix_duration_mono(ws: Seq<LyricWord>, i: int, j: int)
    requires
        0 <= i <= j,
    ensures
        0 <= prefix_duration(ws, i) <= prefix_duration(ws, j),
    decreases j,
{
    if 0 < i {
        lemma_prefix_duration_mono(ws, i - 1, j - 1);
    }
    if i < j {
        lemma_prefix_duration_mono(ws, i, j - 1);
    }
}

impl LyricLine {
    /// A line is well formed when its total duration fits the machine word
    /// that playback times are measured in.
    pub open spec fn wf(self) -> bool {
        match self {
            LyricLine::PlainLine { .. } => true,
            LyricLine::WordTimedLine { words, .. } => total_duration(words@) <= u64::MAX,
        }
    }

    /// Derived total duration of the line: the sum of its word durations,
    /// and zero for a plain line.
    pub open spec fn spec_full_duration(self) -> int {
        match self {
            LyricLine::PlainLine { .. } => 0,
            LyricLine::WordTimedLine { words, .. } => total_duration(words@),
        }
    }

    /// The line's total duration: the sum of its word durations.
    pub fn full_duration(&self) -> (r: u64)
        requires
            self.wf(),
        ensures
            r == self.spec_full_duration(),
    {
        match self {
            LyricLine::PlainLine { .. } => 0,
            LyricLine::WordTimedLine { words, .. } => {
                let mut sum: u64 = 0;
                let mut i: usize = 0;
                while i < words.len()
                    invariant
                        i <= words.len(),
                        sum == prefix_duration(words@, i as int),
                        total_duration(words@) <= u64::MAX,
                    decreases words.len() - i,
                {
                    proof {
                        lemma_prefix_duration_mono(words@, i as int + 1, words@.len() as int);
                        lemma_prefix_duration_mono(words@, 0, i as int);
                    }
                    sum = sum + words[i].duration_ms;
                    i = i + 1;
                }
                sum
            },
        }
    }
}

/// Sums the durations of `words`, or returns `None` when the sum does not
/// fit in a `u64` (such a payload is rejected before it reaches a line).
pub fn checked_total_duration(words: &Vec<LyricWord>) -> (r: Option<u64>)
    ensures
        r matches Some(n) ==> n == total_duration(words@) && total_duration(words@) <= u64::MAX,
        r is None ==> total_duration(words@) > u64::MAX,
{
    let mut sum: u64 = 0;
    let mut i: usize = 0;
    while i < words.len()
        invariant
            i <= words.len(),
            sum == prefix_duration(words@, i as int),
        decreases words.len() - i,
    {
        match sum.checked_add(words[i].duration_ms) {
            Some(s) => {
                sum = s;
            },
            None => {
                proof {
                    lemma_prefix_duration_mono(words@, i as int + 1, words@.len() as int);
                }
                return None;
            },
        }
        i = i + 1;
    }
    Some(sum)
}

impl LyricsData {
    pub open spec fn wf(self) -> bool {
        self.line.wf()
    }

    pub open spec fn spec_full_duration(self) -> int {
        self.line.spec_full_duration()
    }

    /// A plain line with the given text, not yet started and unpaused.
    pub fn new_test(text: String) -> (r: LyricsData)
        ensures
            r == (LyricsData {
                line: LyricLine::PlainLine { text },
                start_time: 0,
                paused: false,
            }),
    {
        LyricsData { line: LyricLine::PlainLine { text }, start_time: 0, paused: false }
    }

    /// A word-timed line built from the given words, not yet started.
    pub fn from_lyrics(words: Vec<LyricWord>, line_index: u64) -> (r: LyricsData)
        requires
            total_duration(words@) <= u64::MAX,
        ensures
            r == (LyricsData {
                line: LyricLine::WordTimedLine { words, line_index },
                start_time: 0,
                paused: false,
            }),
    {
        LyricsData { line: LyricLine::WordTimedLine { words, line_index }, start_time: 0, paused: false }
    }

    /// A synthesized line that stretches `text` across `duration` milliseconds
    /// as a single timed word, so a secondary (translation) line stays
    /// aligned with a primary line of that total duration.
    pub fn from_text_duration(text: String, duration: u64) -> (r: LyricsData)
        ensures
            r.line matches LyricLine::WordTimedLine { words, line_index }
                && words@ =~= seq![LyricWord { text, duration_ms: duration }]
                && line_index == 0,
            r.start_time == 0,
            !r.paused,
            r.wf(),
            r.spec_full_duration() == duration,
    {
        let mut words: Vec<LyricWord> = Vec::new();
        words.push(LyricWord { text, duration_ms: duration });
        proof {
            assert(words@[0] == (LyricWord { text, duration_ms: duration }));
            assert(prefix_duration(words@, 0) == 0);
            assert(prefix_duration(words@, 1) == duration);
        }
        LyricsData { line: LyricLine::WordTimedLine { words, line_index: 0 }, start_time: 0, paused: false }
    }

    /// The line's total duration: the sum of its word durations.
    pub fn get_full_duration(&self) -> (r: u64)
        requires
            self.wf(),
        ensures
            r == self.spec_full_duration(),
    {
        self.line.full_duration()
    }

    /// Elapsed playback time at wall-clock `now`, clamped to zero against
    /// clock skew. While paused the result is frozen at the stored playback
    /// position, independent of the wall clock.
    pub fn elapsed_at(&self, now: u64) -> (t: u64)
        ensures
            t == elapsed_spec(*self, now),
    {
        if self.paused {
            self.start_time
        } else if now >= self.start_time {
            now - self.start_time
        } else {
            0
        }
    }
}

/// Elapsed time of a line at wall-clock `now`: frozen at the stored playback
/// position while paused, otherwise the time since the line became current,
/// clamped to zero.
pub open spec fn elapsed_spec(d: LyricsData, now: u64) -> int {
    if d.paused {
        d.start_time as int
    } else if now >= d.start_time {
        now - d.start_time
    } else {
        0
    }
}

} // verus!

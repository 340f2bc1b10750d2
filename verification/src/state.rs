//! Shared Playback State and its serialized update channel.
//!
//! All mutation of the shared state goes through a queue of [`Mutation`]
//! values applied in submission order on the thread that owns the rendering
//! surfaces; callers never block and never hold a mutable reference.

use vstd::prelude::*;

use crate::lyrics::{total_duration, LyricLine, LyricWord, LyricsData};

verus! {

broadcast use vstd::string::to_string_from_display_ensures_for_str;

/// Per-window font and style configuration, passed through to the painter.
pub struct FontConfig {
    pub font_family: String,
    /// Size in points.
    pub font_size: u64,
    /// Weight on the conventional numeric scale (400 regular, 700 bold).
    pub font_weight: u32,
    /// Packed RGBA color, `0xRRGGBBAA`.
    pub font_color: u32,
}

/// Configuration of one overlay window. Windows are created on request and
/// persist for the process lifetime; `with_words_lyrics` selects between the
/// word-by-word highlight sweep and the whole-line fade.
pub struct LyricWinData {
    pub font: FontConfig,
    pub font_secondary: FontConfig,
    pub with_words_lyrics: bool,
}

/// The single source of truth every overlay window renders from: the current
/// line, the secondary (translation) line, and one entry per window.
pub struct LyricAppData {
    pub current_lyric: LyricsData,
    pub current_lyric_ext: LyricsData,
    pub win_data: Vec<LyricWinData>,
}

/// Mathematical model of [`LyricAppData`]: the window registry as a sequence.
#[verifier::ext_equal]
pub struct AppModel {
    pub current_lyric: LyricsData,
    pub current_lyric_ext: LyricsData,
    pub win_data: Seq<LyricWinData>,
}

impl View for LyricAppData {
    type V = AppModel;

    open spec fn view(&self) -> AppModel {
        AppModel {
            current_lyric: self.current_lyric,
            current_lyric_ext: self.current_lyric_ext,
            win_data: self.win_data@,
        }
    }
}

impl AppModel {
    pub open spec fn wf(self) -> bool {
        self.current_lyric.wf() && self.current_lyric_ext.wf()
    }
}

/// One queued state transformation. Replacements are wholesale: a reader
/// never observes a half-updated line.
pub enum Mutation {
    /// Replace the current line, resetting its start time to "now" and
    /// unpausing; optionally also replace the secondary line with an
    /// already-synthesized one.
    SetCurrentLine { line: LyricLine, ext_line: Option<LyricLine> },
    /// Move the playback clock without replacing line content.
    Seek { time: u64, paused: bool },
    /// Append one window configuration to the registry.
    CreateWindow { win: LyricWinData },
}

impl Mutation {
    pub open spec fn wf(self) -> bool {
        match self {
            Mutation::SetCurrentLine { line, ext_line } => {
                line.wf() && (ext_line matches Some(e) ==> e.wf())
            },
            Mutation::Seek { .. } => true,
            Mutation::CreateWindow { .. } => true,
        }
    }

    /// The mutation that replaces the current line and leaves the secondary
    /// line untouched.
    pub fn set_current_line(line: LyricLine) -> (m: Mutation)
        ensures
            m == (Mutation::SetCurrentLine { line, ext_line: None::<LyricLine> }),
    {
        Mutation::SetCurrentLine { line, ext_line: None }
    }

    /// The mutation that replaces the current line and synthesizes the
    /// secondary line by stretching `secondary_text` across the primary
    /// line's full duration, so the two lines stay visually aligned.
    pub fn set_current_line_with_secondary(line: LyricLine, secondary_text: String) -> (m:
        Mutation)
        requires
            line.wf(),
        ensures
            m matches Mutation::SetCurrentLine { line: l, ext_line } && (l == line
                && (ext_line matches Some(e) && (e matches LyricLine::WordTimedLine {
                words,
                line_index,
            } && (words@ =~= seq![
                LyricWord {
                    text: secondary_text,
                    duration_ms: line.spec_full_duration() as u64,
                },
            ] && line_index == 0 && e.spec_full_duration() == line.spec_full_duration())))),
            m.wf(),
    {
        let full = line.full_duration();
        let ext = LyricsData::from_text_duration(secondary_text, full);
        Mutation::SetCurrentLine { line, ext_line: Some(ext.line) }
    }
}

/// One host-provided line payload after native-value unmarshalling: a plain
/// string, a structured word list, or anything else (malformed).
pub enum LinePayload {
    Text { text: String },
    Words { words: Vec<LyricWord>, line_index: u64 },
    Malformed,
}

impl LinePayload {
    pub open spec fn wf(self) -> bool {
        match self {
            LinePayload::Words { words, .. } => total_duration(words@) <= u64::MAX,
            _ => true,
        }
    }
}

/// Translates one host `update_lyrics` call into the mutation to enqueue:
/// a string becomes a plain line (any secondary text is ignored, since only
/// a word-timed line has a duration to stretch it across), a word list
/// becomes a word-timed line with a synthesized secondary line when
/// `line_ext` is given, and a malformed payload mutates nothing.
pub fn update_lyrics(line: LinePayload, line_ext: Option<String>) -> (r: Option<Mutation>)
    requires
        line.wf(),
    ensures
        line matches LinePayload::Text { text } ==> r == Some(
            Mutation::SetCurrentLine {
                line: LyricLine::PlainLine { text },
                ext_line: None::<LyricLine>,
            },
        ),
        line matches LinePayload::Words { words, line_index } ==> (match line_ext {
            Some(s) => {
                r matches Some(m) && (m matches Mutation::SetCurrentLine { line: l, ext_line }
                    && (l == (LyricLine::WordTimedLine { words, line_index })
                    && (ext_line matches Some(e) && (e matches LyricLine::WordTimedLine {
                    words: ew,
                    line_index: ei,
                } && (ew@ =~= seq![
                    LyricWord { text: s, duration_ms: total_duration(words@) as u64 },
                ] && ei == 0)))))
            },
            None => r == Some(
                Mutation::SetCurrentLine {
                    line: LyricLine::WordTimedLine { words, line_index },
                    ext_line: None::<LyricLine>,
                },
            ),
        }),
        line is Malformed ==> r is None,
        r matches Some(m) ==> m.wf(),
{
    match line {
        LinePayload::Text { text } => Some(Mutation::set_current_line(LyricLine::PlainLine { text })),
        LinePayload::Words { words, line_index } => {
            let l = LyricLine::WordTimedLine { words, line_index };
            match line_ext {
                Some(s) => Some(Mutation::set_current_line_with_secondary(l, s)),
                None => Some(Mutation::set_current_line(l)),
            }
        },
        LinePayload::Malformed => None,
    }
}

/// The state after one mutation, applied at wall-clock `now`.
pub open spec fn apply_spec(s: AppModel, m: Mutation, now: u64) -> AppModel {
    match m {
        Mutation::SetCurrentLine { line, ext_line } => AppModel {
            current_lyric: LyricsData { line, start_time: now, paused: false },
            current_lyric_ext: match ext_line {
                Some(e) => LyricsData { line: e, start_time: now, paused: false },
                None => s.current_lyric_ext,
            },
            win_data: s.win_data,
        },
        Mutation::Seek { time, paused } => AppModel {
            current_lyric: LyricsData { line: s.current_lyric.line, start_time: time, paused },
            current_lyric_ext: s.current_lyric_ext,
            win_data: s.win_data,
        },
        Mutation::CreateWindow { win } => AppModel {
            current_lyric: s.current_lyric,
            current_lyric_ext: s.current_lyric_ext,
            win_data: s.win_data.push(win),
        },
    }
}

/// The state after a whole queue of mutations, applied first to last.
pub open spec fn apply_seq(s: AppModel, ms: Seq<Mutation>, now: u64) -> AppModel
    decreases ms.len(),
{
    if ms.len() == 0 {
        s
    } else {
        apply_seq(apply_spec(s, ms[0], now), ms.subrange(1, ms.len() as int), now)
    }
}

/// Serialized mutations compose: applying two batches back to back is the
/// sequential application of their concatenation, so interleaving complete
/// batches from several callers loses no update and reorders none within a
/// batch.
pub proof fn lemma_apply_seq_concat(s: AppModel, ms1: Seq<Mutation>, ms2: Seq<Mutation>, now: u64)
    ensures
        apply_seq(s, ms1 + ms2, now) == apply_seq(apply_seq(s, ms1, now), ms2, now),
    decreases ms1.len(),
{
    if ms1.len() == 0 {
        assert(ms1 + ms2 =~= ms2);
    } else {
        assert((ms1 + ms2)[0] == ms1[0]);
        assert((ms1 + ms2).subrange(1, (ms1 + ms2).len() as int) =~= ms1.subrange(
            1,
            ms1.len() as int,
        ) + ms2);
        lemma_apply_seq_concat(apply_spec(s, ms1[0], now), ms1.subrange(1, ms1.len() as int), ms2, now);
    }
}

/// Applying one more queued mutation extends the sequential application.
pub proof fn lemma_apply_seq_snoc(s: AppModel, ms: Seq<Mutation>, m: Mutation, now: u64)
    ensures
        apply_seq(s, ms.push(m), now) == apply_spec(apply_seq(s, ms, now), m, now),
{
    assert(ms.push(m) =~= ms + seq![m]);
    lemma_apply_seq_concat(s, ms, seq![m], now);
    let inner = apply_seq(s, ms, now);
    assert(seq![m].subrange(1, 1) =~= Seq::<Mutation>::empty());
    assert(apply_seq(apply_spec(inner, m, now), seq![m].subrange(1, 1), now) == apply_spec(
        inner,
        m,
        now,
    ));
}

/// Replacing the current line and immediately seeking to time `t0`, unpaused,
/// resets the line: sampled at wall-clock `t0` the elapsed time is zero and
/// line progress is zero. (The one line shape this cannot hold of is a
/// non-empty word-timed line whose words all have zero duration, which is
/// fully sung at every time.)
pub proof fn lemma_set_then_seek_resets(
    s: AppModel,
    line: LyricLine,
    ext_line: Option<LyricLine>,
    now: u64,
    t0: u64,
)
    requires
        !(line matches LyricLine::WordTimedLine { words, .. } && (words@.len() > 0
            && total_duration(words@) == 0)),
    ensures
        ({
            let s2 = apply_spec(
                apply_spec(s, Mutation::SetCurrentLine { line, ext_line }, now),
                Mutation::Seek { time: t0, paused: false },
                now,
            );
            &&& s2.current_lyric.line == line
            &&& s2.current_lyric.start_time == t0
            &&& !s2.current_lyric.paused
            &&& crate::lyrics::elapsed_spec(s2.current_lyric, t0) == 0
            &&& crate::progress::highlight_spec(line, 0).line_progress.is_zero()
        }),
{
    match line {
        LyricLine::PlainLine { .. } => {},
        LyricLine::WordTimedLine { words, .. } => {
            if words@.len() > 0 {
                crate::lyrics::lemma_prefix_duration_mono(words@, 0, words@.len() as int);
            }
        },
    }
}

/// A paused seek freezes the highlight: after `Seek { time, paused: true }`
/// the elapsed time is `time` at every wall-clock sampling, so every
/// derivation of the highlight state until the next mutation yields the
/// identical value, independent of the wall clock.
pub proof fn lemma_paused_seek_freezes(s: AppModel, time: u64, now: u64, now1: u64, now2: u64)
    ensures
        ({
            let s2 = apply_spec(s, Mutation::Seek { time, paused: true }, now);
            &&& crate::lyrics::elapsed_spec(s2.current_lyric, now1) == time
            &&& crate::lyrics::elapsed_spec(s2.current_lyric, now1)
                == crate::lyrics::elapsed_spec(s2.current_lyric, now2)
            &&& crate::progress::highlight_spec(
                s2.current_lyric.line,
                crate::lyrics::elapsed_spec(s2.current_lyric, now1),
            ) == crate::progress::highlight_spec(
                s2.current_lyric.line,
                crate::lyrics::elapsed_spec(s2.current_lyric, now2),
            )
        }),
{
}

/// Every mutation preserves well-formedness of the shared state.
pub proof fn lemma_apply_spec_wf(s: AppModel, m: Mutation, now: u64)
    requires
        s.wf(),
        m.wf(),
    ensures
        apply_spec(s, m, now).wf(),
{
}

/// Applies one mutation to the shared state, with exclusive access.
pub fn apply_mutation(data: &mut LyricAppData, m: Mutation, now: u64)
    requires
        old(data)@.wf(),
        m.wf(),
    ensures
        final(data)@ == apply_spec(old(data)@, m, now),
        final(data)@.wf(),
{
    match m {
        Mutation::SetCurrentLine { line, ext_line } => {
            data.current_lyric = LyricsData { line, start_time: now, paused: false };
            match ext_line {
                Some(e) => {
                    data.current_lyric_ext = LyricsData { line: e, start_time: now, paused: false };
                },
                None => {},
            }
        },
        Mutation::Seek { time, paused } => {
            data.current_lyric.start_time = time;
            data.current_lyric.paused = paused;
        },
        Mutation::CreateWindow { win } => {
            data.win_data.push(win);
        },
    }
    proof {
        assert(data@ =~= apply_spec(old(data)@, m, now));
    }
}

/// Holds of the window configuration the first activation installs and every
/// later activation appends: the built-in fonts, whole-line fade rendering.
pub open spec fn is_default_win(w: LyricWinData) -> bool {
    &&& w.font.font_family@ == "Noto Sans SC"@
    &&& w.font.font_size == 18
    &&& w.font.font_weight == 700
    &&& w.font.font_color == 0xFFFFFFFFu32
    &&& w.font_secondary.font_family@ == "Noto Sans SC"@
    &&& w.font_secondary.font_size == 16
    &&& w.font_secondary.font_weight == 400
    &&& w.font_secondary.font_color == 0xFFFFFFFFu32
    &&& !w.with_words_lyrics
}

/// The window configuration used when the host asks for a window without
/// supplying one.
pub fn default_win_data() -> (w: LyricWinData)
    ensures
        is_default_win(w),
{
    LyricWinData {
        font: FontConfig {
            font_family: "Noto Sans SC".to_string(),
            font_size: 18,
            font_weight: 700,
            font_color: 0xFFFFFFFFu32,
        },
        font_secondary: FontConfig {
            font_family: "Noto Sans SC".to_string(),
            font_size: 16,
            font_weight: 400,
            font_color: 0xFFFFFFFFu32,
        },
        with_words_lyrics: false,
    }
}

/// The update channel and the state it guards. The host side only ever
/// enqueues; the rendering side owns the state and drains the queue in
/// submission order.
pub struct Dispatcher {
    /// `None` until the first overlay activation lazily creates the state.
    pub state: Option<LyricAppData>,
    /// Mutations submitted and not yet applied, oldest first.
    pub queue: Vec<Mutation>,
}

impl Dispatcher {
    pub open spec fn wf(self) -> bool {
        &&& self.state is None ==> self.queue@.len() == 0
        &&& self.state matches Some(s) ==> s@.wf()
        &&& forall|i: int| 0 <= i < self.queue@.len() ==> (#[trigger] self.queue@[i]).wf()
    }

    /// A dispatcher with no state and nothing queued: mutations submitted
    /// now are dropped until the first activation.
    pub fn new() -> (r: Dispatcher)
        ensures
            r.state is None,
            r.queue@ == Seq::<Mutation>::empty(),
            r.wf(),
    {
        Dispatcher { state: None, queue: Vec::new() }
    }

    /// Fire-and-forget submission: enqueued in submission order once the
    /// state exists, dropped silently before the first activation.
    pub fn submit(&mut self, m: Mutation)
        requires
            old(self).wf(),
            m.wf(),
        ensures
            final(self).wf(),
            old(self).state is None ==> *final(self) == *old(self),
            old(self).state is Some ==> final(self).state == old(self).state
                && final(self).queue@ == old(self).queue@.push(m),
    {
        if self.state.is_some() {
            self.queue.push(m);
        }
    }

    /// Host call: the first activation creates the shared state with one
    /// default window; every later activation enqueues the creation of one
    /// more default window.
    pub fn init_lyrics_app(&mut self)
        requires
            old(self).wf(),
        ensures
            final(self).wf(),
            old(self).state is None ==> (final(self).state matches Some(s) && (s@.win_data.len()
                == 1 && is_default_win(s@.win_data[0]) && (s.current_lyric.line
                matches LyricLine::PlainLine { text } && (text@.len() == 0
                && s.current_lyric.start_time == 0 && !s.current_lyric.paused
                && (s.current_lyric_ext.line matches LyricLine::PlainLine { text: text2 }
                && (text2@.len() == 0 && s.current_lyric_ext.start_time == 0
                && !s.current_lyric_ext.paused && final(self).queue@.len() == 0)))))),
            old(self).state is Some ==> (final(self).state == old(self).state
                && final(self).queue@.len() == old(self).queue@.len() + 1
                && final(self).queue@.drop_last() == old(self).queue@
                && (final(self).queue@.last() matches Mutation::CreateWindow { win }
                && is_default_win(win))),
    {
        if self.state.is_none() {
            let mut win_data: Vec<LyricWinData> = Vec::new();
            win_data.push(default_win_data());
            self.state = Some(
                LyricAppData {
                    current_lyric: LyricsData::new_test(String::new()),
                    current_lyric_ext: LyricsData::new_test(String::new()),
                    win_data,
                },
            );
        } else {
            self.submit(Mutation::CreateWindow { win: default_win_data() });
        }
    }

    /// Host call: enqueue the creation of one more window with the given
    /// configuration; its index is where the registry ends once the queue
    /// runs.
    pub fn create_window(
        &mut self,
        font: FontConfig,
        font_secondary: FontConfig,
        with_words_lyrics: bool,
    )
        requires
            old(self).wf(),
        ensures
            final(self).wf(),
            old(self).state is None ==> *final(self) == *old(self),
            old(self).state is Some ==> final(self).state == old(self).state
                && final(self).queue@ == old(self).queue@.push(
                Mutation::CreateWindow {
                    win: LyricWinData { font, font_secondary, with_words_lyrics },
                },
            ),
    {
        self.submit(
            Mutation::CreateWindow {
                win: LyricWinData { font, font_secondary, with_words_lyrics },
            },
        );
    }

    /// Host call: move the playback clock and the paused flag only.
    pub fn seek(&mut self, time: u64, paused: bool)
        requires
            old(self).wf(),
        ensures
            final(self).wf(),
            old(self).state is None ==> *final(self) == *old(self),
            old(self).state is Some ==> final(self).state == old(self).state
                && final(self).queue@ == old(self).queue@.push(Mutation::Seek { time, paused }),
    {
        self.submit(Mutation::Seek { time, paused });
    }

    /// Drains the queue on the rendering thread: every pending mutation is
    /// applied exactly once, in submission order, and none is left behind.
    pub fn run_pending(&mut self, now: u64)
        requires
            old(self).wf(),
        ensures
            final(self).wf(),
            final(self).queue@.len() == 0,
            old(self).state is None ==> final(self).state is None,
            old(self).state matches Some(s) ==> final(self).state matches Some(s2) && s2@
                == apply_seq(s@, old(self).queue@, now),
    {
        let mut q: Vec<Mutation> = Vec::new();
        core::mem::swap(&mut q, &mut self.queue);
        match &mut self.state {
            None => {},
            Some(st) => {
                let ghost q0 = q@;
                let ghost s0 = st@;
                while q.len() > 0
                    invariant
                        st@.wf(),
                        q0.len() >= q@.len(),
                        q@ == q0.subrange(q0.len() - q@.len(), q0.len() as int),
                        st@ == apply_seq(s0, q0.subrange(0, q0.len() - q@.len()), now),
                        forall|i: int| 0 <= i < q0.len() ==> (#[trigger] q0[i]).wf(),
                    decreases q.len(),
                {
                    let ghost done = q0.len() - q@.len();
                    let m = q.remove(0);
                    proof {
                        assert(m == q0[done]);
                        assert(q0.subrange(0, done + 1) =~= q0.subrange(0, done).push(m));
                        lemma_apply_seq_snoc(s0, q0.subrange(0, done), m, now);
                        assert(q@ =~= q0.subrange(q0.len() - q@.len(), q0.len() as int));
                    }
                    apply_mutation(st, m, now);
                }
                proof {
                    assert(q0.subrange(0, q0.len() as int) =~= q0);
                }
            },
        }
    }
}

} // verus!

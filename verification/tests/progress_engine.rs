use rulyrics::lyrics::{LyricWord, LyricsData};
use rulyrics::progress::{resolve, Fraction, HighlightState};

fn word(text: &str, duration_ms: u64) -> LyricWord {
    LyricWord { text: text.to_string(), duration_ms }
}

fn hello_world() -> LyricsData {
    LyricsData::from_lyrics(vec![word("Hello", 500), word("world", 500)], 0)
}

fn ratio(f: Fraction) -> f64 {
    f.num as f64 / f.den as f64
}

#[test]
fn hello_world_at_250() {
    let h = resolve(&hello_world(), 250);
    assert_eq!(h.active_word_index, Some(0));
    assert_eq!(ratio(h.word_progress), 0.5);
    assert_eq!(ratio(h.line_progress), 0.25);
}

#[test]
fn hello_world_at_750() {
    let h = resolve(&hello_world(), 750);
    assert_eq!(h.active_word_index, Some(1));
    assert_eq!(ratio(h.word_progress), 0.5);
    assert_eq!(ratio(h.line_progress), 0.75);
}

#[test]
fn hello_world_at_1000() {
    let h = resolve(&hello_world(), 1000);
    assert_eq!(h.active_word_index, None);
    assert_eq!(ratio(h.line_progress), 1.0);
    assert_eq!(ratio(h.word_progress), 1.0);
}

#[test]
fn past_total_duration_is_complete() {
    let h = resolve(&hello_world(), 98_765);
    assert_eq!(h.active_word_index, None);
    assert_eq!(ratio(h.line_progress), 1.0);
}

#[test]
fn active_word_never_regresses() {
    let data = hello_world();
    let mut last: Option<usize> = Some(0);
    let mut seen_none = false;
    for t in 0..1100u64 {
        let h = resolve(&data, t);
        match (last, h.active_word_index) {
            (Some(a), Some(b)) => assert!(a <= b),
            (None, Some(_)) => panic!("a word became active after the line was done"),
            _ => {}
        }
        if h.active_word_index.is_none() {
            seen_none = true;
        }
        last = h.active_word_index;
    }
    assert!(seen_none);
}

#[test]
fn zero_duration_word_is_skipped() {
    let data = LyricsData::from_lyrics(vec![word("flash", 0), word("rest", 100)], 3);
    let h0 = resolve(&data, 0);
    assert_eq!(h0.active_word_index, Some(1));
    assert_eq!(ratio(h0.word_progress), 0.0);
    let h50 = resolve(&data, 50);
    assert_eq!(h50.active_word_index, Some(1));
    assert_eq!(ratio(h50.word_progress), 0.5);
}

#[test]
fn all_zero_duration_words_complete_immediately() {
    let data = LyricsData::from_lyrics(vec![word("a", 0), word("b", 0)], 0);
    let h = resolve(&data, 0);
    assert_eq!(h.active_word_index, None);
    assert_eq!(ratio(h.line_progress), 1.0);
}

#[test]
fn empty_word_sequence_behaves_like_plain_line() {
    let data = LyricsData::from_lyrics(vec![], 0);
    let h0 = resolve(&data, 0);
    assert_eq!(h0.active_word_index, None);
    assert_eq!(ratio(h0.line_progress), 0.0);
    let h1 = resolve(&data, 1);
    assert_eq!(h1.active_word_index, None);
    assert_eq!(ratio(h1.line_progress), 1.0);
}

#[test]
fn plain_line_progress() {
    let data = LyricsData::new_test("just text".to_string());
    let h0 = resolve(&data, 0);
    assert_eq!(h0.active_word_index, None);
    assert_eq!(ratio(h0.line_progress), 0.0);
    for t in [1u64, 10, 1_000_000] {
        let h = resolve(&data, t);
        assert_eq!(h.active_word_index, None);
        assert_eq!(ratio(h.line_progress), 1.0);
    }
}

#[test]
fn resolver_is_deterministic() {
    let a = resolve(&hello_world(), 314);
    let b = resolve(&hello_world(), 314);
    assert_eq!(a, b);
    assert_eq!(
        a,
        HighlightState {
            active_word_index: Some(0),
            word_progress: Fraction { num: 314, den: 500 },
            line_progress: Fraction { num: 314, den: 1000 },
        }
    );
}

#[test]
fn full_duration_sums_words() {
    assert_eq!(hello_world().get_full_duration(), 1000);
    assert_eq!(LyricsData::new_test("x".to_string()).get_full_duration(), 0);
    assert_eq!(LyricsData::from_lyrics(vec![], 0).get_full_duration(), 0);
}

#[test]
fn checked_total_duration_rejects_overflow() {
    let ok = rulyrics::lyrics::checked_total_duration(&vec![word("a", 30), word("b", 12)]);
    assert_eq!(ok, Some(42));
    let over = rulyrics::lyrics::checked_total_duration(&vec![word("a", u64::MAX), word("b", 1)]);
    assert_eq!(over, None);
}

#[test]
fn synthesized_line_stretches_text() {
    let ext = LyricsData::from_text_duration("translation".to_string(), 1234);
    assert_eq!(ext.get_full_duration(), 1234);
    let mid = resolve(&ext, 617);
    assert_eq!(mid.active_word_index, Some(0));
    assert_eq!(ratio(mid.word_progress), 0.5);
}

#[test]
fn elapsed_time_clamps_clock_skew() {
    let mut data = LyricsData::new_test(String::new());
    data.start_time = 100;
    assert_eq!(data.elapsed_at(50), 0);
    assert_eq!(data.elapsed_at(100), 0);
    assert_eq!(data.elapsed_at(160), 60);
}

#[test]
fn elapsed_time_is_frozen_while_paused() {
    let mut data = LyricsData::new_test(String::new());
    data.start_time = 100;
    data.paused = true;
    assert_eq!(data.elapsed_at(0), 100);
    assert_eq!(data.elapsed_at(100), 100);
    assert_eq!(data.elapsed_at(987_654), 100);
}

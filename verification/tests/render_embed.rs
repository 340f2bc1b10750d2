use rulyrics::embed::{embed_class_name, resolve_embed_handle, EmbedTarget};
use rulyrics::lyrics::LyricsData;
use rulyrics::progress::resolve;
use rulyrics::render::{needs_repaint, needs_ticks, step_window, WindowEvent, WindowPhase};

#[test]
fn window_attaches_once_then_renders() {
    let (p, paint) = step_window(WindowPhase::Uninitialized, WindowEvent::Tick, true);
    assert_eq!(p, WindowPhase::Uninitialized);
    assert!(!paint);

    let (p, paint) = step_window(p, WindowEvent::SurfaceReady { surface: 7 }, false);
    assert_eq!(p, WindowPhase::Attached { surface: 7 });
    assert!(paint);

    let (p, paint) = step_window(p, WindowEvent::SurfaceReady { surface: 9 }, false);
    assert_eq!(p, WindowPhase::Attached { surface: 7 });
    assert!(!paint);

    let (p, paint) = step_window(p, WindowEvent::StateChanged, false);
    assert_eq!(p, WindowPhase::Rendering { surface: 7 });
    assert!(paint);
}

#[test]
fn ticks_animate_until_settled() {
    let rendering = WindowPhase::Rendering { surface: 1 };
    let (p, paint) = step_window(rendering, WindowEvent::Tick, true);
    assert_eq!(p, WindowPhase::Rendering { surface: 1 });
    assert!(paint);

    let (p, paint) = step_window(p, WindowEvent::Tick, false);
    assert_eq!(p, WindowPhase::Idle { surface: 1 });
    assert!(!paint);

    let (p, paint) = step_window(p, WindowEvent::Tick, true);
    assert_eq!(p, WindowPhase::Idle { surface: 1 });
    assert!(!paint);

    let (p, paint) = step_window(p, WindowEvent::StateChanged, false);
    assert_eq!(p, WindowPhase::Rendering { surface: 1 });
    assert!(paint);
}

#[test]
fn repaint_only_on_visual_change() {
    let words = vec![
        rulyrics::lyrics::LyricWord { text: "Hello".to_string(), duration_ms: 500 },
        rulyrics::lyrics::LyricWord { text: "world".to_string(), duration_ms: 500 },
    ];
    let data = LyricsData::from_lyrics(words, 0);
    let a = resolve(&data, 100);
    let b = resolve(&data, 100);
    let c = resolve(&data, 101);
    assert!(!needs_repaint(&a, &b));
    assert!(needs_repaint(&a, &c));
}

#[test]
fn ticks_stop_at_full_progress_or_pause() {
    let data = LyricsData::from_lyrics(
        vec![rulyrics::lyrics::LyricWord { text: "x".to_string(), duration_ms: 100 }],
        0,
    );
    let mid = resolve(&data, 50);
    assert!(needs_ticks(&mid, false));
    assert!(!needs_ticks(&mid, true));
    let done = resolve(&data, 100);
    assert!(!needs_ticks(&done, false));
}

#[test]
fn embed_targets_resolve_to_class_names() {
    assert_eq!(embed_class_name(&EmbedTarget::Taskbar), Some("Shell_TrayWnd"));
    assert_eq!(embed_class_name(&EmbedTarget::Desktop), None);
    let any = EmbedTarget::AnyClass { class_name: "Progman".to_string() };
    assert_eq!(embed_class_name(&any), Some("Progman"));
}

#[test]
fn null_handle_skips_embedding() {
    assert_eq!(resolve_embed_handle(0), None);
    assert_eq!(resolve_embed_handle(0xDEAD), Some(0xDEAD));
}

//! Tests of the render-signal batch processing.

use combustion::render::{process_signals, RenderSignal};

#[test]
fn empty_batch_asks_for_nothing() {
    let outcome = process_signals(&Vec::new());
    assert!(!outcome.stop);
    assert_eq!(outcome.viewport, None);
    assert!(outcome.textures.is_empty());
}

#[test]
fn last_resize_wins() {
    let batch = vec![
        RenderSignal::Resize(100, 200),
        RenderSignal::Refresh,
        RenderSignal::Resize(640, 480),
    ];
    let outcome = process_signals(&batch);
    assert!(!outcome.stop);
    assert_eq!(outcome.viewport, Some((640, 480)));
    assert!(outcome.textures.is_empty());
}

#[test]
fn stop_ends_the_batch_and_discards_the_rest() {
    let batch = vec![
        RenderSignal::ChangeTexture(String::from("bricks")),
        RenderSignal::ChangeTexture(String::from("grass")),
        RenderSignal::Stop,
        RenderSignal::ChangeTexture(String::from("ignored")),
        RenderSignal::Resize(1, 1),
    ];
    let outcome = process_signals(&batch);
    assert!(outcome.stop);
    assert_eq!(outcome.viewport, None);
    assert_eq!(outcome.textures, vec![String::from("bricks"), String::from("grass")]);
}

#[test]
fn resize_before_stop_is_not_applied() {
    let batch = vec![RenderSignal::Resize(800, 600), RenderSignal::Stop];
    let outcome = process_signals(&batch);
    assert!(outcome.stop);
    assert_eq!(outcome.viewport, None);
}

#[test]
fn textures_keep_arrival_order() {
    let batch = vec![
        RenderSignal::ChangeTexture(String::from("a")),
        RenderSignal::Resize(2, 2),
        RenderSignal::ChangeTexture(String::from("b")),
    ];
    let outcome = process_signals(&batch);
    assert!(!outcome.stop);
    assert_eq!(outcome.viewport, Some((2, 2)));
    assert_eq!(outcome.textures, vec![String::from("a"), String::from("b")]);
}

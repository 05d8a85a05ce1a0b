use paster::keystroke::{synthesize_unit, KeyEvent, Playback};

#[test]
fn line_feed_becomes_enter_press_and_release() {
    let events = synthesize_unit(10);
    assert_eq!(events, vec![KeyEvent::EnterDown, KeyEvent::EnterUp]);
}

#[test]
fn ordinary_unit_becomes_unicode_pair() {
    let events = synthesize_unit(97);
    assert_eq!(events, vec![KeyEvent::UnicodeDown(97), KeyEvent::UnicodeUp(97)]);
}

#[test]
fn carriage_return_unit_is_not_special() {
    // The decoder removes carriage returns before synthesis; if one were
    // handed over anyway it would be an ordinary Unicode pair, not Enter.
    let events = synthesize_unit(13);
    assert_eq!(events, vec![KeyEvent::UnicodeDown(13), KeyEvent::UnicodeUp(13)]);
}

#[test]
fn playback_emits_all_units_in_order() {
    let mut p = Playback::new(vec![97, 10, 98]);
    let mut emitted: Vec<KeyEvent> = Vec::new();
    while !p.done() {
        emitted.extend(p.next_unit());
    }
    assert_eq!(
        emitted,
        vec![
            KeyEvent::UnicodeDown(97),
            KeyEvent::UnicodeUp(97),
            KeyEvent::EnterDown,
            KeyEvent::EnterUp,
            KeyEvent::UnicodeDown(98),
            KeyEvent::UnicodeUp(98),
        ]
    );
}

#[test]
fn cancelled_playback_emits_strict_prefix() {
    let units = vec![104, 105, 33];
    let mut full = Playback::new(units.clone());
    let mut all: Vec<KeyEvent> = Vec::new();
    while !full.done() {
        all.extend(full.next_unit());
    }

    // Cancel after two units: what was emitted is a strict prefix of the
    // full playback's events.
    let mut partial = Playback::new(units);
    let mut some: Vec<KeyEvent> = Vec::new();
    some.extend(partial.next_unit());
    some.extend(partial.next_unit());
    assert!(some.len() < all.len());
    assert_eq!(&all[..some.len()], &some[..]);
}

#[test]
fn empty_playback_is_done_at_once() {
    let p = Playback::new(Vec::new());
    assert!(p.done());
}

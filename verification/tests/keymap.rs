use rmk::action::KeyAction;
use rmk::event::KeyState;
use rmk::keymap::KeyMap;

fn press() -> KeyState {
    KeyState { pressed: true }
}

fn release() -> KeyState {
    KeyState { pressed: false }
}

#[test]
fn new_starts_all_active_with_cache_at_layer_zero() {
    let mut km = KeyMap::<1, 1, 2>::new([[[KeyAction::Single(4)]], [[KeyAction::Single(9)]]]);
    // A press right after construction reads the cache, which holds layer 0.
    assert_eq!(km.get_action(0, 0, press()), KeyAction::Single(4));
}

#[test]
fn press_reuses_cached_release_layer() {
    // Layer 0 holds a concrete action, layer 1 is Transparent, both active.
    let mut km = KeyMap::<1, 1, 2>::new([[[KeyAction::Single(4)]], [[KeyAction::Transparent]]]);
    // The release scan skips the transparent layer 1 and resolves layer 0,
    // caching layer 0's true layer number.
    assert_eq!(km.get_action(0, 0, release()), KeyAction::Single(4));
    // The press must return exactly the cached layer's action.
    assert_eq!(km.get_action(0, 0, press()), KeyAction::Single(4));
}

#[test]
fn cache_holds_true_layer_number() {
    // Both layers concrete: a release resolves the highest active layer.
    let mut km = KeyMap::<1, 1, 2>::new([[[KeyAction::Single(4)]], [[KeyAction::Single(9)]]]);
    assert_eq!(km.get_action(0, 0, release()), KeyAction::Single(9));
    // The cache addresses layers by their true index, so a press surfaces
    // layer 1's action even after layer 1 is deactivated.
    km.deactivate_layer(1);
    assert_eq!(km.get_action(0, 0, press()), KeyAction::Single(9));
    // A fresh release, though, scans the active layers only.
    assert_eq!(km.get_action(0, 0, release()), KeyAction::Single(4));
    assert_eq!(km.get_action(0, 0, press()), KeyAction::Single(4));
}

#[test]
fn exhausted_scan_yields_noop_and_keeps_cache() {
    // Layer 0 transparent, layer 1 concrete.
    let mut km = KeyMap::<1, 1, 2>::new([[[KeyAction::Transparent]], [[KeyAction::Single(7)]]]);
    assert_eq!(km.get_action(0, 0, release()), KeyAction::Single(7));
    km.deactivate_layer(1);
    // Every remaining active layer defers at the position: No-op, and the
    // cache still holds layer 1 from the earlier release.
    assert_eq!(km.get_action(0, 0, release()), KeyAction::No);
    assert_eq!(km.get_action(0, 0, press()), KeyAction::Single(7));
}

#[test]
fn no_op_actions_are_skipped_like_transparent() {
    let mut km = KeyMap::<1, 1, 3>::new([
        [[KeyAction::Single(4)]],
        [[KeyAction::No]],
        [[KeyAction::Transparent]],
    ]);
    // Layers 2 (Transparent) and 1 (No) are skipped; layer 0 resolves.
    assert_eq!(km.get_action(0, 0, release()), KeyAction::Single(4));
    assert_eq!(km.get_action(0, 0, press()), KeyAction::Single(4));
}

#[test]
fn out_of_range_layer_index_is_ignored() {
    let mut km = KeyMap::<1, 1, 2>::new([[[KeyAction::Single(4)]], [[KeyAction::Transparent]]]);
    assert_eq!(km.get_action(0, 0, release()), KeyAction::Single(4));
    // An index equal to the layer count mutates nothing: resolution is
    // unchanged afterwards.
    km.deactivate_layer(2);
    km.activate_layer(2);
    assert_eq!(km.get_action(0, 0, release()), KeyAction::Single(4));
    // Deactivating a real layer does change resolution.
    km.deactivate_layer(0);
    assert_eq!(km.get_action(0, 0, release()), KeyAction::No);
    km.activate_layer(0);
    assert_eq!(km.get_action(0, 0, release()), KeyAction::Single(4));
}

#[test]
fn resolution_is_per_position() {
    let mut km = KeyMap::<2, 2, 2>::new([
        [
            [KeyAction::Single(1), KeyAction::Single(2)],
            [KeyAction::Single(3), KeyAction::Single(4)],
        ],
        [
            [KeyAction::Transparent, KeyAction::Single(20)],
            [KeyAction::No, KeyAction::Transparent],
        ],
    ]);
    assert_eq!(km.get_action(0, 0, release()), KeyAction::Single(1));
    assert_eq!(km.get_action(0, 1, release()), KeyAction::Single(20));
    assert_eq!(km.get_action(1, 0, release()), KeyAction::Single(3));
    assert_eq!(km.get_action(1, 1, release()), KeyAction::Single(4));
    // Each position's cache was written independently.
    assert_eq!(km.get_action(0, 1, press()), KeyAction::Single(20));
    assert_eq!(km.get_action(1, 1, press()), KeyAction::Single(4));
}

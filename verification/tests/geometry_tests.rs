use blockboard::geometry::{generate_path_string, get_path, Path, PathType, Size};
use blockboard::measure::{remeasured_size, RemeasureGuard};

const MOVE_150_60: &str = "M 4 2 L 14 2 L 14 4 Q 14 8 20 8 L 38 8 Q 42 8 42 4 L 42 2 \
L 144 2 Q 148 2 148 4 L 148 42 Q 148 46 144 46 L 40 46 L 40 50 Q 40 52 36 52 L 20 52 \
Q 16 52 16 50 L 16 46 L 4 46 Q 2 46 2 42 L 2 4 Q 2 2 4 2 Z";

#[test]
fn outline_is_pure() {
    let size = Size::new(150, 60);
    let first = generate_path_string(&PathType::Move, &size);
    let second = generate_path_string(&PathType::Move, &size);
    assert_eq!(first, second);
    let flag = generate_path_string(&PathType::Flag, &size);
    assert_ne!(first, flag);
}

#[test]
fn move_outline_matches_literal_vector() {
    let size = Size::new(150, 60);
    let path = generate_path_string(&PathType::Move, &size);
    // Effective width is 150 - 2 = 148, so the right edge sits at x = 148.
    assert!(path.starts_with("M 4 2 L 14 2 L 14 4 Q 14 8 20 8 L 38 8 Q 42 8 42 4 L 42 2 L 144 2 "));
    assert!(path.ends_with(" Q 2 2 4 2 Z"));
    assert_eq!(path, MOVE_150_60);
}

#[test]
fn stackable_family_shares_one_outline() {
    let size = Size::new(150, 60);
    let works = generate_path_string(&PathType::Works, &size);
    let mv = generate_path_string(&PathType::Move, &size);
    let composition = generate_path_string(&PathType::Composition, &size);
    assert_eq!(works, mv);
    assert_eq!(mv, composition);
}

#[test]
fn loop_family_shares_one_outline_and_extends_below() {
    let size = Size::new(150, 60);
    let looped = generate_path_string(&PathType::Loop, &size);
    let value = generate_path_string(&PathType::Value, &size);
    assert_eq!(looped, value);
    // The nested notch region reaches size.height + 48 = 108.
    assert!(looped.contains(" 108 "));
    assert_ne!(looped, generate_path_string(&PathType::Move, &size));
}

#[test]
fn flag_outline_tapers_from_the_right_edge() {
    let size = Size::new(150, 60);
    let flag = generate_path_string(&PathType::Flag, &size);
    // sw - 14 = 134 is where the taper begins.
    assert!(flag.starts_with("M 14 2 L 42 2 L 134 2 Q 148 2 148 14 "));
    assert!(flag.ends_with(" L 2 14 Q 2 2 14 2 Z"));
}

#[test]
fn degenerate_size_still_yields_a_closed_path() {
    let size = Size::new(0, 0);
    let path = generate_path_string(&PathType::Move, &size);
    assert!(path.starts_with("M 4 2 "));
    assert!(path.ends_with(" Z"));
    // The effective width goes negative rather than failing.
    assert!(path.contains("-6"));
}

#[test]
fn get_path_pairs_category_and_size() {
    let size = Size::new(80, 40);
    let p: Path = get_path(&PathType::Loop, &size);
    assert_eq!(p.type_, PathType::Loop);
    assert_eq!(p.size, size);
}

#[test]
fn remeasure_adopts_padded_size_above_threshold() {
    let current = blockboard::model::Size { width: 150, height: 60 };
    let adopted = remeasured_size(current, 120, 30).expect("moved by more than a pixel");
    assert_eq!((adopted.width, adopted.height), (160, 70));
    // Minimums hold for small content.
    let small = remeasured_size(current, 1, 1);
    assert!(small.is_none());
}

#[test]
fn remeasure_ignores_degenerate_and_tiny_changes() {
    let current = blockboard::model::Size { width: 160, height: 70 };
    assert!(remeasured_size(current, 0, 30).is_none());
    assert!(remeasured_size(current, 120, 0).is_none());
    // The same fitted size again: no write.
    assert!(remeasured_size(current, 120, 30).is_none());
    // A one-pixel move stays under the threshold.
    assert!(remeasured_size(current, 121, 30).is_none());
    // Two pixels is over it.
    let adopted = remeasured_size(current, 122, 30).expect("over the threshold");
    assert_eq!((adopted.width, adopted.height), (162, 70));
}

#[test]
fn remeasure_guard_coalesces() {
    let mut guard = RemeasureGuard::new();
    assert!(guard.try_begin());
    // A second request while one is in flight is dropped.
    assert!(!guard.try_begin());
    guard.finish();
    assert!(guard.try_begin());
}

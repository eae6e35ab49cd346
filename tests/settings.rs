use circles::{ColorMode, SizeMode, Speed, Status};

#[test]
fn status_toggles_and_labels_the_next_action() {
    let mut s = Status::RUNNING;
    assert_eq!(s.to_button_display(), "⏸");
    s.toggle();
    assert_eq!(s, Status::PAUSED);
    assert_eq!(s.to_button_display(), "▶️");
    s.toggle();
    assert_eq!(s, Status::RUNNING);
}

#[test]
fn speed_steps_and_toggle() {
    assert_eq!(Speed::NORMAL.steps(), 1);
    assert_eq!(Speed::FAST.steps(), 3000);
    assert_eq!(Speed::NORMAL.next(), Speed::FAST);
    let mut s = Speed::FAST;
    s.toggle();
    assert_eq!(s, Speed::NORMAL);
    assert_eq!(Speed::NORMAL.to_button_display(), "🐇");
    assert_eq!(Speed::FAST.to_button_display(), "🐢");
}

#[test]
fn color_mode_toggle() {
    let mut m = ColorMode::RGB;
    assert_eq!(m.to_button_display(), "H");
    m.toggle();
    assert_eq!(m, ColorMode::HSL);
    assert_eq!(m.next(), ColorMode::RGB);
    assert_eq!(m.to_button_display(), "R");
}

#[test]
fn size_mode_next_and_label() {
    assert_eq!(SizeMode::NORMAL.next(), SizeMode::GIANT);
    assert_eq!(SizeMode::GIANT.next(), SizeMode::NORMAL);
    assert_eq!(SizeMode::NORMAL.to_button_display(), "🐘");
    assert_eq!(SizeMode::GIANT.to_button_display(), "🐁");
}

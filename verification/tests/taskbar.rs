use hover_dict::taskbar::style_off_taskbar;

#[test]
fn flags_are_set_and_cleared() {
    assert_eq!(style_off_taskbar(0x40000, 0x80, 0x40000), 0x80);
    assert_eq!(style_off_taskbar(0x40108, 0x80, 0x40000), 0x188);
    assert_eq!(style_off_taskbar(0, 0x80, 0x40000), 0x80);
    assert_eq!(style_off_taskbar(-1, 0x80, 0x40000), -1 & !0x40000);
}

#[test]
fn doing_it_again_changes_nothing() {
    for style in [0isize, 1, -1, 0x40080, 0x12345] {
        let once = style_off_taskbar(style, 0x80, 0x40000);
        assert_eq!(style_off_taskbar(once, 0x80, 0x40000), once);
    }
}

use rat_widget::caption::CaptionState;
use rat_widget::event::{KeyCode, KeyKind, KeyPress, KeyStroke, MouseInput, MouseKind, Outcome};
use rat_widget::geometry::Rect;
use rat_widget::caption::{
    hotkey_shown, Alignment, Caption, CaptionPart, CaptionSpan, HotkeyAlignment, HotkeyPolicy,
};

fn span(part: CaptionPart, start: usize, end: usize) -> CaptionSpan {
    CaptionSpan { part, start, end }
}

#[test]
fn parse_navchar_and_hotkey() {
    let c = Caption::parse("_Name|F2");
    assert_eq!(c.text, "_Name");
    assert_eq!(c.hotkey_text, "F2");
    assert_eq!(c.highlight, Some((1, 2)));
    assert_eq!(c.navchar, Some('n'));
    assert_eq!(c.spacing, 1);
    assert_eq!(c.hotkey_policy, HotkeyPolicy::Always);
    assert_eq!(c.hotkey_align, HotkeyAlignment::LabelHotkey);
    assert_eq!(c.align, Alignment::Left);
}

#[test]
fn parse_plain_text() {
    let c = Caption::parse("Label");
    assert_eq!(c.text, "Label");
    assert_eq!(c.hotkey_text, "");
    assert_eq!(c.highlight, None);
    assert_eq!(c.navchar, None);
}

#[test]
fn parse_last_pipe_splits() {
    let c = Caption::parse("a_b|c|d");
    assert_eq!(c.text, "a_b|c");
    assert_eq!(c.hotkey_text, "d");
    assert_eq!(c.highlight, Some((2, 3)));
    assert_eq!(c.navchar, Some('b'));
}

#[test]
fn parse_pipe_as_navchar_is_kept() {
    let c = Caption::parse("ab_|x");
    assert_eq!(c.text, "ab_|x");
    assert_eq!(c.hotkey_text, "");
    assert_eq!(c.highlight, Some((3, 4)));
    assert_eq!(c.navchar, Some('|'));
}

#[test]
fn parse_pipe_before_navchar_is_ignored() {
    let c = Caption::parse("x|y_Z");
    assert_eq!(c.text, "x|y_Z");
    assert_eq!(c.hotkey_text, "");
    assert_eq!(c.highlight, Some((4, 5)));
    assert_eq!(c.navchar, Some('z'));
}

#[test]
fn parse_multibyte_offsets() {
    let c = Caption::parse("Grö_ße|X");
    assert_eq!(c.text, "Grö_ße");
    assert_eq!(c.hotkey_text, "X");
    assert_eq!(c.highlight, Some((5, 7)));
    assert_eq!(&c.text[5..7], "ß");
    assert_eq!(c.navchar, Some('ß'));
}

#[test]
fn parse_trailing_underscore() {
    let c = Caption::parse("abc_");
    assert_eq!(c.text, "abc_");
    assert_eq!(c.highlight, None);
    assert_eq!(c.navchar, None);
    let c = Caption::parse("");
    assert_eq!(c.text, "");
    assert_eq!(c.hotkey_text, "");
}

#[test]
fn hotkey_policy() {
    assert!(hotkey_shown(HotkeyPolicy::Always, false, false));
    assert!(!hotkey_shown(HotkeyPolicy::OnHover, true, false));
    assert!(hotkey_shown(HotkeyPolicy::OnHover, false, true));
    assert!(hotkey_shown(HotkeyPolicy::WhenFocused, true, false));
    assert!(!hotkey_shown(HotkeyPolicy::WhenFocused, false, true));
}

#[test]
fn line_spans_label_hotkey() {
    let c = Caption::parse("_Name|F2");
    assert_eq!(
        c.line_spans(false, false),
        vec![
            span(CaptionPart::Text, 0, 0),
            span(CaptionPart::Highlight, 1, 2),
            span(CaptionPart::Text, 2, 5),
            span(CaptionPart::Spacing, 0, 1),
            span(CaptionPart::Hotkey, 0, 2),
        ]
    );
}

#[test]
fn line_spans_hotkey_label_hidden_hotkey() {
    let mut c = Caption::parse("Save|Ctrl-S");
    c.hotkey_align = HotkeyAlignment::HotkeyLabel;
    c.hotkey_policy = HotkeyPolicy::OnHover;
    c.spacing = 2;
    assert_eq!(
        c.line_spans(false, false),
        vec![
            span(CaptionPart::Hotkey, 0, 0),
            span(CaptionPart::Spacing, 0, 0),
            span(CaptionPart::Text, 0, 4),
        ]
    );
    assert_eq!(
        c.line_spans(false, true),
        vec![
            span(CaptionPart::Hotkey, 0, 6),
            span(CaptionPart::Spacing, 0, 2),
            span(CaptionPart::Text, 0, 4),
        ]
    );
}

#[test]
fn caption_state_focuses_linked_widget() {
    let mut s = CaptionState::new();
    let alt_n = KeyPress { code: KeyCode::Char('n'), shift: false, control: false, alt: true };
    let release = KeyStroke { key: alt_n, kind: KeyKind::Release };
    let press = KeyStroke { key: alt_n, kind: KeyKind::Press };
    assert_eq!(s.handle_key(release), (Outcome::Continue, false));
    s.update(Rect::new(2, 3, 10, 1), Some('n'), None);
    assert_eq!(s.navchar(), Some('n'));
    assert_eq!(s.handle_key(release), (Outcome::Changed, true));
    assert_eq!(s.handle_key(press), (Outcome::Continue, false));
    let f2 = KeyStroke {
        key: KeyPress { code: KeyCode::Char('x'), shift: false, control: true, alt: false },
        kind: KeyKind::Press,
    };
    assert_eq!(s.handle_key(f2), (Outcome::Continue, false));
    s.set_hotkey(Some(f2));
    assert_eq!(s.handle_key(f2), (Outcome::Changed, true));
    // rendering without a navigation char keeps the old one
    s.update(Rect::new(2, 4, 10, 1), None, None);
    assert_eq!(s.navchar(), Some('n'));
    assert_eq!(s.hotkey(), Some(f2));
    let click = MouseInput { kind: MouseKind::LeftDown, column: 5, row: 4, shift: false, control: false, alt: false };
    assert_eq!(s.handle_mouse(click, false), (Outcome::Changed, true));
    assert_eq!(s.handle_mouse(click, true), (Outcome::Changed, false));
    assert_eq!(s.handle_mouse(MouseInput { row: 3, ..click }, false), (Outcome::Continue, false));
    s.set_navchar(None);
    assert_eq!(s.handle_key(release), (Outcome::Continue, false));
}

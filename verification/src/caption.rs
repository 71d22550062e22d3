//!
//! Label/Caption for a linked widget with hotkey focusing.
//!
//! A caption is parsed from a text like `"_Name|F2"`: the first `_` marks
//! the following character as navigation-char, a `|` separates the label
//! text and the hotkey text.
//!
use crate::text::{
    grapheme_count, graphemes_len, ascii_lowercase, byte_offset, lemma_byte_offset_step, lemma_char_boundary_at,
    lemma_encode_utf8_concat, lemma_split_chars, to_ascii_lowercase, utf8_len,
};
use crate::event::{KeyCode, KeyKind, KeyStroke, MouseInput, MouseKind, Outcome};
use crate::geometry::{Position, Rect};
use vstd::prelude::*;
use vstd::std_specs::iter::IteratorSpec;
use vstd::string::StrSliceExecFns;
use vstd::utf8::encode_utf8;

verus! {

/// Policy for showing the hotkey text.
#[derive(Debug, Default, Clone, Copy, PartialEq, Eq, Structural)]
pub enum HotkeyPolicy {
    /// No special behaviour. Hotkey text is always shown.
    #[default]
    Always,
    /// Only show the hotkey text on hover.
    OnHover,
    /// Only show the hotkey text when the main widget is focused.
    WhenFocused,
}

/// Alignment of label-text and hotkey-text.
#[derive(Debug, Default, Clone, Copy, PartialEq, Eq, Structural)]
pub enum HotkeyAlignment {
    /// Display as "label hotkey"
    #[default]
    LabelHotkey,
    /// Display as "hotkey label"
    HotkeyLabel,
}

/// Horizontal alignment of the caption line.
#[derive(Debug, Default, Clone, Copy, PartialEq, Eq, Structural)]
pub enum Alignment {
    #[default]
    Left,
    Center,
    Right,
}

/// A label/caption linked to another widget.
#[derive(Debug, Clone)]
pub struct Caption {
    /// Text
    pub text: String,
    /// Text range to highlight. A byte-range into text, as (start, end).
    pub highlight: Option<(usize, usize)>,
    /// Navigation key char.
    pub navchar: Option<char>,
    /// Hotkey text.
    pub hotkey_text: String,
    /// Hotkey alignment
    pub hotkey_align: HotkeyAlignment,
    /// Hotkey policy
    pub hotkey_policy: HotkeyPolicy,
    /// Text/Hotkey spacing
    pub spacing: u16,
    /// Label alignment
    pub align: Alignment,
}

/// `i` is the index of the first `c` in `s`.
pub open spec fn is_first_of(s: Seq<char>, c: char, i: int) -> bool {
    &&& 0 <= i < s.len()
    &&& s[i] == c
    &&& forall|j: int| 0 <= j < i ==> s[j] != c
}

/// `i` is the index of the last `c` in `s`.
pub open spec fn is_last_of(s: Seq<char>, c: char, i: int) -> bool {
    &&& 0 <= i < s.len()
    &&& s[i] == c
    &&& forall|j: int| i < j < s.len() ==> s[j] != c
}

/// Index of the first `_`.
pub open spec fn underscore_index(s: Seq<char>) -> Option<int> {
    if exists|i: int| is_first_of(s, '_', i) {
        Some(choose|i: int| is_first_of(s, '_', i))
    } else {
        None
    }
}

/// Index of the last `|`.
pub open spec fn pipe_index(s: Seq<char>) -> Option<int> {
    if exists|i: int| is_last_of(s, '|', i) {
        Some(choose|i: int| is_last_of(s, '|', i))
    } else {
        None
    }
}

/// Index of the navigation char: the char after the first `_`.
pub open spec fn navchar_index(s: Seq<char>) -> Option<int> {
    match underscore_index(s) {
        Some(u) => if u + 1 < s.len() {
            Some(u + 1)
        } else {
            None
        },
        None => None,
    }
}

/// Index of the `|` that separates text and hotkey text.
/// A `|` before the end of the navigation char doesn't count.
pub open spec fn split_index(s: Seq<char>) -> Option<int> {
    match pipe_index(s) {
        Some(p) => match navchar_index(s) {
            Some(n) => if n + 1 > p {
                None
            } else {
                Some(p)
            },
            None => Some(p),
        },
        None => None,
    }
}

/// Label text of a parsed caption.
pub open spec fn parsed_text(s: Seq<char>) -> Seq<char> {
    match split_index(s) {
        Some(p) => s.take(p),
        None => s,
    }
}

/// Hotkey text of a parsed caption.
pub open spec fn parsed_hotkey_text(s: Seq<char>) -> Seq<char> {
    match split_index(s) {
        Some(p) => s.skip(p + 1),
        None => Seq::empty(),
    }
}

/// Highlight byte-range of a parsed caption: the navigation char.
pub open spec fn parsed_highlight(s: Seq<char>) -> Option<(int, int)> {
    match navchar_index(s) {
        Some(n) => Some((byte_offset(s, n), byte_offset(s, n + 1))),
        None => None,
    }
}

/// Navigation char of a parsed caption, in ASCII lowercase.
pub open spec fn parsed_navchar(s: Seq<char>) -> Option<char> {
    match navchar_index(s) {
        Some(n) => Some(ascii_lowercase(s[n])),
        None => None,
    }
}

/// Byte range as integers.
pub open spec fn range_int(r: Option<(usize, usize)>) -> Option<(int, int)> {
    match r {
        Some((a, b)) => Some((a as int, b as int)),
        None => None,
    }
}

/// A caption with everything but the parsed parts at its default.
pub open spec fn default_settings(c: Caption) -> bool {
    &&& c.hotkey_align == HotkeyAlignment::LabelHotkey
    &&& c.hotkey_policy == HotkeyPolicy::Always
    &&& c.spacing == 1
    &&& c.align == Alignment::Left
}

impl Default for Caption {
    fn default() -> (r: Self)
        ensures
            r.text@ == Seq::<char>::empty(),
            r.highlight is None,
            r.navchar is None,
            r.hotkey_text@ == Seq::<char>::empty(),
            default_settings(r),
    {
        Caption {
            text: String::new(),
            highlight: None,
            navchar: None,
            hotkey_text: String::new(),
            hotkey_align: HotkeyAlignment::LabelHotkey,
            hotkey_policy: HotkeyPolicy::Always,
            spacing: 1,
            align: Alignment::Left,
        }
    }
}

/// Scans `txt` once, as the parser does: returns the character index of
/// the first `_`, the byte range of the character after it, that character,
/// and the character and byte index of the last `|`.
fn scan(txt: &str) -> (r: (Option<usize>, Option<(usize, usize)>, Option<char>, Option<(usize, usize)>))
    ensures
        r.0 matches Some(u) ==> is_first_of(txt@, '_', u as int),
        r.0 is None ==> forall|j: int| 0 <= j < txt@.len() ==> txt@[j] != '_',
        r.1 is Some <==> (r.0 matches Some(u) && u + 1 < txt@.len()),
        r.0 is Some && r.1 is Some ==> (r.1->0).0 == byte_offset(txt@, r.0->0 + 1) && (r.1->0).1
            == byte_offset(txt@, r.0->0 + 2),
        r.0 is Some && r.2 is Some ==> r.2->0 == txt@[r.0->0 + 1],
        txt@.len() <= encode_utf8(txt@).len(),
        r.1 is Some <==> r.2 is Some,
        r.3 matches Some(p) ==> is_last_of(txt@, '|', p.0 as int) && p.1 == byte_offset(
            txt@,
            p.0 as int,
        ),
        r.3 is None ==> forall|j: int| 0 <= j < txt@.len() ==> txt@[j] != '|',
{
    let ghost s = txt@;
    let mut us: Option<usize> = None;
    let mut nav_start: Option<usize> = None;
    let mut nav_end: Option<usize> = None;
    let mut nav_c: Option<char> = None;
    let mut pipe: Option<(usize, usize)> = None;
    let mut i: usize = 0;
    let mut byte_pos: usize = 0;

    let mut it = txt.chars();
    proof {
        assert(s.take(0) =~= Seq::<char>::empty());
        assert(s.skip(0) =~= s);
        assert(s.take(s.len() as int) =~= s);
    }
    let total = txt.as_bytes().len();
    loop
        invariant
            0 <= i <= s.len(),
            i <= byte_pos,
            it.remaining() == s.skip(i as int),
            byte_pos == byte_offset(s, i as int),
            byte_offset(s, s.len() as int) == total,
            us matches Some(u) ==> u < i && is_first_of(s, '_', u as int),
            us is None ==> forall|j: int| 0 <= j < i ==> s[j] != '_',
            nav_start is Some <==> (us matches Some(u) && u + 1 < i),
            nav_end is Some <==> (us matches Some(u) && u + 2 < i),
            nav_c is Some <==> nav_start is Some,
            us is Some && nav_start is Some ==> nav_start->0 == byte_offset(s, us->0 + 1),
            us is Some && nav_end is Some ==> nav_end->0 == byte_offset(s, us->0 + 2),
            us is Some && nav_c is Some ==> nav_c->0 == s[us->0 + 1],
            pipe matches Some(p) ==> p.0 < i && s[p.0 as int] == '|' && p.1 == byte_offset(
                s,
                p.0 as int,
            ) && forall|j: int| p.0 < j < i ==> s[j] != '|',
            pipe is None ==> forall|j: int| 0 <= j < i ==> s[j] != '|',
        ensures
            i == s.len(),
            i <= total,
            us matches Some(u) ==> u < i && is_first_of(s, '_', u as int),
            us is None ==> forall|j: int| 0 <= j < i ==> s[j] != '_',
            nav_start is Some <==> (us matches Some(u) && u + 1 < i),
            nav_end is Some <==> (us matches Some(u) && u + 2 < i),
            nav_c is Some <==> nav_start is Some,
            us is Some && nav_start is Some ==> nav_start->0 == byte_offset(s, us->0 + 1),
            us is Some && nav_end is Some ==> nav_end->0 == byte_offset(s, us->0 + 2),
            us is Some && nav_c is Some ==> nav_c->0 == s[us->0 + 1],
            pipe matches Some(p) ==> p.0 < i && s[p.0 as int] == '|' && p.1 == byte_offset(
                s,
                p.0 as int,
            ) && forall|j: int| p.0 < j < i ==> s[j] != '|',
            pipe is None ==> forall|j: int| 0 <= j < i ==> s[j] != '|',
        decreases s.len() - i,
    {
        let next = it.next();
        match next {
            None => {
                assert(s.skip(i as int).len() == 0);
                break ;
            },
            Some(c) => {
                assert(s.skip(i as int)[0] == s[i as int]);
                assert(s.skip(i as int).drop_first() =~= s.skip(i + 1));
                if us.is_none() && c == '_' {
                    us = Some(i);
                } else if us.is_some() && nav_start.is_none() {
                    nav_start = Some(byte_pos);
                    nav_c = Some(c);
                } else if nav_start.is_some() && nav_end.is_none() {
                    nav_end = Some(byte_pos);
                }
                if c == '|' {
                    pipe = Some((i, byte_pos));
                }
                proof {
                    lemma_byte_offset_step(s, i as int);
                }
                byte_pos = byte_pos + utf8_len(c);
                i = i + 1;
            },
        }
    }
    if nav_start.is_some() && nav_end.is_none() {
        proof {
            assert(s.take(s.len() as int) =~= s);
        }
        nav_end = Some(total);
    }
    let highlight = match (nav_start, nav_end) {
        (Some(a), Some(b)) => Some((a, b)),
        _ => None,
    };
    (us, highlight, nav_c, pipe)
}

impl Caption {
    /// Parse the text.
    ///
    /// The first '_' marks the navigation-char: the char after it is
    /// highlighted and becomes the navchar, in ASCII lowercase.
    /// The last pipe '|' separates the item text and the hotkey text,
    /// unless it lies before the end of the navigation-char.
    pub fn parse(txt: &str) -> (r: Caption)
        ensures
            r.text@ == parsed_text(txt@),
            r.hotkey_text@ == parsed_hotkey_text(txt@),
            range_int(r.highlight) == parsed_highlight(txt@),
            r.navchar == parsed_navchar(txt@),
            default_settings(r),
    {
        let ghost s = txt@;
        let (us, highlight, nav_c, pipe) = scan(txt);

        proof {
            match us {
                Some(u) => {
                    assert(is_first_of(s, '_', u as int));
                    let w = choose|i: int| is_first_of(s, '_', i);
                    assert(w == u as int);
                    assert(underscore_index(s) == Some(u as int));
                },
                None => {
                    assert(!exists|i: int| is_first_of(s, '_', i));
                },
            }
            match pipe {
                Some(p) => {
                    let w = choose|i: int| is_last_of(s, '|', i);
                    assert(is_last_of(s, '|', p.0 as int));
                    assert(w == p.0 as int);
                    assert(pipe_index(s) == Some(p.0 as int));
                },
                None => {
                    assert(!exists|i: int| is_last_of(s, '|', i));
                },
            }
        }

        // A pipe before the end of the navigation-char doesn't count.
        let split = match (pipe, us, highlight) {
            (Some(p), Some(u), Some(_)) => if u >= p.0 || u + 1 == p.0 {
                None
            } else {
                Some(p)
            },
            _ => pipe,
        };
        assert(split matches Some(p) ==> split_index(s) == Some(p.0 as int));
        assert(split is None ==> split_index(s) is None);

        let (text, hotkey_text) = match split {
            Some((p, pb)) => {
                proof {
                    lemma_char_boundary_at(s, p as int);
                }
                let (left, rest) = txt.split_at(pb);
                proof {
                    lemma_split_chars(s, p as int, left@, rest@);
                    let r = s.skip(p as int);
                    assert(r[0] == '|');
                    assert(r.take(1) =~= seq!['|']);
                    assert(r.take(0) =~= Seq::<char>::empty());
                    lemma_byte_offset_step(r, 0);
                    assert(byte_offset(r, 1) == 1);
                    lemma_char_boundary_at(r, 1);
                }
                let (bar, hot) = rest.split_at(1);
                proof {
                    lemma_split_chars(rest@, 1, bar@, hot@);
                    assert(rest@.skip(1) =~= s.skip(p + 1));
                }
                (left.to_owned(), hot.to_owned())
            },
            None => (txt.to_owned(), String::new()),
        };

        let navchar = match nav_c {
            Some(c) => Some(to_ascii_lowercase(c)),
            None => None,
        };

        Caption {
            text,
            highlight,
            navchar,
            hotkey_text,
            hotkey_align: HotkeyAlignment::LabelHotkey,
            hotkey_policy: HotkeyPolicy::Always,
            spacing: 1,
            align: Alignment::Left,
        }
    }
}

/// Which part of the caption a span of the caption line shows.
#[derive(Debug, Clone, Copy, PartialEq, Eq, Structural)]
pub enum CaptionPart {
    /// Label text.
    Text,
    /// The highlighted navigation char of the label text.
    Highlight,
    /// Spaces between label and hotkey.
    Spacing,
    /// Hotkey text.
    Hotkey,
}

/// A span of the caption line.
///
/// `start..end` is a byte range into the label text for `Text` and
/// `Highlight`, into the hotkey text for `Hotkey`; for `Spacing`
/// `end - start` is the number of spaces.
#[derive(Debug, Clone, Copy, PartialEq, Eq, Structural)]
pub struct CaptionSpan {
    pub part: CaptionPart,
    pub start: usize,
    pub end: usize,
}

/// Is the hotkey text shown with this policy?
pub open spec fn spec_hotkey_shown(policy: HotkeyPolicy, focused: bool, hover: bool) -> bool {
    policy == HotkeyPolicy::WhenFocused && focused || policy == HotkeyPolicy::OnHover && hover
        || policy == HotkeyPolicy::Always
}

/// Is the hotkey text shown with this policy?
///
/// `focused` tells whether the linked widget has the focus, `hover`
/// whether the mouse hovers over the caption.
pub fn hotkey_shown(policy: HotkeyPolicy, focused: bool, hover: bool) -> (r: bool)
    ensures
        r == spec_hotkey_shown(policy, focused, hover),
{
    match policy {
        HotkeyPolicy::WhenFocused => focused,
        HotkeyPolicy::OnHover => hover,
        HotkeyPolicy::Always => true,
    }
}

/// Span constructor for specs.
pub open spec fn span(part: CaptionPart, start: int, end: int) -> CaptionSpan {
    CaptionSpan { part, start: start as usize, end: end as usize }
}

/// The spans of the caption line, in display order.
///
/// `text_len` and `hotkey_len` are the byte lengths of label and hotkey text.
/// The underscore before the highlighted char is left out.
pub open spec fn caption_spans(
    c: Caption,
    text_len: int,
    hotkey_len: int,
    focused: bool,
    hover: bool,
) -> Seq<CaptionSpan> {
    let hot = if spec_hotkey_shown(c.hotkey_policy, focused, hover) {
        hotkey_len
    } else {
        0
    };
    let gap = if hot > 0 {
        c.spacing as int
    } else {
        0
    };
    let label = match c.highlight {
        Some((s, e)) => seq![
            span(CaptionPart::Text, 0, s - 1),
            span(CaptionPart::Highlight, s as int, e as int),
            span(CaptionPart::Text, e as int, text_len),
        ],
        None => seq![span(CaptionPart::Text, 0, text_len)],
    };
    match c.hotkey_align {
        HotkeyAlignment::LabelHotkey => label + seq![
            span(CaptionPart::Spacing, 0, gap),
            span(CaptionPart::Hotkey, 0, hot),
        ],
        HotkeyAlignment::HotkeyLabel => seq![
            span(CaptionPart::Hotkey, 0, hot),
            span(CaptionPart::Spacing, 0, gap),
        ] + label,
    }
}

/// Byte length of a string.
pub open spec fn byte_len(s: &String) -> int {
    encode_utf8(s@).len() as int
}

impl Caption {
    /// Byte length of the label text.
    fn text_len(&self) -> (r: usize)
        ensures
            r == byte_len(&self.text),
    {
        self.text.as_str().as_bytes().len()
    }

    /// Byte length of the hotkey text.
    fn hotkey_len(&self) -> (r: usize)
        ensures
            r == byte_len(&self.hotkey_text),
    {
        self.hotkey_text.as_str().as_bytes().len()
    }

    /// The caption line as spans, in display order.
    ///
    /// `focused` tells whether the linked widget has the focus, `hover`
    /// whether the mouse hovers over the caption. A highlight range must
    /// start after the underscore that precedes it and lie inside the text.
    pub fn line_spans(&self, focused: bool, hover: bool) -> (r: Vec<CaptionSpan>)
        requires
            self.highlight matches Some((s, e)) ==> 1 <= s <= e <= byte_len(&self.text),
        ensures
            r@ == caption_spans(
                *self,
                byte_len(&self.text),
                byte_len(&self.hotkey_text),
                focused,
                hover,
            ),
    {
        let text_len = self.text_len();
        let hot = if hotkey_shown(self.hotkey_policy, focused, hover) {
            self.hotkey_len()
        } else {
            0
        };
        let gap: usize = if hot > 0 {
            self.spacing as usize
        } else {
            0
        };

        let mut label: Vec<CaptionSpan> = Vec::new();
        match self.highlight {
            Some((s, e)) => {
                // account for the '_'
                label.push(CaptionSpan { part: CaptionPart::Text, start: 0, end: s - 1 });
                label.push(CaptionSpan { part: CaptionPart::Highlight, start: s, end: e });
                label.push(CaptionSpan { part: CaptionPart::Text, start: e, end: text_len });
            },
            None => {
                label.push(CaptionSpan { part: CaptionPart::Text, start: 0, end: text_len });
            },
        }
        let spacing = CaptionSpan { part: CaptionPart::Spacing, start: 0, end: gap };
        let hotkey = CaptionSpan { part: CaptionPart::Hotkey, start: 0, end: hot };

        let mut r: Vec<CaptionSpan> = Vec::new();
        match self.hotkey_align {
            HotkeyAlignment::LabelHotkey => {
                r.append(&mut label);
                r.push(spacing);
                r.push(hotkey);
            },
            HotkeyAlignment::HotkeyLabel => {
                r.push(hotkey);
                r.push(spacing);
                r.append(&mut label);
            },
        }
        r
    }
}

impl Caption {
    /// New caption with the default settings.
    pub fn new() -> (r: Self)
        ensures
            r.text@ == Seq::<char>::empty(),
            r.highlight is None,
            r.navchar is None,
            r.hotkey_text@ == Seq::<char>::empty(),
            default_settings(r),
    {
        Self::default()
    }

    /// Set the label text.
    pub fn text(self, txt: &str) -> (r: Self)
        ensures
            r.text@ == txt@,
            r == (Caption { text: r.text, ..self }),
    {
        Caption { text: txt.to_owned(), ..self }
    }

    /// Space between label text and hotkey text.
    pub fn spacing(self, spacing: u16) -> (r: Self)
        ensures
            r == (Caption { spacing, ..self }),
    {
        Caption { spacing, ..self }
    }

    /// Set the hotkey text.
    pub fn hotkey_text(self, hotkey: &str) -> (r: Self)
        ensures
            r.hotkey_text@ == hotkey@,
            r == (Caption { hotkey_text: r.hotkey_text, ..self }),
    {
        Caption { hotkey_text: hotkey.to_owned(), ..self }
    }

    /// Alignment of label text and hotkey text.
    pub fn hotkey_align(self, align: HotkeyAlignment) -> (r: Self)
        ensures
            r == (Caption { hotkey_align: align, ..self }),
    {
        Caption { hotkey_align: align, ..self }
    }

    /// When to show the hotkey text.
    pub fn hotkey_policy(self, policy: HotkeyPolicy) -> (r: Self)
        ensures
            r == (Caption { hotkey_policy: policy, ..self }),
    {
        Caption { hotkey_policy: policy, ..self }
    }

    /// Byte range of the label text to highlight, as (start, end).
    pub fn highlight(self, bytes: (usize, usize)) -> (r: Self)
        ensures
            r == (Caption { highlight: Some(bytes), ..self }),
    {
        Caption { highlight: Some(bytes), ..self }
    }

    /// Navigation key char.
    pub fn navchar(self, navchar: char) -> (r: Self)
        ensures
            r == (Caption { navchar: Some(navchar), ..self }),
    {
        Caption { navchar: Some(navchar), ..self }
    }

    /// Alignment of the caption line.
    pub fn align(self, align: Alignment) -> (r: Self)
        ensures
            r == (Caption { align, ..self }),
    {
        Caption { align: align, ..self }
    }

    /// Inherent width of the label text, in grapheme clusters.
    pub fn text_width(&self) -> (r: u16)
        requires
            self.text@.len() <= u16::MAX,
        ensures
            r == grapheme_count(self.text@),
            r <= self.text@.len(),
    {
        graphemes_len(self.text.as_str()) as u16
    }

    /// Inherent width of the hotkey text, in grapheme clusters.
    pub fn hotkey_width(&self) -> (r: u16)
        requires
            self.hotkey_text@.len() <= u16::MAX,
        ensures
            r == grapheme_count(self.hotkey_text@),
            r <= self.hotkey_text@.len(),
    {
        graphemes_len(self.hotkey_text.as_str()) as u16
    }

    /// Inherent width of label text and hotkey text together.
    pub fn width(&self) -> (r: u16)
        requires
            self.text@.len() + self.hotkey_text@.len() <= u16::MAX,
        ensures
            r == grapheme_count(self.text@) + grapheme_count(self.hotkey_text@),
    {
        self.text_width() + self.hotkey_width()
    }

    /// Inherent height.
    pub fn height(&self) -> (r: u16)
        ensures
            r == 1,
    {
        1
    }
}


/// State of a caption: its area and the keys that focus the linked
/// widget.
#[derive(Debug, Clone, Copy, PartialEq, Eq, Structural)]
pub struct CaptionState {
    /// Area for the whole widget.
    /// __readonly__. renewed for each render.
    pub area: Rect,
    /// Navigation char: released with Alt it focuses the linked widget.
    pub navchar: Option<char>,
    /// Hotkey: this key event focuses the linked widget.
    pub hotkey: Option<KeyStroke>,
}

/// Release of Alt with the navigation char `c`.
pub open spec fn is_navchar_release(k: KeyStroke, c: char) -> bool {
    k.kind == KeyKind::Release && k.key.is(KeyCode::Char(c), false, false, true)
}

impl CaptionState {
    /// Empty area, no navigation char, no hotkey.
    pub fn new() -> (r: Self)
        ensures
            r == (CaptionState { area: Rect::zero(), navchar: None, hotkey: None }),
    {
        CaptionState { area: Rect { x: 0, y: 0, width: 0, height: 0 }, navchar: None, hotkey: None }
    }

    /// The navigation char.
    pub fn navchar(&self) -> (r: Option<char>)
        ensures
            r == self.navchar,
    {
        self.navchar
    }

    /// Sets the navigation char.
    pub fn set_navchar(&mut self, navchar: Option<char>)
        ensures
            *final(self) == (CaptionState { navchar, ..*old(self) }),
    {
        self.navchar = navchar;
    }

    /// The hotkey.
    pub fn hotkey(&self) -> (r: Option<KeyStroke>)
        ensures
            r == self.hotkey,
    {
        self.hotkey
    }

    /// Sets the hotkey.
    pub fn set_hotkey(&mut self, hotkey: Option<KeyStroke>)
        ensures
            *final(self) == (CaptionState { hotkey, ..*old(self) }),
    {
        self.hotkey = hotkey;
    }

    /// Takes what rendering renews: the area, and the navigation char
    /// and hotkey that the caption sets; those it leaves unset stay.
    pub fn update(&mut self, area: Rect, navchar: Option<char>, hotkey: Option<KeyStroke>)
        ensures
            final(self).area == area,
            final(self).navchar == (if navchar is Some { navchar } else { old(self).navchar }),
            final(self).hotkey == (if hotkey is Some { hotkey } else { old(self).hotkey }),
    {
        self.area = area;
        if navchar.is_some() {
            self.navchar = navchar;
        }
        if hotkey.is_some() {
            self.hotkey = hotkey;
        }
    }

    /// Handles a key event: the release of Alt with the navigation char,
    /// or the hotkey, focuses the linked widget. Returns the outcome and
    /// whether the linked widget gets the focus.
    pub fn handle_key(&self, k: KeyStroke) -> (r: (Outcome, bool))
        ensures
            ({
                let hit = (self.navchar matches Some(c) && is_navchar_release(k, c)) || self.hotkey
                    == Some(k);
                &&& hit ==> r == (Outcome::Changed, true)
                &&& !hit ==> r == (Outcome::Continue, false)
            }),
    {
        if let Some(c) = self.navchar {
            if k.kind == KeyKind::Release && k.key.code == KeyCode::Char(c) && k.key.alt
                && !k.key.shift && !k.key.control {
                return (Outcome::Changed, true);
            }
        }
        if let Some(h) = self.hotkey {
            if h == k {
                return (Outcome::Changed, true);
            }
        }
        (Outcome::Continue, false)
    }

    /// Handles a mouse event: a change of the hover, as the mouse tracker
    /// reports it with `hovered`, repaints; a left click on the caption
    /// focuses the linked widget. Returns the outcome and whether the
    /// linked widget gets the focus.
    pub fn handle_mouse(&self, e: MouseInput, hovered: bool) -> (r: (Outcome, bool))
        ensures
            hovered ==> r == (Outcome::Changed, false),
            !hovered && e.is(MouseKind::LeftDown, false, false, false) && self.area.spec_contains(
                e.column,
                e.row,
            ) ==> r == (Outcome::Changed, true),
            !hovered && !(e.is(MouseKind::LeftDown, false, false, false)
                && self.area.spec_contains(e.column, e.row)) ==> r == (Outcome::Continue, false),
    {
        if hovered {
            return (Outcome::Changed, false);
        }
        if e.kind == MouseKind::LeftDown && !e.shift && !e.control && !e.alt && self.area.contains(
            Position { x: e.column, y: e.row },
        ) {
            (Outcome::Changed, true)
        } else {
            (Outcome::Continue, false)
        }
    }
}

} // verus!

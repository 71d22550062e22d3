//!
//! State of a checkbox, and the areas its rendering sets.
//!
use crate::event::{KeyCode, KeyPress, Outcome};
use crate::geometry::{sat_sub, Rect};
use crate::text::{grapheme_count, graphemes_len};
use vstd::prelude::*;

verus! {

/// Length of the check mark: the longer of the texts for checked and
/// unchecked, in grapheme clusters, cut to 16 bits.
pub fn check_len(true_str: &str, false_str: &str) -> (r: u16)
    ensures
        r == (if grapheme_count(true_str@) >= grapheme_count(false_str@) {
            grapheme_count(true_str@)
        } else {
            grapheme_count(false_str@)
        }) as u16,
{
    let t = graphemes_len(true_str);
    let f = graphemes_len(false_str);
    let m = if t >= f {
        t
    } else {
        f
    };
    #[verifier::truncate]
    (m as u16)
}

/// Inherent width of a checkbox: the check mark of `chk_len` columns (see
/// [check_len]), a space, the text of `text_width` columns, cut to 16
/// bits, and the columns its block takes.
pub fn checkbox_width(chk_len: u16, text_width: usize, block_width: u16) -> (r: u16)
    requires
        chk_len + 1 + (text_width as u16) + block_width <= u16::MAX,
    ensures
        r == chk_len + 1 + (text_width as u16) + block_width,
{
    let txt_len = #[verifier::truncate] (text_width as u16);
    chk_len + 1 + txt_len + block_width
}

/// State.
#[derive(Debug, Default, Clone, Copy, PartialEq, Eq, Structural)]
pub struct CheckboxState {
    /// Complete area
    /// __read only__. renewed for each render.
    pub area: Rect,
    /// Area inside the block.
    /// __read only__. renewed for each render.
    pub inner: Rect,
    /// Area of the check mark.
    /// __read only__. renewed for each render.
    pub check_area: Rect,
    /// Area for the text.
    /// __read only__. renewed for each render.
    pub text_area: Rect,
    /// Checked state.
    /// __read+write__
    pub checked: bool,
    /// Current focus state.
    /// __read+write__
    pub focused: bool,
}

impl CheckboxState {
    /// New, unchecked and without focus.
    pub fn new() -> (r: Self)
        ensures
            r == (CheckboxState {
                area: Rect::zero(),
                inner: Rect::zero(),
                check_area: Rect::zero(),
                text_area: Rect::zero(),
                checked: false,
                focused: false,
            }),
    {
        let z = Rect { x: 0, y: 0, width: 0, height: 0 };
        CheckboxState {
            area: z,
            inner: z,
            check_area: z,
            text_area: z,
            checked: false,
            focused: false,
        }
    }

    /// Get the checked value.
    pub fn checked(&self) -> (r: bool)
        ensures
            r == self.checked,
    {
        self.checked
    }

    /// Set checked value.
    pub fn set_checked(&mut self, checked: bool)
        ensures
            *final(self) == (CheckboxState { checked, ..*old(self) }),
    {
        self.checked = checked;
    }

    /// Get the checked value.
    pub fn value(&self) -> (r: bool)
        ensures
            r == self.checked,
    {
        self.checked
    }

    /// Set checked value.
    pub fn set_value(&mut self, checked: bool)
        ensures
            *final(self) == (CheckboxState { checked, ..*old(self) }),
    {
        self.checked = checked;
    }

    /// Flip the checkbox.
    pub fn flip_checked(&mut self)
        ensures
            *final(self) == (CheckboxState { checked: !old(self).checked, ..*old(self) }),
    {
        self.checked = !self.checked;
    }

    /// Sets the areas for rendering into `area`, with `inner` the area
    /// inside the block: the check mark of length `chk_len` takes the
    /// first line's start, the text the rest after one column of space.
    /// A `checked` given by the widget overrides the state.
    pub fn layout(&mut self, area: Rect, inner: Rect, chk_len: u16, checked: Option<bool>)
        requires
            inner.x + chk_len + 1 <= u16::MAX,
        ensures
            final(self).area == area,
            final(self).inner == inner,
            final(self).check_area == (Rect { x: inner.x, y: inner.y, width: chk_len, height: 1 }),
            final(self).text_area == (Rect {
                x: (inner.x + chk_len + 1) as u16,
                y: inner.y,
                width: sat_sub(inner.width, (chk_len + 1) as u16),
                height: inner.height,
            }),
            final(self).checked == match checked {
                Some(c) => c,
                None => old(self).checked,
            },
            final(self).focused == old(self).focused,
    {
        self.area = area;
        self.inner = inner;
        self.check_area = Rect { x: inner.x, y: inner.y, width: chk_len, height: 1 };
        self.text_area = Rect {
            x: inner.x + chk_len + 1,
            y: inner.y,
            width: inner.width.saturating_sub(chk_len + 1),
            height: inner.height,
        };
        if let Some(checked) = checked {
            self.checked = checked;
        }
    }
}


/// Enter or space, without modifiers: the keys that flip a checkbox.
pub open spec fn is_flip_key(k: KeyPress) -> bool {
    k.is(KeyCode::Enter, false, false, false) || k.is(KeyCode::Char(' '), false, false, false)
}

impl CheckboxState {
    /// Handles a key press: with the focus, Enter and space flip the
    /// checkbox.
    pub fn handle_key(&mut self, key: KeyPress) -> (r: Outcome)
        ensures
            old(self).focused && is_flip_key(key) ==> *final(self) == (CheckboxState {
                checked: !old(self).checked,
                ..*old(self)
            }) && r == Outcome::Changed,
            !(old(self).focused && is_flip_key(key)) ==> *final(self) == *old(self) && r
                == Outcome::Continue,
    {
        if self.focused && !key.shift && !key.control && !key.alt && (key.code == KeyCode::Enter
            || key.code == KeyCode::Char(' ')) {
            self.flip_checked();
            Outcome::Changed
        } else {
            Outcome::Continue
        }
    }

    /// Handles a mouse event that the mouse tracker reports as a double
    /// click on the checkbox area, or not: a double click flips it.
    pub fn handle_mouse(&mut self, double_click: bool) -> (r: Outcome)
        ensures
            double_click ==> *final(self) == (CheckboxState {
                checked: !old(self).checked,
                ..*old(self)
            }) && r == Outcome::Changed,
            !double_click ==> *final(self) == *old(self) && r == Outcome::Continue,
    {
        if double_click {
            self.flip_checked();
            Outcome::Changed
        } else {
            Outcome::Continue
        }
    }
}

} // verus!

//!
//! Splits an area into multiple sub-areas and lets the user move
//! the splits: the bookkeeping of the split lengths.
//!
use crate::event::{KeyCode, KeyPress, MouseInput, Outcome};
use crate::geometry::{sat_sub, Direction, Position, Rect};
use vstd::prelude::*;

verus! {

/// Render variants for the splitter.
#[derive(Debug, Default, Clone, Copy, PartialEq, Eq, Structural)]
pub enum SplitType {
    /// Full splitter between the widgets, blank border.
    #[default]
    FullEmpty,
    /// Full splitter between the widgets, plain line border.
    FullPlain,
    /// Full splitter between the widgets, double line border.
    FullDouble,
    /// Full splitter between the widgets, thick line border.
    FullThick,
    /// Full splitter, single line on the inside of a half block.
    FullQuadrantInside,
    /// Full splitter, single line on the outside of a half block.
    FullQuadrantOutside,
    /// Minimal splitter: just the two marker chars rendered over
    /// the left/top widget. The widget gets the full area.
    Scroll,
    /// No splitter is rendered, fully manual mode.
    Widget,
}

/// Strategy for resizing the split-areas.
#[derive(Debug, Default, Clone, Copy, PartialEq, Eq, Structural)]
pub enum SplitResize {
    /// Limit moving a split to the two adjacent areas of the split.
    Neighbours,
    /// Allow all positions in the widget's area, minus the space
    /// needed to draw the splits.
    #[default]
    Full,
}

/// Width of a split.
pub const SPLIT_WIDTH: u16 = 1;

impl SplitType {
    /// Is this one of the full splitter variants?
    pub open spec fn spec_is_full(self) -> bool {
        !(self is Scroll || self is Widget)
    }

    /// Is this one of the full splitter variants?
    pub fn is_full(&self) -> (r: bool)
        ensures
            r == self.spec_is_full(),
    {
        match self {
            SplitType::FullEmpty => true,
            SplitType::FullPlain => true,
            SplitType::FullDouble => true,
            SplitType::FullThick => true,
            SplitType::FullQuadrantInside => true,
            SplitType::FullQuadrantOutside => true,
            SplitType::Scroll => false,
            SplitType::Widget => false,
        }
    }
}

/// Sum of a sequence of lengths.
pub open spec fn sum_u16(s: Seq<u16>) -> int
    decreases s.len(),
{
    if s.len() == 0 {
        0
    } else {
        sum_u16(s.drop_last()) + s.last()
    }
}

/// Sum of the first `k` lengths.
pub open spec fn prefix_sum(s: Seq<u16>, k: int) -> int {
    sum_u16(s.take(k))
}

/// Sums are never negative, and each element is at most the sum.
pub proof fn lemma_sum_bounds(s: Seq<u16>)
    ensures
        sum_u16(s) >= 0,
        forall|i: int| 0 <= i < s.len() ==> s[i] <= sum_u16(s),
    decreases s.len(),
{
    if s.len() > 0 {
        lemma_sum_bounds(s.drop_last());
        assert forall|i: int| 0 <= i < s.len() implies s[i] <= sum_u16(s) by {
            if i < s.len() - 1 {
                assert(s.drop_last()[i] == s[i]);
            }
        }
    }
}

/// Two different elements together are at most the sum.
pub proof fn lemma_sum_two(s: Seq<u16>, i: int, j: int)
    requires
        0 <= i < s.len(),
        0 <= j < s.len(),
        i != j,
    ensures
        s[i] + s[j] <= sum_u16(s),
{
    lemma_sum_bounds(s.update(i, 0));
    lemma_sum_update(s, i, 0);
    assert(s.update(i, 0)[j] == s[j]);
}

/// Replacing one element changes the sum by the difference.
pub proof fn lemma_sum_update(s: Seq<u16>, i: int, v: u16)
    requires
        0 <= i < s.len(),
    ensures
        sum_u16(s.update(i, v)) == sum_u16(s) - s[i] + v,
    decreases s.len(),
{
    if i == s.len() - 1 {
        assert(s.update(i, v).drop_last() =~= s.drop_last());
    } else {
        lemma_sum_update(s.drop_last(), i, v);
        assert(s.update(i, v).drop_last() =~= s.drop_last().update(i, v));
    }
}

/// A prefix one longer adds the next element.
pub proof fn lemma_prefix_step(s: Seq<u16>, k: int)
    requires
        0 <= k < s.len(),
    ensures
        prefix_sum(s, k + 1) == prefix_sum(s, k) + s[k],
{
    assert(s.take(k + 1).drop_last() =~= s.take(k));
}

/// The full prefix is the whole sum.
pub proof fn lemma_prefix_full(s: Seq<u16>)
    ensures
        prefix_sum(s, s.len() as int) == sum_u16(s),
{
    assert(s.take(s.len() as int) =~= s);
}

/// Prefix sums grow with the prefix.
pub proof fn lemma_prefix_mono(s: Seq<u16>, a: int, b: int)
    requires
        0 <= a <= b <= s.len(),
    ensures
        prefix_sum(s, a) <= prefix_sum(s, b),
    decreases b - a,
{
    if a < b {
        lemma_prefix_mono(s, a, b - 1);
        lemma_prefix_step(s, b - 1);
    }
}

/// First split at or after `from` that is not hidden.
pub open spec fn next_visible(hidden: Seq<u16>, from: int) -> Option<int>
    decreases hidden.len() - from,
{
    if from >= hidden.len() || from < 0 {
        None
    } else if hidden[from] == 0 {
        Some(from)
    } else {
        next_visible(hidden, from + 1)
    }
}

/// Last split before `to` that is not hidden.
pub open spec fn prev_visible(hidden: Seq<u16>, to: int) -> Option<int>
    decreases to,
{
    if to <= 0 || to > hidden.len() {
        None
    } else if hidden[to - 1] == 0 {
        Some(to - 1)
    } else {
        prev_visible(hidden, to - 1)
    }
}

proof fn lemma_next_visible_range(hidden: Seq<u16>, from: int)
    ensures
        next_visible(hidden, from) matches Some(j) ==> from <= j < hidden.len() && hidden[j] == 0,
    decreases hidden.len() - from,
{
    if 0 <= from < hidden.len() && hidden[from] != 0 {
        lemma_next_visible_range(hidden, from + 1);
    }
}

proof fn lemma_prev_visible_range(hidden: Seq<u16>, to: int)
    ensures
        prev_visible(hidden, to) matches Some(j) ==> 0 <= j < to && hidden[j] == 0,
    decreases to,
{
    if 0 < to <= hidden.len() && hidden[to - 1] != 0 {
        lemma_prev_visible_range(hidden, to - 1);
    }
}

/// Amount of length that hiding split `n` hands over to another area:
/// everything for the last area, all but the split itself otherwise.
pub open spec fn hide_amount(lengths: Seq<u16>, n: int) -> u16 {
    if n + 1 == lengths.len() {
        lengths[n]
    } else if lengths[n] >= SPLIT_WIDTH {
        (lengths[n] - SPLIT_WIDTH) as u16
    } else {
        0
    }
}

/// Area that receives the length of a hidden split: the first visible
/// one after it, or else the last visible one before it.
pub open spec fn hide_receiver(hidden: Seq<u16>, n: int) -> Option<int> {
    match next_visible(hidden, n + 1) {
        Some(j) => Some(j),
        None => prev_visible(hidden, n),
    }
}

/// Lengths, hidden lengths and result after hiding split `n`.
pub open spec fn hide_result(lengths: Seq<u16>, hidden: Seq<u16>, n: int) -> (Seq<u16>, Seq<u16>, bool) {
    let h = hide_amount(lengths, n);
    if hidden[n] != 0 {
        (lengths, hidden, false)
    } else if h > 0 && hide_receiver(hidden, n) is None {
        (lengths, hidden, false)
    } else {
        let given = if h > 0 {
            let j = hide_receiver(hidden, n)->0;
            lengths.update(j, (lengths[j] + h) as u16)
        } else {
            lengths
        };
        if n + 1 == lengths.len() {
            (given.update(n, 0), hidden.update(n, lengths[n]), true)
        } else {
            (given.update(n, SPLIT_WIDTH), hidden.update(n, h), true)
        }
    }
}

/// Take up to `show` from area `idx`, leaving at least the split width.
pub open spec fn steal_one(lengths: Seq<u16>, idx: int, show: u16) -> (Seq<u16>, u16) {
    if lengths[idx] > show + SPLIT_WIDTH {
        (lengths.update(idx, (lengths[idx] - show) as u16), 0)
    } else if lengths[idx] > SPLIT_WIDTH {
        (lengths.update(idx, SPLIT_WIDTH), (show - (lengths[idx] - SPLIT_WIDTH)) as u16)
    } else {
        (lengths, show)
    }
}

/// Taking length from the visible areas `idx, idx+1, ...` until
/// `show` is covered. Returns the new lengths and what is still missing.
pub open spec fn steal_right(lengths: Seq<u16>, hidden: Seq<u16>, idx: int, show: u16) -> (Seq<u16>, u16)
    decreases lengths.len() - idx,
{
    if idx >= lengths.len() || idx < 0 || show == 0 {
        (lengths, show)
    } else if hidden[idx] == 0 {
        let (l2, s2) = steal_one(lengths, idx, show);
        steal_right(l2, hidden, idx + 1, s2)
    } else {
        steal_right(lengths, hidden, idx + 1, show)
    }
}

/// Taking length from the visible areas `idx, idx-1, ...` until
/// `show` is covered. Returns the new lengths and what is still missing.
pub open spec fn steal_left(lengths: Seq<u16>, hidden: Seq<u16>, idx: int, show: u16) -> (Seq<u16>, u16)
    decreases idx + 1,
{
    if idx < 0 || idx >= lengths.len() || show == 0 {
        (lengths, show)
    } else if hidden[idx] == 0 {
        let (l2, s2) = steal_one(lengths, idx, show);
        steal_left(l2, hidden, idx - 1, s2)
    } else {
        steal_left(lengths, hidden, idx - 1, show)
    }
}

/// Lengths, hidden lengths and result after showing split `n`:
/// the hidden length is taken from the visible areas after it,
/// then from those before it, each keeping at least the split width.
pub open spec fn show_result(lengths: Seq<u16>, hidden: Seq<u16>, n: int) -> (Seq<u16>, Seq<u16>, bool) {
    let show = hidden[n];
    if show == 0 {
        (lengths, hidden, false)
    } else {
        let (l1, s1) = steal_right(lengths, hidden, n + 1, show);
        let (l2, s2) = steal_left(l1, hidden, n - 1, s1);
        (l2.update(n, (l2[n] + show - s2) as u16), hidden.update(n, 0), true)
    }
}

proof fn lemma_steal_one(lengths: Seq<u16>, idx: int, show: u16)
    requires
        0 <= idx < lengths.len(),
        show < u16::MAX,
    ensures
        ({
            let (l2, s2) = steal_one(lengths, idx, show);
            &&& l2.len() == lengths.len()
            &&& s2 <= show
            &&& sum_u16(l2) + (show - s2) == sum_u16(lengths)
            &&& forall|k: int| 0 <= k < lengths.len() && k != idx ==> l2[k] == lengths[k]
        }),
{
    let (l2, s2) = steal_one(lengths, idx, show);
    if lengths[idx] > show + SPLIT_WIDTH {
        lemma_sum_update(lengths, idx, (lengths[idx] - show) as u16);
    } else if lengths[idx] > SPLIT_WIDTH {
        lemma_sum_update(lengths, idx, SPLIT_WIDTH);
    }
}

proof fn lemma_steal_right(lengths: Seq<u16>, hidden: Seq<u16>, idx: int, show: u16)
    requires
        hidden.len() == lengths.len(),
        show < u16::MAX,
    ensures
        ({
            let (l2, s2) = steal_right(lengths, hidden, idx, show);
            &&& l2.len() == lengths.len()
            &&& s2 <= show
            &&& sum_u16(l2) + (show - s2) == sum_u16(lengths)
            &&& forall|k: int| 0 <= k < lengths.len() && (k < idx || hidden[k] != 0) ==> l2[k] == lengths[k]
        }),
    decreases lengths.len() - idx,
{
    if idx >= lengths.len() || idx < 0 || show == 0 {
    } else if hidden[idx] == 0 {
        let (l2, s2) = steal_one(lengths, idx, show);
        lemma_steal_one(lengths, idx, show);
        lemma_steal_right(l2, hidden, idx + 1, s2);
    } else {
        lemma_steal_right(lengths, hidden, idx + 1, show);
    }
}

proof fn lemma_steal_left(lengths: Seq<u16>, hidden: Seq<u16>, idx: int, show: u16)
    requires
        hidden.len() == lengths.len(),
        show < u16::MAX,
    ensures
        ({
            let (l2, s2) = steal_left(lengths, hidden, idx, show);
            &&& l2.len() == lengths.len()
            &&& s2 <= show
            &&& sum_u16(l2) + (show - s2) == sum_u16(lengths)
            &&& forall|k: int| 0 <= k < lengths.len() && (k > idx || hidden[k] != 0) ==> l2[k] == lengths[k]
        }),
    decreases idx + 1,
{
    if idx < 0 || idx >= lengths.len() || show == 0 {
    } else if hidden[idx] == 0 {
        let (l2, s2) = steal_one(lengths, idx, show);
        lemma_steal_one(lengths, idx, show);
        lemma_steal_left(l2, hidden, idx - 1, s2);
    } else {
        lemma_steal_left(lengths, hidden, idx - 1, show);
    }
}

/// Hiding a split keeps the total length of all areas, except for a
/// non-last area of length 0, which keeps the split width.
pub proof fn lemma_hide_keeps_total(lengths: Seq<u16>, hidden: Seq<u16>, n: int)
    requires
        hidden.len() == lengths.len(),
        0 <= n < lengths.len(),
        sum_u16(lengths) <= u16::MAX,
        n + 1 == lengths.len() || lengths[n] > 0,
    ensures
        sum_u16(hide_result(lengths, hidden, n).0) == sum_u16(lengths),
{
    let h = hide_amount(lengths, n);
    lemma_sum_bounds(lengths);
    if hidden[n] == 0 && !(h > 0 && hide_receiver(hidden, n) is None) {
        lemma_next_visible_range(hidden, n + 1);
        lemma_prev_visible_range(hidden, n);
        let given = if h > 0 {
            let j = hide_receiver(hidden, n)->0;
            lemma_sum_two(lengths, j, n);
            lemma_sum_update(lengths, j, (lengths[j] + h) as u16);
            lengths.update(j, (lengths[j] + h) as u16)
        } else {
            lengths
        };
        if n + 1 == lengths.len() {
            lemma_sum_update(given, n, 0);
        } else {
            lemma_sum_update(given, n, SPLIT_WIDTH);
        }
    }
}

/// Showing a split keeps the total length of all areas.
pub proof fn lemma_show_keeps_total(lengths: Seq<u16>, hidden: Seq<u16>, n: int)
    requires
        hidden.len() == lengths.len(),
        0 <= n < lengths.len(),
        sum_u16(lengths) <= u16::MAX,
        hidden[n] < u16::MAX,
    ensures
        sum_u16(show_result(lengths, hidden, n).0) == sum_u16(lengths),
{
    let show = hidden[n];
    if show != 0 {
        let (l1, s1) = steal_right(lengths, hidden, n + 1, show);
        lemma_steal_right(lengths, hidden, n + 1, show);
        let (l2, s2) = steal_left(l1, hidden, n - 1, s1);
        lemma_steal_left(l1, hidden, n - 1, s1);
        lemma_sum_bounds(l2);
        lemma_sum_update(l2, n, (l2[n] + show - s2) as u16);
    }
}

/// Showing a split right after hiding it restores all lengths, when
/// the area that received the hidden length is not shorter than the split.
pub proof fn lemma_show_undoes_hide(lengths: Seq<u16>, hidden: Seq<u16>, n: int)
    requires
        hidden.len() == lengths.len(),
        0 <= n < lengths.len(),
        sum_u16(lengths) <= u16::MAX,
        hidden[n] == 0,
        hide_amount(lengths, n) > 0,
        hide_receiver(hidden, n) matches Some(j) && lengths[j] >= SPLIT_WIDTH,
    ensures
        hide_result(lengths, hidden, n).2,
        show_result(hide_result(lengths, hidden, n).0, hide_result(lengths, hidden, n).1, n).0 == lengths,
        show_result(hide_result(lengths, hidden, n).0, hide_result(lengths, hidden, n).1, n).1 == hidden,
{
    let h = hide_amount(lengths, n);
    let j = hide_receiver(hidden, n)->0;
    lemma_next_visible_range(hidden, n + 1);
    lemma_prev_visible_range(hidden, n);
    lemma_sum_bounds(lengths);
    lemma_sum_two(lengths, j, n);
    let (l1, h1, b) = hide_result(lengths, hidden, n);
    assert(l1[j] == lengths[j] + h);
    assert(h1[n] == h);
    // the hidden flags of the other areas are unchanged
    assert forall|k: int| 0 <= k < hidden.len() && k != n implies h1[k] == hidden[k] by {}
    lemma_show_path(lengths, hidden, l1, h1, n, j, h);
}

proof fn lemma_next_visible_same(a: Seq<u16>, b: Seq<u16>, from: int, n: int)
    requires
        a.len() == b.len(),
        forall|k: int| 0 <= k < a.len() && k != n ==> a[k] == b[k],
        from > n,
    ensures
        next_visible(a, from) == next_visible(b, from),
    decreases a.len() - from,
{
    if 0 <= from < a.len() && a[from] != 0 {
        lemma_next_visible_same(a, b, from + 1, n);
    }
}

proof fn lemma_prev_visible_same(a: Seq<u16>, b: Seq<u16>, to: int, n: int)
    requires
        a.len() == b.len(),
        forall|k: int| 0 <= k < a.len() && k != n ==> a[k] == b[k],
        to <= n,
    ensures
        prev_visible(a, to) == prev_visible(b, to),
    decreases to,
{
    if 0 < to <= a.len() && a[to - 1] != 0 {
        lemma_prev_visible_same(a, b, to - 1, n);
    }
}

/// Stealing from the right stops at the first visible area when that
/// one can cover everything.
proof fn lemma_steal_right_first(lengths: Seq<u16>, hidden: Seq<u16>, idx: int, show: u16, j: int)
    requires
        hidden.len() == lengths.len(),
        next_visible(hidden, idx) == Some(j),
        0 < show,
        lengths[j] >= show + SPLIT_WIDTH,
    ensures
        steal_right(lengths, hidden, idx, show) == (lengths.update(j, (lengths[j] - show) as u16), 0u16),
    decreases lengths.len() - idx,
{
    lemma_next_visible_range(hidden, idx);
    if hidden[idx] != 0 {
        lemma_steal_right_first(lengths, hidden, idx + 1, show, j);
    } else {
        assert(idx == j);
        let (l2, s2) = steal_one(lengths, idx, show);
        assert(s2 == 0);
        assert(steal_right(l2, hidden, idx + 1, s2) == (l2, s2));
    }
}

/// Stealing from the right finds nothing when no visible area is there.
proof fn lemma_steal_right_none(lengths: Seq<u16>, hidden: Seq<u16>, idx: int, show: u16)
    requires
        hidden.len() == lengths.len(),
        next_visible(hidden, idx) is None,
    ensures
        steal_right(lengths, hidden, idx, show) == (lengths, show),
    decreases lengths.len() - idx,
{
    if idx < lengths.len() && idx >= 0 && show != 0 {
        lemma_steal_right_none(lengths, hidden, idx + 1, show);
    }
}

/// Stealing from the left stops at the first visible area when that
/// one can cover everything.
proof fn lemma_steal_left_first(lengths: Seq<u16>, hidden: Seq<u16>, idx: int, show: u16, j: int)
    requires
        hidden.len() == lengths.len(),
        prev_visible(hidden, idx + 1) == Some(j),
        0 < show,
        lengths[j] >= show + SPLIT_WIDTH,
    ensures
        steal_left(lengths, hidden, idx, show) == (lengths.update(j, (lengths[j] - show) as u16), 0u16),
    decreases idx + 1,
{
    lemma_prev_visible_range(hidden, idx + 1);
    if hidden[idx] != 0 {
        lemma_steal_left_first(lengths, hidden, idx - 1, show, j);
    } else {
        assert(idx == j);
        let (l2, s2) = steal_one(lengths, idx, show);
        assert(s2 == 0);
        assert(steal_left(l2, hidden, idx - 1, s2) == (l2, s2));
    }
}

proof fn lemma_show_path(
    lengths: Seq<u16>,
    hidden: Seq<u16>,
    l1: Seq<u16>,
    h1: Seq<u16>,
    n: int,
    j: int,
    h: u16,
)
    requires
        hidden.len() == lengths.len(),
        0 <= n < lengths.len(),
        hidden[n] == 0,
        h > 0,
        h == hide_amount(lengths, n),
        hide_receiver(hidden, n) == Some(j),
        0 <= j < lengths.len(),
        j != n,
        hidden[j] == 0,
        lengths[j] >= SPLIT_WIDTH,
        lengths[j] + h <= u16::MAX,
        h1.len() == hidden.len(),
        h1[n] == h,
        forall|k: int| 0 <= k < hidden.len() && k != n ==> h1[k] == hidden[k],
        hide_result(lengths, hidden, n) == (l1, h1, true),
    ensures
        show_result(l1, h1, n).0 == lengths,
        show_result(l1, h1, n).1 == hidden,
{
    lemma_next_visible_same(hidden, h1, n + 1, n);
    lemma_prev_visible_same(hidden, h1, n, n);
    let lj = lengths[j] + h;
    assert(l1[j] == lj);
    match next_visible(hidden, n + 1) {
        Some(jj) => {
            assert(jj == j);
            lemma_steal_right_first(l1, h1, n + 1, h, j);
            let (r1, s1) = steal_right(l1, h1, n + 1, h);
            assert(s1 == 0);
            assert(steal_left(r1, h1, n - 1, s1) == (r1, s1));
        },
        None => {
            lemma_steal_right_none(l1, h1, n + 1, h);
            assert(prev_visible(h1, n) == Some(j));
            lemma_steal_left_first(l1, h1, n - 1, h, j);
        },
    }
    let (r, hh, b) = show_result(l1, h1, n);
    assert(r =~= lengths);
    assert(hh =~= hidden);
}


/// State of a splitter.
#[derive(Debug, Clone)]
pub struct SplitState {
    /// Total area.
    pub area: Rect,
    /// Area inside the border.
    pub inner: Rect,
    /// The widget areas.
    pub widget_areas: Vec<Rect>,
    /// Areas used by the splits, for moving them.
    pub splitline_areas: Vec<Rect>,
    /// Start positions for drawing the split marks.
    pub splitline_mark_position: Vec<Position>,
    /// Offset of the mark from top/left.
    pub mark_offset: u16,
    /// Direction of the split.
    pub direction: Direction,
    /// How the split is rendered.
    pub split_type: SplitType,
    /// Resize strategy.
    pub resize: SplitResize,
    /// Lengths of the split-areas, each including its split.
    /// __read only__: use the methods to change it.
    pub area_length: Vec<u16>,
    /// Saved lengths of hidden splits; 0 for a visible split.
    /// __read only__: use the methods to change it.
    pub hidden_length: Vec<u16>,
    /// Does the splitter have the input focus?
    pub focused: bool,
    /// The split-marker that is moved with the keyboard.
    pub focus_marker: Option<usize>,
}

impl SplitState {
    /// Lengths of the split-areas.
    pub open spec fn lengths(&self) -> Seq<u16> {
        self.area_length@
    }

    /// Saved lengths of the hidden splits.
    pub open spec fn hidden(&self) -> Seq<u16> {
        self.hidden_length@
    }

    /// There is a hidden length for each area.
    pub open spec fn wf(&self) -> bool {
        self.hidden().len() == self.lengths().len()
    }

    /// The area lengths add up to a length that fits in `u16`.
    pub open spec fn fits(&self) -> bool {
        sum_u16(self.lengths()) <= u16::MAX
    }

    /// Everything except lengths, hidden lengths and focus marker is as in `other`.
    pub open spec fn same_frame(&self, other: &SplitState) -> bool {
        &&& self.area == other.area
        &&& self.inner == other.inner
        &&& self.widget_areas@ == other.widget_areas@
        &&& self.splitline_areas@ == other.splitline_areas@
        &&& self.splitline_mark_position@ == other.splitline_mark_position@
        &&& self.mark_offset == other.mark_offset
        &&& self.direction == other.direction
        &&& self.split_type == other.split_type
        &&& self.resize == other.resize
        &&& self.focused == other.focused
    }

    /// New state without any areas.
    pub fn new() -> (r: SplitState)
        ensures
            r.wf(),
            r.lengths() == Seq::<u16>::empty(),
            r.area == Rect::zero(),
            r.inner == Rect::zero(),
            r.widget_areas@ == Seq::<Rect>::empty(),
            r.splitline_areas@ == Seq::<Rect>::empty(),
            r.splitline_mark_position@ == Seq::<Position>::empty(),
            r.mark_offset == 0,
            r.direction == Direction::Vertical,
            r.split_type == SplitType::FullEmpty,
            r.resize == SplitResize::Full,
            !r.focused,
            r.focus_marker == None::<usize>,
    {
        let r = SplitState {
            area: Rect { x: 0, y: 0, width: 0, height: 0 },
            inner: Rect { x: 0, y: 0, width: 0, height: 0 },
            widget_areas: Vec::new(),
            splitline_areas: Vec::new(),
            splitline_mark_position: Vec::new(),
            mark_offset: 0,
            direction: Direction::Vertical,
            split_type: SplitType::FullEmpty,
            resize: SplitResize::Full,
            area_length: Vec::new(),
            hidden_length: Vec::new(),
            focused: false,
            focus_marker: None,
        };
        assert(r.hidden_length@.len() == 0);
        r
    }

    /// Number of split-areas
    pub fn len(&self) -> (r: usize)
        ensures
            r == self.lengths().len(),
    {
        self.area_length.len()
    }

    /// All area lengths.
    pub fn area_lengths(&self) -> (r: &[u16])
        ensures
            r@ == self.lengths(),
    {
        self.area_length.as_slice()
    }

    /// Set all area lengths.
    ///
    /// The list of hidden lengths is cut or filled with 0 to the
    /// same length.
    pub fn set_area_lengths(&mut self, lengths: Vec<u16>)
        requires
            old(self).wf(),
        ensures
            final(self).wf(),
            final(self).same_frame(old(self)),
            final(self).focus_marker == old(self).focus_marker,
            final(self).lengths() == lengths@,
            forall|i: int| 0 <= i < lengths@.len() ==> #[trigger] final(self).hidden()[i]
                == if i < old(self).hidden().len() { old(self).hidden()[i] } else { 0 },
    {
        self.area_length = lengths;
        while self.hidden_length.len() < self.area_length.len()
            invariant
                self.same_frame(old(self)),
                self.focus_marker == old(self).focus_marker,
                self.area_length@ == lengths@,
                forall|i: int| 0 <= i < self.hidden_length@.len() ==> #[trigger] self.hidden_length@[i]
                    == if i < old(self).hidden().len() { old(self).hidden()[i] } else { 0 },
                self.hidden_length@.len() >= old(self).hidden().len(),
            decreases self.area_length@.len() - self.hidden_length@.len(),
        {
            self.hidden_length.push(0);
        }
        while self.hidden_length.len() > self.area_length.len()
            invariant
                self.same_frame(old(self)),
                self.focus_marker == old(self).focus_marker,
                self.area_length@ == lengths@,
                self.hidden_length@.len() >= lengths@.len(),
                forall|i: int| 0 <= i < self.hidden_length@.len() ==> #[trigger] self.hidden_length@[i]
                    == if i < old(self).hidden().len() { old(self).hidden()[i] } else { 0 },
            decreases self.hidden_length@.len(),
        {
            self.hidden_length.pop();
        }
    }

    /// The saved lengths of hidden splits.
    pub fn hidden_lengths(&self) -> (r: &[u16])
        ensures
            r@ == self.hidden(),
    {
        self.hidden_length.as_slice()
    }

    /// Set the saved lengths of hidden splits.
    ///
    /// Takes at most as many values as there are areas, and fills
    /// missing values with 0.
    pub fn set_hidden_lengths(&mut self, hidden: Vec<u16>)
        requires
            old(self).wf(),
        ensures
            final(self).wf(),
            final(self).same_frame(old(self)),
            final(self).focus_marker == old(self).focus_marker,
            final(self).lengths() == old(self).lengths(),
            forall|i: int| 0 <= i < old(self).hidden().len() ==> #[trigger] final(self).hidden()[i]
                == if i < hidden@.len() { hidden@[i] } else { 0 },
    {
        let len = self.hidden_length.len();
        let mut i: usize = 0;
        while i < len
            invariant
                len == self.hidden_length@.len(),
                len == old(self).hidden().len(),
                i <= len,
                self.same_frame(old(self)),
                self.focus_marker == old(self).focus_marker,
                self.area_length@ == old(self).lengths(),
                forall|k: int| 0 <= k < i ==> #[trigger] self.hidden_length@[k]
                    == if k < hidden@.len() { hidden@[k] } else { 0 },
            decreases len - i,
        {
            let v = if i < hidden.len() { hidden[i] } else { 0 };
            self.hidden_length.set(i, v);
            i += 1;
        }
    }

    /// Length of the nth area, including its split.
    pub fn area_len(&self, n: usize) -> (r: u16)
        requires
            n < self.lengths().len(),
        ensures
            r == self.lengths()[n as int],
    {
        self.area_length[n]
    }

    /// Sum of all area lengths.
    pub fn total_area_len(&self) -> (r: u16)
        requires
            self.fits(),
        ensures
            r == sum_u16(self.lengths()),
    {
        proof {
            lemma_prefix_full(self.lengths());
        }
        self.prefix_len(self.area_length.len())
    }

    /// Sum of the first `k` area lengths.
    fn prefix_len(&self, k: usize) -> (r: u16)
        requires
            self.fits(),
            k <= self.lengths().len(),
        ensures
            r == prefix_sum(self.lengths(), k as int),
    {
        let ghost s = self.lengths();
        proof {
            lemma_prefix_mono(s, k as int, s.len() as int);
            lemma_prefix_full(s);
        }
        let mut acc: u16 = 0;
        let mut i: usize = 0;
        while i < k
            invariant
                s == self.lengths(),
                k <= s.len(),
                sum_u16(s) <= u16::MAX,
                prefix_sum(s, k as int) <= u16::MAX,
                i <= k,
                acc == prefix_sum(s, i as int),
            decreases k - i,
        {
            proof {
                lemma_prefix_step(s, i as int);
                lemma_prefix_mono(s, i as int + 1, k as int);
            }
            acc = acc + self.area_length[i];
            i += 1;
        }
        acc
    }

    /// Set the length of the nth area. Shows the area if it was hidden.
    pub fn set_area_len(&mut self, n: usize, len: u16)
        requires
            old(self).wf(),
            n < old(self).lengths().len(),
        ensures
            final(self).wf(),
            final(self).same_frame(old(self)),
            final(self).focus_marker == old(self).focus_marker,
            final(self).lengths() == old(self).lengths().update(n as int, len),
            final(self).hidden() == old(self).hidden().update(n as int, 0),
    {
        self.area_length.set(n, len);
        self.hidden_length.set(n, 0);
    }

    /// Position of the nth split: the sum of the lengths of the areas
    /// up to and including the nth.
    pub fn split_pos(&self, n: usize) -> (r: u16)
        requires
            self.fits(),
            n < self.lengths().len(),
        ensures
            r == prefix_sum(self.lengths(), n + 1),
    {
        let len = self.area_length.len();
        self.prefix_len(n + 1)
    }

    /// Is the nth split hidden?
    pub fn is_hidden(&self, n: usize) -> (r: bool)
        requires
            self.wf(),
            n < self.lengths().len(),
        ensures
            r == (self.hidden()[n as int] > 0),
    {
        self.hidden_length[n] > 0
    }

    /// First visible area at or after `from`.
    fn find_next_visible(&self, from: usize) -> (r: Option<usize>)
        requires
            self.wf(),
        ensures
            r == (match next_visible(self.hidden(), from as int) {
                Some(j) => Some(j as usize),
                None => None::<usize>,
            }),
    {
        let mut idx = from;
        while idx < self.hidden_length.len()
            invariant
                next_visible(self.hidden(), from as int) == next_visible(self.hidden(), idx as int),
                idx >= from,
            decreases self.hidden_length@.len() - idx,
        {
            if self.hidden_length[idx] == 0 {
                return Some(idx);
            }
            idx += 1;
        }
        None
    }

    /// Last visible area before `to`.
    fn find_prev_visible(&self, to: usize) -> (r: Option<usize>)
        requires
            self.wf(),
            to <= self.hidden().len(),
        ensures
            r == (match prev_visible(self.hidden(), to as int) {
                Some(j) => Some(j as usize),
                None => None::<usize>,
            }),
    {
        let mut idx = to;
        while idx > 0
            invariant
                idx <= to <= self.hidden().len(),
                prev_visible(self.hidden(), to as int) == prev_visible(self.hidden(), idx as int),
            decreases idx,
        {
            if self.hidden_length[idx - 1] == 0 {
                return Some(idx - 1);
            }
            idx -= 1;
        }
        None
    }

    /// Hide the split and add its area to the following visible area.
    /// If there is none, the previous visible area gets it.
    /// Leaves enough space to render the split.
    ///
    /// Returns false if the split is already hidden or there is no
    /// other visible area to take the length.
    pub fn hide_split(&mut self, n: usize) -> (r: bool)
        requires
            old(self).wf(),
            old(self).fits(),
            n < old(self).lengths().len(),
        ensures
            final(self).wf(),
            final(self).same_frame(old(self)),
            final(self).focus_marker == old(self).focus_marker,
            (final(self).lengths(), final(self).hidden(), r) == hide_result(old(self).lengths(), old(self).hidden(), n as int),
    {
        let ghost l0 = self.lengths();
        let ghost h0 = self.hidden();
        if self.hidden_length[n] != 0 {
            return false;
        }
        let len = self.area_length.len();
        let hide = if n + 1 == len {
            self.area_length[n]
        } else {
            self.area_length[n].saturating_sub(SPLIT_WIDTH)
        };
        if hide > 0 {
            let recv = match self.find_next_visible(n + 1) {
                Some(j) => Some(j),
                None => self.find_prev_visible(n),
            };
            match recv {
                Some(j) => {
                    proof {
                        lemma_next_visible_range(h0, n + 1);
                        lemma_prev_visible_range(h0, n as int);
                        lemma_sum_two(l0, j as int, n as int);
                    }
                    let v = self.area_length[j] + hide;
                    self.area_length.set(j, v);
                },
                None => {
                    return false;
                },
            }
        }
        if n + 1 == len {
            let v = self.area_length[n];
            self.hidden_length.set(n, v);
            self.area_length.set(n, 0);
        } else {
            self.hidden_length.set(n, hide);
            self.area_length.set(n, SPLIT_WIDTH);
        }
        true
    }

    /// Take up to `show` from area `idx`, leaving at least the split width.
    fn steal_from(&mut self, idx: usize, show: u16) -> (r: u16)
        requires
            old(self).wf(),
            idx < old(self).lengths().len(),
            show < u16::MAX,
        ensures
            final(self).wf(),
            final(self).same_frame(old(self)),
            final(self).focus_marker == old(self).focus_marker,
            final(self).hidden() == old(self).hidden(),
            (final(self).lengths(), r) == steal_one(old(self).lengths(), idx as int, show),
    {
        let l = self.area_length[idx];
        if l > show + SPLIT_WIDTH {
            self.area_length.set(idx, l - show);
            0
        } else if l > SPLIT_WIDTH {
            self.area_length.set(idx, SPLIT_WIDTH);
            show - (l - SPLIT_WIDTH)
        } else {
            show
        }
    }

    /// Show a hidden split.
    ///
    /// It first takes length from the visible areas after it, then
    /// from those before it, each keeping at least the split width.
    /// Returns false if the split was not hidden.
    pub fn show_split(&mut self, n: usize) -> (r: bool)
        requires
            old(self).wf(),
            old(self).fits(),
            n < old(self).lengths().len(),
            old(self).hidden()[n as int] < u16::MAX,
        ensures
            final(self).wf(),
            final(self).same_frame(old(self)),
            final(self).focus_marker == old(self).focus_marker,
            (final(self).lengths(), final(self).hidden(), r) == show_result(old(self).lengths(), old(self).hidden(), n as int),
    {
        let ghost l0 = self.lengths();
        let ghost h0 = self.hidden();
        let show0 = self.hidden_length[n];
        if show0 == 0 {
            return false;
        }
        let len = self.area_length.len();
        let mut show = show0;
        let mut idx = n + 1;
        while idx < len && show > 0
            invariant
                self.wf(),
                self.same_frame(old(self)),
                self.focus_marker == old(self).focus_marker,
                self.hidden() == h0,
                len == l0.len(),
                self.lengths().len() == len,
                n < len,
                idx > n,
                idx <= len,
                show <= show0,
                show0 < u16::MAX,
                steal_right(l0, h0, n + 1, show0) == steal_right(self.lengths(), h0, idx as int, show),
            decreases len - idx,
        {
            if self.hidden_length[idx] == 0 {
                show = self.steal_from(idx, show);
            }
            idx += 1;
        }
        proof {
            assert(steal_right(l0, h0, n + 1, show0) == (self.lengths(), show));
        }
        let ghost l1 = self.lengths();
        let ghost s1 = show;
        let mut k = n;
        while k > 0 && show > 0
            invariant
                self.wf(),
                self.same_frame(old(self)),
                self.focus_marker == old(self).focus_marker,
                self.hidden() == h0,
                len == l0.len(),
                self.lengths().len() == len,
                n < len,
                k <= n,
                show <= show0,
                show0 < u16::MAX,
                steal_left(l1, h0, n - 1, s1) == steal_left(self.lengths(), h0, k - 1, show),
            decreases k,
        {
            if self.hidden_length[k - 1] == 0 {
                show = self.steal_from(k - 1, show);
            }
            k -= 1;
        }
        proof {
            assert(steal_left(l1, h0, n - 1, s1) == (self.lengths(), show));
            lemma_steal_right(l0, h0, n + 1, show0);
            lemma_steal_left(l1, h0, n - 1, s1);
            lemma_sum_bounds(self.lengths());
        }
        let v = self.area_length[n] + (show0 - show);
        self.area_length.set(n, v);
        self.hidden_length.set(n, 0);
        true
    }

    /// The split marked after the marked one, wrapping around past the
    /// last split.
    pub open spec fn next_marker(&self) -> usize {
        let m = match self.focus_marker {
            Some(m) => m as int,
            None => 0,
        };
        let last = if self.lengths().len() >= 1 { self.lengths().len() - 1 } else { 0 };
        if m + 1 >= last { 0usize } else { (m + 1) as usize }
    }

    /// The split marked before the marked one, wrapping around to the
    /// last split.
    pub open spec fn prev_marker(&self) -> usize {
        let m = match self.focus_marker {
            Some(m) => m as int,
            None => 0,
        };
        let len = self.lengths().len() as int;
        if m == 0 {
            (if len >= 2 { len - 2 } else { 0 }) as usize
        } else {
            (m - 1) as usize
        }
    }

    /// Select the next split for keyboard adjustment, wrapping around.
    /// Only works when focused.
    pub fn select_next_split(&mut self) -> (r: bool)
        ensures
            *final(self) == (SplitState { focus_marker: final(self).focus_marker, ..*old(self) }),
            r == old(self).focused,
            old(self).focused ==> final(self).focus_marker == Some(old(self).next_marker()),
            !old(self).focused ==> final(self).focus_marker == old(self).focus_marker,
    {
        if self.focused {
            let n = match self.focus_marker { Some(m) => m, None => 0 };
            let last = self.area_length.len().saturating_sub(1);
            if n >= last || n + 1 >= last {
                self.focus_marker = Some(0);
            } else {
                self.focus_marker = Some(n + 1);
            }
            true
        } else {
            false
        }
    }

    /// Select the previous split for keyboard adjustment, wrapping around.
    /// Only works when focused.
    pub fn select_prev_split(&mut self) -> (r: bool)
        ensures
            *final(self) == (SplitState { focus_marker: final(self).focus_marker, ..*old(self) }),
            r == old(self).focused,
            old(self).focused ==> final(self).focus_marker == Some(old(self).prev_marker()),
            !old(self).focused ==> final(self).focus_marker == old(self).focus_marker,
    {
        if self.focused {
            let n = match self.focus_marker { Some(m) => m, None => 0 };
            if n == 0 {
                self.focus_marker = Some(self.area_length.len().saturating_sub(1).saturating_sub(1));
            } else {
                self.focus_marker = Some(n - 1);
            }
            true
        } else {
            false
        }
    }

    /// Widget area, split area and mark position for an area that
    /// starts at `total` and has length `length`, before adjusting for
    /// the split type.
    pub open spec fn raw_parts(&self, total: int, length: u16) -> (Rect, Rect, Position) {
        let inner = self.inner;
        let before = sat_sub_int(length as int, SPLIT_WIDTH as int);
        let one = if length < 1 { length } else { 1u16 };
        if self.direction == Direction::Horizontal {
            (
                Rect::spec_new((inner.x + total) as u16, inner.y, length, inner.height),
                Rect::spec_new((inner.x + total + before) as u16, inner.y, one, inner.height),
                Position { x: (inner.x + total + before) as u16, y: (inner.y + self.mark_offset) as u16 },
            )
        } else {
            (
                Rect::spec_new(inner.x, (inner.y + total) as u16, inner.width, length),
                Rect::spec_new(inner.x, (inner.y + total + before) as u16, inner.width, one),
                Position { x: (inner.x + self.mark_offset) as u16, y: (inner.y + total + before) as u16 },
            )
        }
    }

    /// The parts of area `i` adjusted for the split type.
    pub open spec fn adjusted_parts(&self, i: int) -> (Rect, Rect, Position) {
        let (area, split, mark) = self.raw_parts(prefix_sum(self.lengths(), i), self.lengths()[i]);
        adjust_parts(self.direction, self.split_type, area, split, mark)
    }

    /// The areas get cut at the end of the screen in the cross direction;
    /// then all of them get the cross length of the inner area.
    pub open spec fn cross_fix(&self) -> bool {
        &&& self.lengths().len() > 0
        &&& if self.direction == Direction::Horizontal {
            self.inner.y + self.inner.height > u16::MAX
        } else {
            self.inner.x + self.inner.width > u16::MAX
        }
    }

    /// Apply the cross length of the inner area if needed.
    pub open spec fn fix_cross(&self, r: Rect) -> Rect {
        if self.cross_fix() {
            if self.direction == Direction::Horizontal {
                Rect { height: self.inner.height, ..r }
            } else {
                Rect { width: self.inner.width, ..r }
            }
        } else {
            r
        }
    }

    /// The widget area for area `i` after `layout_from_widths`.
    pub open spec fn widget_area_of(&self, i: int) -> Rect {
        if i + 1 == self.lengths().len() {
            self.fix_cross(self.raw_parts(prefix_sum(self.lengths(), i), self.lengths()[i]).0)
        } else {
            self.fix_cross(self.adjusted_parts(i).0)
        }
    }

    /// The areas fit on the screen along the split direction.
    pub open spec fn layout_fits(&self) -> bool {
        let len = self.lengths().len();
        len > 0 ==> if self.direction == Direction::Horizontal {
            &&& self.inner.x + prefix_sum(self.lengths(), len - 1) <= u16::MAX
            &&& len > 1 ==> self.inner.y + self.mark_offset <= u16::MAX
        } else {
            &&& self.inner.y + prefix_sum(self.lengths(), len - 1) <= u16::MAX
            &&& len > 1 ==> self.inner.x + self.mark_offset <= u16::MAX
        }
    }

    /// Build the widget areas, split areas and mark positions from
    /// the inner area and the area lengths.
    pub fn layout_from_widths(&mut self)
        requires
            old(self).wf(),
            old(self).fits(),
            old(self).layout_fits(),
        ensures
            final(self).wf(),
            final(self).lengths() == old(self).lengths(),
            final(self).hidden() == old(self).hidden(),
            final(self).area == old(self).area,
            final(self).inner == old(self).inner,
            final(self).mark_offset == old(self).mark_offset,
            final(self).direction == old(self).direction,
            final(self).split_type == old(self).split_type,
            final(self).resize == old(self).resize,
            final(self).focused == old(self).focused,
            final(self).focus_marker == old(self).focus_marker,
            final(self).widget_areas@.len() == old(self).lengths().len(),
            final(self).splitline_areas@.len() == sat_sub_int(old(self).lengths().len() as int, 1),
            final(self).splitline_mark_position@.len() == sat_sub_int(old(self).lengths().len() as int, 1),
            forall|i: int| 0 <= i < old(self).lengths().len() ==>
                #[trigger] final(self).widget_areas@[i] == old(self).widget_area_of(i),
            forall|i: int| 0 <= i < old(self).lengths().len() - 1 ==>
                #[trigger] final(self).splitline_areas@[i] == old(self).fix_cross(old(self).adjusted_parts(i).1),
            forall|i: int| 0 <= i < old(self).lengths().len() - 1 ==>
                #[trigger] final(self).splitline_mark_position@[i] == old(self).adjusted_parts(i).2,
    {
        let ghost l0 = self.lengths();
        let len = self.area_length.len();
        let mut widget_areas: Vec<Rect> = Vec::new();
        let mut splitline_areas: Vec<Rect> = Vec::new();
        let mut marks: Vec<Position> = Vec::new();
        let inner = self.inner;
        let last = if len > 0 { len - 1 } else { 0 };
        proof {
            lemma_prefix_full(l0);
            lemma_prefix_mono(l0, last as int, len as int);
        }
        let mut total: u16 = 0;
        let mut i: usize = 0;
        while i < last
            invariant
                l0 == self.lengths(),
                *self == *old(self),
                self.wf(),
                len == l0.len(),
                last == if len > 0 { len - 1 } else { 0 },
                i <= last,
                inner == self.inner,
                self.layout_fits(),
                sum_u16(l0) <= u16::MAX,
                total == prefix_sum(l0, i as int),
                widget_areas@.len() == i,
                splitline_areas@.len() == i,
                marks@.len() == i,
                forall|k: int| 0 <= k < i ==> #[trigger] widget_areas@[k] == self.adjusted_parts(k).0,
                forall|k: int| 0 <= k < i ==> #[trigger] splitline_areas@[k] == self.adjusted_parts(k).1,
                forall|k: int| 0 <= k < i ==> #[trigger] marks@[k] == self.adjusted_parts(k).2,
            decreases last - i,
        {
            proof {
                lemma_prefix_step(l0, i as int);
                lemma_prefix_mono(l0, i + 1, last as int);
            }
            let length = self.area_length[i];
            let before = length.saturating_sub(SPLIT_WIDTH);
            let one = if length < 1 { length } else { 1 };
            let (area, split, mark) = if self.direction == Direction::Horizontal {
                (
                    Rect::new(inner.x + total, inner.y, length, inner.height),
                    Rect::new(inner.x + total + before, inner.y, one, inner.height),
                    Position::new(inner.x + total + before, inner.y + self.mark_offset),
                )
            } else {
                (
                    Rect::new(inner.x, inner.y + total, inner.width, length),
                    Rect::new(inner.x, inner.y + total + before, inner.width, one),
                    Position::new(inner.x + self.mark_offset, inner.y + total + before),
                )
            };
            let (area, split, mark) = adjust_for_split_type(self.direction, self.split_type, area, split, mark);
            widget_areas.push(area);
            splitline_areas.push(split);
            marks.push(mark);
            total = total + length;
            i += 1;
        }
        if len > 0 {
            let length = self.area_length[last];
            let area = if self.direction == Direction::Horizontal {
                Rect::new(inner.x + total, inner.y, length, inner.height)
            } else {
                Rect::new(inner.x, inner.y + total, inner.width, length)
            };
            widget_areas.push(area);
        }
        // Set 2nd dimension too, if necessary.
        if len > 0 {
            let test = widget_areas[0];
            let fix = if self.direction == Direction::Horizontal {
                test.height != inner.height
            } else {
                test.width != inner.width
            };
            if fix {
                set_cross_len(&mut widget_areas, self.direction, inner);
                set_cross_len(&mut splitline_areas, self.direction, inner);
            }
        }
        self.widget_areas = widget_areas;
        self.splitline_areas = splitline_areas;
        self.splitline_mark_position = marks;
    }

    /// The requested split move can be done without overflow.
    pub open spec fn split_pos_ok(&self, n: int, pos: int) -> bool {
        n + 1 < self.lengths().len() ==> match self.resize {
            SplitResize::Neighbours => neighbour_ok(self.lengths(), n),
            SplitResize::Full => full_ok(self.lengths(), self.hidden(), n, pos),
        }
    }

    /// Lengths after moving split `n` to `pos` with the resize strategy.
    pub open spec fn split_pos_result(&self, n: int, pos: int) -> Seq<u16> {
        if n + 1 >= self.lengths().len() {
            self.lengths()
        } else {
            match self.resize {
                SplitResize::Neighbours => neighbour_lengths(self.lengths(), n, pos),
                SplitResize::Full => full_lengths(self.lengths(), self.hidden(), n, pos),
            }
        }
    }

    /// Sets the position of the nth split.
    ///
    /// Split `n` marks the gap between area `n` and `n+1`; the last area
    /// has no split and a request for it is ignored. Depending on the
    /// resize strategy the allowed positions are limited.
    pub fn set_split_pos(&mut self, n: usize, pos: u16)
        requires
            old(self).wf(),
            old(self).fits(),
            n < usize::MAX,
            old(self).split_pos_ok(n as int, pos as int),
        ensures
            final(self).wf(),
            final(self).fits(),
            final(self).same_frame(old(self)),
            final(self).focus_marker == old(self).focus_marker,
            final(self).hidden() == old(self).hidden(),
            final(self).lengths() == old(self).split_pos_result(n as int, pos as int),
            sum_u16(final(self).lengths()) == sum_u16(old(self).lengths()),
    {
        if n + 1 >= self.area_length.len() {
            return;
        }
        proof {
            match self.resize {
                SplitResize::Neighbours => lemma_neighbour_keeps_total(self.lengths(), n as int, pos as int),
                SplitResize::Full => lemma_full_keeps_total(self.lengths(), self.hidden(), n as int, pos as int),
            }
        }
        match self.resize {
            SplitResize::Neighbours => {
                self.set_split_pos_neighbour(n, pos);
            },
            SplitResize::Full => {
                self.set_split_pos_full(n, pos);
            },
        }
    }

    /// Move the nth split position towards the start.
    /// Returns whether the position changed.
    pub fn move_split_left(&mut self, n: usize, delta: u16) -> (r: bool)
        requires
            old(self).wf(),
            old(self).fits(),
            n < old(self).lengths().len(),
            delta <= prefix_sum(old(self).lengths(), n + 1),
            old(self).split_pos_ok(n as int, prefix_sum(old(self).lengths(), n + 1) - delta),
        ensures
            final(self).wf(),
            final(self).fits(),
            final(self).same_frame(old(self)),
            final(self).focus_marker == old(self).focus_marker,
            final(self).hidden() == old(self).hidden(),
            final(self).lengths() == old(self).split_pos_result(n as int, prefix_sum(old(self).lengths(), n + 1) - delta),
            r == (prefix_sum(old(self).lengths(), n + 1) != prefix_sum(final(self).lengths(), n + 1)),
    {
        let len = self.area_length.len();
        let split_pos = self.split_pos(n);
        self.set_split_pos(n, split_pos - delta);
        split_pos != self.split_pos(n)
    }

    /// Move the nth split position towards the end.
    /// Returns whether the position changed.
    pub fn move_split_right(&mut self, n: usize, delta: u16) -> (r: bool)
        requires
            old(self).wf(),
            old(self).fits(),
            n < old(self).lengths().len(),
            prefix_sum(old(self).lengths(), n + 1) + delta <= u16::MAX,
            old(self).split_pos_ok(n as int, prefix_sum(old(self).lengths(), n + 1) + delta),
        ensures
            final(self).wf(),
            final(self).fits(),
            final(self).same_frame(old(self)),
            final(self).focus_marker == old(self).focus_marker,
            final(self).hidden() == old(self).hidden(),
            final(self).lengths() == old(self).split_pos_result(n as int, prefix_sum(old(self).lengths(), n + 1) + delta),
            r == (prefix_sum(old(self).lengths(), n + 1) != prefix_sum(final(self).lengths(), n + 1)),
    {
        let len = self.area_length.len();
        let split_pos = self.split_pos(n);
        self.set_split_pos(n, split_pos + delta);
        split_pos != self.split_pos(n)
    }

    /// Move the nth split position up; same as `move_split_left`.
    pub fn move_split_up(&mut self, n: usize, delta: u16) -> (r: bool)
        requires
            old(self).wf(),
            old(self).fits(),
            n < old(self).lengths().len(),
            delta <= prefix_sum(old(self).lengths(), n + 1),
            old(self).split_pos_ok(n as int, prefix_sum(old(self).lengths(), n + 1) - delta),
        ensures
            final(self).wf(),
            final(self).fits(),
            final(self).same_frame(old(self)),
            final(self).focus_marker == old(self).focus_marker,
            final(self).hidden() == old(self).hidden(),
            final(self).lengths() == old(self).split_pos_result(n as int, prefix_sum(old(self).lengths(), n + 1) - delta),
            r == (prefix_sum(old(self).lengths(), n + 1) != prefix_sum(final(self).lengths(), n + 1)),
    {
        self.move_split_left(n, delta)
    }

    /// Move the nth split position down; same as `move_split_right`.
    pub fn move_split_down(&mut self, n: usize, delta: u16) -> (r: bool)
        requires
            old(self).wf(),
            old(self).fits(),
            n < old(self).lengths().len(),
            prefix_sum(old(self).lengths(), n + 1) + delta <= u16::MAX,
            old(self).split_pos_ok(n as int, prefix_sum(old(self).lengths(), n + 1) + delta),
        ensures
            final(self).wf(),
            final(self).fits(),
            final(self).same_frame(old(self)),
            final(self).focus_marker == old(self).focus_marker,
            final(self).hidden() == old(self).hidden(),
            final(self).lengths() == old(self).split_pos_result(n as int, prefix_sum(old(self).lengths(), n + 1) + delta),
            r == (prefix_sum(old(self).lengths(), n + 1) != prefix_sum(final(self).lengths(), n + 1)),
    {
        self.move_split_right(n, delta)
    }

    /// Split position within the inner area that a screen position
    /// stands for, clamped to the inner area.
    pub open spec fn screen_to_split_pos(&self, pos: (u16, u16)) -> int {
        if self.direction == Direction::Horizontal {
            if pos.0 < self.inner.x {
                0
            } else if pos.0 < self.inner.spec_right() {
                pos.0 - self.inner.x
            } else {
                self.inner.width as int
            }
        } else {
            if pos.1 < self.inner.y {
                0
            } else if pos.1 < self.inner.spec_bottom() {
                pos.1 - self.inner.y
            } else {
                self.inner.height as int
            }
        }
    }

    /// Set the position of the nth split from a screen position.
    ///
    /// Does nothing for a hidden split. Returns whether the position
    /// changed.
    pub fn set_screen_split_pos(&mut self, n: usize, pos: (u16, u16)) -> (r: bool)
        requires
            old(self).wf(),
            old(self).fits(),
            n < old(self).lengths().len(),
            old(self).hidden()[n as int] == 0 ==> old(self).split_pos_ok(n as int, old(self).screen_to_split_pos(pos)),
        ensures
            final(self).wf(),
            final(self).fits(),
            final(self).same_frame(old(self)),
            final(self).focus_marker == old(self).focus_marker,
            final(self).hidden() == old(self).hidden(),
            old(self).hidden()[n as int] > 0 ==> final(self).lengths() == old(self).lengths() && !r,
            old(self).hidden()[n as int] == 0 ==> final(self).lengths() == old(self).split_pos_result(n as int, old(self).screen_to_split_pos(pos))
                && r == (prefix_sum(old(self).lengths(), n + 1) != prefix_sum(final(self).lengths(), n + 1)),
    {
        if self.is_hidden(n) {
            return false;
        }
        let p = if self.direction == Direction::Horizontal {
            if pos.0 < self.inner.x {
                0
            } else if pos.0 < self.inner.right() {
                pos.0 - self.inner.x
            } else {
                self.inner.width
            }
        } else {
            if pos.1 < self.inner.y {
                0
            } else if pos.1 < self.inner.bottom() {
                pos.1 - self.inner.y
            } else {
                self.inner.height
            }
        };
        let len = self.area_length.len();
        let split_pos = self.split_pos(n);
        self.set_split_pos(n, p);
        split_pos != self.split_pos(n)
    }

    /// Sets the position of the nth split, allowing the full range of
    /// the splitter minus the space needed to render the splits.
    ///
    /// Splits before `n` that are at or after the new position are pushed
    /// towards the start, splits after `n` that are at or before it are
    /// pushed towards the end; hidden and empty areas are packed.
    pub fn set_split_pos_full(&mut self, n: usize, pos: u16)
        requires
            old(self).wf(),
            old(self).fits(),
            n + 1 < old(self).lengths().len(),
            full_ok(old(self).lengths(), old(self).hidden(), n as int, pos as int),
        ensures
            final(self).wf(),
            final(self).same_frame(old(self)),
            final(self).focus_marker == old(self).focus_marker,
            final(self).hidden() == old(self).hidden(),
            final(self).lengths() == full_lengths(old(self).lengths(), old(self).hidden(), n as int, pos as int),
    {
        let ghost l0 = self.lengths();
        let ghost h0 = self.hidden();
        let total = self.total_area_len();
        let len = self.area_length.len();
        let pc = len - 1;
        proof {
            lemma_full_fold_shape(l0, h0, n as int, pos as int, 0);
            lemma_full_fold_shape(l0, h0, n as int, pos as int, pc as int);
            lemma_prefix_full(l0);
        }

        // create dual
        let mut pos_vec: Vec<u16> = Vec::new();
        let mut pp: u16 = 0;
        let mut i: usize = 0;
        while i < pc
            invariant
                l0 == self.lengths(),
                len == l0.len(),
                pc == len - 1,
                total == sum_u16(l0),
                prefix_sum(l0, len as int) == sum_u16(l0),
                i <= pc,
                pp == prefix_sum(l0, i as int),
                pos_vec@.len() == i,
                forall|k: int| 0 <= k < i ==> pos_vec@[k] as int == #[trigger] prefix_sum(l0, k + 1),
            decreases pc - i,
        {
            proof {
                lemma_prefix_step(l0, i as int);
                lemma_prefix_mono(l0, i + 1, len as int);
            }
            pp = pp + self.area_length[i];
            pos_vec.push(pp);
            i += 1;
        }

        let mut min_pos: u16 = SPLIT_WIDTH;
        let mut i: usize = 0;
        while i < pc
            invariant
                l0 == self.lengths(),
                h0 == self.hidden(),
                self.wf(),
                len == l0.len(),
                pc == len - 1,
                n < pc,
                total == sum_u16(l0),
                total <= u16::MAX,
                i <= pc,
                pos_vec@.len() == pc,
                full_fold(l0, h0, n as int, pos as int, pc as int).2,
                min_pos as int == full_fold(l0, h0, n as int, pos as int, i as int).1,
                forall|k: int| 0 <= k < pc ==> pos_vec@[k] as int == #[trigger] full_fold(l0, h0, n as int, pos as int, i as int).0[k],
            decreases pc - i,
        {
            proof {
                lemma_full_fold_ok_mono(l0, h0, n as int, pos as int, i + 1, pc as int);
                lemma_full_fold_shape(l0, h0, n as int, pos as int, i as int);
                lemma_full_fold_shape(l0, h0, n as int, pos as int, i + 1);
            }
            let ghost before = full_fold(l0, h0, n as int, pos as int, i as int);
            if i < n {
                if self.area_length[i] == 0 {
                    pos_vec.set(i, min_pos);
                } else if self.hidden_length[i] != 0 {
                    pos_vec.set(i, min_pos);
                    min_pos += SPLIT_WIDTH;
                } else {
                    if pos_vec[i] >= pos {
                        let rest_area_count = n - (i + 1);
                        let rest_area_width = rest_area_count as u16 * SPLIT_WIDTH;
                        let below = pos.saturating_sub(SPLIT_WIDTH).saturating_sub(rest_area_width);
                        let p = if min_pos >= below { min_pos } else { below };
                        pos_vec.set(i, p);
                        min_pos += SPLIT_WIDTH;
                    }
                }
            } else if i == n {
                let rest_area_count = pc - (i + 1);
                let rest_area_width = rest_area_count as u16 * SPLIT_WIDTH;
                let rest_len = total - (min_pos + 1);
                let rest_len = rest_len - rest_area_width;
                let rest_len = rest_len + SPLIT_WIDTH;
                let max_pos = min_pos + rest_len;
                let p = if pos < min_pos { min_pos } else { pos };
                let p = if p > max_pos { max_pos } else { p };
                pos_vec.set(i, p);
                min_pos = p + SPLIT_WIDTH;
            } else {
                if self.area_length[i] == 0 {
                    pos_vec.set(i, min_pos);
                } else if self.hidden_length[i] != 0 {
                    pos_vec.set(i, min_pos);
                    min_pos += SPLIT_WIDTH;
                } else {
                    if pos_vec[i] <= pos {
                        pos_vec.set(i, min_pos);
                        min_pos += SPLIT_WIDTH;
                    }
                }
            }
            i += 1;
        }

        // revert dual
        let ghost pv = full_positions(l0, h0, n as int, pos as int);
        let ghost target = full_lengths(l0, h0, n as int, pos as int);
        proof {
            lemma_positions_bounds(pv, total as int);
        }
        let mut i: usize = 0;
        while i < pc
            invariant
                h0 == self.hidden(),
                self.wf(),
                len == self.lengths().len(),
                pc == len - 1,
                total == sum_u16(l0),
                total <= u16::MAX,
                i <= pc,
                pos_vec@.len() == pc,
                pv.len() == pc,
                ordered(pv),
                forall|k: int| 0 <= k < pc ==> 0 <= #[trigger] pv[k] <= total,
                target == lengths_from_positions(pv, total as int),
                forall|k: int| 0 <= k < pc ==> pos_vec@[k] as int == #[trigger] pv[k],
                forall|k: int| 0 <= k < i ==> self.lengths()[k] == #[trigger] target[k],
                self.same_frame(old(self)),
                self.focus_marker == old(self).focus_marker,
            decreases pc - i,
        {
            if i > 0 {
                assert(pv[i - 1] <= pv[i as int]);
                let v = pos_vec[i] - pos_vec[i - 1];
                self.area_length.set(i, v);
            } else {
                let v = pos_vec[i];
                self.area_length.set(i, v);
            }
            i += 1;
        }
        let v = total - pos_vec[pc - 1];
        self.area_length.set(pc, v);
        assert(self.lengths() =~= target);
    }

    /// Sets the position of the nth split, limited to the two areas
    /// next to the split.
    ///
    /// The split stays at least the split width after the previous split,
    /// and, unless the next area is the last one, at least the split width
    /// before the next split.
    pub fn set_split_pos_neighbour(&mut self, n: usize, pos: u16)
        requires
            old(self).wf(),
            old(self).fits(),
            n + 1 < old(self).lengths().len(),
            neighbour_ok(old(self).lengths(), n as int),
        ensures
            final(self).wf(),
            final(self).same_frame(old(self)),
            final(self).focus_marker == old(self).focus_marker,
            final(self).hidden() == old(self).hidden(),
            final(self).lengths() == neighbour_lengths(old(self).lengths(), n as int, pos as int),
    {
        let ghost l0 = self.lengths();
        let len = self.area_length.len();
        proof {
            lemma_prefix_mono(l0, n as int, n + 1);
            lemma_prefix_mono(l0, n + 1, n + 2);
            lemma_prefix_mono(l0, n + 2, len as int);
            lemma_prefix_full(l0);
            if n > 0 {
                lemma_prefix_mono(l0, n as int, n + 1);
            }
        }
        let p_prev: u16 = if n > 0 { self.prefix_len(n) } else { 0 };
        let p_next = self.prefix_len(n + 2);
        let (min_pos, max_pos) = if n == 0 {
            if n + 2 >= len {
                (SPLIT_WIDTH, p_next)
            } else {
                (SPLIT_WIDTH, p_next - SPLIT_WIDTH)
            }
        } else if n + 2 < len {
            (p_prev + 1, p_next - SPLIT_WIDTH)
        } else {
            (p_prev + 1, p_next)
        };
        let p = if pos < min_pos { min_pos } else { pos };
        let p = if p > max_pos { max_pos } else { p };
        self.area_length.set(n, p - p_prev);
        self.area_length.set(n + 1, p_next - p);
    }
}

/// Smallest and largest position for split `n` when only its two
/// neighbouring areas may change.
pub open spec fn neighbour_bounds(lengths: Seq<u16>, n: int) -> (int, int) {
    let len = lengths.len();
    if n == 0 {
        if n + 2 >= len {
            (SPLIT_WIDTH as int, prefix_sum(lengths, n + 2))
        } else {
            (SPLIT_WIDTH as int, prefix_sum(lengths, n + 2) - SPLIT_WIDTH)
        }
    } else if n + 2 < len {
        (prefix_sum(lengths, n) + 1, prefix_sum(lengths, n + 2) - SPLIT_WIDTH)
    } else {
        (prefix_sum(lengths, n) + 1, prefix_sum(lengths, n + 2))
    }
}

/// The requested position limited by `neighbour_bounds`.
pub open spec fn neighbour_pos(lengths: Seq<u16>, n: int, pos: int) -> int {
    let (lo, hi) = neighbour_bounds(lengths, n);
    let p = if pos < lo { lo } else { pos };
    if p > hi { hi } else { p }
}

/// The neighbouring areas are big enough to move split `n` without
/// ending up before the previous split.
pub open spec fn neighbour_ok(lengths: Seq<u16>, n: int) -> bool {
    let (lo, hi) = neighbour_bounds(lengths, n);
    &&& hi >= 0
    &&& n > 0 ==> hi >= prefix_sum(lengths, n)
    &&& n > 0 ==> prefix_sum(lengths, n) < u16::MAX
}

/// Lengths after moving split `n` towards `pos` within its neighbours.
pub open spec fn neighbour_lengths(lengths: Seq<u16>, n: int, pos: int) -> Seq<u16> {
    let p = neighbour_pos(lengths, n, pos);
    let prev = if n > 0 { prefix_sum(lengths, n) } else { 0 };
    lengths.update(n, (p - prev) as u16).update(n + 1, (prefix_sum(lengths, n + 2) - p) as u16)
}

/// Moving a split within its neighbours keeps the total length.
pub proof fn lemma_neighbour_keeps_total(lengths: Seq<u16>, n: int, pos: int)
    requires
        0 <= n,
        n + 1 < lengths.len(),
        sum_u16(lengths) <= u16::MAX,
        neighbour_ok(lengths, n),
    ensures
        sum_u16(neighbour_lengths(lengths, n, pos)) == sum_u16(lengths),
        prefix_sum(neighbour_lengths(lengths, n, pos), n + 1) == neighbour_pos(lengths, n, pos),
{
    let p = neighbour_pos(lengths, n, pos);
    let prev = if n > 0 { prefix_sum(lengths, n) } else { 0 };
    lemma_prefix_step(lengths, n);
    lemma_prefix_step(lengths, n + 1);
    lemma_prefix_mono(lengths, 0, n);
    lemma_prefix_mono(lengths, n + 2, lengths.len() as int);
    lemma_prefix_full(lengths);
    assert(lengths.take(0) =~= Seq::<u16>::empty());
    let l1 = lengths.update(n, (p - prev) as u16);
    let l2 = l1.update(n + 1, (prefix_sum(lengths, n + 2) - p) as u16);
    lemma_sum_update(lengths, n, (p - prev) as u16);
    lemma_sum_update(l1, n + 1, (prefix_sum(lengths, n + 2) - p) as u16);
    assert(l2.take(n) =~= lengths.take(n));
    lemma_prefix_step(l2, n);
}


/// Positions of the splits: `i` ends after area `i`.
pub open spec fn split_positions(lengths: Seq<u16>) -> Seq<int> {
    Seq::new((lengths.len() - 1) as nat, |i: int| prefix_sum(lengths, i + 1))
}

/// One step of resizing with the full range: placing split `i`
/// given the requested position `pos` for split `n`.
///
/// The state is the split positions so far, the smallest position the
/// next pushed split may take, and whether all positions fit in `u16`.
pub open spec fn full_step(
    lengths: Seq<u16>,
    hidden: Seq<u16>,
    n: int,
    pos: int,
    i: int,
    st: (Seq<int>, int, bool),
) -> (Seq<int>, int, bool) {
    let (pv, min_pos, ok) = st;
    let total = sum_u16(lengths);
    if i < n {
        if lengths[i] == 0 {
            (pv.update(i, min_pos), min_pos, ok)
        } else if hidden[i] != 0 {
            (pv.update(i, min_pos), min_pos + 1, ok && min_pos + 1 <= u16::MAX)
        } else if pv[i] >= pos {
            let rest = (n - (i + 1)) as u16;
            let below = sat_sub_int(sat_sub_int(pos, 1), rest as int);
            let p = if min_pos >= below { min_pos } else { below };
            (pv.update(i, p), min_pos + 1, ok && min_pos + 1 <= u16::MAX)
        } else {
            (pv, min_pos, ok)
        }
    } else if i == n {
        let rest = (pv.len() - (i + 1)) as u16;
        let a = total - (min_pos + 1);
        let b = a - rest;
        let c = b + 1;
        let max_pos = min_pos + c;
        let p0 = if pos < min_pos { min_pos } else { pos };
        let p = if p0 > max_pos { max_pos } else { p0 };
        (pv.update(i, p), p + 1, ok && min_pos + 1 <= u16::MAX && a >= 0 && b >= 0 && c <= u16::MAX
            && max_pos <= u16::MAX && p + 1 <= u16::MAX)
    } else {
        if lengths[i] == 0 {
            (pv.update(i, min_pos), min_pos, ok)
        } else if hidden[i] != 0 {
            (pv.update(i, min_pos), min_pos + 1, ok && min_pos + 1 <= u16::MAX)
        } else if pv[i] <= pos {
            (pv.update(i, min_pos), min_pos + 1, ok && min_pos + 1 <= u16::MAX)
        } else {
            (pv, min_pos, ok)
        }
    }
}

/// Saturating subtraction on integers, never below 0.
pub open spec fn sat_sub_int(a: int, b: int) -> int {
    if a >= b { a - b } else { 0 }
}

/// State after placing the splits `0..i` when resizing with the full range.
pub open spec fn full_fold(lengths: Seq<u16>, hidden: Seq<u16>, n: int, pos: int, i: int) -> (Seq<int>, int, bool)
    decreases i,
{
    if i <= 0 {
        (split_positions(lengths), SPLIT_WIDTH as int, true)
    } else {
        full_step(lengths, hidden, n, pos, i - 1, full_fold(lengths, hidden, n, pos, i - 1))
    }
}

/// Final split positions when moving split `n` to `pos` with the full range.
pub open spec fn full_positions(lengths: Seq<u16>, hidden: Seq<u16>, n: int, pos: int) -> Seq<int> {
    full_fold(lengths, hidden, n, pos, lengths.len() - 1).0
}

/// Moving split `n` to `pos` with the full range computes positions that
/// fit in `u16`, keep their order and stay within the total length.
pub open spec fn full_ok(lengths: Seq<u16>, hidden: Seq<u16>, n: int, pos: int) -> bool {
    let pv = full_positions(lengths, hidden, n, pos);
    let pc = lengths.len() - 1;
    &&& full_fold(lengths, hidden, n, pos, pc).2
    &&& ordered(pv)
    &&& pc > 0 ==> 0 <= pv[0] && pv[pc - 1] <= sum_u16(lengths)
}

/// The positions never go backwards.
pub open spec fn ordered(pv: Seq<int>) -> bool {
    forall|i: int, j: int| 0 <= i <= j < pv.len() ==> pv[i] <= pv[j]
}

/// Lengths that the split positions stand for, ending at the total length.
pub open spec fn lengths_from_positions(pv: Seq<int>, total: int) -> Seq<u16> {
    Seq::new(pv.len() + 1, |i: int|
        if i == pv.len() {
            (total - (if i > 0 { pv[i - 1] } else { 0 })) as u16
        } else if i > 0 {
            (pv[i] - pv[i - 1]) as u16
        } else {
            pv[0] as u16
        })
}

/// Lengths after moving split `n` to `pos` with the full range.
pub open spec fn full_lengths(lengths: Seq<u16>, hidden: Seq<u16>, n: int, pos: int) -> Seq<u16> {
    lengths_from_positions(full_positions(lengths, hidden, n, pos), sum_u16(lengths))
}

proof fn lemma_full_fold_len(lengths: Seq<u16>, hidden: Seq<u16>, n: int, pos: int, i: int)
    requires
        i <= split_positions(lengths).len(),
    ensures
        full_fold(lengths, hidden, n, pos, i).0.len() == split_positions(lengths).len(),
    decreases i,
{
    if i > 0 {
        lemma_full_fold_len(lengths, hidden, n, pos, i - 1);
    }
}

/// Placing the splits before `j` leaves the splits from `j` on where they were.
proof fn lemma_full_fold_frame(lengths: Seq<u16>, hidden: Seq<u16>, n: int, pos: int, j: int, k: int)
    requires
        0 <= j <= k < split_positions(lengths).len(),
    ensures
        full_fold(lengths, hidden, n, pos, j).0[k] == split_positions(lengths)[k],
    decreases j,
{
    if j > 0 {
        lemma_full_fold_frame(lengths, hidden, n, pos, j - 1, k);
        lemma_full_fold_len(lengths, hidden, n, pos, j - 1);
    }
}

/// Once split `k` is placed, the later steps leave it there.
proof fn lemma_full_fold_keep(lengths: Seq<u16>, hidden: Seq<u16>, n: int, pos: int, k: int, j: int)
    requires
        0 <= k < j <= split_positions(lengths).len(),
    ensures
        full_fold(lengths, hidden, n, pos, j).0[k] == full_fold(lengths, hidden, n, pos, k + 1).0[k],
    decreases j,
{
    if j > k + 1 {
        lemma_full_fold_keep(lengths, hidden, n, pos, k, j - 1);
        lemma_full_fold_len(lengths, hidden, n, pos, j - 1);
    }
}

/// Moving split `n` with the full range squeezes the areas it pushes along
/// to the split width, one after the other: a visible, non-empty area `i`
/// after the split whose end lay at or before the new position ends one
/// split width after the end of the area before it, when that one is split
/// `n` itself or a non-empty area. So no pushed split lands on the one
/// before it, and each squeezed area keeps a cell.
pub proof fn lemma_full_pushed_areas_keep_split_width(
    lengths: Seq<u16>,
    hidden: Seq<u16>,
    n: int,
    pos: int,
    i: int,
)
    requires
        hidden.len() == lengths.len(),
        0 <= n < i < lengths.len() - 1,
        hidden[i] == 0,
        lengths[i] != 0,
        split_positions(lengths)[i] <= pos,
        i - 1 == n || lengths[i - 1] != 0,
    ensures
        full_positions(lengths, hidden, n, pos)[i] == full_positions(lengths, hidden, n, pos)[i - 1] + SPLIT_WIDTH,
        full_lengths(lengths, hidden, n, pos)[i] == SPLIT_WIDTH,
{
    let pc = lengths.len() - 1;
    lemma_full_fold_keep(lengths, hidden, n, pos, i, pc);
    lemma_full_fold_keep(lengths, hidden, n, pos, i - 1, pc);
    lemma_full_fold_frame(lengths, hidden, n, pos, i, i);
    lemma_full_fold_frame(lengths, hidden, n, pos, i - 1, i - 1);
    lemma_full_fold_len(lengths, hidden, n, pos, i);
    lemma_full_fold_len(lengths, hidden, n, pos, i - 1);
    lemma_full_fold_len(lengths, hidden, n, pos, pc);
    lemma_prefix_mono(lengths, i, i + 1);
    let prev = full_fold(lengths, hidden, n, pos, i - 1);
    let at = full_fold(lengths, hidden, n, pos, i);
    assert(at == full_step(lengths, hidden, n, pos, i - 1, prev));
    assert(full_fold(lengths, hidden, n, pos, i + 1) == full_step(lengths, hidden, n, pos, i, at));
    assert(at.0[i] == split_positions(lengths)[i]);
    assert(full_fold(lengths, hidden, n, pos, i + 1).0[i] == at.1);
    assert(at.1 == at.0[i - 1] + SPLIT_WIDTH);
}

/// Before split `n` is placed, each step moves the smallest free position
/// on by at most one.
proof fn lemma_full_fold_min_pos(lengths: Seq<u16>, hidden: Seq<u16>, n: int, pos: int, i: int)
    requires
        0 <= i <= n + 1,
        i <= split_positions(lengths).len(),
    ensures
        i <= n ==> full_fold(lengths, hidden, n, pos, i).1 <= i + 1,
    decreases i,
{
    if i > 0 {
        lemma_full_fold_min_pos(lengths, hidden, n, pos, i - 1);
    }
}

/// Moving split `n` back with the full range squeezes the areas before it
/// that it pushes along to the split width: a visible, non-empty area `i`
/// before the split whose end lay at or after the new position ends
/// `n - i` split widths before the new position, as long as that leaves
/// room for the areas before it. So the pushed splits lie one split width
/// apart, up to the new position.
pub proof fn lemma_full_pushed_back_areas_keep_split_width(
    lengths: Seq<u16>,
    hidden: Seq<u16>,
    n: int,
    pos: int,
    i: int,
)
    requires
        hidden.len() == lengths.len(),
        0 <= i < n < lengths.len() - 1,
        hidden[i] == 0,
        lengths[i] != 0,
        split_positions(lengths)[i] >= pos,
        pos <= u16::MAX,
        pos - (n - i) * SPLIT_WIDTH >= i + 1,
    ensures
        full_positions(lengths, hidden, n, pos)[i] == pos - (n - i) * SPLIT_WIDTH,
{
    let pc = lengths.len() - 1;
    lemma_full_fold_keep(lengths, hidden, n, pos, i, pc);
    lemma_full_fold_frame(lengths, hidden, n, pos, i, i);
    lemma_full_fold_len(lengths, hidden, n, pos, i);
    lemma_full_fold_len(lengths, hidden, n, pos, pc);
    lemma_full_fold_min_pos(lengths, hidden, n, pos, i);
    let at = full_fold(lengths, hidden, n, pos, i);
    assert(full_fold(lengths, hidden, n, pos, i + 1) == full_step(lengths, hidden, n, pos, i, at));
    assert(at.0[i] == split_positions(lengths)[i]);
    let rest = (n - (i + 1)) as u16;
    assert(rest == n - (i + 1));
    assert(sat_sub_int(sat_sub_int(pos, 1), rest as int) == pos - (n - i));
}

proof fn lemma_full_fold_shape(lengths: Seq<u16>, hidden: Seq<u16>, n: int, pos: int, i: int)
    requires
        lengths.len() >= 1,
        hidden.len() == lengths.len(),
        sum_u16(lengths) <= u16::MAX,
        0 <= pos <= u16::MAX,
        0 <= i <= lengths.len() - 1,
    ensures
        full_fold(lengths, hidden, n, pos, i).0.len() == lengths.len() - 1,
        full_fold(lengths, hidden, n, pos, i).2 ==> 1 <= full_fold(lengths, hidden, n, pos, i).1 <= u16::MAX,
        full_fold(lengths, hidden, n, pos, i).2 ==> forall|k: int| 0 <= k < lengths.len() - 1 ==>
            0 <= #[trigger] full_fold(lengths, hidden, n, pos, i).0[k] <= u16::MAX,
    decreases i,
{
    if i > 0 {
        lemma_full_fold_shape(lengths, hidden, n, pos, i - 1);
    } else {
        assert forall|k: int| 0 <= k < lengths.len() - 1 implies
            0 <= #[trigger] split_positions(lengths)[k] <= u16::MAX by {
            lemma_prefix_mono(lengths, 0, k + 1);
            lemma_prefix_mono(lengths, k + 1, lengths.len() as int);
            lemma_prefix_full(lengths);
            assert(lengths.take(0) =~= Seq::<u16>::empty());
        }
    }
}

/// Once an overflow shows up, the state stays marked.
proof fn lemma_full_fold_ok_mono(lengths: Seq<u16>, hidden: Seq<u16>, n: int, pos: int, i: int, j: int)
    requires
        0 <= i <= j,
    ensures
        full_fold(lengths, hidden, n, pos, j).2 ==> full_fold(lengths, hidden, n, pos, i).2,
    decreases j - i,
{
    if i < j {
        lemma_full_fold_ok_mono(lengths, hidden, n, pos, i, j - 1);
    }
}

/// The lengths taken from ordered positions add up to the total.
pub proof fn lemma_positions_sum(pv: Seq<int>, total: int)
    requires
        ordered(pv),
        pv.len() > 0 ==> 0 <= pv[0] && pv[pv.len() - 1] <= total,
        total <= u16::MAX,
        0 <= total,
    ensures
        sum_u16(lengths_from_positions(pv, total)) == total,
        forall|k: int| 0 < k <= pv.len() ==> prefix_sum(lengths_from_positions(pv, total), k) == pv[k - 1],
{
    let l = lengths_from_positions(pv, total);
    assert forall|k: int| 0 < k <= pv.len() implies prefix_sum(l, k) == pv[k - 1] by {
        lemma_positions_prefix(pv, total, k);
    }
    lemma_prefix_full(l);
    if pv.len() > 0 {
        lemma_prefix_step(l, pv.len() as int);
    } else {
        assert(l.take(0) =~= Seq::<u16>::empty());
        lemma_prefix_step(l, 0);
    }
}

proof fn lemma_positions_prefix(pv: Seq<int>, total: int, k: int)
    requires
        ordered(pv),
        pv.len() > 0 ==> 0 <= pv[0] && pv[pv.len() - 1] <= total,
        total <= u16::MAX,
        0 < k <= pv.len(),
    ensures
        prefix_sum(lengths_from_positions(pv, total), k) == pv[k - 1],
    decreases k,
{
    let l = lengths_from_positions(pv, total);
    lemma_positions_bounds(pv, total);
    lemma_prefix_step(l, k - 1);
    if k == 1 {
        assert(l.take(0) =~= Seq::<u16>::empty());
    } else {
        lemma_positions_prefix(pv, total, k - 1);
    }
}

proof fn lemma_positions_bounds(pv: Seq<int>, total: int)
    requires
        ordered(pv),
        pv.len() > 0 ==> 0 <= pv[0] && pv[pv.len() - 1] <= total,
        total <= u16::MAX,
    ensures
        forall|i: int| 0 <= i < pv.len() ==> 0 <= #[trigger] pv[i] <= total,
{
    assert forall|i: int| 0 <= i < pv.len() implies 0 <= #[trigger] pv[i] <= total by {
        assert(pv[0] <= pv[i]);
        assert(pv[i] <= pv[pv.len() - 1]);
    }
}

/// Moving a split with the full range keeps the total length, and puts
/// the split where the resize computed it.
pub proof fn lemma_full_keeps_total(lengths: Seq<u16>, hidden: Seq<u16>, n: int, pos: int)
    requires
        hidden.len() == lengths.len(),
        0 <= n,
        n + 1 < lengths.len(),
        sum_u16(lengths) <= u16::MAX,
        full_ok(lengths, hidden, n, pos),
        0 <= pos <= u16::MAX,
    ensures
        sum_u16(full_lengths(lengths, hidden, n, pos)) == sum_u16(lengths),
        prefix_sum(full_lengths(lengths, hidden, n, pos), n + 1) == full_positions(lengths, hidden, n, pos)[n],
{
    lemma_sum_bounds(lengths);
    lemma_full_fold_shape(lengths, hidden, n, pos, lengths.len() - 1);
    lemma_positions_sum(full_positions(lengths, hidden, n, pos), sum_u16(lengths));
}


/// Area, split and mark after adjusting for the split type: the full
/// splits take their width from the area, the scroll split is drawn
/// over the mark.
pub open spec fn adjust_parts(dir: Direction, split_type: SplitType, area: Rect, split: Rect, mark: Position) -> (Rect, Rect, Position) {
    if split_type.spec_is_full() {
        if dir == Direction::Horizontal {
            (Rect { width: sat_sub(area.width, SPLIT_WIDTH), ..area }, split, mark)
        } else {
            (Rect { height: sat_sub(area.height, SPLIT_WIDTH), ..area }, split, mark)
        }
    } else if split_type == SplitType::Scroll {
        if dir == Direction::Horizontal {
            (area, Rect { y: mark.y, height: 2, ..split }, mark)
        } else {
            (area, Rect { x: mark.x, width: 2, ..split }, mark)
        }
    } else {
        (area, split, mark)
    }
}

/// Adjust area and split according to the split type.
pub fn adjust_for_split_type(
    direction: Direction,
    split_type: SplitType,
    area: Rect,
    split: Rect,
    mark: Position,
) -> (r: (Rect, Rect, Position))
    ensures
        r == adjust_parts(direction, split_type, area, split, mark),
{
    let mut area = area;
    let mut split = split;
    match (direction, split_type) {
        (Direction::Horizontal, SplitType::Scroll) => {
            split.y = mark.y;
            split.height = 2;
        },
        (Direction::Vertical, SplitType::Scroll) => {
            split.x = mark.x;
            split.width = 2;
        },
        (_, SplitType::Widget) => {},
        (Direction::Horizontal, _) => {
            area.width = area.width.saturating_sub(SPLIT_WIDTH);
        },
        (Direction::Vertical, _) => {
            area.height = area.height.saturating_sub(SPLIT_WIDTH);
        },
    }
    (area, split, mark)
}


/// Give all areas the cross length of `inner`.
fn set_cross_len(areas: &mut Vec<Rect>, direction: Direction, inner: Rect)
    ensures
        final(areas)@.len() == old(areas)@.len(),
        forall|j: int| 0 <= j < old(areas)@.len() ==> #[trigger] final(areas)@[j] == (if direction == Direction::Horizontal {
            Rect { height: inner.height, ..old(areas)@[j] } } else { Rect { width: inner.width, ..old(areas)@[j] } }),
{
    let ghost wa = areas@;
    let mut k: usize = 0;
    while k < areas.len()
        invariant
            areas@.len() == wa.len(),
            k <= wa.len(),
            forall|j: int| 0 <= j < k ==> #[trigger] areas@[j] == (if direction == Direction::Horizontal {
                Rect { height: inner.height, ..wa[j] } } else { Rect { width: inner.width, ..wa[j] } }),
            forall|j: int| k <= j < wa.len() ==> #[trigger] areas@[j] == wa[j],
        decreases wa.len() - k,
    {
        let mut r = areas[k];
        if direction == Direction::Horizontal {
            r.height = inner.height;
        } else {
            r.width = inner.width;
        }
        areas.set(k, r);
        k += 1;
    }
}


/// A navigation result as an outcome: a change repaints, no change still
/// uses the event up.
pub open spec fn outcome_of(changed: bool) -> Outcome {
    if changed {
        Outcome::Changed
    } else {
        Outcome::Unchanged
    }
}

/// A plain arrow key moves the marked split by one cell: `Some(true)`
/// towards the start (left, up), `Some(false)` towards the end.
pub open spec fn split_move_key(k: KeyPress) -> Option<bool> {
    if k.is(KeyCode::Left, false, false, false) || k.is(KeyCode::Up, false, false, false) {
        Some(true)
    } else if k.is(KeyCode::Right, false, false, false) || k.is(KeyCode::Down, false, false, false) {
        Some(false)
    } else {
        None
    }
}

/// Alt with an arrow key marks another split: `Some(true)` the previous
/// one (left, up), `Some(false)` the next one.
pub open spec fn split_select_key(k: KeyPress) -> Option<bool> {
    if k.is(KeyCode::Left, false, false, true) || k.is(KeyCode::Up, false, false, true) {
        Some(true)
    } else if k.is(KeyCode::Right, false, false, true) || k.is(KeyCode::Down, false, false, true) {
        Some(false)
    } else {
        None
    }
}

impl SplitState {
    /// The key can move the marked split without overflow.
    pub open spec fn split_key_ready(&self, key: KeyPress) -> bool {
        self.focused && self.focus_marker is Some ==> (split_move_key(key) matches Some(back) ==> {
            let n = self.focus_marker->0 as int;
            let ps = prefix_sum(self.lengths(), n + 1);
            &&& n < self.lengths().len()
            &&& back ==> 1 <= ps && self.split_pos_ok(n, ps - 1)
            &&& !back ==> ps + 1 <= u16::MAX && self.split_pos_ok(n, ps + 1)
        })
    }

    /// Handles a key press: with the focus and a marked split, the arrows
    /// move it by one cell, Alt with the arrows marks another split.
    pub fn handle_key(&mut self, key: KeyPress) -> (r: Outcome)
        requires
            old(self).wf(),
            old(self).fits(),
            old(self).split_key_ready(key),
        ensures
            final(self).wf(),
            final(self).fits(),
            ({
                let active = old(self).focused && old(self).focus_marker is Some;
                let n = old(self).focus_marker->0 as int;
                let ps = prefix_sum(old(self).lengths(), n + 1);
                if active && split_move_key(key) is Some {
                    let pos = if split_move_key(key)->0 { ps - 1 } else { ps + 1 };
                    &&& final(self).same_frame(old(self))
                    &&& final(self).focus_marker == old(self).focus_marker
                    &&& final(self).hidden() == old(self).hidden()
                    &&& final(self).lengths() == old(self).split_pos_result(n, pos)
                    &&& r == outcome_of(ps != prefix_sum(final(self).lengths(), n + 1))
                } else if active && split_select_key(key) is Some {
                    let m = if split_select_key(key)->0 {
                        old(self).prev_marker()
                    } else {
                        old(self).next_marker()
                    };
                    &&& *final(self) == (SplitState { focus_marker: Some(m), ..*old(self) })
                    &&& r == Outcome::Changed
                } else {
                    *final(self) == *old(self) && r == Outcome::Continue
                }
            }),
    {
        if !self.focused || key.shift || key.control {
            return Outcome::Continue;
        }
        let n = match self.focus_marker {
            Some(n) => n,
            None => return Outcome::Continue,
        };
        let back = key.code == KeyCode::Left || key.code == KeyCode::Up;
        let fwd = key.code == KeyCode::Right || key.code == KeyCode::Down;
        if !back && !fwd {
            return Outcome::Continue;
        }
        let changed = if key.alt {
            if back {
                self.select_prev_split()
            } else {
                self.select_next_split()
            }
        } else if back {
            self.move_split_left(n, 1)
        } else {
            self.move_split_right(n, 1)
        };
        if changed {
            Outcome::Changed
        } else {
            Outcome::Unchanged
        }
    }

    /// Handles a mouse event, with what the mouse tracker reports for it:
    /// `hovered` when the hover over the split lines changed; else `drag`,
    /// the split that the event drags, which moves to the mouse; else
    /// `drag_ended` when a drag just ended, which repaints.
    pub fn handle_mouse(&mut self, e: MouseInput, hovered: bool, drag: Option<usize>, drag_ended: bool) -> (r: Outcome)
        requires
            old(self).wf(),
            old(self).fits(),
            !hovered && drag is Some ==> drag->0 < old(self).lengths().len() && (old(self).hidden()[drag->0 as int] == 0
                ==> old(self).split_pos_ok(drag->0 as int, old(self).screen_to_split_pos((e.column, e.row)))),
        ensures
            final(self).wf(),
            final(self).fits(),
            hovered ==> *final(self) == *old(self) && r == Outcome::Changed,
            !hovered && drag is Some ==> {
                let n = drag->0 as int;
                &&& final(self).same_frame(old(self))
                &&& final(self).focus_marker == old(self).focus_marker
                &&& final(self).hidden() == old(self).hidden()
                &&& old(self).hidden()[n] > 0 ==> final(self).lengths() == old(self).lengths() && r == Outcome::Unchanged
                &&& old(self).hidden()[n] == 0 ==> final(self).lengths() == old(self).split_pos_result(n, old(self).screen_to_split_pos((e.column, e.row)))
                    && r == outcome_of(prefix_sum(old(self).lengths(), n + 1) != prefix_sum(final(self).lengths(), n + 1))
            },
            !hovered && drag is None ==> *final(self) == *old(self) && r == (if drag_ended {
                Outcome::Changed
            } else {
                Outcome::Continue
            }),
    {
        if hovered {
            return Outcome::Changed;
        }
        match drag {
            Some(n) => {
                if self.set_screen_split_pos(n, (e.column, e.row)) {
                    Outcome::Changed
                } else {
                    Outcome::Unchanged
                }
            },
            None => if drag_ended {
                Outcome::Changed
            } else {
                Outcome::Continue
            },
        }
    }
}

} // verus!

//!
//! Choice/Select: the selection model behind a drop-down list.
//!
use crate::event::{KeyCode, KeyPress, MouseInput, MouseKind, Outcome};
use crate::geometry::{first_at, item_at, Rect, min_u16, sat_sub};
use vstd::prelude::*;
use vstd::std_specs::cmp::PartialEqSpec;
use vstd::std_specs::convert::FromSpecImpl;

verus! {

/// Enum controlling the behaviour of the Choice.
#[derive(Debug, Default, Clone, Copy, PartialEq, Eq, Structural)]
pub enum ChoiceSelect {
    /// Change the selection with the mouse-wheel.
    #[default]
    MouseScroll,
    /// Change the selection just by moving.
    MouseMove,
    /// Change the selection with a click only
    MouseClick,
}

/// Enum controlling the behaviour of the Choice.
#[derive(Debug, Default, Clone, Copy, PartialEq, Eq, Structural)]
pub enum ChoiceClose {
    /// Close the popup with a single click.
    #[default]
    SingleClick,
    /// Close the popup with double-click.
    DoubleClick,
}

/// Result value for event-handling.
#[derive(Debug, Clone, Copy, PartialEq, Eq, Structural)]
pub enum ChoiceOutcome {
    /// The given event was not handled at all.
    Continue,
    /// The event was handled, no repaint necessary.
    Unchanged,
    /// The event was handled, repaint necessary.
    Changed,
    /// An item has been selected.
    Value,
}

impl ChoiceOutcome {
    /// Has the event been used up?
    pub fn is_consumed(&self) -> (r: bool)
        ensures
            r == (*self != ChoiceOutcome::Continue),
    {
        !matches!(self, ChoiceOutcome::Continue)
    }
}

impl From<Outcome> for ChoiceOutcome {
    fn from(value: Outcome) -> (r: Self) {
        match value {
            Outcome::Continue => ChoiceOutcome::Continue,
            Outcome::Unchanged => ChoiceOutcome::Unchanged,
            Outcome::Changed => ChoiceOutcome::Changed,
        }
    }
}

impl FromSpecImpl<Outcome> for ChoiceOutcome {
    open spec fn obeys_from_spec() -> bool {
        true
    }

    open spec fn from_spec(value: Outcome) -> ChoiceOutcome {
        match value {
            Outcome::Continue => ChoiceOutcome::Continue,
            Outcome::Unchanged => ChoiceOutcome::Unchanged,
            Outcome::Changed => ChoiceOutcome::Changed,
        }
    }
}

impl From<ChoiceOutcome> for Outcome {
    fn from(value: ChoiceOutcome) -> (r: Self) {
        match value {
            ChoiceOutcome::Continue => Outcome::Continue,
            ChoiceOutcome::Unchanged => Outcome::Unchanged,
            ChoiceOutcome::Changed => Outcome::Changed,
            ChoiceOutcome::Value => Outcome::Changed,
        }
    }
}

impl FromSpecImpl<ChoiceOutcome> for Outcome {
    open spec fn obeys_from_spec() -> bool {
        true
    }

    open spec fn from_spec(value: ChoiceOutcome) -> Outcome {
        match value {
            ChoiceOutcome::Continue => Outcome::Continue,
            ChoiceOutcome::Unchanged => Outcome::Unchanged,
            ChoiceOutcome::Changed => Outcome::Changed,
            ChoiceOutcome::Value => Outcome::Changed,
        }
    }
}

/// `r` is the index of the first element of `values` that compares
/// equal to `v`, or `None` if there is none.
pub open spec fn is_first_match<T: PartialEq>(values: Seq<T>, v: T, r: Option<usize>) -> bool {
    match r {
        Some(i) => {
            &&& i < values.len()
            &&& values[i as int].eq_spec(&v)
            &&& forall|j: int| 0 <= j < i ==> !(#[trigger] values[j]).eq_spec(&v)
        },
        None => forall|j: int| 0 <= j < values.len() ==> !(#[trigger] values[j]).eq_spec(&v),
    }
}

/// The list entry `x` stands for the value `v`: it compares equal to it,
/// or `v` is a clone of it.
pub open spec fn holds_value<T: PartialEq + Clone>(x: T, v: T) -> bool {
    x.eq_spec(&v) || cloned(x, v)
}

/// Core of the Choice widget: the list of values, the current value
/// and the index of the current value in the list.
///
/// The value is kept even if it is not in the list of values; this
/// happens before the first render, while the list is still empty,
/// or when a divergent value is set.
#[derive(Debug, Clone)]
pub struct ChoiceCore<T> where T: PartialEq + Clone + Default {
    /// Values.
    values: Vec<T>,
    /// Can return to default with a user interaction.
    default_value: Option<T>,
    /// Selected value, or a value set with set_value().
    value: T,
    /// Index of value.
    selected: Option<usize>,
}

impl<T> ChoiceCore<T> where T: PartialEq + Clone + Default {
    /// The list of values.
    pub closed spec fn values_view(&self) -> Seq<T> {
        self.values@
    }

    /// The default value that `clear` returns to.
    pub closed spec fn default_view(&self) -> Option<T> {
        self.default_value
    }

    /// The current value.
    pub closed spec fn value_view(&self) -> T {
        self.value
    }

    /// The index of the current value.
    pub closed spec fn selected_view(&self) -> Option<usize> {
        self.selected
    }

    /// The selected index always points into the list of values, at the
    /// current value: one equal to it, or the one it was cloned from.
    pub closed spec fn wf(&self) -> bool {
        match self.selected {
            Some(i) => i < self.values@.len() && (T::obeys_eq_spec() ==> holds_value(self.values@[i as int], self.value)),
            None => true,
        }
    }

    /// A well-formed choice selects the current value: the value at the
    /// selected index compares equal to it or is the value it was cloned
    /// from, for a `T` whose `==` follows its specification.
    pub proof fn lemma_selected_holds_value(&self)
        requires
            self.wf(),
            T::obeys_eq_spec(),
        ensures
            self.selected_view() matches Some(i) ==> i < self.values_view().len()
                && holds_value(self.values_view()[i as int], self.value_view()),
    {
    }

    /// Empty choice: no values, no default, nothing selected, and the
    /// value is `T::default()`.
    pub fn new() -> (r: Self)
        ensures
            r.wf(),
            r.values_view() == Seq::<T>::empty(),
            r.default_view() == None::<T>,
            r.selected_view() == None::<usize>,
            call_ensures(T::default, (), r.value_view()),
    {
        ChoiceCore { values: Vec::new(), default_value: None, value: T::default(), selected: None }
    }

    /// Index of the first value equal to `v`.
    fn position(values: &Vec<T>, v: &T) -> (r: Option<usize>)
        ensures
            T::obeys_eq_spec() ==> is_first_match(values@, *v, r),
            match r {
                Some(i) => i < values@.len(),
                None => true,
            },
    {
        let mut i: usize = 0;
        while i < values.len()
            invariant
                i <= values@.len(),
                T::obeys_eq_spec() ==> forall|j: int| 0 <= j < i ==> !(#[trigger] values@[j]).eq_spec(v),
            decreases values.len() - i,
        {
            if values[i] == *v {
                return Some(i);
            }
            i += 1;
        }
        None
    }

    /// Set the list of values and look up the current value in it.
    pub fn set_values(&mut self, values: Vec<T>)
        requires
            old(self).wf(),
        ensures
            final(self).wf(),
            final(self).values_view() == values@,
            final(self).value_view() == old(self).value_view(),
            final(self).default_view() == old(self).default_view(),
            values@.len() == 0 ==> final(self).selected_view() == None::<usize>,
            T::obeys_eq_spec() ==> is_first_match(values@, old(self).value_view(), final(self).selected_view()),
    {
        self.values = values;
        if self.values.len() == 0 {
            self.selected = None;
        } else {
            self.selected = Self::position(&self.values, &self.value);
        }
    }

    /// List of values.
    pub fn values(&self) -> (r: &[T])
        ensures
            r@ == self.values_view(),
    {
        self.values.as_slice()
    }

    /// Set a default-value other than T::default()
    ///
    /// The starting value will still be T::default() after this.
    /// `clear()` switches to this default.
    pub fn set_default_value(&mut self, default_value: Option<T>)
        requires
            old(self).wf(),
        ensures
            final(self).wf(),
            final(self).default_view() == default_value,
            final(self).values_view() == old(self).values_view(),
            final(self).value_view() == old(self).value_view(),
            final(self).selected_view() == old(self).selected_view(),
    {
        self.default_value = default_value;
    }

    /// A default value.
    pub fn default_value(&self) -> (r: &Option<T>)
        ensures
            *r == self.default_view(),
    {
        &self.default_value
    }

    /// Selected item index.
    ///
    /// This may be None and there may still be a valid value.
    pub fn selected(&self) -> (r: Option<usize>)
        ensures
            r == self.selected_view(),
    {
        self.selected
    }

    /// Set the selected item by index.
    ///
    /// If the index doesn't match the list of values, selected
    /// becomes None and the value stays as it is.
    /// Returns whether the selected index changed.
    pub fn set_selected(&mut self, select: usize) -> (r: bool)
        requires
            old(self).wf(),
        ensures
            final(self).wf(),
            final(self).values_view() == old(self).values_view(),
            final(self).default_view() == old(self).default_view(),
            select < old(self).values_view().len() ==> {
                &&& final(self).selected_view() == Some(select)
                &&& cloned(old(self).values_view()[select as int], final(self).value_view())
            },
            select >= old(self).values_view().len() ==> {
                &&& final(self).selected_view() == None::<usize>
                &&& final(self).value_view() == old(self).value_view()
            },
            r == (old(self).selected_view() != final(self).selected_view()),
    {
        let old_sel = self.selected;
        if self.values.len() == 0 {
            self.selected = None;
        } else {
            if select < self.values.len() {
                self.value = self.values[select].clone();
                self.selected = Some(select);
            } else {
                self.selected = None;
            }
        }
        old_sel != self.selected
    }

    /// Set the value for this Choice.
    ///
    /// The value is retained even if it is not in the value-list.
    /// Returns whether the value changed.
    pub fn set_value(&mut self, value: T) -> (r: bool)
        requires
            old(self).wf(),
        ensures
            final(self).wf(),
            final(self).value_view() == value,
            final(self).values_view() == old(self).values_view(),
            final(self).default_view() == old(self).default_view(),
            T::obeys_eq_spec() ==> is_first_match(old(self).values_view(), value, final(self).selected_view()),
            T::obeys_eq_spec() ==> r == !old(self).value_view().eq_spec(&value),
    {
        let changed = self.value != value;
        self.value = value;
        self.selected = Self::position(&self.values, &self.value);
        changed
    }

    /// Return the selected value, or any value set with set_value()
    pub fn value(&self) -> (r: T)
        ensures
            cloned(self.value_view(), r),
    {
        self.value.clone()
    }

    /// No values?
    pub fn is_empty(&self) -> (r: bool)
        ensures
            r == (self.values_view().len() == 0),
    {
        self.values.len() == 0
    }

    /// Return to the default value, or to `T::default()` where there is
    /// none, and look it up in the list of values.
    /// Returns whether the value or the selected index changed.
    pub fn clear(&mut self) -> (r: bool)
        requires
            old(self).wf(),
        ensures
            final(self).wf(),
            final(self).values_view() == old(self).values_view(),
            final(self).default_view() == old(self).default_view(),
            match old(self).default_view() {
                Some(d) => cloned(d, final(self).value_view()),
                None => call_ensures(T::default, (), final(self).value_view()),
            },
            T::obeys_eq_spec() ==> is_first_match(old(self).values_view(), final(self).value_view(), final(self).selected_view()),
            T::obeys_eq_spec() ==> r == (old(self).selected_view() != final(self).selected_view()
                || match old(self).default_view() {
                    Some(d) => !old(self).value_view().eq_spec(&d),
                    None => !old(self).value_view().eq_spec(&final(self).value_view()),
                }),
    {
        let old_selected = self.selected;
        let value_changed = match &self.default_value {
            Some(default_value) => {
                let c = self.value != *default_value;
                self.value = default_value.clone();
                c
            },
            None => {
                let d = T::default();
                let c = self.value != d;
                self.value = d;
                c
            },
        };
        self.selected = Self::position(&self.values, &self.value);
        old_selected != self.selected || value_changed
    }
}


/// Lowercase mapping of a character, as a sequence of characters.
pub uninterp spec fn lowercase_chars(c: char) -> Seq<char>;

/// The lowercase mapping of `c`.
///
/// Calls `char::to_lowercase` and collects the characters it yields.
/// The contract names the result and claims nothing else about the
/// Unicode case tables.
#[verifier::external_body]
fn to_lowercase(c: char) -> (r: Vec<char>)
    ensures
        r@ == lowercase_chars(c),
{
    c.to_lowercase().collect()
}

/// Equal character sequences?
fn chars_eq(a: &Vec<char>, b: &Vec<char>) -> (r: bool)
    ensures
        r == (a@ == b@),
{
    if a.len() != b.len() {
        return false;
    }
    let mut i: usize = 0;
    while i < a.len()
        invariant
            a@.len() == b@.len(),
            i <= a@.len(),
            forall|j: int| 0 <= j < i ==> a@[j] == b@[j],
        decreases a.len() - i,
    {
        if a[i] != b[i] {
            return false;
        }
        i += 1;
    }
    assert(a@ =~= b@);
    true
}

/// Next index in a list of length `len`, wrapping to the front.
pub open spec fn wrap_next(idx: int, len: int) -> int {
    if idx + 1 >= len { 0 } else { idx + 1 }
}

/// Previous index in a list of length `len`, wrapping to the back.
pub open spec fn wrap_prev(idx: int, len: int) -> int {
    if idx <= 0 { len - 1 } else { idx - 1 }
}

/// Searching forward: the first of the `count` indices starting at
/// `idx` and moving to the next one, wrapping around, whose
/// navigation characters equal `c`.
pub open spec fn forward_match(nav: Seq<Seq<char>>, idx: int, count: nat, c: Seq<char>) -> Option<usize>
    decreases count,
{
    if count == 0 {
        None
    } else if nav[idx] == c {
        Some(idx as usize)
    } else {
        forward_match(nav, wrap_next(idx, nav.len() as int), (count - 1) as nat, c)
    }
}

/// Searching backward: the first of the `count` indices starting at
/// `idx` and moving to the previous one, wrapping around, whose
/// navigation characters equal `c`.
pub open spec fn backward_match(nav: Seq<Seq<char>>, idx: int, count: nat, c: Seq<char>) -> Option<usize>
    decreases count,
{
    if count == 0 {
        None
    } else if nav[idx] == c {
        Some(idx as usize)
    } else {
        backward_match(nav, wrap_prev(idx, nav.len() as int), (count - 1) as nat, c)
    }
}

/// Navigation characters as a sequence of sequences.
pub open spec fn nav_view(nav: Seq<Vec<char>>) -> Seq<Seq<char>> {
    nav.map_values(|v: Vec<char>| v@)
}

/// Index chosen when searching forward by a character: after the
/// selected index, wrapping around, never the selected index itself;
/// without a selection the search starts at the first index.
pub open spec fn next_by_char_index(nav: Seq<Seq<char>>, selected: Option<usize>, c: Seq<char>) -> Option<usize> {
    match selected {
        Some(idx) => forward_match(nav, wrap_next(idx as int, nav.len() as int), (nav.len() - 1) as nat, c),
        None => forward_match(nav, 0, nav.len(), c),
    }
}

/// Index chosen when searching backward by a character: before the
/// selected index, wrapping around, ending with the selected index
/// itself; without a selection the search starts at the last index.
pub open spec fn prev_by_char_index(nav: Seq<Seq<char>>, selected: Option<usize>, c: Seq<char>) -> Option<usize> {
    match selected {
        Some(idx) => backward_match(nav, wrap_prev(idx as int, nav.len() as int), nav.len(), c),
        None => backward_match(nav, nav.len() - 1, nav.len(), c),
    }
}

/// Forward search over the navigation characters.
fn search_forward(nav: &Vec<Vec<char>>, start: usize, count: usize, c: &Vec<char>) -> (r: Option<usize>)
    requires
        start < nav@.len(),
    ensures
        r == forward_match(nav_view(nav@), start as int, count as nat, c@),
        r matches Some(i) ==> i < nav@.len(),
{
    let ghost nv = nav_view(nav@);
    let len = nav.len();
    let mut idx = start;
    let mut k: usize = 0;
    while k < count
        invariant
            len == nav@.len(),
            nv == nav_view(nav@),
            k <= count,
            idx < len,
            forward_match(nv, start as int, count as nat, c@)
                == forward_match(nv, idx as int, (count - k) as nat, c@),
        decreases count - k,
    {
        assert(nv[idx as int] == nav@[idx as int]@);
        if chars_eq(&nav[idx], c) {
            return Some(idx);
        }
        idx = if idx + 1 >= len { 0 } else { idx + 1 };
        k += 1;
    }
    None
}

/// Backward search over the navigation characters.
fn search_backward(nav: &Vec<Vec<char>>, start: usize, count: usize, c: &Vec<char>) -> (r: Option<usize>)
    requires
        start < nav@.len(),
    ensures
        r == backward_match(nav_view(nav@), start as int, count as nat, c@),
        r matches Some(i) ==> i < nav@.len(),
{
    let ghost nv = nav_view(nav@);
    let len = nav.len();
    let mut idx = start;
    let mut k: usize = 0;
    while k < count
        invariant
            len == nav@.len(),
            nv == nav_view(nav@),
            k <= count,
            idx < len,
            backward_match(nv, start as int, count as nat, c@)
                == backward_match(nv, idx as int, (count - k) as nat, c@),
        decreases count - k,
    {
        assert(nv[idx as int] == nav@[idx as int]@);
        if chars_eq(&nav[idx], c) {
            return Some(idx);
        }
        idx = if idx == 0 { len - 1 } else { idx - 1 };
        k += 1;
    }
    None
}

/// Select the next value whose navigation characters match the
/// lowercase form of `c`.
///
/// `nav_char[i]` holds the lowercase navigation characters of item `i`.
/// The search starts after the selected index and wraps around; the
/// selected index itself is not tried. Returns whether a match was
/// found and selected.
pub fn select_by_char<T: PartialEq + Clone + Default>(
    core: &mut ChoiceCore<T>,
    nav_char: &Vec<Vec<char>>,
    c: char,
) -> (r: bool)
    requires
        old(core).wf(),
        old(core).selected_view() matches Some(i) ==> i < nav_char@.len(),
    ensures
        final(core).wf(),
        final(core).values_view() == old(core).values_view(),
        final(core).default_view() == old(core).default_view(),
        nav_char@.len() == 0 ==> !r && *final(core) == *old(core),
        nav_char@.len() > 0 ==> match next_by_char_index(nav_view(nav_char@), old(core).selected_view(), lowercase_chars(c)) {
            Some(i) => r && (i < old(core).values_view().len() ==> final(core).selected_view() == Some(i)
                    && cloned(old(core).values_view()[i as int], final(core).value_view()))
                && (i >= old(core).values_view().len() ==> final(core).selected_view() == None::<usize>
                    && final(core).value_view() == old(core).value_view()),
            None => !r && *final(core) == *old(core),
        },
{
    if nav_char.len() == 0 {
        return false;
    }
    let c = to_lowercase(c);
    let len = nav_char.len();
    let found = match core.selected() {
        Some(idx) => {
            let start = if idx + 1 >= len { 0 } else { idx + 1 };
            search_forward(nav_char, start, len - 1, &c)
        },
        None => search_forward(nav_char, 0, len, &c),
    };
    match found {
        Some(i) => {
            core.set_selected(i);
            true
        },
        None => false,
    }
}

/// Select the previous value whose navigation characters match the
/// lowercase form of `c`.
///
/// The search starts before the selected index, wraps around and ends
/// with the selected index itself. Returns whether a match was found
/// and selected.
pub fn reverse_select_by_char<T: PartialEq + Clone + Default>(
    core: &mut ChoiceCore<T>,
    nav_char: &Vec<Vec<char>>,
    c: char,
) -> (r: bool)
    requires
        old(core).wf(),
        old(core).selected_view() matches Some(i) ==> i < nav_char@.len(),
    ensures
        final(core).wf(),
        final(core).values_view() == old(core).values_view(),
        final(core).default_view() == old(core).default_view(),
        nav_char@.len() == 0 ==> !r && *final(core) == *old(core),
        nav_char@.len() > 0 ==> match prev_by_char_index(nav_view(nav_char@), old(core).selected_view(), lowercase_chars(c)) {
            Some(i) => r && (i < old(core).values_view().len() ==> final(core).selected_view() == Some(i)
                    && cloned(old(core).values_view()[i as int], final(core).value_view()))
                && (i >= old(core).values_view().len() ==> final(core).selected_view() == None::<usize>
                    && final(core).value_view() == old(core).value_view()),
            None => !r && *final(core) == *old(core),
        },
{
    if nav_char.len() == 0 {
        return false;
    }
    let c = to_lowercase(c);
    let len = nav_char.len();
    let start = match core.selected() {
        Some(idx) => if idx == 0 { len - 1 } else { idx - 1 },
        None => len - 1,
    };
    let found = search_backward(nav_char, start, len, &c);
    match found {
        Some(i) => {
            core.set_selected(i);
            true
        },
        None => false,
    }
}

/// Index that `move_down` selects: `n` below the selected index, or
/// the `n`-th value without a selection, clamped to the list.
pub open spec fn move_down_index(selected: Option<usize>, n: usize, len: usize) -> usize {
    let idx: int = match selected {
        Some(i) => i + n,
        None => if n >= 1 { n - 1 } else { 0 },
    };
    if idx > len - 1 { (len - 1) as usize } else { idx as usize }
}

/// Index that `move_up` selects: `n` above the selected index, or
/// the first value without a selection, clamped to the list.
pub open spec fn move_up_index(selected: Option<usize>, n: usize, len: usize) -> usize {
    let idx: int = match selected {
        Some(i) => if i >= n { i - n } else { 0 },
        None => 0,
    };
    if idx > len - 1 { (len - 1) as usize } else { idx as usize }
}

/// Moving up by `n` in a list of `len` values from the selected index `i`
/// goes `n` values back, but not before the first: the new index is never
/// after `i`, it is `n` before `i` where there is room, and the first
/// value otherwise; a move of at least one from a value after the first
/// always moves. Without a selection the first value is selected.
pub proof fn lemma_move_up_index(selected: Option<usize>, n: usize, len: usize)
    requires
        len > 0,
        selected matches Some(i) ==> i < len,
    ensures
        move_up_index(selected, n, len) < len,
        selected is None ==> move_up_index(selected, n, len) == 0,
        selected matches Some(i) ==> {
            &&& move_up_index(selected, n, len) <= i
            &&& (n >= i ==> move_up_index(selected, n, len) == 0)
            &&& (n < i ==> move_up_index(selected, n, len) + n == i)
            &&& (i > 0 && n > 0 ==> move_up_index(selected, n, len) < i)
        },
{
}

/// Moving down by `n` in a list of `len` values from the selected index
/// `i` goes `n` values on, but not past the last: the new index is never
/// before `i`, it is `n` after `i` where there is room, and the last value
/// otherwise; a move of at least one from a value before the last always
/// moves. Without a selection the `n`-th value is selected (the first for
/// `n` of 0), or the last where there are fewer.
pub proof fn lemma_move_down_index(selected: Option<usize>, n: usize, len: usize)
    requires
        len > 0,
        selected matches Some(i) ==> i < len,
    ensures
        move_down_index(selected, n, len) < len,
        selected is None ==> (n <= len ==> move_down_index(selected, n, len) + 1 == if n > 0 { n as int } else { 1 }),
        selected is None && n > len ==> move_down_index(selected, n, len) == len - 1,
        selected matches Some(i) ==> {
            &&& i <= move_down_index(selected, n, len)
            &&& (i + n >= len ==> move_down_index(selected, n, len) == len - 1)
            &&& (i + n < len ==> move_down_index(selected, n, len) == i + n)
            &&& (i + 1 < len && n > 0 ==> i < move_down_index(selected, n, len))
        },
{
}

/// Outcome of a move in the choice list: `Value` when the selected
/// index changed, `Changed` when only the popup or the scroll
/// position changed, `Continue` otherwise.
pub open spec fn move_outcome(old_selected: Option<usize>, new_selected: Option<usize>, other_change: bool) -> ChoiceOutcome {
    if old_selected != new_selected {
        ChoiceOutcome::Value
    } else if other_change {
        ChoiceOutcome::Changed
    } else {
        ChoiceOutcome::Continue
    }
}

/// Select the value at index `n`, opening the popup.
///
/// The caller scrolls the list to the new selection afterwards.
/// Returns the outcome and whether the selected index changed.
pub fn move_to<T: PartialEq + Clone + Default>(
    core: &mut ChoiceCore<T>,
    popup_active: &mut bool,
    n: usize,
) -> (r: (ChoiceOutcome, bool))
    requires
        old(core).wf(),
    ensures
        *final(popup_active),
        final(core).wf(),
        final(core).values_view() == old(core).values_view(),
        final(core).default_view() == old(core).default_view(),
        n < old(core).values_view().len() ==> final(core).selected_view() == Some(n)
            && cloned(old(core).values_view()[n as int], final(core).value_view()),
        n >= old(core).values_view().len() ==> final(core).selected_view() == None::<usize>
            && final(core).value_view() == old(core).value_view(),
        r.1 == (old(core).selected_view() != final(core).selected_view()),
        r.0 == move_outcome(old(core).selected_view(), final(core).selected_view(), !*old(popup_active) || r.1),
{
    let old_selected = core.selected();
    let r1 = !*popup_active;
    *popup_active = true;
    let r2 = core.set_selected(n);
    let outcome = if old_selected != core.selected() {
        ChoiceOutcome::Value
    } else if r1 || r2 {
        ChoiceOutcome::Changed
    } else {
        ChoiceOutcome::Continue
    };
    (outcome, r2)
}

/// Select the entry `n` below the current one, opening the popup.
///
/// Does nothing on an empty list. The caller scrolls the list to the
/// new selection afterwards.
pub fn move_down<T: PartialEq + Clone + Default>(
    core: &mut ChoiceCore<T>,
    popup_active: &mut bool,
    n: usize,
) -> (r: (ChoiceOutcome, bool))
    requires
        old(core).wf(),
        old(core).selected_view() matches Some(i) ==> i + n <= usize::MAX,
    ensures
        final(core).wf(),
        final(core).values_view() == old(core).values_view(),
        final(core).default_view() == old(core).default_view(),
        old(core).values_view().len() == 0 ==> *final(core) == *old(core) && *final(popup_active) == *old(popup_active)
            && r.0 == ChoiceOutcome::Continue && !r.1,
        old(core).values_view().len() > 0 ==> {
            let idx = move_down_index(old(core).selected_view(), n, old(core).values_view().len() as usize);
            &&& *final(popup_active)
            &&& final(core).selected_view() == Some(idx)
            &&& cloned(old(core).values_view()[idx as int], final(core).value_view())
            &&& r.1 == (old(core).selected_view() != final(core).selected_view())
            &&& r.0 == move_outcome(old(core).selected_view(), final(core).selected_view(), !*old(popup_active) || r.1)
        },
{
    if core.is_empty() {
        return (ChoiceOutcome::Continue, false);
    }
    let old_selected = core.selected();
    let r1 = !*popup_active;
    *popup_active = true;
    let idx = match core.selected() {
        Some(i) => i + n,
        None => n.saturating_sub(1),
    };
    let len = core.values().len();
    let idx = if idx > len - 1 { len - 1 } else { idx };
    let r2 = core.set_selected(idx);
    let outcome = if old_selected != core.selected() {
        ChoiceOutcome::Value
    } else if r1 || r2 {
        ChoiceOutcome::Changed
    } else {
        ChoiceOutcome::Continue
    };
    (outcome, r2)
}

/// Select the entry `n` above the current one, opening the popup.
///
/// Does nothing on an empty list. The caller scrolls the list to the
/// new selection afterwards.
pub fn move_up<T: PartialEq + Clone + Default>(
    core: &mut ChoiceCore<T>,
    popup_active: &mut bool,
    n: usize,
) -> (r: (ChoiceOutcome, bool))
    requires
        old(core).wf(),
    ensures
        final(core).wf(),
        final(core).values_view() == old(core).values_view(),
        final(core).default_view() == old(core).default_view(),
        old(core).values_view().len() == 0 ==> *final(core) == *old(core) && *final(popup_active) == *old(popup_active)
            && r.0 == ChoiceOutcome::Continue && !r.1,
        old(core).values_view().len() > 0 ==> {
            let idx = move_up_index(old(core).selected_view(), n, old(core).values_view().len() as usize);
            &&& *final(popup_active)
            &&& final(core).selected_view() == Some(idx)
            &&& cloned(old(core).values_view()[idx as int], final(core).value_view())
            &&& r.1 == (old(core).selected_view() != final(core).selected_view())
            &&& r.0 == move_outcome(old(core).selected_view(), final(core).selected_view(), !*old(popup_active) || r.1)
        },
{
    if core.is_empty() {
        return (ChoiceOutcome::Continue, false);
    }
    let old_selected = core.selected();
    let r1 = !*popup_active;
    *popup_active = true;
    let idx = match core.selected() {
        Some(i) => i.saturating_sub(n),
        None => 0,
    };
    let len = core.values().len();
    let idx = if idx > len - 1 { len - 1 } else { idx };
    let r2 = core.set_selected(idx);
    let outcome = if old_selected != core.selected() {
        ChoiceOutcome::Value
    } else if r1 || r2 {
        ChoiceOutcome::Changed
    } else {
        ChoiceOutcome::Continue
    };
    (outcome, r2)
}


/// Navigation characters of an item whose text starts with `first`:
/// the lowercase mapping of that char, or nothing for an empty item.
pub open spec fn spec_nav_chars(first: Option<char>) -> Seq<char> {
    match first {
        Some(c) => lowercase_chars(c),
        None => Seq::empty(),
    }
}

/// Navigation characters of an item whose text starts with `first`.
pub fn nav_chars(first: Option<char>) -> (r: Vec<char>)
    ensures
        r@ == spec_nav_chars(first),
{
    match first {
        Some(c) => to_lowercase(c),
        None => Vec::new(),
    }
}

/// Number of rows a closed choice scrolls by: the configured length, or
/// up to five items.
pub open spec fn spec_closed_len(len: Option<u16>, items_len: usize) -> u16 {
    match len {
        Some(l) => l,
        None => if items_len < 5 { items_len as u16 } else { 5 },
    }
}

/// Scroll limits of the list while the popup is closed: the largest
/// offset and the page length.
pub open spec fn spec_closed_scroll(len: Option<u16>, items_len: usize) -> (usize, usize) {
    let l = spec_closed_len(len, items_len);
    (if items_len >= l { (items_len - l) as usize } else { 0 }, l as usize)
}

/// Scroll limits of the list while the popup is closed.
pub fn closed_scroll(len: Option<u16>, items_len: usize) -> (r: (usize, usize))
    ensures
        r == spec_closed_scroll(len, items_len),
{
    let l: u16 = match len {
        Some(l) => l,
        None => if items_len < 5 { items_len as u16 } else { 5 },
    };
    (items_len.saturating_sub(l as usize), l as usize)
}

/// Area of the shown item: `inner` less the three columns of the button.
pub open spec fn spec_choice_item_area(inner: Rect) -> Rect {
    Rect::spec_new(inner.x, inner.y, sat_sub(inner.width, 3), inner.height)
}

/// Area of the drop-down button: the last three columns of `inner`.
pub open spec fn spec_choice_button_area(inner: Rect) -> Rect {
    Rect::spec_new(
        sat_sub(inner.spec_right(), min_u16(3, inner.width)),
        inner.y,
        3,
        inner.height,
    )
}

/// Item area and button area of a choice whose inner area is `inner`.
pub fn choice_areas(inner: Rect) -> (r: (Rect, Rect))
    ensures
        r.0 == spec_choice_item_area(inner),
        r.1 == spec_choice_button_area(inner),
{
    let item = Rect::new(inner.x, inner.y, inner.width.saturating_sub(3), inner.height);
    let w: u16 = if inner.width < 3 { inner.width } else { 3 };
    let button = Rect::new(inner.right().saturating_sub(w), inner.y, 3, inner.height);
    (item, button)
}

/// Row of the button symbol below the top of a button of this height:
/// the middle row, the upper one of two middles.
pub open spec fn spec_button_symbol_dy(height: u16) -> u16 {
    if height % 2 == 1 { (height / 2) as u16 } else { (sat_sub(height, 1) / 2) as u16 }
}

/// Row of the button symbol below the top of the button.
pub fn button_symbol_dy(height: u16) -> (r: u16)
    ensures
        r == spec_button_symbol_dy(height),
        height > 0 ==> r < height,
{
    if height % 2 == 1 {
        height / 2
    } else {
        height.saturating_sub(1) / 2
    }
}

/// Height of the popup: its list length (the configured one, or five,
/// but no more than the items, counted modulo 2^16) and its block.
pub open spec fn spec_popup_height(popup_len: Option<u16>, items_len: usize, block_height: u16) -> int {
    let want: u16 = match popup_len {
        Some(l) => l,
        None => 5,
    };
    min_u16(want, items_len as u16) + block_height
}

/// Height of the popup for `items_len` items and a block of
/// `block_height` rows.
pub fn popup_height(popup_len: Option<u16>, items_len: usize, block_height: u16) -> (r: u16)
    requires
        spec_popup_height(popup_len, items_len, block_height) <= u16::MAX,
    ensures
        r == spec_popup_height(popup_len, items_len, block_height),
{
    let want: u16 = match popup_len {
        Some(l) => l,
        None => 5,
    };
    let n: u16 = items_len as u16;
    let len: u16 = if want <= n { want } else { n };
    len + block_height
}

/// Scroll limits of the open popup, whose list shows `rows` rows: the
/// largest offset and the page length.
pub fn popup_scroll(items_len: usize, rows: u16) -> (r: (usize, usize))
    ensures
        r.0 == (if items_len >= rows { items_len - rows } else { 0 }),
        r.1 == rows,
{
    (items_len.saturating_sub(rows as usize), rows as usize)
}

/// One row of the open popup: its area, the index of the item shown
/// there (if there is one) and whether that item is the selected one.
#[derive(Debug, Clone, Copy, PartialEq, Eq)]
pub struct PopupRow {
    pub area: Rect,
    pub item: Option<usize>,
    pub selected: bool,
}

/// The rows of the open popup whose list area is `inner`, showing items
/// from `offset` on, of `items_len` items with `selected` selected.
///
/// Row `i` covers one line of `inner`, and shows item `offset + i` where
/// that item exists.
pub open spec fn spec_popup_row(inner: Rect, offset: usize, items_len: usize, selected: Option<usize>, i: int) -> PopupRow {
    let idx = offset + i;
    PopupRow {
        area: Rect::spec_new(inner.x, (inner.y + i) as u16, inner.width, 1),
        item: if idx < items_len { Some(idx as usize) } else { None },
        selected: idx < items_len && selected == Some(idx as usize),
    }
}

/// Lays out the rows of the open popup.
pub fn popup_rows(inner: Rect, offset: usize, items_len: usize, selected: Option<usize>) -> (r: Vec<PopupRow>)
    requires
        offset + inner.height <= usize::MAX,
    ensures
        r@.len() == inner.spec_bottom() - inner.y,
        forall|i: int| 0 <= i < r@.len() ==> #[trigger] r@[i] == spec_popup_row(inner, offset, items_len, selected, i),
{
    let mut rows: Vec<PopupRow> = Vec::new();
    let bottom = inner.bottom();
    let mut row: u16 = inner.y;
    let mut idx: usize = offset;
    while row < bottom
        invariant
            bottom == inner.spec_bottom(),
            inner.y <= row <= bottom,
            idx == offset + (row - inner.y),
            offset + inner.height <= usize::MAX,
            bottom <= inner.y + inner.height,
            rows@.len() == row - inner.y,
            forall|i: int| 0 <= i < rows@.len() ==> #[trigger] rows@[i] == spec_popup_row(inner, offset, items_len, selected, i),
        decreases bottom - row,
    {
        let area = Rect::new(inner.x, row, inner.width, 1);
        let item = if idx < items_len { Some(idx) } else { None };
        let sel = idx < items_len && match selected {
            Some(s) => s == idx,
            None => false,
        };
        rows.push(PopupRow { area, item, selected: sel });
        row = row + 1;
        idx = idx + 1;
    }
    rows
}


/// What a key asks of a focused choice.
#[derive(Debug, Clone, Copy, PartialEq, Eq, Structural)]
pub enum ChoiceAction {
    /// Open or close the popup.
    FlipPopup,
    /// Close the popup.
    ClosePopup,
    /// Select the next value whose navigation char is this one.
    SelectByChar(char),
    /// Select the previous value whose navigation char is this one.
    ReverseSelectByChar(char),
    /// Go back to the default value.
    Clear,
    /// Move the selection down by this many values.
    MoveDown(usize),
    /// Move the selection up by this many values.
    MoveUp(usize),
    /// Select the value at this index.
    MoveTo(usize),
}

/// The action a key asks of a focused choice with `len` values, whose
/// popup shows `page_len` rows: space and Enter open or close the popup,
/// Esc closes it, a char selects by its navigation char (with Shift
/// backwards), Delete and Backspace clear, the arrows, Page up and down,
/// Home and End move the selection.
pub open spec fn choice_key_action(k: KeyPress, page_len: usize, len: usize) -> Option<ChoiceAction> {
    let plain = !k.shift && !k.control && !k.alt;
    if plain && (k.code == KeyCode::Char(' ') || k.code == KeyCode::Enter) {
        Some(ChoiceAction::FlipPopup)
    } else if plain && k.code == KeyCode::Esc {
        Some(ChoiceAction::ClosePopup)
    } else if plain && k.code is Char {
        Some(ChoiceAction::SelectByChar(k.code->Char_0))
    } else if k.shift && !k.control && !k.alt && k.code is Char {
        Some(ChoiceAction::ReverseSelectByChar(k.code->Char_0))
    } else if plain && (k.code == KeyCode::Delete || k.code == KeyCode::Backspace) {
        Some(ChoiceAction::Clear)
    } else if plain && k.code == KeyCode::Down {
        Some(ChoiceAction::MoveDown(1))
    } else if plain && k.code == KeyCode::Up {
        Some(ChoiceAction::MoveUp(1))
    } else if plain && k.code == KeyCode::PageUp {
        Some(ChoiceAction::MoveUp(page_len))
    } else if plain && k.code == KeyCode::PageDown {
        Some(ChoiceAction::MoveDown(page_len))
    } else if plain && k.code == KeyCode::Home {
        Some(ChoiceAction::MoveTo(0))
    } else if plain && k.code == KeyCode::End {
        Some(ChoiceAction::MoveTo(if len >= 1 { (len - 1) as usize } else { 0 }))
    } else {
        None
    }
}

/// The action a key asks of a choice; a choice without the focus takes
/// no keys.
pub fn key_action(k: KeyPress, focused: bool, page_len: usize, len: usize) -> (r: Option<ChoiceAction>)
    ensures
        r == (if focused { choice_key_action(k, page_len, len) } else { None }),
{
    if !focused || k.control || k.alt {
        return None;
    }
    if !k.shift {
        match k.code {
            KeyCode::Char(c) => if c == ' ' {
                Some(ChoiceAction::FlipPopup)
            } else {
                Some(ChoiceAction::SelectByChar(c))
            },
            KeyCode::Enter => Some(ChoiceAction::FlipPopup),
            KeyCode::Esc => Some(ChoiceAction::ClosePopup),
            KeyCode::Delete => Some(ChoiceAction::Clear),
            KeyCode::Backspace => Some(ChoiceAction::Clear),
            KeyCode::Down => Some(ChoiceAction::MoveDown(1)),
            KeyCode::Up => Some(ChoiceAction::MoveUp(1)),
            KeyCode::PageUp => Some(ChoiceAction::MoveUp(page_len)),
            KeyCode::PageDown => Some(ChoiceAction::MoveDown(page_len)),
            KeyCode::Home => Some(ChoiceAction::MoveTo(0)),
            KeyCode::End => Some(ChoiceAction::MoveTo(len.saturating_sub(1))),
            _ => None,
        }
    } else {
        match k.code {
            KeyCode::Char(c) => Some(ChoiceAction::ReverseSelectByChar(c)),
            _ => None,
        }
    }
}


/// Handles a key for a choice with the navigation chars `nav_char` of its
/// items and a popup of `page_len` rows: space and Enter open or close the
/// popup, Esc closes it, a char selects by its navigation char (with Shift
/// backwards), Delete and Backspace clear, the arrows, Page up and down,
/// Home and End move the selection and open the popup.
///
/// The caller scrolls the list to the selection afterwards.
pub fn handle_key<T: PartialEq + Clone + Default>(
    core: &mut ChoiceCore<T>,
    nav_char: &Vec<Vec<char>>,
    popup_active: &mut bool,
    k: KeyPress,
    focused: bool,
    page_len: usize,
) -> (r: ChoiceOutcome)
    requires
        old(core).wf(),
        old(core).selected_view() matches Some(i) ==> i < nav_char@.len(),
        (if focused { choice_key_action(k, page_len, old(core).values_view().len() as usize) } else { None })
            matches Some(ChoiceAction::MoveDown(n)) ==> (old(core).selected_view() matches Some(i)
            ==> i + n <= usize::MAX),
    ensures
        final(core).wf(),
        final(core).values_view() == old(core).values_view(),
        final(core).default_view() == old(core).default_view(),
        match (if focused { choice_key_action(k, page_len, old(core).values_view().len() as usize) } else { None }) {
            None => r == ChoiceOutcome::Continue && *final(core) == *old(core)
                && *final(popup_active) == *old(popup_active),
            Some(ChoiceAction::FlipPopup) => r == ChoiceOutcome::Changed && *final(core) == *old(core)
                && *final(popup_active) == !*old(popup_active),
            Some(ChoiceAction::ClosePopup) => *final(core) == *old(core) && !*final(popup_active)
                && r == (if *old(popup_active) { ChoiceOutcome::Changed } else { ChoiceOutcome::Continue }),
            Some(ChoiceAction::SelectByChar(c)) => *final(popup_active) == *old(popup_active)
                && r == (if nav_char@.len() > 0 && next_by_char_index(nav_view(nav_char@), old(core).selected_view(),
                    lowercase_chars(c)) is Some { ChoiceOutcome::Value } else { ChoiceOutcome::Continue })
                && (r == ChoiceOutcome::Continue ==> *final(core) == *old(core))
                && (nav_char@.len() > 0 ==> match next_by_char_index(nav_view(nav_char@), old(core).selected_view(),
                    lowercase_chars(c)) {
                    Some(i) => i < old(core).values_view().len() ==> final(core).selected_view() == Some(i),
                    None => true,
                }),
            Some(ChoiceAction::ReverseSelectByChar(c)) => *final(popup_active) == *old(popup_active)
                && r == (if nav_char@.len() > 0 && prev_by_char_index(nav_view(nav_char@), old(core).selected_view(),
                    lowercase_chars(c)) is Some { ChoiceOutcome::Value } else { ChoiceOutcome::Continue })
                && (r == ChoiceOutcome::Continue ==> *final(core) == *old(core))
                && (nav_char@.len() > 0 ==> match prev_by_char_index(nav_view(nav_char@), old(core).selected_view(),
                    lowercase_chars(c)) {
                    Some(i) => i < old(core).values_view().len() ==> final(core).selected_view() == Some(i),
                    None => true,
                }),
            Some(ChoiceAction::Clear) => *final(popup_active) == *old(popup_active)
                && match old(core).default_view() {
                    Some(d) => cloned(d, final(core).value_view()),
                    None => call_ensures(T::default, (), final(core).value_view()),
                }
                && (T::obeys_eq_spec() ==> is_first_match(old(core).values_view(), final(core).value_view(),
                    final(core).selected_view()))
                && (T::obeys_eq_spec() ==> (r == ChoiceOutcome::Value) == (old(core).selected_view()
                    != final(core).selected_view() || match old(core).default_view() {
                        Some(d) => !old(core).value_view().eq_spec(&d),
                        None => !old(core).value_view().eq_spec(&final(core).value_view()),
                    }))
                && (r == ChoiceOutcome::Value || r == ChoiceOutcome::Continue),
            Some(ChoiceAction::MoveDown(n)) => old(core).values_view().len() == 0 ==> r == ChoiceOutcome::Continue
                && *final(core) == *old(core) && *final(popup_active) == *old(popup_active),
            Some(ChoiceAction::MoveUp(n)) => old(core).values_view().len() == 0 ==> r == ChoiceOutcome::Continue
                && *final(core) == *old(core) && *final(popup_active) == *old(popup_active),
            Some(ChoiceAction::MoveTo(n)) => *final(popup_active),
        },
        (if focused { choice_key_action(k, page_len, old(core).values_view().len() as usize) } else { None })
            matches Some(ChoiceAction::MoveDown(n)) ==> (old(core).values_view().len() > 0 ==> {
            let idx = move_down_index(old(core).selected_view(), n, old(core).values_view().len() as usize);
            &&& *final(popup_active)
            &&& final(core).selected_view() == Some(idx)
            &&& cloned(old(core).values_view()[idx as int], final(core).value_view())
            &&& r == move_outcome(old(core).selected_view(), final(core).selected_view(),
                !*old(popup_active) || old(core).selected_view() != final(core).selected_view())
        }),
        (if focused { choice_key_action(k, page_len, old(core).values_view().len() as usize) } else { None })
            matches Some(ChoiceAction::MoveUp(n)) ==> (old(core).values_view().len() > 0 ==> {
            let idx = move_up_index(old(core).selected_view(), n, old(core).values_view().len() as usize);
            &&& *final(popup_active)
            &&& final(core).selected_view() == Some(idx)
            &&& cloned(old(core).values_view()[idx as int], final(core).value_view())
            &&& r == move_outcome(old(core).selected_view(), final(core).selected_view(),
                !*old(popup_active) || old(core).selected_view() != final(core).selected_view())
        }),
        (if focused { choice_key_action(k, page_len, old(core).values_view().len() as usize) } else { None })
            matches Some(ChoiceAction::MoveTo(n)) ==> ({
            &&& (n < old(core).values_view().len() ==> final(core).selected_view() == Some(n)
                && cloned(old(core).values_view()[n as int], final(core).value_view()))
            &&& (n >= old(core).values_view().len() ==> final(core).selected_view() == None::<usize>
                && final(core).value_view() == old(core).value_view())
            &&& r == move_outcome(old(core).selected_view(), final(core).selected_view(),
                !*old(popup_active) || old(core).selected_view() != final(core).selected_view())
        }),
{
    let len = core.values().len();
    match key_action(k, focused, page_len, len) {
        None => ChoiceOutcome::Continue,
        Some(ChoiceAction::FlipPopup) => {
            *popup_active = !*popup_active;
            ChoiceOutcome::Changed
        },
        Some(ChoiceAction::ClosePopup) => {
            if *popup_active {
                *popup_active = false;
                ChoiceOutcome::Changed
            } else {
                ChoiceOutcome::Continue
            }
        },
        Some(ChoiceAction::SelectByChar(c)) => {
            if select_by_char(core, nav_char, c) {
                ChoiceOutcome::Value
            } else {
                ChoiceOutcome::Continue
            }
        },
        Some(ChoiceAction::ReverseSelectByChar(c)) => {
            if reverse_select_by_char(core, nav_char, c) {
                ChoiceOutcome::Value
            } else {
                ChoiceOutcome::Continue
            }
        },
        Some(ChoiceAction::Clear) => {
            if core.clear() {
                ChoiceOutcome::Value
            } else {
                ChoiceOutcome::Continue
            }
        },
        Some(ChoiceAction::MoveDown(n)) => move_down(core, popup_active, n).0,
        Some(ChoiceAction::MoveUp(n)) => move_up(core, popup_active, n).0,
        Some(ChoiceAction::MoveTo(n)) => move_to(core, popup_active, n).0,
    }
}

/// What the scroll area of the popup makes of a mouse event: scroll up or
/// down by some rows, or go to an offset.
#[derive(Debug, Clone, Copy, PartialEq, Eq, Structural)]
pub enum ScrollStep {
    Up(usize),
    Down(usize),
    VPos(usize),
}

/// What follows scrolling the popup list, once it is done.
#[derive(Debug, Clone, Copy, PartialEq, Eq, Structural)]
pub enum ScrollEffect {
    /// `Changed` if the list moved.
    Changed,
    /// `Value` if the list moved.
    Value,
    /// Select the value in this row of the list.
    Reselect(usize),
}

/// Result of the mouse selection: an outcome, or a scroll of the popup
/// list that the caller does before it calls [after_scroll].
#[derive(Debug, Clone, Copy, PartialEq, Eq, Structural)]
pub enum SelectResult {
    Done(ChoiceOutcome),
    Scroll(ScrollStep, ScrollEffect),
}

/// What the scroll step asks of the popup list, by the select mode:
/// with `MouseScroll` the selection moves, with `MouseMove` the list
/// scrolls and the selection stays in its row, with `MouseClick` the
/// list only scrolls. `MouseMove` ignores scrolling without a selection.
pub open spec fn spec_scroll_action(
    mode: ChoiceSelect,
    scroll: Option<ScrollStep>,
    selected: Option<usize>,
    offset: usize,
) -> Option<ScrollEffect> {
    match (mode, scroll) {
        (ChoiceSelect::MouseMove, Some(ScrollStep::VPos(_))) => if selected is Some {
            Some(ScrollEffect::Value)
        } else {
            None
        },
        (ChoiceSelect::MouseMove, Some(_)) => match selected {
            Some(s) => Some(ScrollEffect::Reselect(sat_sub_usize(s, offset))),
            None => None,
        },
        (ChoiceSelect::MouseClick, Some(_)) => Some(ScrollEffect::Changed),
        _ => None,
    }
}

/// `a - b`, or 0 below it.
pub open spec fn sat_sub_usize(a: usize, b: usize) -> usize {
    if a >= b { (a - b) as usize } else { 0 }
}

/// The mouse event selects in the popup: a press or drag of the left
/// button, or with `MouseMove` a move, without modifiers, inside the
/// popup's area.
pub open spec fn selects_at(mode: ChoiceSelect, m: MouseInput, popup_area: Rect) -> bool {
    let kind_ok = if mode == ChoiceSelect::MouseMove {
        m.kind == MouseKind::Moved
    } else {
        m.kind == MouseKind::LeftDown || m.kind == MouseKind::LeftDrag
    };
    &&& kind_ok
    &&& !m.shift && !m.control && !m.alt
    &&& popup_area.spec_contains(m.column, m.row)
}

/// Selecting the value at index `n` with the popup opening: from `old`
/// and the popup state `old_popup` to `new`, `new_popup`, with outcome `r`.
pub open spec fn moved_to<T>(old: ChoiceCore<T>, new: ChoiceCore<T>, old_popup: bool, new_popup: bool, n: int, r: ChoiceOutcome) -> bool where T: PartialEq + Clone + Default {
    &&& new_popup
    &&& n < old.values_view().len() ==> new.selected_view() == Some(n as usize)
        && cloned(old.values_view()[n], new.value_view())
    &&& n >= old.values_view().len() ==> new.selected_view() == None::<usize>
        && new.value_view() == old.value_view()
    &&& r == move_outcome(old.selected_view(), new.selected_view(),
        !old_popup || old.selected_view() != new.selected_view())
}

/// What [click_select] does: nothing and `Continue` for an event that
/// doesn't select, nothing and `Unchanged` off the rows, else it selects
/// the value of the row under the mouse, counted from the offset.
pub open spec fn click_result<T>(
    old: ChoiceCore<T>,
    new: ChoiceCore<T>,
    old_popup: bool,
    new_popup: bool,
    mode: ChoiceSelect,
    m: MouseInput,
    popup_area: Rect,
    item_areas: Seq<Rect>,
    offset: usize,
    r: ChoiceOutcome,
) -> bool where T: PartialEq + Clone + Default {
    if !selects_at(mode, m, popup_area) {
        r == ChoiceOutcome::Continue && new == old && new_popup == old_popup
    } else {
        match first_at(item_areas, m.column, m.row) {
            None => r == ChoiceOutcome::Unchanged && new == old && new_popup == old_popup,
            Some(i) => moved_to(old, new, old_popup, new_popup, offset + i, r),
        }
    }
}

/// What a scroll step does with `MouseScroll`: it moves the selection up
/// or down by its rows, or to its offset, and opens the popup; up and
/// down do nothing on an empty list.
pub open spec fn scroll_move_result<T>(
    old: ChoiceCore<T>,
    new: ChoiceCore<T>,
    old_popup: bool,
    new_popup: bool,
    step: ScrollStep,
    r: ChoiceOutcome,
) -> bool where T: PartialEq + Clone + Default {
    let len = old.values_view().len();
    match step {
        ScrollStep::VPos(n) => moved_to(old, new, old_popup, new_popup, n as int, r),
        ScrollStep::Up(n) => if len == 0 {
            r == ChoiceOutcome::Continue && new == old && new_popup == old_popup
        } else {
            moved_to(old, new, old_popup, new_popup, move_up_index(old.selected_view(), n, len as usize) as int, r)
        },
        ScrollStep::Down(n) => if len == 0 {
            r == ChoiceOutcome::Continue && new == old && new_popup == old_popup
        } else {
            moved_to(old, new, old_popup, new_popup, move_down_index(old.selected_view(), n, len as usize) as int, r)
        },
    }
}

/// Selects the value of the popup row under the mouse, when the event
/// selects (see [selects_at]); `Unchanged` in the popup off the rows.
pub fn click_select<T: PartialEq + Clone + Default>(
    core: &mut ChoiceCore<T>,
    popup_active: &mut bool,
    mode: ChoiceSelect,
    m: MouseInput,
    popup_area: Rect,
    item_areas: &Vec<Rect>,
    offset: usize,
) -> (r: ChoiceOutcome)
    requires
        old(core).wf(),
        first_at(item_areas@, m.column, m.row) matches Some(i) ==> offset + i <= usize::MAX,
    ensures
        final(core).wf(),
        final(core).values_view() == old(core).values_view(),
        final(core).default_view() == old(core).default_view(),
        click_result(*old(core), *final(core), *old(popup_active), *final(popup_active), mode, m, popup_area,
            item_areas@, offset, r),
{
    let kind_ok = match mode {
        ChoiceSelect::MouseMove => m.kind == MouseKind::Moved,
        _ => m.kind == MouseKind::LeftDown || m.kind == MouseKind::LeftDrag,
    };
    if !kind_ok || m.shift || m.control || m.alt || !popup_area.contains(crate::geometry::Position { x: m.column, y: m.row }) {
        return ChoiceOutcome::Continue;
    }
    match popup_item_at(item_areas, offset, m.column, m.row) {
        Some(n) => move_to(core, popup_active, n).0,
        None => ChoiceOutcome::Unchanged,
    }
}

/// What [handle_select] does, from `old` and the popup state `old_popup`
/// to `new` and `new_popup` with result `r`: a scroll that the mode asks of
/// the caller changes nothing; without a scroll step the event selects as
/// in [click_result]; with `MouseScroll` a scroll step moves the
/// selection as in [scroll_move_result], for an event that doesn't select
/// a row.
pub open spec fn choice_select_result<T>(
    old: ChoiceCore<T>,
    new: ChoiceCore<T>,
    old_popup: bool,
    new_popup: bool,
    mode: ChoiceSelect,
    scroll: Option<ScrollStep>,
    m: MouseInput,
    popup_area: Rect,
    item_areas: Seq<Rect>,
    offset: usize,
    r: SelectResult,
) -> bool where T: PartialEq + Clone + Default {
    &&& spec_scroll_action(mode, scroll, old.selected_view(), offset) is Some ==> r == SelectResult::Scroll(
        scroll->0,
        spec_scroll_action(mode, scroll, old.selected_view(), offset)->0,
    ) && new == old && new_popup == old_popup
    &&& spec_scroll_action(mode, scroll, old.selected_view(), offset) is None && !(mode == ChoiceSelect::MouseScroll
        && scroll is Some) ==> (r is Done && click_result(old, new, old_popup, new_popup, mode, m, popup_area,
        item_areas, offset, r->Done_0))
    &&& mode == ChoiceSelect::MouseScroll && scroll is Some && !selects_at(mode, m, popup_area) ==> (r is Done
        && scroll_move_result(old, new, old_popup, new_popup, scroll->0, r->Done_0))
}

/// Handles the selection with the mouse in the open popup: first the
/// scroll step that the popup's scroll area made of the event, then, if
/// that did nothing, a press, drag or move on a row (see [click_select]).
///
/// With `MouseScroll` the scroll step moves the selection; otherwise it
/// asks the caller to scroll the list (see [spec_scroll_action]), who
/// then calls [after_scroll].
pub fn handle_select<T: PartialEq + Clone + Default>(
    core: &mut ChoiceCore<T>,
    popup_active: &mut bool,
    mode: ChoiceSelect,
    scroll: Option<ScrollStep>,
    m: MouseInput,
    popup_area: Rect,
    item_areas: &Vec<Rect>,
    offset: usize,
) -> (r: SelectResult)
    requires
        old(core).wf(),
        first_at(item_areas@, m.column, m.row) matches Some(i) ==> offset + i <= usize::MAX,
        mode == ChoiceSelect::MouseScroll ==> (scroll matches Some(ScrollStep::Down(n)) ==> (
            old(core).selected_view() matches Some(i) ==> i + n <= usize::MAX)),
    ensures
        final(core).wf(),
        final(core).values_view() == old(core).values_view(),
        final(core).default_view() == old(core).default_view(),
        choice_select_result(*old(core), *final(core), *old(popup_active), *final(popup_active), mode, scroll, m,
            popup_area, item_areas@, offset, r),
{
    let first = match (mode, scroll) {
        (ChoiceSelect::MouseScroll, Some(ScrollStep::Up(n))) => move_up(core, popup_active, n).0,
        (ChoiceSelect::MouseScroll, Some(ScrollStep::Down(n))) => move_down(core, popup_active, n).0,
        (ChoiceSelect::MouseScroll, Some(ScrollStep::VPos(n))) => move_to(core, popup_active, n).0,
        (ChoiceSelect::MouseMove, Some(step)) => match core.selected() {
            Some(s) => {
                let e = match step {
                    ScrollStep::VPos(_) => ScrollEffect::Value,
                    _ => ScrollEffect::Reselect(s.saturating_sub(offset)),
                };
                return SelectResult::Scroll(step, e);
            },
            None => ChoiceOutcome::Continue,
        },
        (ChoiceSelect::MouseClick, Some(step)) => {
            return SelectResult::Scroll(step, ScrollEffect::Changed);
        },
        _ => ChoiceOutcome::Continue,
    };
    if first == ChoiceOutcome::Continue {
        SelectResult::Done(click_select(core, popup_active, mode, m, popup_area, item_areas, offset))
    } else {
        SelectResult::Done(first)
    }
}

/// The outcome after the caller scrolled the popup list as
/// [handle_select] asked: `scrolled` tells whether the list moved and
/// `offset` is its new offset. With [ScrollEffect::Reselect] the value in
/// the same row of the moved list is selected, `Value` if that changed
/// the selected index.
pub fn after_scroll<T: PartialEq + Clone + Default>(
    core: &mut ChoiceCore<T>,
    effect: ScrollEffect,
    scrolled: bool,
    offset: usize,
) -> (r: ChoiceOutcome)
    requires
        old(core).wf(),
        effect matches ScrollEffect::Reselect(row) ==> offset + row <= usize::MAX,
    ensures
        final(core).wf(),
        final(core).values_view() == old(core).values_view(),
        final(core).default_view() == old(core).default_view(),
        match effect {
            ScrollEffect::Changed => *final(core) == *old(core)
                && r == (if scrolled { ChoiceOutcome::Changed } else { ChoiceOutcome::Unchanged }),
            ScrollEffect::Value => *final(core) == *old(core)
                && r == (if scrolled { ChoiceOutcome::Value } else { ChoiceOutcome::Unchanged }),
            ScrollEffect::Reselect(row) => {
                let n = offset + row;
                &&& n < old(core).values_view().len() ==> final(core).selected_view() == Some(n as usize)
                    && cloned(old(core).values_view()[n], final(core).value_view())
                &&& n >= old(core).values_view().len() ==> final(core).selected_view() == None::<usize>
                    && final(core).value_view() == old(core).value_view()
                &&& r == (if old(core).selected_view() != final(core).selected_view() {
                    ChoiceOutcome::Value
                } else {
                    ChoiceOutcome::Unchanged
                })
            },
        },
{
    match effect {
        ScrollEffect::Changed => if scrolled { ChoiceOutcome::Changed } else { ChoiceOutcome::Unchanged },
        ScrollEffect::Value => if scrolled { ChoiceOutcome::Value } else { ChoiceOutcome::Unchanged },
        ScrollEffect::Reselect(row) => if core.set_selected(offset + row) {
            ChoiceOutcome::Value
        } else {
            ChoiceOutcome::Unchanged
        },
    }
}

/// The item of the open popup under the cell at column `x`, row `y`: the
/// first row area that holds the cell, counted from the scroll offset.
pub fn popup_item_at(item_areas: &Vec<Rect>, offset: usize, x: u16, y: u16) -> (r: Option<usize>)
    requires
        first_at(item_areas@, x, y) matches Some(i) ==> offset + i <= usize::MAX,
    ensures
        r == match first_at(item_areas@, x, y) {
            Some(i) => Some((offset + i) as usize),
            None => None::<usize>,
        },
{
    match item_at(item_areas.as_slice(), x, y) {
        Some(i) => Some(offset + i),
        None => None,
    }
}
} // verus!

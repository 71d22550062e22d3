//!
//! Event handling of one month: which key or mouse event moves the
//! selection where.
//!
use crate::calendar::date::{
    day, day0_exists, day_of_month, month_end_exists, month_first, month_last, MAX_DAYS, MIN_DAYS,
    week_exists,
};
use crate::calendar::event::CalOutcome;
use crate::calendar::month::{
    next_day_target, next_week_target, prev_day_target, range_lead, selected_if, week_end,
    weeks_of_month, MonthState,
};
use crate::calendar::selection::range_selection::{
    day_selection, week_ops_ok, week_selection, RangeSelection,
};
use crate::calendar::selection::single_selection::SingleSelection;
use crate::event::{KeyCode, KeyPress, MouseInput, MouseKind};
use crate::geometry::{first_at, item_at, sat_sub, Position, Rect};
use vstd::prelude::*;

verus! {

/// A navigation step within one month.
#[derive(Debug, Clone, Copy, PartialEq, Eq, Structural)]
pub enum MonthStep {
    /// To the day with this 0-based index.
    Day(usize),
    /// To the last day.
    LastDay,
    /// To the week with this 0-based index.
    Week(usize),
    /// Back by this many days.
    PrevDay(usize),
    /// Forward by this many days.
    NextDay(usize),
    /// Back by this many weeks.
    PrevWeek(usize),
    /// Forward by this many weeks.
    NextWeek(usize),
}

/// The single selection of the month starting at `start` after the step.
/// Week steps leave it as it is.
pub open spec fn single_after(start: int, sel: Option<int>, step: MonthStep) -> Option<int> {
    let end = month_last(start);
    match step {
        MonthStep::Day(n) => {
            let d0 = (n as u32) as int;
            if d0 < 28 || day0_exists(start, d0) {
                Some(month_first(start) + d0)
            } else {
                sel
            }
        },
        MonthStep::LastDay => Some(end),
        MonthStep::PrevDay(n) => {
            let t = prev_day_target(sel, start, end, n as int);
            if start <= t <= end {
                Some(t)
            } else {
                sel
            }
        },
        MonthStep::NextDay(n) => {
            let t = next_day_target(sel, start, end, n as int);
            if start <= t <= end {
                Some(t)
            } else {
                sel
            }
        },
        _ => sel,
    }
}

/// The step stays inside chrono's range of dates.
pub open spec fn single_ready(start: int, sel: Option<int>, step: MonthStep) -> bool {
    match step {
        MonthStep::LastDay => month_end_exists(start),
        MonthStep::PrevDay(n) => month_end_exists(start) && (sel matches Some(l) ==> (start <= l
            <= month_last(start) ==> l - n >= MIN_DAYS)),
        MonthStep::NextDay(n) => month_end_exists(start) && (sel matches Some(l) ==> (start <= l
            <= month_last(start) ==> l + n <= MAX_DAYS)),
        _ => true,
    }
}

/// The range selection of the month starting at `start` after the step;
/// `extend` keeps the anchor.
pub open spec fn range_after(start: int, sel: Option<(int, int)>, step: MonthStep, extend: bool) -> Option<(int, int)> {
    let end = month_last(start);
    let lead = range_lead(sel);
    match step {
        MonthStep::Day(n) => {
            let d0 = (n as u32) as int;
            if d0 < 28 || day0_exists(start, d0) {
                day_selection(sel, month_first(start) + d0, extend)
            } else {
                sel
            }
        },
        MonthStep::LastDay => day_selection(sel, end, extend),
        MonthStep::Week(n) => if n < weeks_of_month(start) {
            week_selection(sel, start + 7 * n, extend)
        } else {
            sel
        },
        MonthStep::PrevDay(n) => {
            let t = prev_day_target(lead, start, end, n as int);
            if start <= t <= end {
                day_selection(sel, t, extend)
            } else {
                sel
            }
        },
        MonthStep::NextDay(n) => {
            let t = next_day_target(lead, start, end, n as int);
            if start <= t <= end {
                day_selection(sel, t, extend)
            } else {
                sel
            }
        },
        MonthStep::PrevWeek(n) => {
            let t = prev_day_target(lead, start, end, 7 * n);
            if lead is None || start <= week_end(t) <= end {
                week_selection(sel, t, extend)
            } else {
                sel
            }
        },
        MonthStep::NextWeek(n) => {
            let t = next_week_target(lead, start, end, n as int);
            if start <= t <= end {
                week_selection(sel, t, extend)
            } else {
                sel
            }
        },
    }
}

/// The step stays inside chrono's range of dates.
pub open spec fn range_ready(start: int, sel: Option<(int, int)>, step: MonthStep, extend: bool) -> bool {
    let lead = range_lead(sel);
    match step {
        MonthStep::Day(_) => true,
        MonthStep::LastDay => month_end_exists(start),
        MonthStep::Week(_) => MIN_DAYS + 6 <= start && start + 41 <= MAX_DAYS && (extend
            ==> week_ops_ok(sel)),
        MonthStep::PrevDay(n) => month_end_exists(start) && (lead matches Some(l) ==> (start <= l
            <= month_last(start) ==> l - n >= MIN_DAYS)),
        MonthStep::NextDay(n) => month_end_exists(start) && (lead matches Some(l) ==> (start <= l
            <= month_last(start) ==> l + n <= MAX_DAYS)),
        MonthStep::PrevWeek(n) => {
            &&& MIN_DAYS + 6 <= start
            &&& start + 36 <= MAX_DAYS
            &&& lead matches Some(l) ==> (start <= l <= month_last(start) ==> l - 7 * n >= MIN_DAYS + 6)
            &&& extend ==> week_ops_ok(sel)
        },
        MonthStep::NextWeek(n) => {
            &&& MIN_DAYS + 6 <= start
            &&& start + 36 <= MAX_DAYS
            &&& lead matches Some(l) ==> week_exists(l) && (start <= week_end(l) <= month_last(start) ==> l + 7 * n
                <= MAX_DAYS)
            &&& extend ==> week_ops_ok(sel)
        },
    }
}

/// The step a key takes in a focused month with a single selection:
/// the arrows move by a day, up and down by a week.
pub open spec fn single_key_step(k: KeyPress) -> Option<MonthStep> {
    if k.is(KeyCode::Up, false, false, false) {
        Some(MonthStep::PrevDay(7))
    } else if k.is(KeyCode::Down, false, false, false) {
        Some(MonthStep::NextDay(7))
    } else if k.is(KeyCode::Left, false, false, false) {
        Some(MonthStep::PrevDay(1))
    } else if k.is(KeyCode::Right, false, false, false) {
        Some(MonthStep::NextDay(1))
    } else {
        None
    }
}

/// The step a key takes in a focused month with a range selection, and
/// whether it extends the selection: Home and End go to the first and
/// last day, the arrows move by a day, up and down by a week, with Alt
/// up and down select whole weeks; Shift extends the selection.
pub open spec fn range_key_step(k: KeyPress) -> Option<(MonthStep, bool)> {
    let plain = !k.control && !k.alt;
    let alt = !k.control && k.alt;
    if plain && k.code == KeyCode::Home {
        Some((MonthStep::Day(0), k.shift))
    } else if plain && k.code == KeyCode::End {
        Some((MonthStep::LastDay, k.shift))
    } else if plain && k.code == KeyCode::Up {
        Some((MonthStep::PrevDay(7), k.shift))
    } else if plain && k.code == KeyCode::Down {
        Some((MonthStep::NextDay(7), k.shift))
    } else if plain && k.code == KeyCode::Left {
        Some((MonthStep::PrevDay(1), k.shift))
    } else if plain && k.code == KeyCode::Right {
        Some((MonthStep::NextDay(1), k.shift))
    } else if alt && k.code == KeyCode::Up {
        Some((MonthStep::PrevWeek(1), k.shift))
    } else if alt && k.code == KeyCode::Down {
        Some((MonthStep::NextWeek(1), k.shift))
    } else {
        None
    }
}

/// The step a key takes in a focused month with a single selection.
pub fn single_key_step_of(k: KeyPress) -> (r: Option<MonthStep>)
    ensures
        r == single_key_step(k),
{
    if k.shift || k.control || k.alt {
        None
    } else if k.code == KeyCode::Up {
        Some(MonthStep::PrevDay(7))
    } else if k.code == KeyCode::Down {
        Some(MonthStep::NextDay(7))
    } else if k.code == KeyCode::Left {
        Some(MonthStep::PrevDay(1))
    } else if k.code == KeyCode::Right {
        Some(MonthStep::NextDay(1))
    } else {
        None
    }
}

/// The step a key takes in a focused month with a range selection.
pub fn range_key_step_of(k: KeyPress) -> (r: Option<(MonthStep, bool)>)
    ensures
        r == range_key_step(k),
{
    if k.control {
        None
    } else if !k.alt {
        if k.code == KeyCode::Home {
            Some((MonthStep::Day(0), k.shift))
        } else if k.code == KeyCode::End {
            Some((MonthStep::LastDay, k.shift))
        } else if k.code == KeyCode::Up {
            Some((MonthStep::PrevDay(7), k.shift))
        } else if k.code == KeyCode::Down {
            Some((MonthStep::NextDay(7), k.shift))
        } else if k.code == KeyCode::Left {
            Some((MonthStep::PrevDay(1), k.shift))
        } else if k.code == KeyCode::Right {
            Some((MonthStep::NextDay(1), k.shift))
        } else {
            None
        }
    } else if k.code == KeyCode::Up {
        Some((MonthStep::PrevWeek(1), k.shift))
    } else if k.code == KeyCode::Down {
        Some((MonthStep::NextWeek(1), k.shift))
    } else {
        None
    }
}

/// The three rows reaching two rows above the area: dragging there goes
/// to the start of the month.
pub open spec fn above_of(r: Rect) -> Rect {
    Rect { x: r.x, y: (r.y - 2) as u16, width: r.width, height: 3 }
}

/// The last row of the area and the one below: dragging there goes to the
/// end of the month.
pub open spec fn below_of(r: Rect) -> Rect {
    Rect { x: r.x, y: sat_sub(r.spec_bottom(), 1), width: r.width, height: 2 }
}

/// Where a drag that began on the days (`0`) or on the week numbers
/// (`1`) selects to, with the mouse at column `x`, row `y`: the day or
/// week under the mouse; above the month its first day or week; on the
/// last row or below it the last day, or the week with that index.
pub open spec fn range_drag_step(m: MonthState<RangeSelection>, x: u16, y: u16, drag: Option<usize>) -> Option<MonthStep> {
    let last0 = (day_of_month(month_last(m.start())) - 1) as usize;
    match drag {
        Some(d) => if d == 0 {
            match first_at(m.area_days@, x, y) {
                Some(i) => Some(MonthStep::Day(i)),
                None => if above_of(m.area_cal).spec_contains(x, y) {
                    Some(MonthStep::Day(0))
                } else if below_of(m.area_cal).spec_contains(x, y) {
                    Some(MonthStep::Day(last0))
                } else {
                    None
                },
            }
        } else if d == 1 {
            match first_at(m.area_weeks@, x, y) {
                Some(i) => Some(MonthStep::Week(i)),
                None => if above_of(m.area_weeknum).spec_contains(x, y) {
                    Some(MonthStep::Week(0))
                } else if below_of(m.area_cal).spec_contains(x, y) {
                    Some(MonthStep::Week(last0))
                } else {
                    None
                },
            }
        } else {
            None
        },
        None => None,
    }
}

/// What a click at column `x`, row `y` selects: the week under it, else
/// the day under it.
pub open spec fn range_click_step(m: MonthState<RangeSelection>, x: u16, y: u16) -> Option<MonthStep> {
    match first_at(m.area_weeks@, x, y) {
        Some(i) => Some(MonthStep::Week(i)),
        None => match first_at(m.area_days@, x, y) {
            Some(i) => Some(MonthStep::Day(i)),
            None => None,
        },
    }
}

/// Whether a mouse event is a click that selects, and whether it extends
/// the selection: a left click does, with Control it extends.
pub open spec fn click_extends(e: MouseInput) -> Option<bool> {
    if e.is(MouseKind::LeftDown, false, false, false) {
        Some(false)
    } else if e.is(MouseKind::LeftDown, false, true, false) {
        Some(true)
    } else {
        None
    }
}

/// The range selection after a mouse event: first the drag, and if that
/// changes nothing, the click.
pub open spec fn range_mouse_after(m: MonthState<RangeSelection>, e: MouseInput, drag: Option<usize>) -> Option<(int, int)> {
    let sel = m.selection@;
    let s1 = match range_drag_step(m, e.column, e.row, drag) {
        Some(st) => range_after(m.start(), sel, st, true),
        None => sel,
    };
    if s1 != sel {
        s1
    } else {
        match (click_extends(e), range_click_step(m, e.column, e.row)) {
            (Some(ext), Some(st)) => range_after(m.start(), sel, st, ext),
            _ => sel,
        }
    }
}

/// The mouse event stays inside chrono's range of dates and above the
/// first screen rows.
pub open spec fn range_mouse_ready(m: MonthState<RangeSelection>, e: MouseInput, drag: Option<usize>) -> bool {
    let (x, y) = (e.column, e.row);
    &&& drag == Some(0usize) && first_at(m.area_days@, x, y) is None ==> m.area_cal.y >= 2
        && month_end_exists(m.start())
    &&& drag == Some(1usize) && first_at(m.area_weeks@, x, y) is None ==> m.area_weeknum.y >= 2
        && month_end_exists(m.start())
    &&& (drag is Some || click_extends(e) is Some) ==> MIN_DAYS + 6 <= m.start() && m.start() + 41
        <= MAX_DAYS && week_ops_ok(m.selection@)
}

/// The selection a left press or drag without modifiers makes on a day
/// of the month `m`, if that changes the selection `sel`.
pub open spec fn single_mouse_day<S>(m: MonthState<S>, sel: Option<int>, e: MouseInput) -> Option<int> {
    let hit = first_at(m.area_days@, e.column, e.row);
    if (e.is(MouseKind::LeftDown, false, false, false) || e.is(
        MouseKind::LeftDrag,
        false,
        false,
        false,
    )) && hit is Some {
        let ns = single_after(m.start(), sel, MonthStep::Day(hit->0));
        if ns != sel {
            ns
        } else {
            None
        }
    } else {
        None
    }
}

/// The first month from index `i` on whose day under the mouse changes
/// the selection, with the day it selects.
pub open spec fn single_mouse_month(months: Seq<MonthState<()>>, sel: Option<int>, e: MouseInput, i: nat) -> Option<(int, int)>
    decreases months.len() - i,
{
    if i >= months.len() {
        None
    } else {
        match single_mouse_day(months[i as int], sel, e) {
            Some(d) => Some((i as int, d)),
            None => single_mouse_month(months, sel, e, i + 1),
        }
    }
}

impl MonthState<SingleSelection> {
    /// Takes the navigation step.
    pub fn navigate(&mut self, step: MonthStep) -> (r: CalOutcome)
        requires
            single_ready(old(self).start(), old(self).selection@, step),
        ensures
            final(self).start() == old(self).start(),
            final(self).same_frame(old(self)),
            final(self).selection@ == single_after(old(self).start(), old(self).selection@, step),
            r == selected_if(final(self).selection@ != old(self).selection@),
    {
        match step {
            MonthStep::Day(n) => self.select_day(n),
            MonthStep::LastDay => self.select_last(),
            MonthStep::PrevDay(n) => self.prev_day(n),
            MonthStep::NextDay(n) => self.next_day(n),
            _ => CalOutcome::Continue,
        }
    }

    /// Handles a key press: with the focus, the arrows move the selection.
    pub fn handle_key(&mut self, key: KeyPress) -> (r: CalOutcome)
        requires
            old(self).focused ==> (single_key_step(key) matches Some(st) ==> single_ready(
                old(self).start(),
                old(self).selection@,
                st,
            )),
        ensures
            old(self).focused && single_key_step(key) is Some ==> {
                &&& final(self).start() == old(self).start()
                &&& final(self).same_frame(old(self))
                &&& final(self).selection@ == single_after(
                    old(self).start(),
                    old(self).selection@,
                    single_key_step(key)->0,
                )
                &&& r == selected_if(final(self).selection@ != old(self).selection@)
            },
            !(old(self).focused && single_key_step(key) is Some) ==> *final(self) == *old(self) && r
                == CalOutcome::Continue,
    {
        if !self.focused {
            return CalOutcome::Continue;
        }
        match single_key_step_of(key) {
            Some(st) => self.navigate(st),
            None => CalOutcome::Continue,
        }
    }

    /// Handles a mouse event: pressing or dragging the left button on a
    /// day selects it.
    pub fn handle_mouse(&mut self, e: MouseInput) -> (r: CalOutcome)
        ensures
            final(self).start() == old(self).start(),
            final(self).same_frame(old(self)),
            ({
                let hit = first_at(old(self).area_days@, e.column, e.row);
                if (e.is(MouseKind::LeftDown, false, false, false) || e.is(
                    MouseKind::LeftDrag,
                    false,
                    false,
                    false,
                )) && hit is Some {
                    final(self).selection@ == single_after(
                        old(self).start(),
                        old(self).selection@,
                        MonthStep::Day(hit->0),
                    )
                } else {
                    final(self).selection@ == old(self).selection@
                }
            }),
            r == selected_if(final(self).selection@ != old(self).selection@),
    {
        if e.shift || e.control || e.alt {
            return CalOutcome::Continue;
        }
        if e.kind == MouseKind::LeftDown || e.kind == MouseKind::LeftDrag {
            match item_at(self.area_days.as_slice(), e.column, e.row) {
                Some(n) => self.select_day(n),
                None => CalOutcome::Continue,
            }
        } else {
            CalOutcome::Continue
        }
    }
}

impl MonthState<RangeSelection> {
    /// Takes the navigation step; `extend` keeps the anchor.
    pub fn navigate(&mut self, step: MonthStep, extend: bool) -> (r: CalOutcome)
        requires
            range_ready(old(self).start(), old(self).selection@, step, extend),
        ensures
            final(self).start() == old(self).start(),
            final(self).same_frame(old(self)),
            final(self).selection@ == range_after(
                old(self).start(),
                old(self).selection@,
                step,
                extend,
            ),
            r == selected_if(final(self).selection@ != old(self).selection@),
    {
        match step {
            MonthStep::Day(n) => self.select_day(n, extend),
            MonthStep::LastDay => self.select_last(extend),
            MonthStep::Week(n) => self.select_week(n, extend),
            MonthStep::PrevDay(n) => self.prev_day(n, extend),
            MonthStep::NextDay(n) => self.next_day(n, extend),
            MonthStep::PrevWeek(n) => self.prev_week(n, extend),
            MonthStep::NextWeek(n) => self.next_week(n, extend),
        }
    }

    /// Handles a key press: with the focus, Home, End, the arrows and
    /// Alt with up and down move the selection; Shift extends it.
    pub fn handle_key(&mut self, key: KeyPress) -> (r: CalOutcome)
        requires
            old(self).focused ==> (range_key_step(key) matches Some((st, ext)) ==> range_ready(
                old(self).start(),
                old(self).selection@,
                st,
                ext,
            )),
        ensures
            old(self).focused ==> (range_key_step(key) matches Some((st, ext)) ==> {
                &&& final(self).start() == old(self).start()
                &&& final(self).same_frame(old(self))
                &&& final(self).selection@ == range_after(
                    old(self).start(),
                    old(self).selection@,
                    st,
                    ext,
                )
                &&& r == selected_if(final(self).selection@ != old(self).selection@)
            }),
            !(old(self).focused && range_key_step(key) is Some) ==> *final(self) == *old(self) && r
                == CalOutcome::Continue,
    {
        if !self.focused {
            return CalOutcome::Continue;
        }
        match range_key_step_of(key) {
            Some((st, ext)) => self.navigate(st, ext),
            None => CalOutcome::Continue,
        }
    }

    /// Where a drag selects to, see [range_drag_step].
    fn drag_step(&self, x: u16, y: u16, drag: Option<usize>) -> (r: Option<MonthStep>)
        requires
            drag == Some(0usize) && first_at(self.area_days@, x, y) is None ==> self.area_cal.y >= 2
                && month_end_exists(self.start()),
            drag == Some(1usize) && first_at(self.area_weeks@, x, y) is None ==> self.area_weeknum.y
                >= 2 && month_end_exists(self.start()),
        ensures
            r == range_drag_step(*self, x, y, drag),
    {
        let p = Position { x, y };
        match drag {
            Some(d) => if d == 0 {
                match item_at(self.area_days.as_slice(), x, y) {
                    Some(i) => Some(MonthStep::Day(i)),
                    None => {
                        let mut above = self.area_cal;
                        above.y = above.y - 2;
                        above.height = 3;
                        let mut below = self.area_cal;
                        below.y = below.bottom().saturating_sub(1);
                        below.height = 2;
                        if above.contains(p) {
                            Some(MonthStep::Day(0))
                        } else if below.contains(p) {
                            let last = self.end_date();
                            Some(MonthStep::Day((day(last) - 1) as usize))
                        } else {
                            None
                        }
                    },
                }
            } else if d == 1 {
                match item_at(self.area_weeks.as_slice(), x, y) {
                    Some(i) => Some(MonthStep::Week(i)),
                    None => {
                        let mut above = self.area_weeknum;
                        above.y = above.y - 2;
                        above.height = 3;
                        let mut below = self.area_cal;
                        below.y = below.bottom().saturating_sub(1);
                        below.height = 2;
                        if above.contains(p) {
                            Some(MonthStep::Week(0))
                        } else if below.contains(p) {
                            let last = self.end_date();
                            Some(MonthStep::Week((day(last) - 1) as usize))
                        } else {
                            None
                        }
                    },
                }
            } else {
                None
            },
            None => None,
        }
    }

    /// Handles a mouse event.
    ///
    /// `drag` is the area in which the left-button drag that this event
    /// continues began: `0` the days, `1` the week numbers; `None` when the
    /// event continues no drag. A drag selects to the day or week under
    /// the mouse, extending the selection. If that changes nothing, a left
    /// click selects the week or day under it, with Control extending the
    /// selection.
    pub fn handle_mouse(&mut self, e: MouseInput, drag: Option<usize>) -> (r: CalOutcome)
        requires
            range_mouse_ready(*old(self), e, drag),
        ensures
            final(self).start() == old(self).start(),
            final(self).same_frame(old(self)),
            final(self).selection@ == range_mouse_after(*old(self), e, drag),
            r == selected_if(final(self).selection@ != old(self).selection@),
    {
        let r = match self.drag_step(e.column, e.row, drag) {
            Some(st) => self.navigate(st, true),
            None => CalOutcome::Continue,
        };
        if r != CalOutcome::Continue {
            return r;
        }
        let ext = if e.kind != MouseKind::LeftDown || e.shift || e.alt {
            None
        } else {
            Some(e.control)
        };
        match ext {
            Some(x) => {
                let st = match item_at(self.area_weeks.as_slice(), e.column, e.row) {
                    Some(i) => Some(MonthStep::Week(i)),
                    None => match item_at(self.area_days.as_slice(), e.column, e.row) {
                        Some(i) => Some(MonthStep::Day(i)),
                        None => None,
                    },
                };
                match st {
                    Some(st) => self.navigate(st, x),
                    None => CalOutcome::Continue,
                }
            },
            None => CalOutcome::Continue,
        }
    }
}

} // verus!

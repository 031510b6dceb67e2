//! The date-range editor: a `[from, to]` pair of calendar timestamps,
//! produced either from a clock-relative quick preset or by
//! field-by-field custom editing.  After every mutation the pair
//! satisfies `from <= to`.

use vstd::prelude::*;

use crate::cal::{
    cal_le, cal_le_spec, dec_day_spec, dec_hour_spec, dec_minute_spec, inc_day_spec, inc_hour_spec,
    inc_minute_spec, month_wrap_spec, sub_hours_spec, valid_cal, year_step_spec, CalTime,
};
use crate::clock::{current_local_time, local_epoch_millis};

verus! {

/// The calendar field being edited in custom mode, cyclically ordered
/// Year, Month, Day, Hour, Minute.
#[derive(Clone, Copy, Debug, PartialEq, Eq, Structural)]
pub enum DateField {
    Year,
    Month,
    Day,
    Hour,
    Minute,
}

/// A named clock-relative duration.
#[derive(Clone, Copy, Debug, PartialEq, Eq, Structural)]
pub enum QuickRange {
    LastHour,
    Last2Hours,
    Last3Hours,
    Last6Hours,
    Last12Hours,
    Last24Hours,
    Last3Days,
    LastWeek,
}

/// The fixed, ordered list of quick presets.
pub open spec fn all_quick_ranges() -> Seq<QuickRange> {
    seq![
        QuickRange::LastHour,
        QuickRange::Last2Hours,
        QuickRange::Last3Hours,
        QuickRange::Last6Hours,
        QuickRange::Last12Hours,
        QuickRange::Last24Hours,
        QuickRange::Last3Days,
        QuickRange::LastWeek,
    ]
}

/// The whole-hour duration of a preset.
pub open spec fn quick_range_hours(q: QuickRange) -> int {
    match q {
        QuickRange::LastHour => 1,
        QuickRange::Last2Hours => 2,
        QuickRange::Last3Hours => 3,
        QuickRange::Last6Hours => 6,
        QuickRange::Last12Hours => 12,
        QuickRange::Last24Hours => 24,
        QuickRange::Last3Days => 72,
        QuickRange::LastWeek => 168,
    }
}

impl QuickRange {
    /// Every preset, in display order.
    pub fn all() -> (r: Vec<QuickRange>)
        ensures
            r@ == all_quick_ranges(),
    {
        let mut r: Vec<QuickRange> = Vec::new();
        r.push(QuickRange::LastHour);
        r.push(QuickRange::Last2Hours);
        r.push(QuickRange::Last3Hours);
        r.push(QuickRange::Last6Hours);
        r.push(QuickRange::Last12Hours);
        r.push(QuickRange::Last24Hours);
        r.push(QuickRange::Last3Days);
        r.push(QuickRange::LastWeek);
        proof {
            assert(r@ =~= all_quick_ranges());
        }
        r
    }

    /// The preset's duration in whole hours.
    pub fn duration_hours(&self) -> (r: u16)
        ensures
            r == quick_range_hours(*self),
    {
        match self {
            QuickRange::LastHour => 1,
            QuickRange::Last2Hours => 2,
            QuickRange::Last3Hours => 3,
            QuickRange::Last6Hours => 6,
            QuickRange::Last12Hours => 12,
            QuickRange::Last24Hours => 24,
            QuickRange::Last3Days => 72,
            QuickRange::LastWeek => 168,
        }
    }

    /// The preset's human-readable name.
    pub fn display_name(&self) -> (r: &'static str)
        ensures
            (*self == QuickRange::LastHour ==> r@ == "Last Hour"@) && (*self
                == QuickRange::Last2Hours ==> r@ == "Last 2 Hours"@) && (*self
                == QuickRange::Last3Hours ==> r@ == "Last 3 Hours"@) && (*self
                == QuickRange::Last6Hours ==> r@ == "Last 6 Hours"@) && (*self
                == QuickRange::Last12Hours ==> r@ == "Last 12 Hours"@) && (*self
                == QuickRange::Last24Hours ==> r@ == "Last 24 Hours"@) && (*self
                == QuickRange::Last3Days ==> r@ == "Last 3 Days"@) && (*self
                == QuickRange::LastWeek ==> r@ == "Last Week"@),
    {
        match self {
            QuickRange::LastHour => "Last Hour",
            QuickRange::Last2Hours => "Last 2 Hours",
            QuickRange::Last3Hours => "Last 3 Hours",
            QuickRange::Last6Hours => "Last 6 Hours",
            QuickRange::Last12Hours => "Last 12 Hours",
            QuickRange::Last24Hours => "Last 24 Hours",
            QuickRange::Last3Days => "Last 3 Days",
            QuickRange::LastWeek => "Last Week",
        }
    }
}

/// `field` stepped forward in the cyclic order.
pub open spec fn next_field_spec(field: DateField) -> DateField {
    match field {
        DateField::Year => DateField::Month,
        DateField::Month => DateField::Day,
        DateField::Day => DateField::Hour,
        DateField::Hour => DateField::Minute,
        DateField::Minute => DateField::Year,
    }
}

/// `field` stepped backward in the cyclic order.
pub open spec fn previous_field_spec(field: DateField) -> DateField {
    match field {
        DateField::Year => DateField::Minute,
        DateField::Month => DateField::Year,
        DateField::Day => DateField::Month,
        DateField::Hour => DateField::Day,
        DateField::Minute => DateField::Hour,
    }
}

/// One step of `field` on `t`, forward or backward.
pub open spec fn adjust_field_spec(t: CalTime, field: DateField, increment: bool) -> CalTime {
    match field {
        DateField::Year => year_step_spec(t, increment),
        DateField::Month => month_wrap_spec(t, increment),
        DateField::Day => if increment {
            inc_day_spec(t)
        } else {
            dec_day_spec(t)
        },
        DateField::Hour => if increment {
            inc_hour_spec(t)
        } else {
            dec_hour_spec(t)
        },
        DateField::Minute => if increment {
            inc_minute_spec(t)
        } else {
            dec_minute_spec(t)
        },
    }
}

/// The date-selection screen's editor state.
#[derive(Clone, Debug)]
pub struct DateSelection {
    pub from_date: CalTime,
    pub to_date: CalTime,
    pub is_selecting_from: bool,
    pub current_field: DateField,
    pub quick_ranges: Vec<QuickRange>,
    pub selected_quick_range: Option<usize>,
    pub custom_selection: bool,
}

impl DateSelection {
    /// Well-formedness: both bounds are valid calendar times in order,
    /// the preset list is the fixed one, and the preset index is in
    /// range.
    pub open spec fn wf(self) -> bool {
        &&& valid_cal(self.from_date)
        &&& valid_cal(self.to_date)
        &&& cal_le_spec(self.from_date, self.to_date)
        &&& self.quick_ranges@ == all_quick_ranges()
        &&& (self.selected_quick_range matches Some(i) ==> i < 8)
    }

    /// Fresh editor state at clock reading `now`: the last hour,
    /// quick mode, first preset selected.
    pub fn new_at(now: CalTime) -> (r: DateSelection)
        requires
            valid_cal(now),
        ensures
            r.wf(),
            r.to_date == now,
            r.from_date == sub_hours_spec(now, 1),
            r.is_selecting_from,
            r.current_field == DateField::Day,
            r.selected_quick_range == Some(0usize),
            !r.custom_selection,
    {
        let r = DateSelection {
            from_date: now.sub_hours(1),
            to_date: now,
            is_selecting_from: true,
            current_field: DateField::Day,
            quick_ranges: QuickRange::all(),
            selected_quick_range: Some(0),
            custom_selection: false,
        };
        r
    }

    /// Fresh editor state read from the system clock.
    pub fn new() -> (r: DateSelection)
        ensures
            r.wf(),
            !r.custom_selection,
            r.selected_quick_range == Some(0usize),
            r.is_selecting_from,
            r.current_field == DateField::Day,
            r.from_date == sub_hours_spec(r.to_date, 1),
    {
        let now = current_local_time();
        Self::new_at(now)
    }

    /// In custom mode, switches editing between the `from` and the
    /// `to` bound; outside custom mode this does nothing.
    pub fn toggle_selection(&mut self)
        requires
            old(self).wf(),
        ensures
            final(self).wf(),
            old(self).custom_selection ==> *final(self) == (DateSelection {
                is_selecting_from: !old(self).is_selecting_from,
                ..*old(self)
            }),
            !old(self).custom_selection ==> *final(self) == *old(self),
    {
        if self.custom_selection {
            self.is_selecting_from = !self.is_selecting_from;
        }
    }

    /// Applies preset `index` at clock reading `now`: the range becomes
    /// the preset's duration ending at `now`.
    fn apply_quick_range(&mut self, now: CalTime, index: usize)
        requires
            old(self).wf(),
            valid_cal(now),
            index < 8,
        ensures
            final(self).wf(),
            final(self).to_date == now,
            final(self).from_date == sub_hours_spec(
                now,
                quick_range_hours(all_quick_ranges()[index as int]),
            ),
            *final(self) == (DateSelection {
                from_date: final(self).from_date,
                to_date: final(self).to_date,
                ..*old(self)
            }),
    {
        let range = self.quick_ranges[index];
        let hours = range.duration_hours();
        self.to_date = now;
        self.from_date = now.sub_hours(hours);
    }

    /// Switches between custom and quick mode.  On entering quick mode
    /// the range is recomputed from the currently selected preset at
    /// `now`, discarding any custom edits (the first preset is chosen
    /// only when none was selected); on entering custom mode the
    /// current range is kept as the starting point.
    pub fn toggle_custom(&mut self, now: CalTime)
        requires
            old(self).wf(),
            valid_cal(now),
        ensures
            final(self).wf(),
            final(self).custom_selection == !old(self).custom_selection,
            old(self).custom_selection ==> ({
                let i = match old(self).selected_quick_range {
                    Some(i) => i as int,
                    None => 0,
                };
                final(self).selected_quick_range == (match old(self).selected_quick_range {
                    Some(i) => Some(i),
                    None => Some(0usize),
                }) && final(self).to_date == now && final(self).from_date == sub_hours_spec(
                    now,
                    quick_range_hours(all_quick_ranges()[i]),
                ) && *final(self) == (DateSelection {
                    custom_selection: false,
                    selected_quick_range: final(self).selected_quick_range,
                    from_date: final(self).from_date,
                    to_date: final(self).to_date,
                    ..*old(self)
                })
            }),
            !old(self).custom_selection ==> *final(self) == (DateSelection {
                custom_selection: true,
                ..*old(self)
            }),
    {
        self.custom_selection = !self.custom_selection;
        if !self.custom_selection {
            let index = match self.selected_quick_range {
                Some(i) => i,
                None => 0,
            };
            self.selected_quick_range = Some(index);
            self.apply_quick_range(now, index);
        }
    }

    /// Selects the next preset cyclically and re-anchors the range at
    /// `now`; does nothing when no preset is selected.
    pub fn next_quick_range(&mut self, now: CalTime)
        requires
            old(self).wf(),
            valid_cal(now),
        ensures
            final(self).wf(),
            old(self).selected_quick_range matches Some(cur) ==> {
                let next = ((cur + 1) % 8) as int;
                final(self).selected_quick_range == Some(((cur + 1) % 8) as usize)
                    && final(self).to_date == now && final(self).from_date == sub_hours_spec(
                    now,
                    quick_range_hours(all_quick_ranges()[next]),
                )
            },
            old(self).selected_quick_range is None ==> *final(self) == *old(self),
    {
        if let Some(current) = self.selected_quick_range {
            let next = (current + 1) % self.quick_ranges.len();
            self.selected_quick_range = Some(next);
            self.apply_quick_range(now, next);
        }
    }

    /// Selects the previous preset cyclically and re-anchors the range
    /// at `now`; does nothing when no preset is selected.
    pub fn previous_quick_range(&mut self, now: CalTime)
        requires
            old(self).wf(),
            valid_cal(now),
        ensures
            final(self).wf(),
            old(self).selected_quick_range matches Some(cur) ==> {
                let prev = if cur == 0 {
                    7int
                } else {
                    cur - 1
                };
                final(self).selected_quick_range == Some(
                    if cur == 0 {
                        7usize
                    } else {
                        (cur - 1) as usize
                    },
                ) && final(self).to_date == now && final(self).from_date == sub_hours_spec(
                    now,
                    quick_range_hours(all_quick_ranges()[prev]),
                )
            },
            old(self).selected_quick_range is None ==> *final(self) == *old(self),
    {
        if let Some(current) = self.selected_quick_range {
            let prev = if current == 0 {
                self.quick_ranges.len() - 1
            } else {
                current - 1
            };
            self.selected_quick_range = Some(prev);
            self.apply_quick_range(now, prev);
        }
    }

    /// Moves the edited field forward in the cyclic order.
    pub fn next_field(&mut self)
        requires
            old(self).wf(),
        ensures
            final(self).wf(),
            *final(self) == (DateSelection {
                current_field: next_field_spec(old(self).current_field),
                ..*old(self)
            }),
    {
        self.current_field = match self.current_field {
            DateField::Year => DateField::Month,
            DateField::Month => DateField::Day,
            DateField::Day => DateField::Hour,
            DateField::Hour => DateField::Minute,
            DateField::Minute => DateField::Year,
        };
    }

    /// Moves the edited field backward in the cyclic order.
    pub fn previous_field(&mut self)
        requires
            old(self).wf(),
        ensures
            final(self).wf(),
            *final(self) == (DateSelection {
                current_field: previous_field_spec(old(self).current_field),
                ..*old(self)
            }),
    {
        self.current_field = match self.current_field {
            DateField::Year => DateField::Minute,
            DateField::Month => DateField::Year,
            DateField::Day => DateField::Month,
            DateField::Hour => DateField::Day,
            DateField::Minute => DateField::Hour,
        };
    }

    /// Steps the currently edited field of the currently edited bound
    /// by one, then restores `from <= to` by clamping the edited bound
    /// to the other.
    pub fn adjust_current_field(&mut self, increment: bool)
        requires
            old(self).wf(),
        ensures
            final(self).wf(),
            cal_le_spec(final(self).from_date, final(self).to_date),
            ({
                let adjusted = adjust_field_spec(
                    if old(self).is_selecting_from {
                        old(self).from_date
                    } else {
                        old(self).to_date
                    },
                    old(self).current_field,
                    increment,
                );
                if old(self).is_selecting_from {
                    *final(self) == (DateSelection {
                        from_date: if cal_le_spec(adjusted, old(self).to_date) {
                            adjusted
                        } else {
                            old(self).to_date
                        },
                        ..*old(self)
                    })
                } else {
                    *final(self) == (DateSelection {
                        to_date: if cal_le_spec(old(self).from_date, adjusted) {
                            adjusted
                        } else {
                            old(self).from_date
                        },
                        ..*old(self)
                    })
                }
            }),
    {
        let target = if self.is_selecting_from {
            self.from_date
        } else {
            self.to_date
        };
        let adjusted = match self.current_field {
            DateField::Year => target.year_step(increment),
            DateField::Month => target.month_wrap(increment),
            DateField::Day => if increment {
                target.inc_day()
            } else {
                target.dec_day()
            },
            DateField::Hour => if increment {
                target.inc_hour()
            } else {
                target.dec_hour()
            },
            DateField::Minute => if increment {
                target.inc_minute()
            } else {
                target.dec_minute()
            },
        };
        if self.is_selecting_from {
            if cal_le(&adjusted, &self.to_date) {
                self.from_date = adjusted;
            } else {
                self.from_date = self.to_date;
            }
        } else {
            if cal_le(&self.from_date, &adjusted) {
                self.to_date = adjusted;
            } else {
                self.to_date = self.from_date;
            }
        }
    }

    /// The confirmed range as epoch-millisecond bounds, through the
    /// machine's time zone; `None` when a bound is skipped by a
    /// time-zone transition.
    pub fn epoch_range(&self) -> (r: Option<(i64, i64)>)
        requires
            self.wf(),
        ensures
            r matches Some(p) ==> -62_200_000_000_000 <= p.0 <= 253_500_000_000_000
                && -62_200_000_000_000 <= p.1 <= 253_500_000_000_000,
    {
        let from_ms = local_epoch_millis(&self.from_date);
        let to_ms = local_epoch_millis(&self.to_date);
        match (from_ms, to_ms) {
            (Some(a), Some(b)) => Some((a, b)),
            _ => None,
        }
    }
}

} // verus!

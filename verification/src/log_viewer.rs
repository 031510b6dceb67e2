//! The event-viewing screen: the fetched log events for one function
//! and time window, a keyword filter over their messages, a selection,
//! and line scrolling for the expanded single-event view.

use vstd::prelude::*;

use crate::cal::{valid_cal, CalTime};
use crate::filter::matches_spec;
use crate::viewport::{range_end, range_start, visible_range};

verus! {

/// One log event, in fetch order: an epoch-millisecond timestamp, the
/// message, and the epoch-millisecond ingestion time.  Events whose
/// fields the source omitted carry `0` or an empty message.
#[derive(Debug)]
pub struct LogEvent {
    pub timestamp: i64,
    pub message: String,
    pub ingestion_time: i64,
}

impl Clone for LogEvent {
    /// An exact copy.
    fn clone(&self) -> (r: Self)
        ensures
            r == *self,
    {
        LogEvent {
            timestamp: self.timestamp,
            message: self.message.clone(),
            ingestion_time: self.ingestion_time,
        }
    }
}

/// The events whose message matches `query`, in their original order.
pub open spec fn kept_events(events: Seq<LogEvent>, query: Seq<char>) -> Seq<LogEvent> {
    events.filter(|e: LogEvent| matches_spec(query, e.message@))
}

/// Filters events by their message, keeping order.  An empty query
/// keeps every event.
pub fn filter_events(query: &str, events: &Vec<LogEvent>) -> (r: Vec<LogEvent>)
    ensures
        r@ == kept_events(events@, query@),
        query@.len() == 0 ==> r@ == events@,
{
    if query.is_empty() {
        let lowered = crate::filter::to_lower(query);
        proof {
            assert(lowered@.len() == 0);
            assert(crate::text::tokens_of(crate::filter::lower_of(query@))
                =~= Seq::<Seq<char>>::empty());
            assert forall|i: int|
                0 <= i < events@.len() implies matches_spec(
                query@,
                #[trigger] events@[i].message@,
            ) by {}
            crate::filter::lemma_filter_all(
                events@,
                |e: LogEvent| matches_spec(query@, e.message@),
            );
        }
        let r = events.clone();
        proof {
            assert(r@ =~= events@);
        }
        return r;
    }
    let n = events.len();
    let mut r: Vec<LogEvent> = Vec::new();
    let mut i: usize = 0;
    proof {
        reveal(Seq::filter);
        assert(events@.subrange(0, 0).filter(|e: LogEvent| matches_spec(query@, e.message@))
            =~= Seq::<LogEvent>::empty());
    }
    while i < n
        invariant
            n == events@.len(),
            i <= n,
            r@ =~= events@.subrange(0, i as int).filter(
                |e: LogEvent| matches_spec(query@, e.message@),
            ),
        decreases n - i,
    {
        let keep = crate::filter::matches(query, events[i].message.as_str());
        proof {
            reveal(Seq::filter);
            let prefix = events@.subrange(0, i + 1);
            assert(prefix.drop_last() =~= events@.subrange(0, i as int));
            assert(prefix.last() == events@[i as int]);
        }
        if keep {
            r.push(events[i].clone());
        }
        i = i + 1;
    }
    proof {
        assert(events@.subrange(0, n as int) =~= events@);
    }
    r
}

/// The event-viewing screen's state.
#[derive(Debug)]
pub struct LogViewer {
    pub function_name: String,
    pub from_date: CalTime,
    pub to_date: CalTime,
    pub events: Vec<LogEvent>,
    pub filtered_logs: Vec<LogEvent>,
    pub filter_input: String,
    pub scroll_offset: usize,
    pub selected_log: Option<usize>,
    pub expanded: bool,
}

impl LogViewer {
    /// The filtered view is the filter applied to the fetched events,
    /// and the selection, when present, is in its range.
    pub open spec fn wf(self) -> bool {
        &&& self.filtered_logs@ == kept_events(self.events@, self.filter_input@)
        &&& (self.selected_log matches Some(i) ==> i < self.filtered_logs@.len())
    }

    /// A fresh screen for `function_name` over the confirmed window,
    /// with no events loaded yet.
    pub fn new(function_name: String, from_date: CalTime, to_date: CalTime) -> (r: LogViewer)
        requires
            valid_cal(from_date),
            valid_cal(to_date),
        ensures
            r.wf(),
            r.function_name@ == function_name@,
            r.from_date == from_date,
            r.to_date == to_date,
            r.events@.len() == 0,
            r.filter_input@.len() == 0,
            r.selected_log is None,
            !r.expanded,
            r.scroll_offset == 0,
    {
        let r = LogViewer {
            function_name,
            from_date,
            to_date,
            events: Vec::new(),
            filtered_logs: Vec::new(),
            filter_input: String::new(),
            scroll_offset: 0,
            selected_log: None,
            expanded: false,
        };
        proof {
            reveal(Seq::filter);
            assert(r.filtered_logs@ =~= kept_events(r.events@, r.filter_input@));
        }
        r
    }

    /// Recomputes the filtered view from the current filter text,
    /// resets the selection to the first match (or none), and leaves
    /// the expanded view.
    pub fn update_filter(&mut self)
        ensures
            final(self).wf(),
            final(self).events == old(self).events,
            final(self).filter_input == old(self).filter_input,
            final(self).selected_log == (if final(self).filtered_logs@.len() > 0 {
                Some(0usize)
            } else {
                None::<usize>
            }),
            final(self).filter_input@.len() == 0 ==> final(self).filtered_logs@
                == final(self).events@,
            !final(self).expanded,
            final(self).scroll_offset == old(self).scroll_offset,
    {
        self.filtered_logs = filter_events(self.filter_input.as_str(), &self.events);
        self.selected_log = if self.filtered_logs.len() > 0 {
            Some(0)
        } else {
            None
        };
        self.expanded = false;
    }

    /// Replaces the filter text and recomputes the filtered view.
    pub fn set_filter(&mut self, text: String)
        ensures
            final(self).wf(),
            final(self).filter_input@ == text@,
            final(self).events == old(self).events,
            final(self).selected_log == (if final(self).filtered_logs@.len() > 0 {
                Some(0usize)
            } else {
                None::<usize>
            }),
            text@.len() == 0 ==> final(self).filtered_logs@ == final(self).events@,
            !final(self).expanded,
            final(self).scroll_offset == old(self).scroll_offset,
    {
        self.filter_input = text;
        self.update_filter();
    }

    /// Replaces the fetched events wholesale (one completed load) and
    /// re-runs the filter.
    pub fn set_logs(&mut self, events: Vec<LogEvent>)
        ensures
            final(self).wf(),
            final(self).events@ == events@,
            final(self).filter_input == old(self).filter_input,
            final(self).selected_log == (if final(self).filtered_logs@.len() > 0 {
                Some(0usize)
            } else {
                None::<usize>
            }),
            final(self).filter_input@.len() == 0 ==> final(self).filtered_logs@ == events@,
            !final(self).expanded,
            final(self).scroll_offset == old(self).scroll_offset,
    {
        self.events = events;
        self.update_filter();
    }

    /// Up one step: in expanded mode scrolls the text up a line;
    /// otherwise moves the selection up, pulling the window along at
    /// its top edge, or selects the first event if none was selected.
    pub fn scroll_up(&mut self)
        requires
            old(self).wf(),
        ensures
            final(self).wf(),
            final(self).filtered_logs == old(self).filtered_logs,
            old(self).expanded ==> *final(self) == (LogViewer {
                scroll_offset: (if old(self).scroll_offset > 0 {
                    old(self).scroll_offset - 1
                } else {
                    0
                }) as usize,
                ..*old(self)
            }),
            !old(self).expanded ==> (match old(self).selected_log {
                Some(sel) => *final(self) == (LogViewer {
                    selected_log: if sel > 0 {
                        Some((sel - 1) as usize)
                    } else {
                        Some(sel)
                    },
                    scroll_offset: (if sel > 0 && sel <= old(self).scroll_offset && old(
                        self,
                    ).scroll_offset > 0 {
                        old(self).scroll_offset - 1
                    } else {
                        old(self).scroll_offset as int
                    }) as usize,
                    ..*old(self)
                }),
                None => if old(self).filtered_logs@.len() > 0 {
                    *final(self) == (LogViewer {
                        selected_log: Some(0usize),
                        scroll_offset: 0usize,
                        ..*old(self)
                    })
                } else {
                    *final(self) == *old(self)
                },
            }),
    {
        if self.expanded {
            self.scroll_offset = if self.scroll_offset > 0 {
                self.scroll_offset - 1
            } else {
                0
            };
        } else if let Some(selected) = self.selected_log {
            if selected > 0 {
                self.selected_log = Some(selected - 1);
                // keep the selection in view at the top edge
                if selected <= self.scroll_offset {
                    self.scroll_offset = if self.scroll_offset > 0 {
                        self.scroll_offset - 1
                    } else {
                        0
                    };
                }
            }
        } else if self.filtered_logs.len() > 0 {
            self.selected_log = Some(0);
            self.scroll_offset = 0;
        }
    }

    /// Down one step: in expanded mode scrolls the text down a line;
    /// otherwise moves the selection down, pushing the window along,
    /// or selects the first event if none was selected.
    pub fn scroll_down(&mut self)
        requires
            old(self).wf(),
        ensures
            final(self).wf(),
            final(self).filtered_logs == old(self).filtered_logs,
            old(self).expanded ==> *final(self) == (LogViewer {
                scroll_offset: (if old(self).scroll_offset < usize::MAX {
                    old(self).scroll_offset + 1
                } else {
                    usize::MAX as int
                }) as usize,
                ..*old(self)
            }),
            !old(self).expanded ==> (match old(self).selected_log {
                Some(sel) => *final(self) == (LogViewer {
                    selected_log: if sel + 1 < old(self).filtered_logs@.len() {
                        Some((sel + 1) as usize)
                    } else {
                        Some(sel)
                    },
                    scroll_offset: (if sel + 1 < old(self).filtered_logs@.len() && old(
                        self,
                    ).scroll_offset < usize::MAX {
                        old(self).scroll_offset + 1
                    } else {
                        old(self).scroll_offset as int
                    }) as usize,
                    ..*old(self)
                }),
                None => if old(self).filtered_logs@.len() > 0 {
                    *final(self) == (LogViewer {
                        selected_log: Some(0usize),
                        scroll_offset: 0usize,
                        ..*old(self)
                    })
                } else {
                    *final(self) == *old(self)
                },
            }),
    {
        if self.expanded {
            self.scroll_offset = if self.scroll_offset < usize::MAX {
                self.scroll_offset + 1
            } else {
                usize::MAX
            };
        } else if let Some(selected) = self.selected_log {
            let len = self.filtered_logs.len();
            if selected + 1 < len {
                self.selected_log = Some(selected + 1);
                // keep the selection in view at the bottom edge
                if self.scroll_offset < usize::MAX {
                    self.scroll_offset = self.scroll_offset + 1;
                }
            }
        } else if self.filtered_logs.len() > 0 {
            self.selected_log = Some(0);
            self.scroll_offset = 0;
        }
    }

    /// Re-centers the window on the selection for a viewport of
    /// `visible_height` rows, never scrolling past the end.
    pub fn update_scroll(&mut self, visible_height: usize)
        requires
            old(self).wf(),
        ensures
            final(self).wf(),
            old(self).selected_log is None ==> *final(self) == *old(self),
            old(self).selected_log matches Some(sel) ==> *final(self) == (LogViewer {
                scroll_offset: ({
                    let middle = visible_height as int / 2;
                    let centered = if sel >= middle {
                        sel - middle
                    } else {
                        0
                    };
                    let max_scroll = if old(self).filtered_logs@.len() >= visible_height {
                        old(self).filtered_logs@.len() - visible_height
                    } else {
                        0
                    };
                    if centered <= max_scroll {
                        centered
                    } else {
                        max_scroll
                    }
                }) as usize,
                ..*old(self)
            }),
    {
        if let Some(selected) = self.selected_log {
            let middle = visible_height / 2;
            let centered = if selected >= middle {
                selected - middle
            } else {
                0
            };
            let len = self.filtered_logs.len();
            let max_scroll = if len >= visible_height {
                len - visible_height
            } else {
                0
            };
            self.scroll_offset = if centered <= max_scroll {
                centered
            } else {
                max_scroll
            };
        }
    }

    /// Switches between the list view and the expanded single-event
    /// view, resetting the line offset.
    pub fn toggle_expand(&mut self)
        requires
            old(self).wf(),
        ensures
            final(self).wf(),
            *final(self) == (LogViewer {
                expanded: !old(self).expanded,
                scroll_offset: 0usize,
                ..*old(self)
            }),
    {
        self.expanded = !self.expanded;
        self.scroll_offset = 0;
    }

    /// The event under the cursor, if any.
    pub fn get_selected_log(&self) -> (r: Option<&LogEvent>)
        requires
            self.wf(),
        ensures
            r is Some <==> self.selected_log is Some,
            r matches Some(e) ==> self.selected_log matches Some(i) && *e
                == self.filtered_logs@[i as int],
    {
        match self.selected_log {
            Some(i) => Some(&self.filtered_logs[i]),
            None => None,
        }
    }

    /// Scrolls up by a page of `page_size` lines.
    pub fn page_up(&mut self, page_size: usize)
        requires
            old(self).wf(),
        ensures
            final(self).wf(),
            *final(self) == (LogViewer {
                scroll_offset: (if old(self).scroll_offset >= page_size {
                    old(self).scroll_offset - page_size
                } else {
                    0
                }) as usize,
                ..*old(self)
            }),
    {
        self.scroll_offset = if self.scroll_offset >= page_size {
            self.scroll_offset - page_size
        } else {
            0
        };
    }

    /// Scrolls down by a page of `page_size` lines, clamped to the
    /// last event; does nothing on an empty view.
    pub fn page_down(&mut self, page_size: usize)
        requires
            old(self).wf(),
        ensures
            final(self).wf(),
            old(self).filtered_logs@.len() == 0 ==> *final(self) == *old(self),
            old(self).filtered_logs@.len() > 0 ==> *final(self) == (LogViewer {
                scroll_offset: (if old(self).scroll_offset + page_size < old(
                    self,
                ).filtered_logs@.len() {
                    old(self).scroll_offset + page_size
                } else {
                    old(self).filtered_logs@.len() - 1
                }) as usize,
                ..*old(self)
            }),
    {
        if self.filtered_logs.len() > 0 {
            let stepped = self.scroll_offset.saturating_add(page_size);
            self.scroll_offset = if stepped < self.filtered_logs.len() {
                stepped
            } else {
                self.filtered_logs.len() - 1
            };
        }
    }

    /// The visible slice of the filtered view for a viewport of
    /// `visible_height` rows, centering the selection when possible.
    pub fn get_visible_range(&self, visible_height: usize) -> (r: (usize, usize))
        requires
            self.wf(),
        ensures
            r.0 <= r.1 <= self.filtered_logs@.len(),
            r.1 - r.0 <= visible_height,
            self.selected_log is None ==> r.0 == 0 && (r.1 == if visible_height
                <= self.filtered_logs@.len() {
                visible_height as int
            } else {
                self.filtered_logs@.len() as int
            }),
            self.selected_log matches Some(sel) ==> r.0 == range_start(
                sel as int,
                self.filtered_logs@.len() as int,
                visible_height as int,
            ) && r.1 == range_end(
                sel as int,
                self.filtered_logs@.len() as int,
                visible_height as int,
            ),
            self.selected_log matches Some(sel) ==> (visible_height >= 1 ==> r.0 <= sel < r.1),
    {
        visible_range(self.selected_log, self.filtered_logs.len(), visible_height)
    }
}

/// A filtered view is sound and complete: every retained event
/// matches the query on its message and came from the fetched list,
/// and every fetched event whose message matches is retained.
pub proof fn lemma_filtered_events_exact(events: Seq<LogEvent>, query: Seq<char>)
    ensures
        forall|i: int|
            0 <= i < kept_events(events, query).len() ==> matches_spec(
                query,
                #[trigger] kept_events(events, query)[i].message@,
            ) && events.contains(kept_events(events, query)[i]),
        forall|i: int|
            0 <= i < events.len() && matches_spec(query, #[trigger] events[i].message@)
                ==> kept_events(events, query).contains(events[i]),
{
    broadcast use vstd::seq_lib::group_filter_ensures;

    let pred = |e: LogEvent| matches_spec(query, e.message@);
    crate::filter::lemma_filter_members(events, pred);
}

} // verus!

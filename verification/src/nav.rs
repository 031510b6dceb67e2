//! Screen navigation: a linear forward chain of screens (profile pick,
//! function pick, range pick, event view).  Exactly one screen is
//! active at a time; the states of the screens behind it stay live so
//! that going back restores them, and going back discards the
//! abandoned screen's state entirely.

use vstd::prelude::*;

use crate::cal::{valid_cal, CalTime};
use crate::date_range::DateSelection;
use crate::function_selection::FunctionSelection;
use crate::log_viewer::LogViewer;
use crate::profiles::{Profile, ProfileSelection};

verus! {

/// Which screen is active.
#[derive(Clone, Copy, Debug, PartialEq, Eq, Structural)]
pub enum AppState {
    ProfileSelection,
    FunctionList,
    DateSelection,
    LogViewer,
}

/// Which panel of a two-panel screen has focus.
#[derive(Clone, Copy, Debug, PartialEq, Eq, Structural)]
pub enum FocusedPanel {
    Left,
    Right,
}

impl Default for FocusedPanel {
    /// Focus starts on the left panel.
    fn default() -> (r: Self)
        ensures
            r == FocusedPanel::Left,
    {
        FocusedPanel::Left
    }
}

/// The live screen states: one variant per step, each carrying the
/// still-live states of the steps before it, so that a screen without
/// its context is unrepresentable.
#[derive(Debug)]
pub enum Screen {
    Profiles { profiles: ProfileSelection },
    Functions { profiles: ProfileSelection, functions: FunctionSelection },
    Dates {
        profiles: ProfileSelection,
        functions: FunctionSelection,
        function_name: String,
        dates: DateSelection,
    },
    Logs {
        profiles: ProfileSelection,
        functions: FunctionSelection,
        function_name: String,
        dates: DateSelection,
        logs: LogViewer,
    },
}

impl Screen {
    /// Every live component is well-formed.
    pub open spec fn wf(self) -> bool {
        match self {
            Screen::Profiles { profiles } => profiles.wf(),
            Screen::Functions { profiles, functions } => profiles.wf() && functions.wf(),
            Screen::Dates { profiles, functions, function_name, dates } => profiles.wf()
                && functions.wf() && dates.wf(),
            Screen::Logs { profiles, functions, function_name, dates, logs } => profiles.wf()
                && functions.wf() && dates.wf() && logs.wf(),
        }
    }

    /// A fresh session showing the profile list.
    pub fn new(profiles: Vec<Profile>) -> (r: Screen)
        ensures
            r.wf(),
            r matches Screen::Profiles { profiles: p } ==> p.profiles@ == profiles@,
            r is Profiles,
    {
        Screen::Profiles { profiles: ProfileSelection::new(profiles) }
    }

    /// The tag of the active screen.
    pub fn state(&self) -> (r: AppState)
        ensures
            (r == AppState::ProfileSelection <==> self is Profiles),
            (r == AppState::FunctionList <==> self is Functions),
            (r == AppState::DateSelection <==> self is Dates),
            (r == AppState::LogViewer <==> self is Logs),
    {
        match self {
            Screen::Profiles { .. } => AppState::ProfileSelection,
            Screen::Functions { .. } => AppState::FunctionList,
            Screen::Dates { .. } => AppState::DateSelection,
            Screen::Logs { .. } => AppState::LogViewer,
        }
    }

    /// Confirms the selected profile: the function list screen is
    /// constructed for it.  Anywhere else, or without a selection,
    /// nothing changes.
    pub fn confirm_profile(self) -> (r: Screen)
        requires
            self.wf(),
        ensures
            r.wf(),
            !(self is Profiles) ==> r == self,
            self matches Screen::Profiles { profiles } ==> (match profiles.selected {
                Some(i) => r matches Screen::Functions { profiles: kept, functions } && kept
                    == profiles && functions.profile.name@
                    == profiles.profiles@[i as int].name@ && functions.profile.region@
                    == profiles.profiles@[i as int].region@ && functions.functions.items_view().len()
                    == 0 && functions.filter_input@.len() == 0,
                None => r == self,
            }),
    {
        match self {
            Screen::Profiles { profiles } => {
                match profiles.selected_profile() {
                    Some(p) => {
                        let functions = FunctionSelection::new(p);
                        Screen::Functions { profiles, functions }
                    },
                    None => Screen::Profiles { profiles },
                }
            },
            other => other,
        }
    }

    /// Confirms the selected function at clock reading `now`: the
    /// date-selection screen is constructed, defaulting to the last
    /// hour.  Anywhere else, or with an empty filtered list, nothing
    /// changes.
    pub fn confirm_function(self, now: CalTime) -> (r: Screen)
        requires
            self.wf(),
            valid_cal(now),
        ensures
            r.wf(),
            !(self is Functions) ==> r == self,
            self matches Screen::Functions { profiles, functions } ==> (
            if functions.filtered_functions@.len() > 0 {
                r matches Screen::Dates { profiles: kp, functions: kf, function_name, dates }
                    && kp == profiles && kf == functions && function_name@
                    == functions.filtered_functions@[functions.selected_index as int]@
                    && dates.to_date == now && !dates.custom_selection
            } else {
                r == self
            }),
    {
        match self {
            Screen::Functions { profiles, functions } => {
                match functions.selected_function() {
                    Some(name) => {
                        let dates = DateSelection::new_at(now);
                        Screen::Dates { profiles, functions, function_name: name, dates }
                    },
                    None => Screen::Functions { profiles, functions },
                }
            },
            other => other,
        }
    }

    /// Confirms the edited range: the event-view screen is constructed
    /// for the chosen function over that window.  Anywhere else,
    /// nothing changes.
    pub fn confirm_range(self) -> (r: Screen)
        requires
            self.wf(),
        ensures
            r.wf(),
            !(self is Dates) ==> r == self,
            self matches Screen::Dates { profiles, functions, function_name, dates } ==> (
            r matches Screen::Logs {
                profiles: kp,
                functions: kf,
                function_name: kn,
                dates: kd,
                logs,
            } && kp == profiles && kf == functions && kn@ == function_name@ && kd == dates
                && logs.function_name@ == function_name@ && logs.from_date == dates.from_date
                && logs.to_date == dates.to_date && logs.events@.len() == 0),
    {
        match self {
            Screen::Dates { profiles, functions, function_name, dates } => {
                let logs = LogViewer::new(function_name.clone(), dates.from_date, dates.to_date);
                Screen::Logs { profiles, functions, function_name, dates, logs }
            },
            other => other,
        }
    }

    /// Goes one step back, discarding the abandoned screen's state and
    /// returning to the previous screen's still-live state; the first
    /// screen stays put.
    pub fn back(self) -> (r: Screen)
        requires
            self.wf(),
        ensures
            r.wf(),
            self is Profiles ==> r == self,
            self matches Screen::Functions { profiles, .. } ==> r == (Screen::Profiles {
                profiles,
            }),
            self matches Screen::Dates { profiles, functions, .. } ==> r == (Screen::Functions {
                profiles,
                functions,
            }),
            self matches Screen::Logs { profiles, functions, function_name, dates, .. } ==> r
                == (Screen::Dates { profiles, functions, function_name, dates }),
    {
        match self {
            Screen::Profiles { profiles } => Screen::Profiles { profiles },
            Screen::Functions { profiles, .. } => Screen::Profiles { profiles },
            Screen::Dates { profiles, functions, .. } => Screen::Functions { profiles, functions },
            Screen::Logs { profiles, functions, function_name, dates, .. } => Screen::Dates {
                profiles,
                functions,
                function_name,
                dates,
            },
        }
    }
}

} // verus!

//! The function-selection screen: the cached list of function names
//! for the chosen profile, a keyword filter over it, and a clamped
//! selection into the filtered view.

use vstd::prelude::*;

use crate::filter::{filter_names, kept_names};
use crate::profiles::Profile;
use crate::source::{
    json_of_names, names_sorted, names_view, CachedListSource, LoadPlan,
};

verus! {

/// The function-selection screen's state.
#[derive(Debug)]
pub struct FunctionSelection {
    pub profile: Profile,
    pub functions: CachedListSource,
    pub filtered_functions: Vec<String>,
    pub selected_index: usize,
    pub filter_input: String,
}

impl FunctionSelection {
    /// The filtered view is the filter applied to the backing list,
    /// and the selection is clamped to it (index 0 on an empty view,
    /// as the backing screen always scrolls from the top then).
    pub open spec fn wf(self) -> bool {
        &&& self.filtered_functions@ == kept_names(
            self.functions.items_view(),
            self.filter_input@,
        )
        &&& (self.filtered_functions@.len() > 0 ==> self.selected_index
            < self.filtered_functions@.len())
        &&& (self.filtered_functions@.len() == 0 ==> self.selected_index == 0)
    }

    /// A fresh screen for `profile`, with nothing loaded yet.
    pub fn new(profile: Profile) -> (r: FunctionSelection)
        ensures
            r.wf(),
            r.functions.items_view().len() == 0,
            r.filter_input@.len() == 0,
            r.selected_index == 0,
            r.profile.name@ == profile.name@,
            r.profile.region@ == profile.region@,
    {
        let r = FunctionSelection {
            profile,
            functions: CachedListSource::new(),
            filtered_functions: Vec::new(),
            selected_index: 0,
            filter_input: String::new(),
        };
        proof {
            reveal(Seq::filter);
            assert(r.filtered_functions@ =~= kept_names(
                r.functions.items_view(),
                r.filter_input@,
            ));
        }
        r
    }

    /// Recomputes the filtered view from the current filter text and
    /// resets the selection to the top.  An empty filter shows the
    /// whole backing list.
    pub fn update_filter(&mut self)
        ensures
            final(self).wf(),
            final(self).selected_index == 0,
            final(self).functions == old(self).functions,
            final(self).filter_input == old(self).filter_input,
            final(self).profile == old(self).profile,
            final(self).filter_input@.len() == 0 ==> final(self).filtered_functions@
                == final(self).functions.items_view(),
    {
        self.filtered_functions = filter_names(self.filter_input.as_str(), self.functions.items());
        self.selected_index = 0;
    }

    /// Replaces the filter text and recomputes the filtered view.
    pub fn set_filter(&mut self, text: String)
        ensures
            final(self).wf(),
            final(self).filter_input@ == text@,
            final(self).selected_index == 0,
            final(self).functions == old(self).functions,
            text@.len() == 0 ==> final(self).filtered_functions@
                == final(self).functions.items_view(),
    {
        self.filter_input = text;
        self.update_filter();
    }

    /// Starts a load from the parsed cache contents and shows a cache
    /// hit immediately; the returned plan says whether a synchronous
    /// fetch or only a background refresh is owed.
    pub fn load(&mut self, cached: Option<Vec<String>>) -> (r: LoadPlan)
        ensures
            final(self).wf(),
            final(self).selected_index == 0,
            final(self).filter_input == old(self).filter_input,
            final(self).profile == old(self).profile,
            cached matches Some(names) ==> final(self).functions.items_view() == names@ && (
            r matches LoadPlan::CachedThenRefresh { immediate } ==> immediate@ == names@),
            cached matches Some(names) ==> r is CachedThenRefresh,
            cached is None ==> r is FetchNow && final(self).functions.items_view() == old(
                self,
            ).functions.items_view(),
            old(self).filter_input@.len() == 0 ==> final(self).filtered_functions@
                == final(self).functions.items_view(),
    {
        let plan = self.functions.load(cached);
        self.update_filter();
        plan
    }

    /// Completes a full fetch: the backing list becomes the fetched
    /// names in sorted order, the filtered view is re-run, and the
    /// returned payload must rewrite the cache.  The selection falls
    /// back to the top instead of chasing the previously selected
    /// name through the new list -- a deliberate simplification, since
    /// the backing list carries no identity beyond the names.
    pub fn apply_refresh(&mut self, fetched: Vec<String>) -> (cache_payload: String)
        ensures
            final(self).wf(),
            final(self).selected_index == 0,
            final(self).filter_input == old(self).filter_input,
            final(self).profile == old(self).profile,
            names_sorted(final(self).functions.items_view()),
            final(self).functions.items_view().to_multiset() == fetched@.to_multiset(),
            cache_payload@ == json_of_names(names_view(final(self).functions.items_view())),
            old(self).filter_input@.len() == 0 ==> final(self).filtered_functions@
                == final(self).functions.items_view(),
    {
        let payload = self.functions.apply_refresh(fetched);
        self.update_filter();
        payload
    }

    /// Moves the selection down, clamped to the end of the filtered
    /// view; does nothing on an empty view.
    pub fn next(&mut self)
        requires
            old(self).wf(),
        ensures
            final(self).wf(),
            old(self).filtered_functions@.len() == 0 ==> *final(self) == *old(self),
            old(self).filtered_functions@.len() > 0 ==> *final(self) == (FunctionSelection {
                selected_index: (if old(self).selected_index + 1 < old(
                    self,
                ).filtered_functions@.len() {
                    old(self).selected_index + 1
                } else {
                    old(self).filtered_functions@.len() - 1
                }) as usize,
                ..*old(self)
            }),
    {
        if self.filtered_functions.len() > 0 {
            if self.selected_index + 1 < self.filtered_functions.len() {
                self.selected_index = self.selected_index + 1;
            } else {
                self.selected_index = self.filtered_functions.len() - 1;
            }
        }
    }

    /// Moves the selection up, clamped to the top; does nothing on an
    /// empty view.
    pub fn previous(&mut self)
        requires
            old(self).wf(),
        ensures
            final(self).wf(),
            old(self).filtered_functions@.len() == 0 ==> *final(self) == *old(self),
            old(self).filtered_functions@.len() > 0 ==> *final(self) == (FunctionSelection {
                selected_index: (if old(self).selected_index > 0 {
                    old(self).selected_index - 1
                } else {
                    0
                }) as usize,
                ..*old(self)
            }),
    {
        if self.filtered_functions.len() > 0 {
            if self.selected_index > 0 {
                self.selected_index = self.selected_index - 1;
            }
        }
    }

    /// The name under the cursor, if any.
    pub fn selected_function(&self) -> (r: Option<String>)
        requires
            self.wf(),
        ensures
            r is Some <==> self.filtered_functions@.len() > 0,
            r matches Some(name) ==> name@ == self.filtered_functions@[
                self.selected_index as int
            ]@,
    {
        if self.filtered_functions.len() > 0 {
            Some(self.filtered_functions[self.selected_index].clone())
        } else {
            None
        }
    }
}

} // verus!


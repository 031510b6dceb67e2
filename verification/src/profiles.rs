//! Account profiles and the profile-selection screen.

use vstd::prelude::*;

verus! {

/// An account context: a named profile and its region.
#[derive(Debug)]
pub struct Profile {
    pub name: String,
    pub region: String,
}

impl Clone for Profile {
    /// An exact copy.
    fn clone(&self) -> (r: Self)
        ensures
            r.name@ == self.name@,
            r.region@ == self.region@,
    {
        Profile { name: self.name.clone(), region: self.region.clone() }
    }
}

/// The profile list as loaded from configuration.
#[derive(Debug)]
pub struct AwsConfig {
    pub profiles: Vec<Profile>,
}

/// The profile-selection screen: an ordered list of profiles and a
/// clamped selection.
#[derive(Debug)]
pub struct ProfileSelection {
    pub profiles: Vec<Profile>,
    pub selected: Option<usize>,
}

impl ProfileSelection {
    /// The selection is present exactly when the list is non-empty,
    /// and always in range.
    pub open spec fn wf(self) -> bool {
        &&& (self.selected matches Some(i) ==> i < self.profiles@.len())
        &&& (self.selected is None ==> self.profiles@.len() == 0)
    }

    /// A new screen over `profiles`, selecting the first entry when
    /// there is one.
    pub fn new(profiles: Vec<Profile>) -> (r: ProfileSelection)
        ensures
            r.wf(),
            r.profiles@ == profiles@,
            profiles@.len() > 0 ==> r.selected == Some(0usize),
            profiles@.len() == 0 ==> r.selected is None,
    {
        let selected = if profiles.len() > 0 {
            Some(0)
        } else {
            None
        };
        ProfileSelection { profiles, selected }
    }

    /// Moves the selection down, clamped to the last entry.
    pub fn next(&mut self)
        requires
            old(self).wf(),
        ensures
            final(self).wf(),
            final(self).profiles@ == old(self).profiles@,
            old(self).profiles@.len() == 0 ==> *final(self) == *old(self),
            old(self).profiles@.len() > 0 ==> (final(self).selected matches Some(i) && i == ({
                let cur = match old(self).selected {
                    Some(c) => c as int,
                    None => 0,
                };
                if cur + 1 < old(self).profiles@.len() {
                    cur + 1
                } else {
                    old(self).profiles@.len() - 1
                }
            })),
    {
        if self.profiles.len() > 0 {
            let current = match self.selected {
                Some(c) => c,
                None => 0,
            };
            let next = if current + 1 < self.profiles.len() {
                current + 1
            } else {
                self.profiles.len() - 1
            };
            self.selected = Some(next);
        }
    }

    /// Moves the selection up, clamped to the first entry.
    pub fn previous(&mut self)
        requires
            old(self).wf(),
        ensures
            final(self).wf(),
            final(self).profiles@ == old(self).profiles@,
            old(self).profiles@.len() == 0 ==> *final(self) == *old(self),
            old(self).profiles@.len() > 0 ==> (final(self).selected matches Some(i) && i == ({
                let cur = match old(self).selected {
                    Some(c) => c as int,
                    None => 0,
                };
                if cur > 0 {
                    cur - 1
                } else {
                    0
                }
            })),
    {
        if self.profiles.len() > 0 {
            let current = match self.selected {
                Some(c) => c,
                None => 0,
            };
            self.selected = Some(if current > 0 {
                current - 1
            } else {
                0
            });
        }
    }

    /// The selected profile, copied out.
    pub fn selected_profile(&self) -> (r: Option<Profile>)
        requires
            self.wf(),
        ensures
            r is Some <==> self.selected is Some,
            (r matches Some(p) ==> self.selected matches Some(i) && p.name@
                == self.profiles@[i as int].name@ && p.region@ == self.profiles@[i as int].region@),
    {
        match self.selected {
            Some(i) => Some(self.profiles[i].clone()),
            None => None,
        }
    }
}

} // verus!

//! Session configuration: the active profile name and region, and the
//! loaded profile list.  The environment is read by the caller; this
//! module only decides what the values mean.

use vstd::prelude::*;

use vstd::string::StringExecFns;

use crate::profiles::Profile;

verus! {

/// The resolved session configuration.
#[derive(Debug)]
pub struct Config {
    pub aws_profile_name: String,
    pub aws_region: String,
    pub aws_profiles: Vec<Profile>,
}

impl Default for Config {
    /// The built-in fallback configuration.
    fn default() -> (r: Self)
        ensures
            r.aws_profile_name@ == "resola-staging"@,
            r.aws_region@ == "ap-northeast-1"@,
            r.aws_profiles@.len() == 0,
    {
        Config {
            aws_profile_name: String::from_str("resola-staging"),
            aws_region: String::from_str("ap-northeast-1"),
            aws_profiles: Vec::new(),
        }
    }
}

impl Config {
    /// Resolves the configuration from the environment values the
    /// caller read: the profile from `AWS_PROFILE`, the region from
    /// `AWS_REGION` and then `AWS_DEFAULT_REGION`, each falling back
    /// to a built-in default.
    pub fn resolve(
        profile_var: Option<String>,
        region_var: Option<String>,
        default_region_var: Option<String>,
        profiles: Vec<Profile>,
    ) -> (r: Config)
        ensures
            (match profile_var {
                Some(p) => r.aws_profile_name@ == p@,
                None => r.aws_profile_name@ == "resola-staging"@,
            }),
            (match (region_var, default_region_var) {
                (Some(v), _) => r.aws_region@ == v@,
                (None, Some(v)) => r.aws_region@ == v@,
                (None, None) => r.aws_region@ == "ap-northeast-1"@,
            }),
            r.aws_profiles@ == profiles@,
    {
        let aws_profile_name = match profile_var {
            Some(p) => p,
            None => String::from_str("resola-staging"),
        };
        let aws_region = match (region_var, default_region_var) {
            (Some(v), _) => v,
            (None, Some(v)) => v,
            (None, None) => String::from_str("ap-northeast-1"),
        };
        Config { aws_profile_name, aws_region, aws_profiles: profiles }
    }
}

} // verus!

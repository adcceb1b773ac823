//! Where the files that come with the solver are found.

use vstd::prelude::*;

verus! {

/// The directory that holds the solver's files, written so that a relative
/// path can be appended: `crate_dir` followed by a slash.
pub fn get_path_to_src(crate_dir: &str) -> (r: String)
    ensures
        r@ == crate_dir@ + "/"@,
{
    String::from_str(crate_dir).concat("/")
}

/// The settings file used where a host names none.
pub fn default_settings_path(path_to_src: &str) -> (r: String)
    ensures
        r@ == path_to_src@ + "configs/settings.yaml"@,
{
    String::from_str(path_to_src).concat("configs/settings.yaml")
}

/// Where the robot description named `urdf` in a settings file is found.
pub fn urdf_path(path_to_src: &str, urdf: &str) -> (r: String)
    ensures
        r@ == path_to_src@ + "configs/urdfs/"@ + urdf@,
{
    String::from_str(path_to_src).concat("configs/urdfs/").concat(urdf)
}

} // verus!

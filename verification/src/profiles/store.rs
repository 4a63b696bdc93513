use vstd::prelude::*;
use crate::text::{join_path, join_path_spec};

verus! {

/// The profiles file, relative to the home directory.
pub const STORE_SUBPATH: &'static str = ".config/openpelta/profiles.toml";

/// Home directory used when none is known.
pub const FALLBACK_HOME: &'static str = "/tmp";

/// Where the profiles are kept (TOML).
pub struct ProfileStore {
    path: String,
}

impl ProfileStore {
    pub closed spec fn path_spec(&self) -> Seq<char> {
        self.path@
    }

    /// The store of the user whose home directory is `home` (`/tmp` when
    /// unknown): `<home>/.config/openpelta/profiles.toml`.
    pub fn new(home: Option<&str>) -> (s: ProfileStore)
        ensures
            s.path_spec() == join_path_spec(
                match home {
                    Some(h) => h@,
                    None => FALLBACK_HOME@,
                },
                STORE_SUBPATH@,
            ),
    {
        let base = match home {
            Some(h) => h,
            None => FALLBACK_HOME,
        };
        ProfileStore { path: join_path(base, STORE_SUBPATH) }
    }

    pub fn path(&self) -> (p: &str)
        ensures
            p@ == self.path_spec(),
    {
        self.path.as_str()
    }
}

} // verus!

//! Where the state board is kept on disk. Writing and reading the file are
//! left to the caller; the library decides the path.
use vstd::prelude::*;
use crate::text::{chars_of, owned};

verus! {

/// The path of `component` under `base`, as std's `PathBuf::push` forms it
/// for a relative component on Unix: a separator is put between them unless
/// `base` is empty or already ends with one.
pub open spec fn path_join(base: Seq<char>, component: Seq<char>) -> Seq<char> {
    if base.len() == 0 || base.last() == '/' {
        base + component
    } else {
        base + "/"@ + component
    }
}

/// The path of `component` under `base`.
pub fn join_path(base: &str, component: &str) -> (p: String)
    ensures
        p@ == path_join(base@, component@),
{
    let b = chars_of(base);
    let mut p = owned(base);
    if b.len() > 0 && b[b.len() - 1] != '/' {
        p.append("/");
    }
    p.append(component);
    p
}

/// The board file under directory `base`: `base/.evolution/state_board.json`.
pub open spec fn board_file_under(base: Seq<char>) -> Seq<char> {
    path_join(path_join(base, ".evolution"@), "state_board.json"@)
}

/// The board file in the system's directory `root`.
pub fn board_file_in(root: &str) -> (p: String)
    ensures
        p@ == path_join(root@, "state_board.json"@),
{
    join_path(root, "state_board.json")
}

/// The home directory `home`, or `.` where there is none.
pub open spec fn under_home(home: Option<Seq<char>>) -> Seq<char> {
    match home {
        Some(h) => h,
        None => "."@,
    }
}

/// Keeps the state board in one JSON file.
pub struct StateBoardStorage {
    path: String,
}

impl StateBoardStorage {
    /// The file this storage uses.
    pub closed spec fn spec_path(&self) -> Seq<char> {
        self.path@
    }

    /// A storage using the file at `path`.
    pub fn new(path: &str) -> (s: StateBoardStorage)
        ensures
            s.spec_path() == path@,
    {
        StateBoardStorage { path: owned(path) }
    }

    /// The file this storage uses.
    pub fn path(&self) -> (p: &str)
        ensures
            p@ == self.spec_path(),
    {
        self.path.as_str()
    }

    /// The default file: `~/.evolution/state_board.json`, under the user's
    /// home directory (as dirs finds it), or under `.` where there is none.
    pub fn default_path() -> (p: String)
        ensures
            exists|home: Option<Seq<char>>| p@ == board_file_under(under_home(home)),
    {
        let home = crate::ext::home_dir_text();
        let ghost h = crate::text::opt_text(home);
        let base = match home {
            Some(d) => d,
            None => owned("."),
        };
        assert(base@ == under_home(h));
        let dir = join_path(base.as_str(), ".evolution");
        let p = join_path(dir.as_str(), "state_board.json");
        assert(p@ == board_file_under(under_home(h)));
        p
    }

    /// A storage using the default file.
    pub fn with_default_path() -> (s: StateBoardStorage)
        ensures
            exists|home: Option<Seq<char>>| s.spec_path() == board_file_under(under_home(home)),
    {
        let p = Self::default_path();
        Self::new(p.as_str())
    }
}

} // verus!

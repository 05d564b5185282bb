//! Where the server keeps its data file, and the wait that holds startup
//! back until the file is there.

use crate::chars::opt_str_view;
use vstd::prelude::*;
use vstd::string::StrSliceExecFns;
use vstd::string::StringExecFns;

verus! {

/// Seconds between two looks at the data file while it is missing.
pub const DATA_POLL_INTERVAL_SECS: u64 = 1;

/// Why the location of the data file cannot be told.
#[derive(Clone, Copy, Debug, PartialEq, Eq, Structural)]
pub enum DbPathError {
    /// Neither a data directory nor a home directory is known.
    NoHomeDirectory,
}

impl DbPathError {
    /// The error in words.
    pub fn message(&self) -> (text: String)
        ensures
            text@ == "cannot determine home directory"@,
    {
        String::from_str("cannot determine home directory")
    }
}

/// `name` appended to the directory `base`, with one `/` between the two
/// unless `base` is empty or already ends in one.
pub open spec fn join_text(base: Seq<char>, name: Seq<char>) -> Seq<char> {
    if base.len() == 0 || base.last() == '/' {
        base + name
    } else {
        base + "/"@ + name
    }
}

/// The directory under which applications keep their data: the configured
/// one if it is set and not empty, else `.local/share` under the home
/// directory.
pub open spec fn data_home_text(xdg_data_home: Option<Seq<char>>, home_dir: Option<Seq<char>>)
    -> Result<Seq<char>, DbPathError> {
    if xdg_data_home is Some && xdg_data_home->0.len() > 0 {
        Ok(xdg_data_home->0)
    } else if home_dir is Some {
        Ok(join_text(join_text(home_dir->0, ".local"@), "share"@))
    } else {
        Err(DbPathError::NoHomeDirectory)
    }
}

/// The location of the data file: `opencode/opencode.db` under the data
/// directory.
pub open spec fn db_path_text(xdg_data_home: Option<Seq<char>>, home_dir: Option<Seq<char>>)
    -> Result<Seq<char>, DbPathError> {
    match data_home_text(xdg_data_home, home_dir) {
        Ok(data_home) => Ok(join_text(join_text(data_home, "opencode"@), "opencode.db"@)),
        Err(error) => Err(error),
    }
}

/// Appends `name` to the directory `base`.
fn join_path(base: String, name: &str) -> (path: String)
    ensures
        path@ == join_text(base@, name@),
{
    proof {
        reveal_strlit("/");
    }
    let len: usize = base.as_str().unicode_len();
    let mut path = base;
    if len > 0 && path.as_str().get_char(len - 1) != '/' {
        path.append("/");
    }
    path.append(name);
    path
}

/// Works out where the data file lives from the configured data directory
/// and the home directory, as far as they are known.
pub fn opencode_db_path(xdg_data_home: Option<&str>, home_dir: Option<&str>) -> (path: Result<
    String,
    DbPathError,
>)
    ensures
        match path {
            Ok(text) => db_path_text(opt_str_view(xdg_data_home), opt_str_view(home_dir)) == Ok::<
                Seq<char>,
                DbPathError,
            >(text@),
            Err(error) => db_path_text(opt_str_view(xdg_data_home), opt_str_view(home_dir)) == Err::<
                Seq<char>,
                DbPathError,
            >(error),
        },
{
    let configured: Option<&str> = match xdg_data_home {
        Some(dir) => if dir.unicode_len() > 0 {
            Some(dir)
        } else {
            None
        },
        None => None,
    };
    let data_home: String = match configured {
        Some(dir) => String::from_str(dir),
        None => match home_dir {
            Some(home) => join_path(join_path(String::from_str(home), ".local"), "share"),
            None => { return Err(DbPathError::NoHomeDirectory); },
        },
    };
    Ok(join_path(join_path(data_home, "opencode"), "opencode.db"))
}

/// Whether the data file counts as present.  `on_disk` says whether a file
/// was found at `db_path`; when the location itself cannot be told there is
/// nothing to wait for, and the file counts as present.
pub fn sqlite_file_exists(db_path: &Result<String, DbPathError>, on_disk: bool) -> (present: bool)
    ensures
        present == (*db_path is Err || on_disk),
{
    match db_path {
        Ok(_) => on_disk,
        Err(_) => true,
    }
}

/// What to do after a look at the data file.
#[derive(Clone, Copy, Debug, PartialEq, Eq, Structural)]
pub enum DataWait {
    /// The file is there: go on.
    Open,
    /// The file is missing: look again after so many seconds.
    Retry { after_secs: u64 },
}

/// What to do when the data file is, or is not, `present`.
pub open spec fn data_wait(present: bool) -> DataWait {
    if present {
        DataWait::Open
    } else {
        DataWait::Retry { after_secs: DATA_POLL_INTERVAL_SECS }
    }
}

/// One round of waiting for the data file.  The wait ends as soon as the
/// file is present; otherwise another look is due after the fixed interval.
/// The wait never gives up by itself.
pub fn wait_until_exists(present: bool) -> (step: DataWait)
    ensures
        step == data_wait(present),
{
    if present {
        DataWait::Open
    } else {
        DataWait::Retry { after_secs: DATA_POLL_INTERVAL_SECS }
    }
}

} // verus!

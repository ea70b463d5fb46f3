//! What the program keeps between sessions.

use crate::backend::task::Display;
use std::path::PathBuf;
use vstd::prelude::*;
use vstd::string::StringExecFns;

verus! {

/// A path in the file system, as the standard library holds it. The library
/// carries such a path along and never looks into it.
#[verifier::external_type_specification]
#[verifier::external_body]
pub struct ExPathBuf(PathBuf);

/// What the program keeps between sessions: where the tasks are stored, which
/// of them the list shows, and in which order.
#[derive(Debug)]
pub struct Config {
    pub db_path: PathBuf,
    pub display_filter: Display,
    pub urgency_sort_desc: bool,
}

impl Config {
    /// The settings of a first session with the store at `db_path`: all
    /// tasks are shown, the most urgent first.
    pub fn new(db_path: PathBuf) -> (config: Self)
        ensures
            config.db_path == db_path,
            config.display_filter == Display::All,
            config.urgency_sort_desc,
    {
        Self { db_path, display_filter: Display::All, urgency_sort_desc: true }
    }
}

/// The name `name` of a file, or that name behind `test.` for a session that
/// is a test.
pub open spec fn named_for(testing: bool, name: Seq<char>) -> Seq<char> {
    if testing {
        "test."@ + name
    } else {
        name
    }
}

/// The name `name` of a file, or that name behind `test.` for a session that
/// is a test.
fn file_name_for(testing: bool, name: &str) -> (file: String)
    ensures
        file@ == named_for(testing, name@),
{
    if testing {
        let mut file = String::from_str("test.");
        file.append(name);
        file
    } else {
        String::from_str(name)
    }
}

/// The name of the file in which the settings are kept.
pub fn config_file_name(testing: bool) -> (file: String)
    ensures
        file@ == named_for(testing, "config.json"@),
{
    file_name_for(testing, "config.json")
}

/// The name of the file in which the tasks are kept.
pub fn database_file_name(testing: bool) -> (file: String)
    ensures
        file@ == named_for(testing, "checklist.sqlite"@),
{
    file_name_for(testing, "checklist.sqlite")
}

/// The name of the file into which a file is written before it takes the
/// place of the file named `file`: that name with `.tmp` behind it.
pub fn tmp_file_name(file: &str) -> (tmp: String)
    ensures
        tmp@ == file@ + ".tmp"@,
{
    let mut tmp = String::from_str(file);
    tmp.append(".tmp");
    tmp
}

} // verus!

use vstd::prelude::*;
use vstd::string::*;

verus! {

/// Where lists are stored and how a checkbox is drawn.
pub struct Settings {
    pub todopath: String,
    pub checked_symbol: String,
    pub unchecked_symbol: String,
}

impl Settings {
    /// The settings used when none were stored yet: lists under `todos` in the
    /// home directory, `[x]` for a done entry and `[ ]` for an open one.
    pub fn default(home_path: String) -> (r: Settings)
        ensures
            r.todopath@ == home_path@ + "/todos"@,
            r.checked_symbol@ == "[x]"@,
            r.unchecked_symbol@ == "[ ]"@,
    {
        let mut todopath = home_path;
        todopath.append("/todos");
        Settings {
            todopath,
            checked_symbol: String::from_str("[x]"),
            unchecked_symbol: String::from_str("[ ]"),
        }
    }

    /// The directory that holds the settings file, under the home directory.
    pub fn config_dir(home: &str) -> (r: String)
        ensures
            r@ == home@ + "/.config/todo"@,
    {
        let mut out = String::from_str(home);
        out.append("/.config/todo");
        out
    }

    /// The settings file, under the home directory.
    pub fn config_file(home: &str) -> (r: String)
        ensures
            r@ == home@ + "/.config/todo"@ + "/config.json"@,
    {
        let mut out = Settings::config_dir(home);
        out.append("/config.json");
        out
    }
}

} // verus!

use vstd::prelude::*;

use crate::search::{folded_matching_lines, matching_lines, search, search_case_insensitive};

verus! {

/// What to search for, where, and whether case matters.
pub struct Config {
    pub search_string: String,
    pub filename: String,
    pub ignore_case: bool,
}

/// The rule that frames a rendered configuration.
pub open spec fn rule_line() -> Seq<char> {
    "================================================================\n"@
}

/// The text of a `bool` as Rust prints it.
pub open spec fn bool_text(b: bool) -> Seq<char> {
    if b {
        "true"@
    } else {
        "false"@
    }
}

/// A configuration as printed: its fields, one per line, between two rules.
pub open spec fn rendered(search_string: Seq<char>, filename: Seq<char>, ignore_case: bool) -> Seq<char> {
    rule_line() + "search_string: "@ + search_string + "\nfilename: "@ + filename + "\n"@
        + "ignore_case: "@ + bool_text(ignore_case) + "\n"@ + rule_line()
}

impl Config {
    /// Reads the search string and the file name from `args[1]` and
    /// `args[2]` (`args[0]` is the program). Fails when either is missing.
    pub fn new(args: &Vec<String>, ignore_case: bool) -> (r: Result<Config, &'static str>)
        ensures
            r is Err <==> args.len() < 3,
            r matches Err(e) ==> e@ == "not enough arguments"@,
            r matches Ok(c) ==> {
                &&& c.search_string@ == args@[1]@
                &&& c.filename@ == args@[2]@
                &&& c.ignore_case == ignore_case
            },
    {
        if args.len() < 3 {
            return Err("not enough arguments");
        }
        Ok(Config { search_string: args[1].clone(), filename: args[2].clone(), ignore_case })
    }

    /// The configuration as text, for display.
    pub fn render(&self) -> (r: String)
        ensures
            r@ == rendered(self.search_string@, self.filename@, self.ignore_case),
    {
        let rule = "================================================================\n";
        let mut s = String::from_str(rule);
        s.append("search_string: ");
        s.append(self.search_string.as_str());
        s.append("\nfilename: ");
        s.append(self.filename.as_str());
        s.append("\n");
        s.append("ignore_case: ");
        if self.ignore_case {
            s.append("true");
        } else {
            s.append("false");
        }
        s.append("\n");
        s.append(rule);
        s
    }

    /// The lines of `contents` that the configured search selects: the
    /// case-insensitive search when `ignore_case` is set, else the exact one.
    pub fn search_in<'a>(&self, contents: &'a str) -> (r: Vec<&'a str>)
        ensures
            !self.ignore_case ==> r.deep_view() == matching_lines(self.search_string@, contents@),
            self.ignore_case ==> r.deep_view() == folded_matching_lines(
                self.search_string@,
                contents@,
            ),
    {
        if self.ignore_case {
            search_case_insensitive(self.search_string.as_str(), contents)
        } else {
            search(self.search_string.as_str(), contents)
        }
    }
}

} // verus!

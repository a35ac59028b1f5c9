//! The records of the two trackers, as far as a release note reads them: the
//! standard fields as plain values, the site's own fields as a tree of values.

use vstd::prelude::*;
use vstd::string::StringExecFns;

use crate::field_value::FieldValue;
use crate::text::same_text;

verus! {

/// A flag of a Bugzilla bug: a name and the state it is in.
#[derive(Clone, Debug, PartialEq, Eq)]
pub struct Flag {
    pub name: String,
    pub status: String,
}

impl Flag {
    /// The flag as a text: the name, a colon and the state.
    pub open spec fn shown(self) -> Seq<char> {
        self.name@ + ": "@ + self.status@
    }

    /// Displays the flag in the format of `name: value`.
    pub fn to_string(&self) -> (shown: String)
        ensures
            shown@ == self.shown(),
    {
        let mut shown = self.name.clone();
        shown.append(": ");
        shown.append(self.status.as_str());
        shown
    }
}

/// A bug as Bugzilla reports it.
#[derive(Debug, PartialEq, Eq)]
pub struct Bug {
    pub id: i32,
    pub summary: String,
    pub status: String,
    pub is_open: bool,
    pub priority: String,
    pub assigned_to: String,
    pub component: Vec<String>,
    pub product: String,
    /// The flags, where the tracker was asked for them.
    pub flags: Option<Vec<Flag>>,
    /// The groups that restrict who may see the bug.
    pub groups: Vec<String>,
    pub docs_contact: Option<String>,
    /// The fields of the site's own configuration: a record.
    pub extra: FieldValue,
}

/// The state of the first flag called `name` at or after `from`.
pub open spec fn find_flag(flags: Seq<Flag>, name: Seq<char>, from: int) -> Option<Seq<char>>
    decreases flags.len() - from,
{
    if from < 0 || from >= flags.len() {
        None
    } else if flags[from].name@ == name {
        Some(flags[from].status@)
    } else {
        find_flag(flags, name, from + 1)
    }
}

impl Bug {
    /// The state of the flag called `name`, where the bug has its flags and one
    /// of them has that name.
    pub open spec fn flag(self, name: Seq<char>) -> Option<Seq<char>> {
        match self.flags {
            Some(flags) => find_flag(flags@, name, 0),
            None => None,
        }
    }

    /// Returns the value of the flag corresponding to the flag name.
    /// If no flag by that name is set in the bug, or the bug came without its
    /// flags, the function returns None.
    pub fn get_flag(&self, name: &str) -> (state: Option<&str>)
        ensures
            match state {
                Some(s) => self.flag(name@) == Some(s@),
                None => self.flag(name@) is None,
            },
    {
        match &self.flags {
            Some(flags) => {
                let mut i: usize = 0;
                while i < flags.len()
                    invariant
                        i <= flags.len(),
                        self.flag(name@) == find_flag(flags@, name@, i as int),
                    decreases flags.len() - i,
                {
                    if same_text(flags[i].name.as_str(), name) {
                        return Some(flags[i].status.as_str());
                    }
                    i += 1;
                }
                None
            },
            None => None,
        }
    }
}

/// An issue as Jira reports it.
#[derive(Debug, PartialEq, Eq)]
pub struct Issue {
    pub key: String,
    pub summary: String,
    pub description: Option<String>,
    /// The name of the status.
    pub status: String,
    /// The name of the priority.
    pub priority: String,
    /// The name of the assignee.
    pub assignee: String,
    /// The names of the components.
    pub components: Vec<String>,
    /// The name of the project.
    pub project: String,
    pub labels: Vec<String>,
    /// The names of the fix versions, in the tracker's order.
    pub fix_versions: Vec<String>,
    /// The fields of the site's own configuration: a record.
    pub extra: FieldValue,
}

} // verus!

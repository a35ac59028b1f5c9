//! The extension fields of a tracker record: a tree of named values, as the
//! trackers send them in JSON.

use vstd::prelude::*;

use crate::text::same_text;

verus! {

/// One value of a record's extension fields.
#[derive(Debug, PartialEq, Eq)]
pub enum FieldValue {
    /// The field is there and unset.
    Null,
    Flag(bool),
    /// A number, in the notation in which the tracker sent it.
    Number(String),
    Text(String),
    List(Vec<FieldValue>),
    /// Named members. Where a name occurs twice, the first occurrence counts.
    Record(Vec<Member>),
}

/// A named member of a record.
#[derive(Debug, PartialEq, Eq)]
pub struct Member {
    pub name: String,
    pub value: FieldValue,
}

/// The value of the first member called `name` at or after `from`.
pub open spec fn find_member(members: Seq<Member>, name: Seq<char>, from: int) -> Option<FieldValue>
    decreases members.len() - from,
{
    if from < 0 || from >= members.len() {
        None
    } else if members[from].name@ == name {
        Some(members[from].value)
    } else {
        find_member(members, name, from + 1)
    }
}

impl FieldValue {
    /// The member called `name`, where this value is a record that has one.
    pub open spec fn member(self, name: Seq<char>) -> Option<FieldValue> {
        match self {
            FieldValue::Record(members) => find_member(members@, name, 0),
            _ => None,
        }
    }

    /// The text of this value, where it is a text.
    pub open spec fn text(self) -> Option<Seq<char>> {
        match self {
            FieldValue::Text(s) => Some(s@),
            _ => None,
        }
    }

    /// The text of the member called `name` of the member called `outer`.
    pub open spec fn nested_text(self, outer: Seq<char>, name: Seq<char>) -> Option<Seq<char>> {
        match self.member(outer) {
            Some(value) => match value.member(name) {
                Some(inner) => inner.text(),
                None => None,
            },
            None => None,
        }
    }

    /// Looks up a member of a record by its name.
    pub fn get(&self, name: &str) -> (found: Option<&FieldValue>)
        ensures
            match found {
                Some(value) => self.member(name@) == Some(*value),
                None => self.member(name@) is None,
            },
    {
        match self {
            FieldValue::Record(members) => {
                let mut i: usize = 0;
                while i < members.len()
                    invariant
                        i <= members.len(),
                        self.member(name@) == find_member(members@, name@, i as int),
                    decreases members.len() - i,
                {
                    if same_text(members[i].name.as_str(), name) {
                        return Some(&members[i].value);
                    }
                    i += 1;
                }
                None
            },
            _ => None,
        }
    }

    /// The string that a text value holds.
    pub fn as_str(&self) -> (held: Option<&str>)
        ensures
            match held {
                Some(s) => self.text() == Some(s@),
                None => self.text() is None,
            },
    {
        match self {
            FieldValue::Text(s) => Some(s.as_str()),
            _ => None,
        }
    }

    /// Whether the value is there and unset.
    pub fn is_null(&self) -> (null: bool)
        ensures
            null == (self is Null),
    {
        match self {
            FieldValue::Null => true,
            _ => false,
        }
    }

    /// The text of a member of a member, as in `{outer: {name: "text"}}`.
    pub fn get_nested_str(&self, outer: &str, name: &str) -> (held: Option<&str>)
        ensures
            match held {
                Some(s) => self.nested_text(outer@, name@) == Some(s@),
                None => self.nested_text(outer@, name@) is None,
            },
    {
        match self.get(outer) {
            Some(value) => match value.get(name) {
                Some(inner) => inner.as_str(),
                None => None,
            },
            None => None,
        }
    }
}

} // verus!

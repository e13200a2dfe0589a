//! Abstracts away interaction with the database.

use crate::text::same_text;
use vstd::prelude::*;

pub mod inmem;

verus! {

/// Types of available API databases.
#[derive(Copy, Clone, Debug, PartialEq, Eq, Structural)]
pub enum ApiDatabaseType {
    InMemory,
}

impl ApiDatabaseType {
    /// The name of the database type.
    pub open spec fn name(self) -> Seq<char> {
        match self {
            ApiDatabaseType::InMemory => "in_memory"@,
        }
    }

    /// The database type that goes by `name`, if there is one.
    pub open spec fn of_name(name: Seq<char>) -> Option<ApiDatabaseType> {
        if name == ApiDatabaseType::InMemory.name() {
            Some(ApiDatabaseType::InMemory)
        } else {
            None
        }
    }

    /// Returns a vector with all types.
    pub fn all_types() -> (types: Vec<Self>)
        ensures
            types@ == seq![ApiDatabaseType::InMemory],
    {
        let mut types: Vec<Self> = Vec::new();
        types.push(ApiDatabaseType::InMemory);
        assert(types@ =~= seq![ApiDatabaseType::InMemory]);
        types
    }

    /// The name of the database type as an owned string.
    pub fn to_string(&self) -> (name: String)
        ensures
            name@ == self.name(),
    {
        match self {
            ApiDatabaseType::InMemory => "in_memory".to_owned(),
        }
    }

    /// Finds the database type that goes by the name `s`.
    pub fn from_str(s: &str) -> (r: Result<Self, ()>)
        ensures
            r.ok() == ApiDatabaseType::of_name(s@),
    {
        let types = Self::all_types();
        let mut i: usize = 0;
        while i < types.len()
            invariant
                i <= types.len(),
                types@ == seq![ApiDatabaseType::InMemory],
                forall|j: int| 0 <= j < i ==> types@[j].name() != s@,
            decreases types.len() - i,
        {
            let dbtype = types[i];
            if same_text(dbtype.to_string().as_str(), s) {
                return Ok(dbtype);
            }
            i += 1;
        }
        assert(types@[0].name() != s@);
        Err(())
    }
}

} // verus!

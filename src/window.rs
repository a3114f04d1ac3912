//! Windows: one main table with the tables related to it, and the registry
//! that resolves a table name to its window.

use vstd::prelude::*;

verus! {

/// One table taking part in a window.
#[derive(Clone, Debug, PartialEq, Eq)]
pub struct Tab {
    pub table_name: String,
    pub columns: Vec<String>,
}

/// A table reached from the main table through a many-to-many linker table.
#[derive(Clone, Debug, PartialEq, Eq)]
pub struct IndirectTab {
    pub linker_table: String,
    pub tab: Tab,
}

/// A master-detail view rooted at one main table.
#[derive(Clone, Debug, PartialEq, Eq)]
pub struct Window {
    pub main_tab: Tab,
    pub has_many_tabs: Vec<Tab>,
    pub indirect_tabs: Vec<IndirectTab>,
}

/// The windows known to the gateway.
#[derive(Clone, Debug, PartialEq, Eq)]
pub struct Registry {
    pub windows: Vec<Window>,
}

/// `i` is the first position of `name` in `names`.
pub open spec fn is_first_match(names: Seq<Seq<char>>, name: Seq<char>, i: int) -> bool {
    &&& 0 <= i < names.len()
    &&& names[i] == name
    &&& forall|j: int| 0 <= j < i ==> names[j] != name
}

/// The first position of `name` in `names`, if it occurs there.
pub open spec fn first_match(names: Seq<Seq<char>>, name: Seq<char>) -> Option<int> {
    if exists|i: int| is_first_match(names, name, i) {
        Some(choose|i: int| is_first_match(names, name, i))
    } else {
        None
    }
}

pub open spec fn index_view(r: Option<usize>) -> Option<int> {
    match r {
        Some(i) => Some(i as int),
        None => None,
    }
}

pub proof fn lemma_first_match_at(names: Seq<Seq<char>>, name: Seq<char>, i: int)
    requires
        is_first_match(names, name, i),
    ensures
        first_match(names, name) == Some(i),
{
    let c = choose|c: int| is_first_match(names, name, c);
    assert(is_first_match(names, name, c));
    if c < i {
        assert(names[c] != name);
    } else if c > i {
        assert(names[i] != name);
    }
}

pub proof fn lemma_first_match_exists(names: Seq<Seq<char>>, name: Seq<char>, i: int)
    requires
        0 <= i < names.len(),
        names[i] == name,
    ensures
        first_match(names, name) is Some,
    decreases i,
{
    if exists|j: int| 0 <= j < i && names[j] == name {
        let j = choose|j: int| 0 <= j < i && names[j] == name;
        lemma_first_match_exists(names, name, j);
    } else {
        assert(is_first_match(names, name, i));
    }
}

/// The first match is found exactly where the name occurs.
pub proof fn lemma_first_match_iff(names: Seq<Seq<char>>, name: Seq<char>)
    ensures
        first_match(names, name) is Some <==> names.contains(name),
        first_match(names, name) matches Some(i) ==> 0 <= i < names.len() && names[i] == name,
{
    if names.contains(name) {
        let i = choose|i: int| 0 <= i < names.len() && names[i] == name;
        lemma_first_match_exists(names, name, i);
    }
}

pub proof fn lemma_first_match_none(names: Seq<Seq<char>>, name: Seq<char>)
    requires
        forall|j: int| 0 <= j < names.len() ==> names[j] != name,
    ensures
        first_match(names, name) is None,
{
}

impl Window {
    /// The window's identity: the name of its main table.
    pub open spec fn name(&self) -> Seq<char> {
        self.main_tab.table_name@
    }

    pub open spec fn has_many_names(&self) -> Seq<Seq<char>> {
        Seq::new(self.has_many_tabs@.len(), |i: int| self.has_many_tabs@[i].table_name@)
    }

    /// The names of the indirect tabs' own tables, not of their linkers.
    pub open spec fn indirect_names(&self) -> Seq<Seq<char>> {
        Seq::new(self.indirect_tabs@.len(), |i: int| self.indirect_tabs@[i].tab.table_name@)
    }

    /// The position of the has-many tab whose table is `name`.
    pub fn find_has_many(&self, name: &String) -> (r: Option<usize>)
        ensures
            index_view(r) == first_match(self.has_many_names(), name@),
    {
        let n = self.has_many_tabs.len();
        let mut i: usize = 0;
        while i < n
            invariant
                n == self.has_many_tabs@.len(),
                0 <= i <= n,
                forall|j: int| 0 <= j < i ==> self.has_many_names()[j] != name@,
            decreases n - i,
        {
            if self.has_many_tabs[i].table_name == *name {
                proof {
                    lemma_first_match_at(self.has_many_names(), name@, i as int);
                }
                return Some(i);
            }
            i = i + 1;
        }
        proof {
            lemma_first_match_none(self.has_many_names(), name@);
        }
        None
    }

    /// The position of the indirect tab whose own table is `name`.
    pub fn find_indirect(&self, name: &String) -> (r: Option<usize>)
        ensures
            index_view(r) == first_match(self.indirect_names(), name@),
    {
        let n = self.indirect_tabs.len();
        let mut i: usize = 0;
        while i < n
            invariant
                n == self.indirect_tabs@.len(),
                0 <= i <= n,
                forall|j: int| 0 <= j < i ==> self.indirect_names()[j] != name@,
            decreases n - i,
        {
            if self.indirect_tabs[i].tab.table_name == *name {
                proof {
                    lemma_first_match_at(self.indirect_names(), name@, i as int);
                }
                return Some(i);
            }
            i = i + 1;
        }
        proof {
            lemma_first_match_none(self.indirect_names(), name@);
        }
        None
    }
}

impl Registry {
    pub open spec fn window_names(&self) -> Seq<Seq<char>> {
        Seq::new(self.windows@.len(), |i: int| self.windows@[i].name())
    }

    /// The position of the window whose main table is `name`.
    pub open spec fn window_index(&self, name: Seq<char>) -> Option<int> {
        first_match(self.window_names(), name)
    }

    /// Finds the window whose main table is `name`.
    pub fn find_window(&self, name: &String) -> (r: Option<usize>)
        ensures
            index_view(r) == self.window_index(name@),
    {
        let n = self.windows.len();
        let mut i: usize = 0;
        while i < n
            invariant
                n == self.windows@.len(),
                0 <= i <= n,
                forall|j: int| 0 <= j < i ==> self.window_names()[j] != name@,
            decreases n - i,
        {
            if self.windows[i].main_tab.table_name == *name {
                proof {
                    lemma_first_match_at(self.window_names(), name@, i as int);
                }
                return Some(i);
            }
            i = i + 1;
        }
        proof {
            lemma_first_match_none(self.window_names(), name@);
        }
        None
    }
}

} // verus!

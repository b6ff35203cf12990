//! Contacts: user-chosen labels mapped to peer public keys.
//!
//! The name is the unique key and insertion order carries no meaning, so the
//! book's value is a map from name to key.  Storage of the book is an outside
//! concern; this type only keeps the mapping straight.

use vstd::prelude::*;

verus! {

use crate::codec::str_eq;

/// One contact: a label and the peer public key filed under it.
pub struct Contact {
    pub name: String,
    pub public_key: String,
}

/// Pairwise-distinct contact names.
pub open spec fn unique_names(s: Seq<Contact>) -> bool {
    forall|i: int, j: int| 0 <= i < j < s.len() ==> s[i].name@ != s[j].name@
}

/// The mapping a row of contacts denotes; later rows win, though a
/// well-formed book never holds a name twice.
pub open spec fn entries_map(s: Seq<Contact>) -> Map<Seq<char>, Seq<char>>
    decreases s.len(),
{
    if s.len() == 0 {
        Map::empty()
    } else {
        entries_map(s.drop_last()).insert(s.last().name@, s.last().public_key@)
    }
}

/// The contact table: a name-to-public-key mapping.
pub struct ContactBook {
    contacts: Vec<Contact>,
}

impl View for ContactBook {
    type V = Map<Seq<char>, Seq<char>>;

    closed spec fn view(&self) -> Map<Seq<char>, Seq<char>> {
        entries_map(self.contacts@)
    }
}

/// A name that no row carries is not in the map.
proof fn lemma_entries_absent(s: Seq<Contact>, n: Seq<char>)
    requires
        forall|i: int| 0 <= i < s.len() ==> s[i].name@ != n,
    ensures
        !entries_map(s).contains_key(n),
    decreases s.len(),
{
    if s.len() > 0 {
        lemma_entries_absent(s.drop_last(), n);
    }
}

/// Under unique names, each row's name maps to that row's key.
proof fn lemma_entries_found(s: Seq<Contact>, i: int)
    requires
        unique_names(s),
        0 <= i < s.len(),
    ensures
        entries_map(s).contains_key(s[i].name@),
        entries_map(s)[s[i].name@] == s[i].public_key@,
    decreases s.len(),
{
    if i < s.len() - 1 {
        lemma_entries_found(s.drop_last(), i);
    }
}

/// Removing row `i` removes exactly its name from the map.
proof fn lemma_entries_remove(s: Seq<Contact>, i: int)
    requires
        unique_names(s),
        0 <= i < s.len(),
    ensures
        entries_map(s.remove(i)) == entries_map(s).remove(s[i].name@),
    decreases s.len(),
{
    let n = s[i].name@;
    if i == s.len() - 1 {
        assert(s.remove(i) =~= s.drop_last());
        lemma_entries_absent(s.drop_last(), n);
        assert(entries_map(s.remove(i)) =~= entries_map(s).remove(n));
    } else {
        let dl = s.drop_last();
        assert(s.remove(i).drop_last() =~= dl.remove(i));
        assert(s.remove(i).last() == s.last());
        lemma_entries_remove(dl, i);
        assert(s.last().name@ != n);
        assert(entries_map(s.remove(i)) =~= entries_map(s).remove(n));
    }
}

impl ContactBook {
    /// Well-formed: no name filed twice.
    pub closed spec fn wf(&self) -> bool {
        unique_names(self.contacts@)
    }

    /// An empty book.
    pub fn new() -> (b: ContactBook)
        ensures
            b@ == Map::<Seq<char>, Seq<char>>::empty(),
            b.wf(),
    {
        ContactBook { contacts: Vec::new() }
    }

    fn find(&self, name: &str) -> (r: Option<usize>)
        ensures
            match r {
                Some(i) => i < self.contacts@.len() && self.contacts@[i as int].name@ == name@,
                None => forall|j: int|
                    0 <= j < self.contacts@.len() ==> self.contacts@[j].name@ != name@,
            },
    {
        let mut i: usize = 0;
        while i < self.contacts.len()
            invariant
                i <= self.contacts@.len(),
                forall|j: int| 0 <= j < i ==> self.contacts@[j].name@ != name@,
            decreases self.contacts@.len() - i,
        {
            if str_eq(self.contacts[i].name.as_str(), name) {
                return Some(i);
            }
            i = i + 1;
        }
        None
    }

    /// Whether a name is filed.
    pub fn contains(&self, name: &str) -> (b: bool)
        requires
            self.wf(),
        ensures
            b == self@.contains_key(name@),
    {
        match self.find(name) {
            Some(i) => {
                proof {
                    lemma_entries_found(self.contacts@, i as int);
                }
                true
            },
            None => {
                proof {
                    lemma_entries_absent(self.contacts@, name@);
                }
                false
            },
        }
    }

    /// The public key filed under a name, if any.
    pub fn get(&self, name: &str) -> (r: Option<&String>)
        requires
            self.wf(),
        ensures
            match r {
                Some(k) => self@.contains_key(name@) && self@[name@] == k@,
                None => !self@.contains_key(name@),
            },
    {
        match self.find(name) {
            Some(i) => {
                proof {
                    lemma_entries_found(self.contacts@, i as int);
                }
                Some(&self.contacts[i].public_key)
            },
            None => {
                proof {
                    lemma_entries_absent(self.contacts@, name@);
                }
                None
            },
        }
    }

    /// Unfiles a name; a name never filed is a no-op.
    pub fn remove(&mut self, name: &str)
        requires
            old(self).wf(),
        ensures
            final(self).wf(),
            final(self)@ == old(self)@.remove(name@),
    {
        match self.find(name) {
            Some(i) => {
                proof {
                    lemma_entries_remove(self.contacts@, i as int);
                }
                self.contacts.remove(i);
                proof {
                    assert(final(self).wf());
                }
            },
            None => {
                proof {
                    lemma_entries_absent(self.contacts@, name@);
                    assert(old(self)@.remove(name@) =~= old(self)@);
                }
            },
        }
    }

    /// Files a public key under a name, replacing whatever the name held.
    pub fn insert(&mut self, name: String, public_key: String)
        requires
            old(self).wf(),
        ensures
            final(self).wf(),
            final(self)@ == old(self)@.insert(name@, public_key@),
    {
        self.remove(name.as_str());
        proof {
            assert forall|j: int|
                0 <= j < self.contacts@.len() implies self.contacts@[j].name@ != name@ by {
                if self.contacts@[j].name@ == name@ {
                    lemma_entries_found(self.contacts@, j);
                }
            }
        }
        let ghost before = self.contacts@;
        self.contacts.push(Contact { name, public_key });
        proof {
            assert(self.contacts@.drop_last() =~= before);
            assert(final(self)@ =~= old(self)@.insert(
                self.contacts@.last().name@,
                self.contacts@.last().public_key@,
            ));
        }
    }

    /// How many contacts are filed.
    pub fn len(&self) -> (n: usize)
        requires
            self.wf(),
        ensures
            n == self@.dom().len(),
    {
        proof {
            lemma_entries_len(self.contacts@);
        }
        self.contacts.len()
    }
}

/// Under unique names, the map holds exactly one entry per row.
proof fn lemma_entries_len(s: Seq<Contact>)
    requires
        unique_names(s),
    ensures
        entries_map(s).dom().finite(),
        entries_map(s).dom().len() == s.len(),
    decreases s.len(),
{
    if s.len() > 0 {
        lemma_entries_len(s.drop_last());
        lemma_entries_absent(s.drop_last(), s.last().name@);
        assert(entries_map(s).dom() =~= entries_map(s.drop_last()).dom().insert(s.last().name@));
    }
}

} // verus!

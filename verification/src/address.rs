//! Principals, and the record of which of them stand behind an invocation.

use vstd::prelude::*;

verus! {

/// A principal: a caller or an asset, named by the text of its key.
///
/// The ledger never looks inside the text; two addresses are the same
/// principal exactly when their texts are equal.
#[derive(Debug)]
pub struct Address {
    key: String,
}

impl View for Address {
    type V = Seq<char>;

    closed spec fn view(&self) -> Seq<char> {
        self.key@
    }
}

impl Address {
    /// The address named by `key`.
    pub fn new(key: String) -> (address: Address)
        ensures
            address@ == key@,
    {
        Address { key }
    }

    /// The text that names this address.
    pub fn as_str(&self) -> (key: &str)
        ensures
            key@ == self@,
    {
        self.key.as_str()
    }

    /// Whether both name the same principal.
    pub fn same_as(&self, other: &Address) -> (same: bool)
        ensures
            same == (self@ == other@),
    {
        self.key == other.key
    }
}

impl Clone for Address {
    fn clone(&self) -> (copy: Address)
        ensures
            copy@ == self@,
    {
        Address { key: self.key.clone() }
    }
}

impl PartialEq for Address {
    fn eq(&self, other: &Address) -> (same: bool) {
        self.key == other.key
    }
}

impl vstd::std_specs::cmp::PartialEqSpecImpl for Address {
    open spec fn obeys_eq_spec() -> bool {
        true
    }

    open spec fn eq_spec(&self, other: &Address) -> bool {
        self@ == other@
    }
}

/// The principals that have authorized the current invocation.
pub struct Authorizations {
    approved: Vec<Address>,
}

impl Authorizations {
    /// Whether `who` is among the principals recorded here.
    pub closed spec fn allows(&self, who: Seq<char>) -> bool {
        exists|i: int| 0 <= i < self.approved@.len() && #[trigger] self.approved@[i]@ == who
    }

    /// The set of principals recorded here.
    pub open spec fn principals(&self) -> Set<Seq<char>> {
        Set::new(|who: Seq<char>| self.allows(who))
    }

    /// An invocation that nobody has authorized.
    pub fn none() -> (auth: Authorizations)
        ensures
            forall|who: Seq<char>| !auth.allows(who),
    {
        Authorizations { approved: Vec::new() }
    }

    /// Records that `who` has authorized the invocation.
    pub fn approve(&mut self, who: Address)
        ensures
            forall|other: Seq<char>|
                final(self).allows(other) == (other == who@ || old(self).allows(other)),
    {
        let ghost before = self.approved@;
        self.approved.push(who);
        proof {
            assert forall|other: Seq<char>|
                self.allows(other) == (other == who@ || old(self).allows(other)) by {
                if old(self).allows(other) {
                    let i = choose|i: int| 0 <= i < before.len() && #[trigger] before[i]@ == other;
                    assert(self.approved@[i]@ == other);
                }
                if other == who@ {
                    assert(self.approved@[before.len() as int]@ == other);
                }
            }
        }
    }

    /// Whether `who` has authorized the invocation.
    pub fn is_authorized(&self, who: &Address) -> (allowed: bool)
        ensures
            allowed == self.allows(who@),
    {
        let mut i: usize = 0;
        while i < self.approved.len()
            invariant
                i <= self.approved@.len(),
                forall|j: int| 0 <= j < i ==> self.approved@[j]@ != who@,
            decreases self.approved@.len() - i,
        {
            if self.approved[i].same_as(who) {
                return true;
            }
            i += 1;
        }
        false
    }
}

} // verus!

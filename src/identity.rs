//! Sender identities of an account.
use crate::collection::SyncCollection;
use crate::fact::{facts_of, Fact, IndexValue, IndexableAndSerializableObject, IndexableObject};
use vstd::prelude::*;

verus! {

/// A sender identity: a name and an address that the account may send as.
pub struct Identity {
    pub name: String,
    pub email: String,
}

/// The archived form of an [`Identity`].
pub struct ArchivedIdentity<'a> {
    pub name: &'a str,
    pub email: &'a str,
}

pub struct IdentityView {
    pub name: Seq<char>,
    pub email: Seq<char>,
}

impl IdentityView {
    /// An identity yields one item-level change-log record and nothing else.
    pub open spec fn facts(self) -> Seq<Fact> {
        seq![Fact::LogItem(SyncCollection::Identity, None)]
    }
}

impl View for Identity {
    type V = IdentityView;

    open spec fn view(&self) -> IdentityView {
        IdentityView { name: self.name@, email: self.email@ }
    }
}

impl<'a> View for ArchivedIdentity<'a> {
    type V = IdentityView;

    open spec fn view(&self) -> IdentityView {
        IdentityView { name: self.name@, email: self.email@ }
    }
}

fn identity_facts() -> (r: Vec<IndexValue>)
    ensures
        facts_of(r@) == seq![Fact::LogItem(SyncCollection::Identity, None)],
{
    let mut r: Vec<IndexValue> = Vec::new();
    r.push(IndexValue::LogItem { sync_collection: SyncCollection::Identity, prefix: None });
    proof {
        assert(facts_of(r@) =~= seq![Fact::LogItem(SyncCollection::Identity, None)]);
    }
    r
}

impl Identity {
    pub fn archive(&self) -> (r: ArchivedIdentity<'_>)
        ensures
            r@ == self@,
    {
        ArchivedIdentity { name: self.name.as_str(), email: self.email.as_str() }
    }
}

impl IndexableObject for Identity {
    open spec fn spec_index_values(&self) -> Seq<Fact> {
        self@.facts()
    }

    fn index_values(&self) -> (r: Vec<IndexValue>) {
        identity_facts()
    }
}

impl<'a> IndexableObject for ArchivedIdentity<'a> {
    open spec fn spec_index_values(&self) -> Seq<Fact> {
        self@.facts()
    }

    fn index_values(&self) -> (r: Vec<IndexValue>) {
        identity_facts()
    }
}

impl IndexableAndSerializableObject for Identity {
    open spec fn spec_is_versioned() -> bool {
        false
    }

    fn is_versioned() -> (r: bool) {
        false
    }
}

} // verus!

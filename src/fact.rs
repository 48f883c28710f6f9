//! Index facts: what an entity contributes to the storage indexes.
use crate::collection::SyncCollection;
use vstd::prelude::*;

verus! {

/// A grant of rights on a container to one principal.
#[derive(Clone, Copy, Debug, PartialEq, Eq, Structural)]
pub struct AclGrant {
    pub account_id: u32,
    /// The granted rights, one bit per right.
    pub grants: u64,
}

/// The value of a secondary-index entry.
#[derive(Clone, Debug, PartialEq, Eq)]
pub enum IndexKey {
    Absent,
    Text(String),
    Integer(i64),
}

/// The mathematical value of an [`IndexKey`].
pub enum KeyView {
    Absent,
    Text(Seq<char>),
    Integer(i64),
}

impl View for IndexKey {
    type V = KeyView;

    open spec fn view(&self) -> KeyView {
        match self {
            IndexKey::Absent => KeyView::Absent,
            IndexKey::Text(s) => KeyView::Text(s@),
            IndexKey::Integer(n) => KeyView::Integer(*n),
        }
    }
}

/// One index fact. A fact holds no account or document id: the caller that
/// applies it supplies them.
#[derive(Clone, Debug, PartialEq, Eq)]
pub enum IndexValue {
    /// Who may access the container, and how.
    Acl { value: Vec<AclGrant> },
    /// Bytes that the entity adds to its account's quota.
    Quota { used: u32 },
    /// A secondary-index entry for lookups by field.
    Index { field: u8, value: IndexKey },
    /// A change-log record at item granularity.
    LogItem { sync_collection: SyncCollection, prefix: Option<u32> },
    /// A change-log record at container granularity.
    LogContainer { sync_collection: SyncCollection },
}

/// The mathematical value of an [`IndexValue`].
pub enum Fact {
    Acl(Seq<AclGrant>),
    Quota(u32),
    Index(u8, KeyView),
    LogItem(SyncCollection, Option<u32>),
    LogContainer(SyncCollection),
}

impl View for IndexValue {
    type V = Fact;

    open spec fn view(&self) -> Fact {
        match self {
            IndexValue::Acl { value } => Fact::Acl(value@),
            IndexValue::Quota { used } => Fact::Quota(*used),
            IndexValue::Index { field, value } => Fact::Index(*field, value@),
            IndexValue::LogItem { sync_collection, prefix } => Fact::LogItem(*sync_collection, *prefix),
            IndexValue::LogContainer { sync_collection } => Fact::LogContainer(*sync_collection),
        }
    }
}

/// The facts that a list of index values stands for, in order.
pub open spec fn facts_of(v: Seq<IndexValue>) -> Seq<Fact> {
    v.map_values(|f: IndexValue| f@)
}

/// Copies a grant list into a vector of its own.
pub fn copy_grants(grants: &[AclGrant]) -> (r: Vec<AclGrant>)
    ensures
        r@ == grants@,
{
    let mut r: Vec<AclGrant> = Vec::new();
    let mut i: usize = 0;
    while i < grants.len()
        invariant
            i <= grants@.len(),
            r@ == grants@.subrange(0, i as int),
        decreases grants@.len() - i,
    {
        r.push(grants[i]);
        i = i + 1;
        proof {
            assert(r@ =~= grants@.subrange(0, i as int));
        }
    }
    proof {
        assert(r@ =~= grants@);
    }
    r
}

/// The list of three facts `[a, b, c]`.
pub fn three_facts(a: IndexValue, b: IndexValue, c: IndexValue) -> (r: Vec<IndexValue>)
    ensures
        facts_of(r@) == seq![a@, b@, c@],
{
    let mut r: Vec<IndexValue> = Vec::new();
    r.push(a);
    r.push(b);
    r.push(c);
    proof {
        assert(facts_of(r@) =~= seq![a@, b@, c@]);
    }
    r
}

} // verus!

verus! {

/// An entity that yields index facts. The facts are a function of the
/// entity's logical content alone.
pub trait IndexableObject {
    /// The facts that the entity yields, in the order `index_values` lists them.
    spec fn spec_index_values(&self) -> Seq<Fact>;

    fn index_values(&self) -> (r: Vec<IndexValue>)
        ensures
            facts_of(r@) == self.spec_index_values(),
    ;
}

/// An entity type that the write pipeline stores, with a flag that says
/// whether updates to it are tracked by version.
pub trait IndexableAndSerializableObject: IndexableObject {
    /// Whether the type is versioned: a property of the type, not of a value.
    spec fn spec_is_versioned() -> bool;

    fn is_versioned() -> (r: bool)
        ensures
            r == Self::spec_is_versioned(),
    ;
}

} // verus!

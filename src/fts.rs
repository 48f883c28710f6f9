//! The full-text store: documents scoped to an account and a collection,
//! queried by field, removed by id or by account.
use crate::bitmap::bitmap_members;
use crate::collection::Collection;
use crate::error::{caused_by, Error};
use roaring::RoaringBitmap;
use vstd::prelude::*;

verus! {

/// One tokenised field of a document: the field's tag and a token.
pub struct FtsField {
    pub field: u8,
    pub text: String,
}

/// A filter: the document's field `field` holds the token `text`.
pub struct FtsFilter {
    pub field: u8,
    pub text: String,
}

/// A document to index, scoped to one account and one collection.
pub struct FtsDocument {
    pub account_id: u32,
    pub collection: Collection,
    pub document_id: u32,
    pub fields: Vec<FtsField>,
}

/// The address of a document: account, collection, document id.
pub type DocKey = (u32, Collection, u32);

/// The mathematical value of a field or a filter: tag and token.
pub type Token = (u8, Seq<char>);

/// The content of a store: the fields of each indexed document, by address.
pub type FtsIndexView = Map<DocKey, Seq<Token>>;

pub open spec fn field_views(s: Seq<FtsField>) -> Seq<Token> {
    s.map_values(|f: FtsField| (f.field, f.text@))
}

pub open spec fn filter_views(s: Seq<FtsFilter>) -> Seq<Token> {
    s.map_values(|f: FtsFilter| (f.field, f.text@))
}

pub open spec fn key_of(d: FtsDocument) -> DocKey {
    (d.account_id, d.collection, d.document_id)
}

/// A document's fields match a filter list when the list is not empty and
/// every filter's token stands in the document's field of that tag.
pub open spec fn matches(fields: Seq<Token>, filters: Seq<Token>) -> bool {
    filters.len() > 0 && forall|j: int| 0 <= j < filters.len() ==> fields.contains(#[trigger] filters[j])
}

/// The ids of the documents of one account and collection that match.
pub open spec fn query_set(m: FtsIndexView, account_id: u32, collection: Collection, filters: Seq<Token>) -> Set<u32> {
    Set::new(
        |d: u32| m.contains_key((account_id, collection, d)) && matches(m[(account_id, collection, d)], filters),
    )
}

/// The store without the given documents of one account and collection.
pub open spec fn without_docs(m: FtsIndexView, account_id: u32, collection: Collection, ids: Set<u32>) -> FtsIndexView {
    Map::new(
        |k: DocKey| m.contains_key(k) && !(k.0 == account_id && k.1 == collection && ids.contains(k.2)),
        |k: DocKey| m[k],
    )
}

/// The store without any document of the account.
pub open spec fn without_account(m: FtsIndexView, account_id: u32) -> FtsIndexView {
    Map::new(|k: DocKey| m.contains_key(k) && k.0 != account_id, |k: DocKey| m[k])
}

/// The store with the document indexed, in place of any earlier document at
/// the same address.
pub open spec fn with_doc(m: FtsIndexView, d: FtsDocument) -> FtsIndexView {
    m.insert(key_of(d), field_views(d.fields@))
}

/// No two documents of the list share an address.
pub open spec fn keys_unique(s: Seq<FtsDocument>) -> bool {
    forall|i: int, j: int| 0 <= i < j < s.len() ==> key_of(#[trigger] s[i]) != key_of(#[trigger] s[j])
}

pub open spec fn has_key(s: Seq<FtsDocument>, k: DocKey) -> bool {
    exists|i: int| 0 <= i < s.len() && key_of(#[trigger] s[i]) == k
}

/// The content that a list of documents with distinct addresses stands for.
pub open spec fn doc_map(s: Seq<FtsDocument>) -> FtsIndexView {
    Map::new(
        |k: DocKey| has_key(s, k),
        |k: DocKey| field_views(s[choose|i: int| 0 <= i < s.len() && key_of(#[trigger] s[i]) == k].fields@),
    )
}

proof fn lemma_lookup(s: Seq<FtsDocument>, i: int)
    requires
        keys_unique(s),
        0 <= i < s.len(),
    ensures
        doc_map(s).contains_key(key_of(s[i])),
        doc_map(s)[key_of(s[i])] == field_views(s[i].fields@),
{
    let k = key_of(s[i]);
    assert(has_key(s, k));
    let j = choose|j: int| 0 <= j < s.len() && key_of(#[trigger] s[j]) == k;
    assert(j == i) by {
        if j < i {
            assert(key_of(s[j]) != key_of(s[i]));
        } else if i < j {
            assert(key_of(s[i]) != key_of(s[j]));
        }
    }
}

proof fn lemma_push(s: Seq<FtsDocument>, e: FtsDocument)
    requires
        keys_unique(s),
        !has_key(s, key_of(e)),
    ensures
        keys_unique(s.push(e)),
        doc_map(s.push(e)) =~= doc_map(s).insert(key_of(e), field_views(e.fields@)),
{
    let t = s.push(e);
    assert forall|i: int, j: int| 0 <= i < j < t.len() implies key_of(#[trigger] t[i]) != key_of(#[trigger] t[j]) by {
        if j == s.len() {
            assert(t[i] == s[i]);
        } else {
            assert(t[i] == s[i] && t[j] == s[j]);
        }
    }
    assert forall|k: DocKey| #[trigger] has_key(t, k) == (has_key(s, k) || k == key_of(e)) by {
        if has_key(s, k) {
            let i = choose|i: int| 0 <= i < s.len() && key_of(#[trigger] s[i]) == k;
            assert(t[i] == s[i]);
        }
        if k == key_of(e) {
            assert(t[s.len() as int] == e);
        }
        if has_key(t, k) {
            let i = choose|i: int| 0 <= i < t.len() && key_of(#[trigger] t[i]) == k;
            if i < s.len() {
                assert(t[i] == s[i]);
            }
        }
    }
    assert forall|k: DocKey| #[trigger] doc_map(t).contains_key(k) implies doc_map(t)[k] == doc_map(s).insert(
        key_of(e),
        field_views(e.fields@),
    )[k] by {
        let i = choose|i: int| 0 <= i < t.len() && key_of(#[trigger] t[i]) == k;
        lemma_lookup(t, i);
        if i < s.len() {
            assert(t[i] == s[i]);
            lemma_lookup(s, i);
        }
    }
}

impl FtsField {
    pub fn copy(&self) -> (r: FtsField)
        ensures
            r.field == self.field,
            r.text@ == self.text@,
    {
        FtsField { field: self.field, text: self.text.clone() }
    }
}

impl FtsDocument {
    /// A copy of the document, with the same address and fields.
    pub fn copy(&self) -> (r: FtsDocument)
        ensures
            key_of(r) == key_of(*self),
            field_views(r.fields@) == field_views(self.fields@),
    {
        let mut fields: Vec<FtsField> = Vec::new();
        let mut i: usize = 0;
        while i < self.fields.len()
            invariant
                i <= self.fields@.len(),
                fields@.len() == i,
                forall|j: int|
                    0 <= j < i ==> (#[trigger] fields@[j]).field == self.fields@[j].field && fields@[j].text@
                        == self.fields@[j].text@,
            decreases self.fields@.len() - i,
        {
            fields.push(self.fields[i].copy());
            i = i + 1;
        }
        let r = FtsDocument {
            account_id: self.account_id,
            collection: self.collection,
            document_id: self.document_id,
            fields,
        };
        proof {
            assert(field_views(r.fields@) =~= field_views(self.fields@));
        }
        r
    }
}

/// Whether the document at `k` goes when removing from `account_id` either
/// everything or the documents `ids` of `collection`.
pub open spec fn removed(k: DocKey, account_id: u32, whole_account: bool, collection: Collection, ids: Set<u32>) -> bool {
    k.0 == account_id && (whole_account || (k.1 == collection && ids.contains(k.2)))
}

/// Copies the documents that stay when removing from `account_id` either
/// everything (`whole_account`) or the documents `ids` of `collection`.
fn retain_docs(
    docs: &Vec<FtsDocument>,
    account_id: u32,
    whole_account: bool,
    collection: Collection,
    ids: &RoaringBitmap,
) -> (r: Vec<FtsDocument>)
    requires
        keys_unique(docs@),
    ensures
        keys_unique(r@),
        doc_map(r@) == Map::new(
            |k: DocKey|
                doc_map(docs@).contains_key(k) && !removed(k, account_id, whole_account, collection, bitmap_members(*ids)),
            |k: DocKey| doc_map(docs@)[k],
        ),
{
    let ghost s = docs@;
    let ghost gone = |k: DocKey| removed(k, account_id, whole_account, collection, bitmap_members(*ids));
    let mut out: Vec<FtsDocument> = Vec::new();
    let mut i: usize = 0;
    proof {
        assert(doc_map(out@) =~= Map::new(
            |k: DocKey| doc_map(s.take(0)).contains_key(k) && !gone(k),
            |k: DocKey| doc_map(s.take(0))[k],
        ));
    }
    while i < docs.len()
        invariant
            s == docs@,
            keys_unique(s),
            i <= s.len(),
            gone == (|k: DocKey| removed(k, account_id, whole_account, collection, bitmap_members(*ids))),
            keys_unique(out@),
            doc_map(out@) == Map::new(
                |k: DocKey| doc_map(s.take(i as int)).contains_key(k) && !gone(k),
                |k: DocKey| doc_map(s.take(i as int))[k],
            ),
        decreases s.len() - i,
    {
        let d = &docs[i];
        let ghost pre = s.take(i as int);
        let ghost k = key_of(s[i as int]);
        proof {
            assert(s.take(i + 1) =~= pre.push(s[i as int]));
            assert(keys_unique(pre));
            assert(!has_key(pre, k)) by {
                if has_key(pre, k) {
                    let j = choose|j: int| 0 <= j < pre.len() && key_of(#[trigger] pre[j]) == k;
                    assert(pre[j] == s[j]);
                }
            }
            lemma_push(pre, s[i as int]);
        }
        let go = d.account_id == account_id && (whole_account || (d.collection == collection
            && ids.contains(d.document_id)));
        if !go {
            let ghost before = out@;
            proof {
                assert(!has_key(before, k)) by {
                    if has_key(before, k) {
                        let j = choose|j: int| 0 <= j < before.len() && key_of(#[trigger] before[j]) == k;
                        lemma_lookup(before, j);
                    }
                }
                lemma_push(before, *d);
            }
            out.push(d.copy());
            proof {
                assert(out@ =~= before.push(out@.last()));
                lemma_push(before, out@.last());
            }
        }
        i = i + 1;
        proof {
            assert(doc_map(out@) =~= Map::new(
                |k: DocKey| doc_map(s.take(i as int)).contains_key(k) && !gone(k),
                |k: DocKey| doc_map(s.take(i as int))[k],
            ));
        }
    }
    proof {
        assert(s.take(i as int) =~= s);
    }
    out
}

/// Whether `fields` holds the token of `filter`.
fn has_token(fields: &Vec<FtsField>, filter: &FtsFilter) -> (r: bool)
    ensures
        r == field_views(fields@).contains((filter.field, filter.text@)),
{
    let ghost fv = field_views(fields@);
    let mut i: usize = 0;
    while i < fields.len()
        invariant
            fv == field_views(fields@),
            i <= fields@.len(),
            forall|j: int| 0 <= j < i ==> fv[j] != (filter.field, filter.text@),
        decreases fields@.len() - i,
    {
        if fields[i].field == filter.field && fields[i].text == filter.text {
            assert(fv[i as int] == (filter.field, filter.text@));
            return true;
        }
        i = i + 1;
    }
    false
}

/// Whether `fields` match `filters`.
fn fields_match(fields: &Vec<FtsField>, filters: &Vec<FtsFilter>) -> (r: bool)
    ensures
        r == matches(field_views(fields@), filter_views(filters@)),
{
    let ghost ff = filter_views(filters@);
    if filters.len() == 0 {
        return false;
    }
    let mut j: usize = 0;
    while j < filters.len()
        invariant
            ff == filter_views(filters@),
            j <= filters@.len(),
            forall|k: int| 0 <= k < j ==> field_views(fields@).contains(#[trigger] ff[k]),
        decreases filters@.len() - j,
    {
        if !has_token(fields, &filters[j]) {
            assert(!field_views(fields@).contains(ff[j as int]));
            return false;
        }
        j = j + 1;
    }
    true
}

/// The embedded full-text engine: an index of documents held in memory.
pub struct MemoryFtsIndex {
    docs: Vec<FtsDocument>,
}

impl MemoryFtsIndex {
    /// The store is well formed: no two documents share an address.
    pub closed spec fn wf(&self) -> bool {
        keys_unique(self.docs@)
    }

    /// The fields of each indexed document, by address.
    pub closed spec fn spec_view(&self) -> FtsIndexView {
        doc_map(self.docs@)
    }

    /// An empty store.
    pub fn new() -> (r: MemoryFtsIndex)
        ensures
            r.wf(),
            r.spec_view() == Map::<DocKey, Seq<Token>>::empty(),
    {
        let r = MemoryFtsIndex { docs: Vec::new() };
        assert(r.spec_view() =~= Map::<DocKey, Seq<Token>>::empty());
        r
    }

    /// Indexes a document, in place of any earlier one at its address.
    pub fn fts_index(&mut self, document: FtsDocument) -> (r: Result<(), Error>)
        requires
            old(self).wf(),
        ensures
            final(self).wf(),
            r is Ok,
            final(self).spec_view() == with_doc(old(self).spec_view(), document),
    {
        let mut ids = RoaringBitmap::new();
        ids.insert(document.document_id);
        let mut docs = retain_docs(&self.docs, document.account_id, false, document.collection, &ids);
        let ghost before = docs@;
        let ghost k = key_of(document);
        proof {
            assert(!has_key(before, k)) by {
                if has_key(before, k) {
                    let j = choose|j: int| 0 <= j < before.len() && key_of(#[trigger] before[j]) == k;
                    lemma_lookup(before, j);
                }
            }
            lemma_push(before, document);
        }
        docs.push(document);
        self.docs = docs;
        proof {
            assert(self.spec_view() =~= with_doc(old(self).spec_view(), document));
        }
        Ok(())
    }

    /// The ids of the documents of one account and collection that match
    /// every filter; none for an empty filter list.
    pub fn fts_query(&self, account_id: u32, collection: Collection, filters: &Vec<FtsFilter>) -> (r: Result<
        RoaringBitmap,
        Error,
    >)
        requires
            self.wf(),
        ensures
            r is Ok,
            r matches Ok(b) && bitmap_members(b) == query_set(self.spec_view(), account_id, collection, filter_views(filters@)),
    {
        let ghost s = self.docs@;
        let ghost fv = filter_views(filters@);
        let mut b = RoaringBitmap::new();
        let mut i: usize = 0;
        proof {
            assert(bitmap_members(b) =~= Set::new(
                |d: u32| exists|j: int| 0 <= j < 0 && key_of(#[trigger] s[j]) == (account_id, collection, d) && matches(field_views(s[j].fields@), fv),
            ));
        }
        while i < self.docs.len()
            invariant
                s == self.docs@,
                fv == filter_views(filters@),
                i <= s.len(),
                bitmap_members(b) == Set::new(
                    |d: u32| exists|j: int| 0 <= j < i && key_of(#[trigger] s[j]) == (account_id, collection, d) && matches(field_views(s[j].fields@), fv),
                ),
            decreases s.len() - i,
        {
            let d = &self.docs[i];
            let ghost before = bitmap_members(b);
            if d.account_id == account_id && d.collection == collection && fields_match(&d.fields, filters) {
                b.insert(d.document_id);
            }
            i = i + 1;
            proof {
                assert(bitmap_members(b) =~= Set::new(
                    |d: u32| exists|j: int| 0 <= j < i && key_of(#[trigger] s[j]) == (account_id, collection, d) && matches(field_views(s[j].fields@), fv),
                )) by {
                    assert forall|x: u32| #[trigger] bitmap_members(b).contains(x) implies exists|j: int| 0 <= j < i && key_of(#[trigger] s[j]) == (account_id, collection, x) && matches(field_views(s[j].fields@), fv) by {
                        if !before.contains(x) {
                            assert(key_of(s[i - 1]) == (account_id, collection, x));
                        }
                    }
                }
            }
        }
        proof {
            let m = doc_map(s);
            assert forall|x: u32| #[trigger] bitmap_members(b).contains(x) == query_set(m, account_id, collection, fv).contains(x) by {
                let k = (account_id, collection, x);
                if bitmap_members(b).contains(x) {
                    let j = choose|j: int| 0 <= j < i && key_of(#[trigger] s[j]) == k && matches(field_views(s[j].fields@), fv);
                    lemma_lookup(s, j);
                }
                if query_set(m, account_id, collection, fv).contains(x) {
                    let j = choose|j: int| 0 <= j < s.len() && key_of(#[trigger] s[j]) == k;
                    lemma_lookup(s, j);
                }
            }
            assert(bitmap_members(b) =~= query_set(m, account_id, collection, fv));
        }
        Ok(b)
    }

    /// Removes the given documents of one account and collection; ids that
    /// were never indexed are passed over.
    pub fn fts_remove(&mut self, account_id: u32, collection: Collection, document_ids: &RoaringBitmap) -> (r: Result<
        (),
        Error,
    >)
        requires
            old(self).wf(),
        ensures
            final(self).wf(),
            r is Ok,
            final(self).spec_view() == without_docs(old(self).spec_view(), account_id, collection, bitmap_members(*document_ids)),
    {
        self.docs = retain_docs(&self.docs, account_id, false, collection, document_ids);
        proof {
            assert(self.spec_view() =~= without_docs(old(self).spec_view(), account_id, collection, bitmap_members(*document_ids)));
        }
        Ok(())
    }

    /// Removes every document of the account, in every collection.
    pub fn fts_remove_all(&mut self, account_id: u32) -> (r: Result<(), Error>)
        requires
            old(self).wf(),
        ensures
            final(self).wf(),
            r is Ok,
            final(self).spec_view() == without_account(old(self).spec_view(), account_id),
    {
        let none = RoaringBitmap::new();
        self.docs = retain_docs(&self.docs, account_id, true, Collection::Email, &none);
        proof {
            assert(self.spec_view() =~= without_account(old(self).spec_view(), account_id));
        }
        Ok(())
    }
}

/// The full-text store of a deployment. The backend is chosen once, when the
/// store is built; every call goes through the same four entry points, and
/// each error they return carries the entry point it passed through.
pub enum FtsStore {
    /// The engine embedded with the primary store.
    Store(MemoryFtsIndex),
}

impl FtsStore {
    pub open spec fn wf(&self) -> bool {
        match self {
            FtsStore::Store(s) => s.wf(),
        }
    }

    /// The fields of each indexed document, by address.
    pub open spec fn spec_view(&self) -> FtsIndexView {
        match self {
            FtsStore::Store(s) => s.spec_view(),
        }
    }

    /// A store backed by the embedded engine, with nothing indexed.
    pub fn embedded() -> (r: FtsStore)
        ensures
            r.wf(),
            r.spec_view() == Map::<DocKey, Seq<Token>>::empty(),
    {
        FtsStore::Store(MemoryFtsIndex::new())
    }

    /// Indexes a document, in place of any earlier one at its address.
    pub fn index(&mut self, document: FtsDocument) -> (r: Result<(), Error>)
        requires
            old(self).wf(),
        ensures
            final(self).wf(),
            r is Ok,
            final(self).spec_view() == with_doc(old(self).spec_view(), document),
    {
        let r = match self {
            FtsStore::Store(store) => store.fts_index(document),
        };
        caused_by(r, "FtsStore::index")
    }

    /// The ids of the documents of one account and collection that match
    /// every filter; none for an empty filter list.
    pub fn query(&self, account_id: u32, collection: Collection, filters: Vec<FtsFilter>) -> (r: Result<
        RoaringBitmap,
        Error,
    >)
        requires
            self.wf(),
        ensures
            r is Ok,
            r matches Ok(b) && bitmap_members(b) == query_set(self.spec_view(), account_id, collection, filter_views(filters@)),
    {
        let r = match self {
            FtsStore::Store(store) => store.fts_query(account_id, collection, &filters),
        };
        caused_by(r, "FtsStore::query")
    }

    /// Removes the given documents of one account and collection; ids that
    /// were never indexed are passed over.
    pub fn remove(&mut self, account_id: u32, collection: Collection, document_ids: &RoaringBitmap) -> (r: Result<
        (),
        Error,
    >)
        requires
            old(self).wf(),
        ensures
            final(self).wf(),
            r is Ok,
            final(self).spec_view() == without_docs(old(self).spec_view(), account_id, collection, bitmap_members(*document_ids)),
    {
        let r = match self {
            FtsStore::Store(store) => store.fts_remove(account_id, collection, document_ids),
        };
        caused_by(r, "FtsStore::remove")
    }

    /// Removes every document of the account, in every collection.
    pub fn remove_all(&mut self, account_id: u32) -> (r: Result<(), Error>)
        requires
            old(self).wf(),
        ensures
            final(self).wf(),
            r is Ok,
            final(self).spec_view() == without_account(old(self).spec_view(), account_id),
    {
        let r = match self {
            FtsStore::Store(store) => store.fts_remove_all(account_id),
        };
        caused_by(r, "FtsStore::remove_all")
    }
}

/// After every document of an account is removed, no query on that account
/// finds anything, in any collection and with any filters.
pub proof fn lemma_remove_all_then_query_empty(m: FtsIndexView, account_id: u32, collection: Collection, filters: Seq<Token>)
    ensures
        query_set(without_account(m, account_id), account_id, collection, filters) == Set::<u32>::empty(),
{
    assert(query_set(without_account(m, account_id), account_id, collection, filters) =~= Set::<u32>::empty());
}

/// A document that was just indexed is found by a query whose filters its
/// fields match; once removed by id, the same query no longer finds it.
pub proof fn lemma_index_query_remove(m: FtsIndexView, d: FtsDocument, filters: Seq<Token>, ids: Set<u32>)
    requires
        matches(field_views(d.fields@), filters),
        ids.contains(d.document_id),
    ensures
        query_set(with_doc(m, d), d.account_id, d.collection, filters).contains(d.document_id),
        !query_set(
            without_docs(with_doc(m, d), d.account_id, d.collection, ids),
            d.account_id,
            d.collection,
            filters,
        ).contains(d.document_id),
{
    assert(with_doc(m, d).contains_key(key_of(d)));
}

/// Removing the same ids twice leaves the store as removing them once.
pub proof fn lemma_remove_idempotent(m: FtsIndexView, account_id: u32, collection: Collection, ids: Set<u32>)
    ensures
        without_docs(without_docs(m, account_id, collection, ids), account_id, collection, ids) == without_docs(
            m,
            account_id,
            collection,
            ids,
        ),
{
    assert(without_docs(without_docs(m, account_id, collection, ids), account_id, collection, ids) =~= without_docs(
        m,
        account_id,
        collection,
        ids,
    ));
}

/// An account whose documents were all removed takes new documents again:
/// one indexed afterwards is found by a query that its fields match.
pub proof fn lemma_reindex_after_remove_all(m: FtsIndexView, d: FtsDocument, filters: Seq<Token>)
    requires
        matches(field_views(d.fields@), filters),
    ensures
        query_set(with_doc(without_account(m, d.account_id), d), d.account_id, d.collection, filters).contains(
            d.document_id,
        ),
{
    assert(with_doc(without_account(m, d.account_id), d).contains_key(key_of(d)));
}

} // verus!

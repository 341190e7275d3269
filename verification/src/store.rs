//! Keyed store of chat sessions with a recency index.
//!
//! Sessions are stored by `session_id`; next to the primary records the
//! store keeps a secondary index ordered by `updated_at_ms`, newest first,
//! ties broken by write order, so that "most recently updated" navigation
//! never has to read session bodies. A store restored from records written
//! by a schema that predates the index has no index yet; `open` builds it,
//! is safe to call any number of times, and never touches the records.

use vstd::prelude::*;

use crate::types::{clone_opt_string, msg_views, opt_view, Message, MessageView};

verus! {

/// Version of the store schema this code writes.
pub const SCHEMA_VERSION: u32 = 1;

/// One persisted chat session.
pub struct ChatSession {
    pub session_id: String,
    pub messages: Vec<Message>,
    pub name: Option<String>,
    pub prompt_name: Option<String>,
    pub created_at_ms: u64,
    pub updated_at_ms: u64,
}

/// Mathematical view of a `ChatSession`.
pub struct ChatSessionView {
    pub session_id: Seq<char>,
    pub messages: Seq<MessageView>,
    pub name: Option<Seq<char>>,
    pub prompt_name: Option<Seq<char>>,
    pub created_at_ms: u64,
    pub updated_at_ms: u64,
}

impl View for ChatSession {
    type V = ChatSessionView;

    open spec fn view(&self) -> ChatSessionView {
        ChatSessionView {
            session_id: self.session_id@,
            messages: msg_views(self.messages@),
            name: opt_view(self.name),
            prompt_name: opt_view(self.prompt_name),
            created_at_ms: self.created_at_ms,
            updated_at_ms: self.updated_at_ms,
        }
    }
}

impl ChatSession {
    /// A session's timestamps are ordered: it cannot have been updated
    /// before it was created.
    pub open spec fn wf(self) -> bool {
        self.created_at_ms <= self.updated_at_ms
    }
}

/// Views of a sequence of sessions.
pub open spec fn session_views(rs: Seq<ChatSession>) -> Seq<ChatSessionView> {
    rs.map_values(|r: ChatSession| r@)
}

/// Clones a message list, keeping its view.
pub fn clone_messages(ms: &Vec<Message>) -> (r: Vec<Message>)
    ensures
        msg_views(r@) == msg_views(ms@),
{
    let mut r: Vec<Message> = Vec::new();
    let mut i: usize = 0;
    while i < ms.len()
        invariant
            0 <= i <= ms.len(),
            msg_views(r@) =~= msg_views(ms@.subrange(0, i as int)),
        decreases ms.len() - i,
    {
        let cloned = ms[i].clone();
        let ghost prev = r@;
        r.push(cloned);
        proof {
            assert(msg_views(r@) =~= msg_views(prev).push(ms@[i as int]@));
            assert(ms@.subrange(0, i + 1) =~= ms@.subrange(0, i as int).push(ms@[i as int]));
            assert(msg_views(ms@.subrange(0, i + 1)) =~= msg_views(
                ms@.subrange(0, i as int),
            ).push(ms@[i as int]@));
        }
        i = i + 1;
    }
    proof {
        assert(ms@.subrange(0, ms@.len() as int) =~= ms@);
    }
    r
}

impl Clone for ChatSession {
    fn clone(&self) -> (res: Self)
        ensures
            res@ == self@,
    {
        ChatSession {
            session_id: self.session_id.clone(),
            messages: clone_messages(&self.messages),
            name: clone_opt_string(&self.name),
            prompt_name: clone_opt_string(&self.prompt_name),
            created_at_ms: self.created_at_ms,
            updated_at_ms: self.updated_at_ms,
        }
    }
}

/// One entry of the recency index: the key of a record together with its
/// last-update time.
pub struct IndexEntry {
    pub updated_at_ms: u64,
    pub session_id: String,
}

/// Mathematical view of an `IndexEntry`.
pub struct EntryView {
    pub updated_at_ms: u64,
    pub session_id: Seq<char>,
}

impl View for IndexEntry {
    type V = EntryView;

    open spec fn view(&self) -> EntryView {
        EntryView { updated_at_ms: self.updated_at_ms, session_id: self.session_id@ }
    }
}

impl Clone for IndexEntry {
    fn clone(&self) -> (res: Self)
        ensures
            res@ == self@,
    {
        IndexEntry { updated_at_ms: self.updated_at_ms, session_id: self.session_id.clone() }
    }
}

/// Views of a sequence of index entries.
pub open spec fn entry_views(es: Seq<IndexEntry>) -> Seq<EntryView> {
    es.map_values(|e: IndexEntry| e@)
}

/// The index entry of a session.
pub open spec fn entry_of(s: ChatSessionView) -> EntryView {
    EntryView { updated_at_ms: s.updated_at_ms, session_id: s.session_id }
}

/// The identifiers an index lists, in index order.
pub open spec fn ids_of_index(idx: Seq<EntryView>) -> Seq<Seq<char>> {
    idx.map_values(|e: EntryView| e.session_id)
}

/// An index is ordered by last-update time, newest first.
pub open spec fn sorted_by_recency(idx: Seq<EntryView>) -> bool {
    forall|i: int, j: int|
        0 <= i < j < idx.len() ==> idx[i].updated_at_ms >= idx[j].updated_at_ms
}

/// Mathematical view of a whole store. `index` is `None` for a store whose
/// records were written by a schema that predates the recency index.
pub struct StoreModel {
    pub records: Seq<ChatSessionView>,
    pub index: Option<Seq<EntryView>>,
    pub version: u32,
}

/// Inserts an entry into a recency-ordered index: it goes after every entry
/// at least as recent, so among equal timestamps the earlier write stays
/// first.
pub open spec fn insert_entry(idx: Seq<EntryView>, e: EntryView) -> Seq<EntryView>
    decreases idx.len(),
{
    if idx.len() == 0 {
        seq![e]
    } else if idx.first().updated_at_ms >= e.updated_at_ms {
        seq![idx.first()] + insert_entry(idx.drop_first(), e)
    } else {
        seq![e] + idx
    }
}

/// Removes every entry with the given identifier from an index.
pub open spec fn remove_entries(idx: Seq<EntryView>, id: Seq<char>) -> Seq<EntryView>
    decreases idx.len(),
{
    if idx.len() == 0 {
        Seq::<EntryView>::empty()
    } else if idx.first().session_id == id {
        remove_entries(idx.drop_first(), id)
    } else {
        seq![idx.first()] + remove_entries(idx.drop_first(), id)
    }
}

/// The index rebuilt from scratch out of the records, in record order.
pub open spec fn rebuilt_index(rs: Seq<ChatSessionView>) -> Seq<EntryView>
    decreases rs.len(),
{
    if rs.len() == 0 {
        Seq::<EntryView>::empty()
    } else {
        insert_entry(rebuilt_index(rs.drop_last()), entry_of(rs.last()))
    }
}

/// The first record with the given identifier, if any.
pub open spec fn find_session(rs: Seq<ChatSessionView>, id: Seq<char>) -> Option<ChatSessionView>
    decreases rs.len(),
{
    if rs.len() == 0 {
        None
    } else if rs.first().session_id == id {
        Some(rs.first())
    } else {
        find_session(rs.drop_first(), id)
    }
}

/// Insert-or-replace among the records: the first record with the same
/// identifier is replaced in place, a new identifier is appended.
pub open spec fn put_records(rs: Seq<ChatSessionView>, s: ChatSessionView) -> Seq<ChatSessionView>
    decreases rs.len(),
{
    if rs.len() == 0 {
        seq![s]
    } else if rs.first().session_id == s.session_id {
        seq![s] + rs.drop_first()
    } else {
        seq![rs.first()] + put_records(rs.drop_first(), s)
    }
}

/// Removes the first record with the given identifier, if any.
pub open spec fn remove_records(rs: Seq<ChatSessionView>, id: Seq<char>) -> Seq<ChatSessionView>
    decreases rs.len(),
{
    if rs.len() == 0 {
        Seq::<ChatSessionView>::empty()
    } else if rs.first().session_id == id {
        rs.drop_first()
    } else {
        seq![rs.first()] + remove_records(rs.drop_first(), id)
    }
}

/// The larger of two version numbers.
pub open spec fn max_version(a: u32, b: u32) -> u32 {
    if a >= b {
        a
    } else {
        b
    }
}

/// Opening a store: the records are untouched; an index already present is
/// kept as it is, a missing one is built from the records; the schema
/// version only ever moves forward.
pub open spec fn open_model(m: StoreModel, target_version: u32) -> StoreModel {
    StoreModel {
        records: m.records,
        index: match m.index {
            Some(idx) => Some(idx),
            None => Some(rebuilt_index(m.records)),
        },
        version: max_version(m.version, target_version),
    }
}

/// Insert-or-replace of one session, together with the index maintenance
/// that keeps the recency ordering consistent: the session's old entry (if
/// any) is removed and its new entry inserted in order.
pub open spec fn put_model(m: StoreModel, s: ChatSessionView) -> StoreModel
    recommends
        m.index is Some,
{
    StoreModel {
        records: put_records(m.records, s),
        index: Some(insert_entry(remove_entries(m.index.unwrap(), s.session_id), entry_of(s))),
        version: m.version,
    }
}

/// Removal of one session and of its index entry. Deleting an absent
/// identifier changes nothing.
pub open spec fn delete_model(m: StoreModel, id: Seq<char>) -> StoreModel
    recommends
        m.index is Some,
{
    StoreModel {
        records: remove_records(m.records, id),
        index: Some(remove_entries(m.index.unwrap(), id)),
        version: m.version,
    }
}

/// Durable keyed storage of chat sessions plus the recency index.
pub struct SessionStore {
    records: Vec<ChatSession>,
    index: Vec<IndexEntry>,
    has_index: bool,
    version: u32,
}

impl View for SessionStore {
    type V = StoreModel;

    closed spec fn view(&self) -> StoreModel {
        StoreModel {
            records: session_views(self.records@),
            index: if self.has_index {
                Some(entry_views(self.index@))
            } else {
                None
            },
            version: self.version,
        }
    }
}

/// View of an optional session.
pub open spec fn opt_session_view(s: Option<ChatSession>) -> Option<ChatSessionView> {
    match s {
        Some(r) => Some(r@),
        None => None,
    }
}

/// Finds the first record with the given identifier; the quantified
/// clauses pin it down as the first match.
fn find_record_index(records: &Vec<ChatSession>, id: &String) -> (r: Option<usize>)
    ensures
        match r {
            Some(k) => {
                &&& k < records@.len()
                &&& session_views(records@)[k as int].session_id == id@
                &&& forall|j: int|
                    0 <= j < k ==> session_views(records@)[j].session_id != id@
            },
            None => forall|j: int|
                0 <= j < records@.len() ==> session_views(records@)[j].session_id != id@,
        },
{
    let mut i: usize = 0;
    while i < records.len()
        invariant
            0 <= i <= records.len(),
            forall|j: int| 0 <= j < i ==> session_views(records@)[j].session_id != id@,
        decreases records.len() - i,
    {
        if records[i].session_id == *id {
            return Some(i);
        }
        i = i + 1;
    }
    None
}

/// The first match determines `find_session`: if the first `k` records miss
/// and record `k` matches, that record is found.
proof fn lemma_find_session_at(rs: Seq<ChatSessionView>, id: Seq<char>, k: int)
    requires
        0 <= k < rs.len(),
        rs[k].session_id == id,
        forall|j: int| 0 <= j < k ==> rs[j].session_id != id,
    ensures
        find_session(rs, id) == Some(rs[k]),
    decreases k,
{
    if k == 0 {
    } else {
        lemma_find_session_at(rs.drop_first(), id, k - 1);
    }
}

/// Where no record matches, nothing is found.
proof fn lemma_find_session_absent(rs: Seq<ChatSessionView>, id: Seq<char>)
    requires
        forall|j: int| 0 <= j < rs.len() ==> rs[j].session_id != id,
    ensures
        find_session(rs, id) is None,
    decreases rs.len(),
{
    if rs.len() > 0 {
        lemma_find_session_absent(rs.drop_first(), id);
    }
}

/// Replacing the first match at position `k` is a pointwise update.
proof fn lemma_put_records_at(rs: Seq<ChatSessionView>, s: ChatSessionView, k: int)
    requires
        0 <= k < rs.len(),
        rs[k].session_id == s.session_id,
        forall|j: int| 0 <= j < k ==> rs[j].session_id != s.session_id,
    ensures
        put_records(rs, s) =~= rs.update(k, s),
    decreases k,
{
    if k == 0 {
    } else {
        lemma_put_records_at(rs.drop_first(), s, k - 1);
        assert(put_records(rs, s) =~= seq![rs.first()] + rs.drop_first().update(k - 1, s));
    }
}

/// With no matching record, insert-or-replace appends.
proof fn lemma_put_records_absent(rs: Seq<ChatSessionView>, s: ChatSessionView)
    requires
        forall|j: int| 0 <= j < rs.len() ==> rs[j].session_id != s.session_id,
    ensures
        put_records(rs, s) =~= rs.push(s),
    decreases rs.len(),
{
    if rs.len() > 0 {
        lemma_put_records_absent(rs.drop_first(), s);
        assert(put_records(rs, s) =~= seq![rs.first()] + rs.drop_first().push(s));
    }
}

/// Removing the first match at position `k` removes exactly that element.
proof fn lemma_remove_records_at(rs: Seq<ChatSessionView>, id: Seq<char>, k: int)
    requires
        0 <= k < rs.len(),
        rs[k].session_id == id,
        forall|j: int| 0 <= j < k ==> rs[j].session_id != id,
    ensures
        remove_records(rs, id) =~= rs.remove(k),
    decreases k,
{
    if k == 0 {
    } else {
        lemma_remove_records_at(rs.drop_first(), id, k - 1);
        assert(remove_records(rs, id) =~= seq![rs.first()] + rs.drop_first().remove(k - 1));
    }
}

/// Removing an absent identifier leaves the records unchanged.
proof fn lemma_remove_records_absent(rs: Seq<ChatSessionView>, id: Seq<char>)
    requires
        forall|j: int| 0 <= j < rs.len() ==> rs[j].session_id != id,
    ensures
        remove_records(rs, id) =~= rs,
    decreases rs.len(),
{
    if rs.len() > 0 {
        lemma_remove_records_absent(rs.drop_first(), id);
        assert(remove_records(rs, id) =~= seq![rs.first()] + rs.drop_first());
    }
}

/// Filtering one element off the end distributes over `remove_entries`.
proof fn lemma_remove_entries_push(idx: Seq<EntryView>, x: EntryView, id: Seq<char>)
    ensures
        remove_entries(idx.push(x), id) =~= remove_entries(idx, id) + (if x.session_id == id {
            Seq::<EntryView>::empty()
        } else {
            seq![x]
        }),
    decreases idx.len(),
{
    if idx.len() == 0 {
        assert(idx.push(x).first() == x);
        assert(idx.push(x).drop_first() =~= Seq::<EntryView>::empty());
        assert(remove_entries(Seq::<EntryView>::empty(), id) =~= Seq::<EntryView>::empty());
    } else {
        assert(idx.push(x).first() == idx.first());
        assert(idx.push(x).drop_first() =~= idx.drop_first().push(x));
        lemma_remove_entries_push(idx.drop_first(), x, id);
        if idx.first().session_id == id {
            assert(remove_entries(idx.push(x), id) == remove_entries(
                idx.drop_first().push(x),
                id,
            ));
            assert(remove_entries(idx, id) == remove_entries(idx.drop_first(), id));
        } else {
            assert(remove_entries(idx.push(x), id) == seq![idx.first()] + remove_entries(
                idx.drop_first().push(x),
                id,
            ));
            assert(remove_entries(idx, id) == seq![idx.first()] + remove_entries(
                idx.drop_first(),
                id,
            ));
        }
    }
}

/// Inserting at the position the scan found matches the recursive insert:
/// the entry goes after the first `k` entries (all at least as recent) and
/// before the rest (all strictly older).
proof fn lemma_insert_entry_at(idx: Seq<EntryView>, e: EntryView, k: int)
    requires
        0 <= k <= idx.len(),
        forall|j: int| 0 <= j < k ==> idx[j].updated_at_ms >= e.updated_at_ms,
        k == idx.len() || idx[k].updated_at_ms < e.updated_at_ms,
    ensures
        insert_entry(idx, e) =~= idx.subrange(0, k) + seq![e] + idx.subrange(k, idx.len() as int),
    decreases k,
{
    if k == 0 {
        if idx.len() > 0 {
            assert(idx.subrange(0, idx.len() as int) =~= idx);
        }
    } else {
        lemma_insert_entry_at(idx.drop_first(), e, k - 1);
        assert(idx.drop_first().subrange(0, k - 1) =~= idx.subrange(1, k));
        assert(idx.drop_first().subrange(k - 1, idx.drop_first().len() as int) =~= idx.subrange(
            k,
            idx.len() as int,
        ));
        assert(insert_entry(idx, e) =~= seq![idx.first()] + (idx.subrange(1, k) + seq![e]
            + idx.subrange(k, idx.len() as int)));
    }
}

/// Inserting keeps the recency order, and adds nothing but the new entry.
pub proof fn lemma_insert_entry_sorted(idx: Seq<EntryView>, e: EntryView)
    requires
        sorted_by_recency(idx),
    ensures
        sorted_by_recency(insert_entry(idx, e)),
        insert_entry(idx, e).len() == idx.len() + 1,
        forall|k: int|
            0 <= k < insert_entry(idx, e).len() ==> (insert_entry(idx, e)[k] == e
                || idx.contains(#[trigger] insert_entry(idx, e)[k])),
    decreases idx.len(),
{
    if idx.len() == 0 {
    } else if idx.first().updated_at_ms >= e.updated_at_ms {
        lemma_insert_entry_sorted(idx.drop_first(), e);
        let tail = insert_entry(idx.drop_first(), e);
        let r = insert_entry(idx, e);
        assert(r =~= seq![idx.first()] + tail);
        assert forall|k: int| 0 <= k < r.len() implies (r[k] == e || idx.contains(
            #[trigger] r[k],
        )) by {
            if k == 0 {
                assert(idx.contains(idx.first())) by {
                    assert(idx[0] == idx.first());
                }
            } else {
                assert(r[k] == tail[k - 1]);
                if tail[k - 1] != e {
                    let j = choose|j: int|
                        0 <= j < idx.drop_first().len() && idx.drop_first()[j] == tail[k - 1];
                    assert(idx[j + 1] == tail[k - 1]);
                }
            }
        }
        assert forall|a: int, b: int| 0 <= a < b < r.len() implies r[a].updated_at_ms
            >= r[b].updated_at_ms by {
            if a == 0 {
                if r[b] == e {
                } else {
                    let j = choose|j: int|
                        0 <= j < idx.drop_first().len() && idx.drop_first()[j] == r[b];
                    assert(idx[j + 1] == r[b]);
                }
            }
        }
    } else {
        let r = insert_entry(idx, e);
        assert(r =~= seq![e] + idx);
        assert forall|a: int, b: int| 0 <= a < b < r.len() implies r[a].updated_at_ms
            >= r[b].updated_at_ms by {
            if a == 0 && b > 1 {
                assert(idx[0].updated_at_ms >= idx[b - 1].updated_at_ms);
            }
        }
    }
}

/// Removing entries keeps the recency order, and invents no entry.
pub proof fn lemma_remove_entries_sorted(idx: Seq<EntryView>, id: Seq<char>)
    requires
        sorted_by_recency(idx),
    ensures
        sorted_by_recency(remove_entries(idx, id)),
        forall|k: int|
            0 <= k < remove_entries(idx, id).len() ==> idx.contains(
                #[trigger] remove_entries(idx, id)[k],
            ),
    decreases idx.len(),
{
    if idx.len() == 0 {
    } else {
        lemma_remove_entries_sorted(idx.drop_first(), id);
        let tail = remove_entries(idx.drop_first(), id);
        assert forall|k: int| 0 <= k < tail.len() implies idx.contains(#[trigger] tail[k]) by {
            let j = choose|j: int|
                0 <= j < idx.drop_first().len() && idx.drop_first()[j] == tail[k];
            assert(idx[j + 1] == tail[k]);
        }
        if idx.first().session_id == id {
        } else {
            let r = remove_entries(idx, id);
            assert(r =~= seq![idx.first()] + tail);
            assert forall|a: int, b: int| 0 <= a < b < r.len() implies r[a].updated_at_ms
                >= r[b].updated_at_ms by {
                if a == 0 {
                    let j = choose|j: int| 0 <= j < idx.len() && idx[j] == r[b];
                    if j > 0 {
                        assert(idx[0].updated_at_ms >= idx[j].updated_at_ms);
                    }
                }
            }
            assert forall|k: int| 0 <= k < r.len() implies idx.contains(#[trigger] r[k]) by {
                if k == 0 {
                    assert(idx[0] == idx.first());
                }
            }
        }
    }
}

/// An index rebuilt from the records is in recency order.
pub proof fn lemma_rebuilt_index_sorted(rs: Seq<ChatSessionView>)
    ensures
        sorted_by_recency(rebuilt_index(rs)),
    decreases rs.len(),
{
    if rs.len() > 0 {
        lemma_rebuilt_index_sorted(rs.drop_last());
        lemma_insert_entry_sorted(rebuilt_index(rs.drop_last()), entry_of(rs.last()));
    }
}

/// Opening a store never loses records: however often it is repeated, and
/// whatever schema versions the openings target, the records afterwards
/// are the records before.
pub proof fn lemma_open_preserves_records(m: StoreModel, target_version: u32)
    ensures
        open_model(m, target_version).records == m.records,
{
}

/// Opening is idempotent: a second opening collapses into the first, so
/// any number of openings, across schema versions, equals a single one —
/// an existing keyspace and index are left exactly as they are.
pub proof fn lemma_open_idempotent(m: StoreModel, v1: u32, v2: u32)
    ensures
        open_model(open_model(m, v1), v2) == open_model(m, max_version(v1, v2)),
{
}

/// An opened store's index is in recency order, and every store operation
/// keeps it so.
pub proof fn lemma_open_index_sorted(m: StoreModel, target_version: u32)
    requires
        m.index matches Some(idx) ==> sorted_by_recency(idx),
    ensures
        sorted_by_recency(open_model(m, target_version).index.unwrap()),
{
    if m.index is None {
        lemma_rebuilt_index_sorted(m.records);
    }
}

/// Insert-or-replace keeps the index in recency order.
pub proof fn lemma_put_keeps_recency_order(m: StoreModel, s: ChatSessionView)
    requires
        m.index matches Some(idx) && sorted_by_recency(idx),
    ensures
        sorted_by_recency(put_model(m, s).index.unwrap()),
{
    lemma_remove_entries_sorted(m.index.unwrap(), s.session_id);
    lemma_insert_entry_sorted(remove_entries(m.index.unwrap(), s.session_id), entry_of(s));
}

/// Deletion keeps the index in recency order.
pub proof fn lemma_delete_keeps_recency_order(m: StoreModel, id: Seq<char>)
    requires
        m.index matches Some(idx) && sorted_by_recency(idx),
    ensures
        sorted_by_recency(delete_model(m, id).index.unwrap()),
{
    lemma_remove_entries_sorted(m.index.unwrap(), id);
}

/// A session just written is found again under its identifier, exactly as
/// it was written.
pub proof fn lemma_find_after_put_records(rs: Seq<ChatSessionView>, s: ChatSessionView)
    ensures
        find_session(put_records(rs, s), s.session_id) == Some(s),
    decreases rs.len(),
{
    if rs.len() == 0 {
    } else if rs.first().session_id == s.session_id {
        assert(put_records(rs, s).first() == s);
    } else {
        lemma_find_after_put_records(rs.drop_first(), s);
        assert(put_records(rs, s).first() == rs.first());
        assert(put_records(rs, s).drop_first() =~= put_records(rs.drop_first(), s));
    }
}

/// Writes to different session identifiers are independent: a write under
/// one identifier does not disturb what a lookup under another returns.
pub proof fn lemma_find_after_put_other(
    rs: Seq<ChatSessionView>,
    s: ChatSessionView,
    id: Seq<char>,
)
    requires
        id != s.session_id,
    ensures
        find_session(put_records(rs, s), id) == find_session(rs, id),
    decreases rs.len(),
{
    if rs.len() == 0 {
        assert(put_records(rs, s) =~= seq![s]);
        assert(put_records(rs, s).drop_first() =~= Seq::<ChatSessionView>::empty());
        assert(find_session(put_records(rs, s).drop_first(), id) is None);
    } else if rs.first().session_id == s.session_id {
        assert(put_records(rs, s).first() == s);
        assert(put_records(rs, s).drop_first() =~= rs.drop_first());
    } else {
        lemma_find_after_put_other(rs.drop_first(), s, id);
        assert(put_records(rs, s).first() == rs.first());
        assert(put_records(rs, s).drop_first() =~= put_records(rs.drop_first(), s));
    }
}

/// Inserting adds exactly the new entry: every element of the result is
/// either the inserted entry or one of the old ones, and the inserted
/// entry is there.
proof fn lemma_insert_entry_elements(idx: Seq<EntryView>, e: EntryView)
    ensures
        insert_entry(idx, e).contains(e),
        forall|k: int|
            0 <= k < insert_entry(idx, e).len() ==> (insert_entry(idx, e)[k] == e
                || idx.contains(#[trigger] insert_entry(idx, e)[k])),
    decreases idx.len(),
{
    let r = insert_entry(idx, e);
    if idx.len() == 0 {
        assert(r[0] == e);
    } else if idx.first().updated_at_ms >= e.updated_at_ms {
        lemma_insert_entry_elements(idx.drop_first(), e);
        let tail = insert_entry(idx.drop_first(), e);
        assert(r =~= seq![idx.first()] + tail);
        let j = choose|j: int| 0 <= j < tail.len() && tail[j] == e;
        assert(r[j + 1] == e);
        assert forall|k: int| 0 <= k < r.len() implies (r[k] == e || idx.contains(
            #[trigger] r[k],
        )) by {
            if k == 0 {
                assert(idx[0] == idx.first());
            } else {
                assert(r[k] == tail[k - 1]);
                if tail[k - 1] != e {
                    let j2 = choose|j2: int|
                        0 <= j2 < idx.drop_first().len() && idx.drop_first()[j2] == tail[k - 1];
                    assert(idx[j2 + 1] == tail[k - 1]);
                }
            }
        }
    } else {
        assert(r =~= seq![e] + idx);
        assert(r[0] == e);
    }
}

/// Removal is thorough: afterwards no entry carries the identifier.
proof fn lemma_remove_entries_removes_id(idx: Seq<EntryView>, id: Seq<char>)
    ensures
        forall|k: int|
            0 <= k < remove_entries(idx, id).len() ==> (#[trigger] remove_entries(
                idx,
                id,
            )[k]).session_id != id,
    decreases idx.len(),
{
    if idx.len() > 0 {
        lemma_remove_entries_removes_id(idx.drop_first(), id);
        if idx.first().session_id != id {
            assert(remove_entries(idx, id) =~= seq![idx.first()] + remove_entries(
                idx.drop_first(),
                id,
            ));
        }
    }
}

/// Insert-or-replace keeps the index consistent with the write: one entry
/// for the written session is there, and no stale entry under its
/// identifier survives — every index entry carrying that identifier is
/// the freshly written one.
pub proof fn lemma_put_index_consistent(m: StoreModel, s: ChatSessionView)
    requires
        m.index is Some,
    ensures
        ({
            let idx = put_model(m, s).index.unwrap();
            &&& idx.contains(entry_of(s))
            &&& forall|k: int|
                0 <= k < idx.len() && (#[trigger] idx[k]).session_id == s.session_id ==> idx[k]
                    == entry_of(s)
        }),
{
    let cleaned = remove_entries(m.index.unwrap(), s.session_id);
    lemma_remove_entries_removes_id(m.index.unwrap(), s.session_id);
    lemma_insert_entry_elements(cleaned, entry_of(s));
}

/// Deletion removes every index entry of the identifier.
pub proof fn lemma_delete_index_consistent(m: StoreModel, id: Seq<char>)
    requires
        m.index is Some,
    ensures
        forall|k: int|
            0 <= k < delete_model(m, id).index.unwrap().len() ==> (#[trigger] delete_model(
                m,
                id,
            ).index.unwrap()[k]).session_id != id,
{
    lemma_remove_entries_removes_id(m.index.unwrap(), id);
}

/// A session's timestamps are ordered: it cannot have been updated before
/// it was created.
pub open spec fn session_wf(s: ChatSessionView) -> bool {
    s.created_at_ms <= s.updated_at_ms
}

/// Every record after an insert-or-replace is an old record or the
/// written one.
pub proof fn lemma_put_records_elements(rs: Seq<ChatSessionView>, s: ChatSessionView)
    ensures
        forall|k: int|
            0 <= k < put_records(rs, s).len() ==> (put_records(rs, s)[k] == s || rs.contains(
                #[trigger] put_records(rs, s)[k],
            )),
    decreases rs.len(),
{
    let r = put_records(rs, s);
    if rs.len() == 0 {
    } else if rs.first().session_id == s.session_id {
        assert(r =~= seq![s] + rs.drop_first());
        assert forall|k: int| 0 <= k < r.len() implies (r[k] == s || rs.contains(
            #[trigger] r[k],
        )) by {
            if k > 0 {
                assert(rs[k] == rs.drop_first()[k - 1]);
            }
        }
    } else {
        lemma_put_records_elements(rs.drop_first(), s);
        let tail = put_records(rs.drop_first(), s);
        assert(r =~= seq![rs.first()] + tail);
        assert forall|k: int| 0 <= k < r.len() implies (r[k] == s || rs.contains(
            #[trigger] r[k],
        )) by {
            if k == 0 {
                assert(rs[0] == rs.first());
            } else {
                assert(r[k] == tail[k - 1]);
                if tail[k - 1] != s {
                    let j = choose|j: int|
                        0 <= j < rs.drop_first().len() && rs.drop_first()[j] == tail[k - 1];
                    assert(rs[j + 1] == tail[k - 1]);
                }
            }
        }
    }
}

/// What a lookup finds is one of the records.
pub proof fn lemma_find_session_is_member(rs: Seq<ChatSessionView>, id: Seq<char>)
    ensures
        find_session(rs, id) matches Some(r) ==> rs.contains(r),
    decreases rs.len(),
{
    if rs.len() > 0 {
        if rs.first().session_id == id {
            assert(rs[0] == rs.first());
        } else {
            lemma_find_session_is_member(rs.drop_first(), id);
            if find_session(rs, id) is Some {
                let r = find_session(rs, id).unwrap();
                let j = choose|j: int|
                    0 <= j < rs.drop_first().len() && rs.drop_first()[j] == r;
                assert(rs[j + 1] == r);
            }
        }
    }
}

/// Entries all carrying other identifiers are left alone by removal.
proof fn lemma_remove_entries_skips(idx: Seq<EntryView>, id: Seq<char>)
    requires
        forall|k: int| 0 <= k < idx.len() ==> idx[k].session_id != id,
    ensures
        remove_entries(idx, id) =~= idx,
    decreases idx.len(),
{
    if idx.len() > 0 {
        lemma_remove_entries_skips(idx.drop_first(), id);
        assert(remove_entries(idx, id) =~= seq![idx.first()] + idx.drop_first());
    }
}

/// Recency ordering: on an empty opened store, saving three sessions with
/// update times `t1 < t2 < t3` lists their identifiers newest first; then
/// re-saving the first session with a yet newer update time moves it to
/// the front of the listing.
pub proof fn lemma_recency_ordering(
    m0: StoreModel,
    s1: ChatSessionView,
    s2: ChatSessionView,
    s3: ChatSessionView,
    s1b: ChatSessionView,
)
    requires
        m0.records == Seq::<ChatSessionView>::empty(),
        m0.index == Some(Seq::<EntryView>::empty()),
        s1.updated_at_ms < s2.updated_at_ms,
        s2.updated_at_ms < s3.updated_at_ms,
        s3.updated_at_ms < s1b.updated_at_ms,
        s1.session_id != s2.session_id,
        s1.session_id != s3.session_id,
        s2.session_id != s3.session_id,
        s1b.session_id == s1.session_id,
    ensures
        ({
            let m3 = put_model(put_model(put_model(m0, s1), s2), s3);
            &&& ids_of_index(m3.index.unwrap()) =~= seq![
                s3.session_id,
                s2.session_id,
                s1.session_id,
            ]
            &&& ids_of_index(put_model(m3, s1b).index.unwrap()) =~= seq![
                s1b.session_id,
                s3.session_id,
                s2.session_id,
            ]
        }),
{
    let e1 = entry_of(s1);
    let e2 = entry_of(s2);
    let e3 = entry_of(s3);
    let e1b = entry_of(s1b);

    let m1 = put_model(m0, s1);
    assert(remove_entries(m0.index.unwrap(), s1.session_id) =~= Seq::<EntryView>::empty());
    assert(m1.index.unwrap() =~= seq![e1]);

    let m2 = put_model(m1, s2);
    lemma_remove_entries_skips(seq![e1], s2.session_id);
    assert(insert_entry(seq![e1], e2) =~= seq![e2, e1]);
    assert(m2.index.unwrap() =~= seq![e2, e1]);

    let m3 = put_model(m2, s3);
    lemma_remove_entries_skips(seq![e2, e1], s3.session_id);
    assert(insert_entry(seq![e2, e1], e3) =~= seq![e3, e2, e1]);
    assert(m3.index.unwrap() =~= seq![e3, e2, e1]);
    assert(ids_of_index(seq![e3, e2, e1]) =~= seq![
        s3.session_id,
        s2.session_id,
        s1.session_id,
    ]);

    let m4 = put_model(m3, s1b);
    assert(seq![e3, e2, e1].drop_first() =~= seq![e2, e1]);
    assert(seq![e2, e1].drop_first() =~= seq![e1]);
    assert(seq![e1].drop_first() =~= Seq::<EntryView>::empty());
    assert(remove_entries(seq![e1], s1b.session_id) =~= Seq::<EntryView>::empty());
    assert(remove_entries(seq![e2, e1], s1b.session_id) =~= seq![e2]);
    assert(remove_entries(seq![e3, e2, e1], s1b.session_id) =~= seq![e3, e2]);
    assert(insert_entry(seq![e3, e2], e1b) =~= seq![e1b, e3, e2]);
    assert(m4.index.unwrap() =~= seq![e1b, e3, e2]);
    assert(ids_of_index(seq![e1b, e3, e2]) =~= seq![
        s1b.session_id,
        s3.session_id,
        s2.session_id,
    ]);
}

impl SessionStore {
    /// A store that does not exist yet: no records, no index, version zero.
    /// Opening it creates both.
    pub fn new() -> (s: SessionStore)
        ensures
            s@ == (StoreModel {
                records: Seq::<ChatSessionView>::empty(),
                index: None::<Seq<EntryView>>,
                version: 0u32,
            }),
    {
        let s = SessionStore { records: Vec::new(), index: Vec::new(), has_index: false, version: 0 };
        proof {
            assert(session_views(s.records@) =~= Seq::<ChatSessionView>::empty());
        }
        s
    }

    /// A store restored from records written by a schema that predates the
    /// recency index: the records are there, the index is not.
    pub fn from_records(records: Vec<ChatSession>) -> (s: SessionStore)
        ensures
            s@ == (StoreModel {
                records: session_views(records@),
                index: None::<Seq<EntryView>>,
                version: 0u32,
            }),
    {
        SessionStore { records, index: Vec::new(), has_index: false, version: 0 }
    }

    /// Whether the store has been opened (its index exists).
    pub open spec fn is_open(self) -> bool {
        self@.index is Some
    }

    /// Opens the store: creates the recency index if it is missing and
    /// records the schema version, without ever touching existing records
    /// or an existing index. Safe to call any number of times.
    pub fn open(&mut self, target_version: u32)
        ensures
            final(self)@ == open_model(old(self)@, target_version),
            final(self).is_open(),
    {
        if !self.has_index {
            let mut idx: Vec<IndexEntry> = Vec::new();
            let mut i: usize = 0;
            proof {
                assert(entry_views(idx@) =~= rebuilt_index(
                    session_views(self.records@.subrange(0, 0)),
                ));
            }
            while i < self.records.len()
                invariant
                    0 <= i <= self.records.len(),
                    entry_views(idx@) == rebuilt_index(
                        session_views(self.records@.subrange(0, i as int)),
                    ),
                decreases self.records.len() - i,
            {
                let e = IndexEntry {
                    updated_at_ms: self.records[i].updated_at_ms,
                    session_id: self.records[i].session_id.clone(),
                };
                proof {
                    assert(e@ == entry_of(session_views(self.records@)[i as int]));
                }
                insert_index_entry(&mut idx, e);
                proof {
                    let prefix = session_views(self.records@.subrange(0, i as int));
                    let next = session_views(self.records@.subrange(0, i + 1));
                    assert(next.drop_last() =~= prefix);
                    assert(next.last() == session_views(self.records@)[i as int]);
                    assert(entry_views(idx@) =~= rebuilt_index(next));
                }
                i = i + 1;
            }
            proof {
                assert(self.records@.subrange(0, self.records@.len() as int) =~= self.records@);
            }
            self.index = idx;
            self.has_index = true;
        }
        if target_version > self.version {
            self.version = target_version;
        }
    }

    /// Point lookup by identifier. Absence is not an error.
    pub fn get(&self, session_id: &String) -> (r: Option<ChatSession>)
        ensures
            opt_session_view(r) == find_session(self@.records, session_id@),
    {
        match find_record_index(&self.records, session_id) {
            Some(k) => {
                proof {
                    lemma_find_session_at(session_views(self.records@), session_id@, k as int);
                }
                Some(self.records[k].clone())
            },
            None => {
                proof {
                    lemma_find_session_absent(session_views(self.records@), session_id@);
                }
                None
            },
        }
    }

    /// Insert-or-replace by `session_id`, keeping the recency index
    /// consistent: the record's old index entry is removed and the new one
    /// inserted in order, in the same step as the record itself.
    pub fn put(&mut self, session: ChatSession)
        requires
            old(self).is_open(),
        ensures
            final(self)@ == put_model(old(self)@, session@),
            final(self).is_open(),
    {
        let id = session.session_id.clone();
        let updated_at = session.updated_at_ms;
        let ghost old_records = session_views(self.records@);
        match find_record_index(&self.records, &id) {
            Some(k) => {
                proof {
                    lemma_put_records_at(old_records, session@, k as int);
                }
                self.records[k] = session;
                proof {
                    assert(session_views(self.records@) =~= old_records.update(
                        k as int,
                        old_records[k as int],
                    ).update(k as int, session_views(self.records@)[k as int]));
                    assert(session_views(self.records@) =~= put_records(
                        old_records,
                        session_views(self.records@)[k as int],
                    ));
                }
            },
            None => {
                proof {
                    lemma_put_records_absent(old_records, session@);
                }
                self.records.push(session);
                proof {
                    assert(session_views(self.records@) =~= old_records.push(
                        session_views(self.records@).last(),
                    ));
                }
            },
        }
        self.remove_index_entries(&id);
        let e = IndexEntry { updated_at_ms: updated_at, session_id: id };
        insert_index_entry(&mut self.index, e);
    }

    /// Removes every index entry carrying the given identifier.
    fn remove_index_entries(&mut self, id: &String)
        ensures
            entry_views(final(self).index@) == remove_entries(
                entry_views(old(self).index@),
                id@,
            ),
            final(self).records == old(self).records,
            final(self).has_index == old(self).has_index,
            final(self).version == old(self).version,
    {
        let mut kept: Vec<IndexEntry> = Vec::new();
        let mut i: usize = 0;
        proof {
            assert(entry_views(kept@) =~= remove_entries(
                entry_views(self.index@.subrange(0, 0)),
                id@,
            ));
        }
        while i < self.index.len()
            invariant
                0 <= i <= self.index.len(),
                entry_views(kept@) == remove_entries(
                    entry_views(self.index@.subrange(0, i as int)),
                    id@,
                ),
            decreases self.index.len() - i,
        {
            proof {
                let prefix = entry_views(self.index@.subrange(0, i as int));
                let x = entry_views(self.index@)[i as int];
                lemma_remove_entries_push(prefix, x, id@);
                assert(entry_views(self.index@.subrange(0, i + 1)) =~= prefix.push(x));
            }
            if !(self.index[i].session_id == *id) {
                kept.push(self.index[i].clone());
                proof {
                    assert(entry_views(kept@) =~= remove_entries(
                        entry_views(self.index@.subrange(0, i + 1)),
                        id@,
                    ));
                }
            } else {
                proof {
                    assert(entry_views(kept@) =~= remove_entries(
                        entry_views(self.index@.subrange(0, i + 1)),
                        id@,
                    ));
                }
            }
            i = i + 1;
        }
        proof {
            assert(self.index@.subrange(0, self.index@.len() as int) =~= self.index@);
        }
        self.index = kept;
    }

    /// Removes the record with the given identifier and its index entry.
    /// Deleting an absent identifier is not an error and changes nothing.
    pub fn delete(&mut self, session_id: &String)
        requires
            old(self).is_open(),
        ensures
            final(self)@ == delete_model(old(self)@, session_id@),
            final(self).is_open(),
    {
        let ghost old_records = session_views(self.records@);
        match find_record_index(&self.records, session_id) {
            Some(k) => {
                proof {
                    lemma_remove_records_at(old_records, session_id@, k as int);
                }
                self.records.remove(k);
                proof {
                    assert(session_views(self.records@) =~= old_records.remove(k as int));
                }
            },
            None => {
                proof {
                    lemma_remove_records_absent(old_records, session_id@);
                }
            },
        }
        self.remove_index_entries(session_id);
    }

    /// All session identifiers, newest `updated_at_ms` first, ties in write
    /// order — straight off the index, without reading any session body.
    pub fn list_ids_by_recency(&self) -> (r: Vec<String>)
        requires
            self.is_open(),
        ensures
            r@.map_values(|s: String| s@) == ids_of_index(self@.index.unwrap()),
    {
        let mut r: Vec<String> = Vec::new();
        let mut i: usize = 0;
        while i < self.index.len()
            invariant
                0 <= i <= self.index.len(),
                r@.len() == i,
                forall|j: int|
                    0 <= j < i ==> r@.map_values(|s: String| s@)[j] == entry_views(
                        self.index@,
                    )[j].session_id,
            decreases self.index.len() - i,
        {
            r.push(self.index[i].session_id.clone());
            i = i + 1;
        }
        proof {
            assert(r@.map_values(|s: String| s@) =~= ids_of_index(entry_views(self.index@)));
        }
        r
    }

    /// The schema version the store was last opened with.
    pub fn version(&self) -> (v: u32)
        ensures
            v == self@.version,
    {
        self.version
    }
}

/// Inserts an entry into the index vector at its recency position.
fn insert_index_entry(idx: &mut Vec<IndexEntry>, e: IndexEntry)
    ensures
        entry_views(final(idx)@) == insert_entry(entry_views(old(idx)@), e@),
{
    let mut k: usize = 0;
    while k < idx.len() && idx[k].updated_at_ms >= e.updated_at_ms
        invariant
            0 <= k <= idx.len(),
            forall|j: int|
                0 <= j < k ==> entry_views(idx@)[j].updated_at_ms >= e@.updated_at_ms,
        decreases idx.len() - k,
    {
        k = k + 1;
    }
    proof {
        lemma_insert_entry_at(entry_views(idx@), e@, k as int);
    }
    idx.insert(k, e);
    proof {
        assert(entry_views(idx@) =~= entry_views(old(idx)@).subrange(0, k as int) + seq![e@]
            + entry_views(old(idx)@).subrange(k as int, old(idx)@.len() as int));
    }
}

} // verus!

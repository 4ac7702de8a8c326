//! The conversation store: one record per thread key, holding the last
//! model-response id for that thread.  This is the logical content of the
//! durable table; reading and writing the file itself happens outside,
//! against the same contracts.

use vstd::prelude::*;
use vstd::map::*;
use vstd::string::StringExecFns;
use crate::text::str_eq;

verus! {

/// One persisted row: a thread and the last response the model gave in it.
pub struct ConversationRecord {
    pub thread_key: String,
    pub last_response_id: String,
    pub updated_at: u64,
}

/// The records, keyed by thread, at most one per key.
pub struct ConversationStore {
    recs: Vec<ConversationRecord>,
}

/// First record with the given key, scanning in storage order.
pub open spec fn lookup(recs: Seq<ConversationRecord>, key: Seq<char>) -> Option<
    ConversationRecord,
>
    decreases recs.len(),
{
    if recs.len() == 0 {
        None
    } else if recs[0].thread_key@ == key {
        Some(recs[0])
    } else {
        lookup(recs.drop_first(), key)
    }
}

/// Number of records with the given key.
pub open spec fn key_count(recs: Seq<ConversationRecord>, key: Seq<char>) -> int
    decreases recs.len(),
{
    if recs.len() == 0 {
        0
    } else {
        (if recs[0].thread_key@ == key {
            1int
        } else {
            0int
        }) + key_count(recs.drop_first(), key)
    }
}

proof fn lemma_lookup_none(recs: Seq<ConversationRecord>, key: Seq<char>)
    requires
        lookup(recs, key) is None,
    ensures
        forall|j: int| 0 <= j < recs.len() ==> (#[trigger] recs[j]).thread_key@ != key,
        key_count(recs, key) == 0,
    decreases recs.len(),
{
    if recs.len() > 0 {
        lemma_lookup_none(recs.drop_first(), key);
        assert forall|j: int| 0 <= j < recs.len() implies (#[trigger] recs[j]).thread_key@
            != key by {
            if j > 0 {
                assert(recs.drop_first()[j - 1] == recs[j]);
            }
        }
    }
}

impl ConversationStore {
    /// At most one record per thread key.
    pub closed spec fn wf(&self) -> bool {
        forall|i: int, j: int|
            0 <= i < j < self.recs@.len() ==> (#[trigger] self.recs@[i]).thread_key@ != (
            #[trigger] self.recs@[j]).thread_key@
    }

    /// The key-to-response-id map the records represent.
    pub closed spec fn contents(&self) -> Map<Seq<char>, Seq<char>> {
        Map::new(
            |k: Seq<char>| lookup(self.recs@, k) is Some,
            |k: Seq<char>| lookup(self.recs@, k)->Some_0.last_response_id@,
        )
    }

    /// The records as stored.
    pub closed spec fn records(&self) -> Seq<ConversationRecord> {
        self.recs@
    }

    /// An empty store.
    pub fn new() -> (r: Self)
        ensures
            r.wf(),
            r.contents() =~= Map::<Seq<char>, Seq<char>>::empty(),
            r.records().len() == 0,
    {
        ConversationStore { recs: Vec::new() }
    }

    /// How many records the store holds.
    pub fn record_count(&self) -> (r: usize)
        ensures
            r == self.records().len(),
    {
        self.recs.len()
    }

    /// The last response id recorded for `thread_key`, if any: `Some`
    /// exactly when the store holds the key.
    pub fn get_previous_response_id(&self, thread_key: &str) -> (r: Option<String>)
        ensures
            match r {
                Some(id) => self.contents().contains_key(thread_key@) && id@ == self.contents()[thread_key@],
                None => !self.contents().contains_key(thread_key@),
            },
    {
        let n = self.recs.len();
        let mut i: usize = 0;
        proof {
            assert(self.recs@.skip(0) =~= self.recs@);
        }
        while i < n
            invariant
                n == self.recs@.len(),
                i <= n,
                lookup(self.recs@, thread_key@) == lookup(self.recs@.skip(i as int), thread_key@),
            decreases n - i,
        {
            let ghost rest = self.recs@.skip(i as int);
            if str_eq(self.recs[i].thread_key.as_str(), thread_key) {
                return Some(self.recs[i].last_response_id.clone());
            }
            i += 1;
            proof {
                assert(rest.drop_first() =~= self.recs@.skip(i as int));
            }
        }
        proof {
            assert(self.recs@.skip(n as int) =~= Seq::<ConversationRecord>::empty());
        }
        None
    }

    /// Inserts or overwrites the record for `thread_key` in one step, the
    /// write the durable table makes atomically on conflict.  The map
    /// afterwards is the old map with `thread_key` bound to
    /// `response_id`; nothing else changes, and the key stays unique.
    pub fn upsert_last_response_id(&mut self, thread_key: &str, response_id: &str, now: u64)
        requires
            old(self).wf(),
        ensures
            final(self).wf(),
            final(self).contents() =~= old(self).contents().insert(thread_key@, response_id@),
            key_count(final(self).records(), thread_key@) == 1,
    {
        let n = self.recs.len();
        let mut i: usize = 0;
        proof {
            assert(self.recs@.skip(0) =~= self.recs@);
        }
        while i < n
            invariant
                self.recs@ == old(self).recs@,
                old(self).wf(),
                n == self.recs@.len(),
                i <= n,
                lookup(self.recs@, thread_key@) == lookup(self.recs@.skip(i as int), thread_key@),
                forall|j: int|
                    0 <= j < i ==> (#[trigger] self.recs@[j]).thread_key@ != thread_key@,
            decreases n - i,
        {
            let ghost rest = self.recs@.skip(i as int);
            if str_eq(self.recs[i].thread_key.as_str(), thread_key) {
                let ghost old_recs = self.recs@;
                let rec = &mut self.recs[i];
                rec.last_response_id = String::from_str(response_id);
                rec.updated_at = now;
                proof {
                    let new_recs = self.recs@;
                    assert(new_recs[i as int].thread_key@ == thread_key@);
                    assert(new_recs[i as int].last_response_id@ == response_id@);
                    lemma_lookup_update_first(old_recs, new_recs, i as int, thread_key@);
                    lemma_count_update(old_recs, new_recs, i as int, thread_key@);
                    lemma_count_at(old_recs, thread_key@, i as int);
                    assert forall|i0: int, j0: int| 0 <= i0 < j0 < new_recs.len() implies (
                    #[trigger] new_recs[i0]).thread_key@ != (
                    #[trigger] new_recs[j0]).thread_key@ by {
                        assert(old_recs[i0].thread_key@ != old_recs[j0].thread_key@);
                    }
                    assert(self.contents() =~= old(self).contents().insert(
                        thread_key@,
                        response_id@,
                    ));
                }
                return ;
            }
            i += 1;
            proof {
                assert(rest.drop_first() =~= self.recs@.skip(i as int));
            }
        }
        proof {
            assert(self.recs@.skip(n as int) =~= Seq::<ConversationRecord>::empty());
            lemma_lookup_none(self.recs@, thread_key@);
        }
        let ghost old_recs = self.recs@;
        self.recs.push(
            ConversationRecord {
                thread_key: String::from_str(thread_key),
                last_response_id: String::from_str(response_id),
                updated_at: now,
            },
        );
        proof {
            lemma_lookup_push(old_recs, self.recs@[old_recs.len() as int], thread_key@);
            lemma_count_push(old_recs, self.recs@[old_recs.len() as int], thread_key@);
            assert forall|i0: int, j0: int| 0 <= i0 < j0 < self.recs@.len() implies (
            #[trigger] self.recs@[i0]).thread_key@ != (#[trigger] self.recs@[j0]).thread_key@ by {
                if j0 == self.recs@.len() - 1 {
                    assert(self.recs@[i0] == old_recs[i0]);
                }
            }
            assert(self.contents() =~= old(self).contents().insert(thread_key@, response_id@));
        }
    }
}

proof fn lemma_lookup_update_first(
    old_recs: Seq<ConversationRecord>,
    new_recs: Seq<ConversationRecord>,
    i: int,
    key: Seq<char>,
)
    requires
        0 <= i < old_recs.len(),
        new_recs.len() == old_recs.len(),
        forall|j: int| 0 <= j < old_recs.len() && j != i ==> new_recs[j] == old_recs[j],
        forall|j: int| 0 <= j < i ==> (#[trigger] old_recs[j]).thread_key@ != key,
        old_recs[i].thread_key@ == key,
        new_recs[i].thread_key@ == key,
    ensures
        lookup(new_recs, key) == Some(new_recs[i]),
        forall|k2: Seq<char>|
            k2 != key ==> #[trigger] lookup(new_recs, k2) == lookup(old_recs, k2),
    decreases i,
{
    if i == 0 {
        assert forall|k2: Seq<char>| k2 != key implies #[trigger] lookup(new_recs, k2) == lookup(
            old_recs,
            k2,
        ) by {
            assert(new_recs.drop_first() =~= old_recs.drop_first());
        }
    } else {
        assert forall|j: int|
            0 <= j < old_recs.drop_first().len() && j != i - 1 implies #[trigger] new_recs.drop_first()[j]
            == old_recs.drop_first()[j] by {
            assert(new_recs.drop_first()[j] == new_recs[j + 1]);
            assert(old_recs.drop_first()[j] == old_recs[j + 1]);
        }
        assert forall|j: int| 0 <= j < i - 1 implies (
        #[trigger] old_recs.drop_first()[j]).thread_key@ != key by {
            assert(old_recs.drop_first()[j] == old_recs[j + 1]);
        }
        lemma_lookup_update_first(old_recs.drop_first(), new_recs.drop_first(), i - 1, key);
        assert(new_recs[0] == old_recs[0]);
        assert(lookup(new_recs, key) == Some(new_recs.drop_first()[i - 1]));
        assert forall|k2: Seq<char>| k2 != key implies #[trigger] lookup(new_recs, k2) == lookup(
            old_recs,
            k2,
        ) by {
            if old_recs[0].thread_key@ != k2 {
                assert(lookup(new_recs, k2) == lookup(new_recs.drop_first(), k2));
                assert(lookup(old_recs, k2) == lookup(old_recs.drop_first(), k2));
            }
        }
    }
}

proof fn lemma_count_update(
    old_recs: Seq<ConversationRecord>,
    new_recs: Seq<ConversationRecord>,
    i: int,
    key: Seq<char>,
)
    requires
        0 <= i < old_recs.len(),
        new_recs.len() == old_recs.len(),
        forall|j: int| 0 <= j < old_recs.len() && j != i ==> new_recs[j] == old_recs[j],
        old_recs[i].thread_key@ == key,
        new_recs[i].thread_key@ == key,
    ensures
        key_count(new_recs, key) == key_count(old_recs, key),
    decreases i,
{
    if i == 0 {
        assert(new_recs.drop_first() =~= old_recs.drop_first());
    } else {
        lemma_count_update(old_recs.drop_first(), new_recs.drop_first(), i - 1, key);
        assert(new_recs[0] == old_recs[0]);
    }
}

proof fn lemma_lookup_push(
    recs: Seq<ConversationRecord>,
    nr: ConversationRecord,
    key: Seq<char>,
)
    requires
        forall|j: int| 0 <= j < recs.len() ==> (#[trigger] recs[j]).thread_key@ != key,
        nr.thread_key@ == key,
    ensures
        lookup(recs.push(nr), key) == Some(nr),
        forall|k2: Seq<char>|
            k2 != key ==> #[trigger] lookup(recs.push(nr), k2) == lookup(recs, k2),
    decreases recs.len(),
{
    if recs.len() == 0 {
        assert(recs.push(nr)[0] == nr);
        assert forall|k2: Seq<char>| k2 != key implies #[trigger] lookup(recs.push(nr), k2)
            == lookup(recs, k2) by {
            assert(recs.push(nr).drop_first() =~= Seq::<ConversationRecord>::empty());
            assert(lookup(Seq::<ConversationRecord>::empty(), k2) is None);
        }
    } else {
        assert forall|j: int| 0 <= j < recs.drop_first().len() implies (
        #[trigger] recs.drop_first()[j]).thread_key@ != key by {
            assert(recs.drop_first()[j] == recs[j + 1]);
        }
        lemma_lookup_push(recs.drop_first(), nr, key);
        assert(recs.push(nr)[0] == recs[0]);
        assert(recs.push(nr).drop_first() =~= recs.drop_first().push(nr));
        assert(recs[0].thread_key@ != key);
        assert forall|k2: Seq<char>| k2 != key implies #[trigger] lookup(recs.push(nr), k2)
            == lookup(recs, k2) by {
            if recs[0].thread_key@ != k2 {
                assert(lookup(recs.push(nr), k2) == lookup(recs.drop_first().push(nr), k2));
                assert(lookup(recs, k2) == lookup(recs.drop_first(), k2));
            }
        }
    }
}

proof fn lemma_count_push(recs: Seq<ConversationRecord>, nr: ConversationRecord, key: Seq<char>)
    requires
        forall|j: int| 0 <= j < recs.len() ==> (#[trigger] recs[j]).thread_key@ != key,
        nr.thread_key@ == key,
    ensures
        key_count(recs.push(nr), key) == 1,
    decreases recs.len(),
{
    if recs.len() == 0 {
        assert(recs.push(nr)[0] == nr);
        assert(recs.push(nr).drop_first() =~= Seq::<ConversationRecord>::empty());
        assert(key_count(Seq::<ConversationRecord>::empty(), key) == 0);
        assert(key_count(recs.push(nr), key) == 1 + key_count(recs.push(nr).drop_first(), key));
    } else {
        assert forall|j: int| 0 <= j < recs.drop_first().len() implies (
        #[trigger] recs.drop_first()[j]).thread_key@ != key by {
            assert(recs.drop_first()[j] == recs[j + 1]);
        }
        lemma_count_push(recs.drop_first(), nr, key);
        assert(recs.push(nr)[0] == recs[0]);
        assert(recs[0].thread_key@ != key);
        assert(recs.push(nr).drop_first() =~= recs.drop_first().push(nr));
        assert(key_count(recs.push(nr), key) == key_count(recs.push(nr).drop_first(), key));
        assert(key_count(recs.push(nr).drop_first(), key) == key_count(
            recs.drop_first().push(nr),
            key,
        ));
    }
}

proof fn lemma_count_zero(recs: Seq<ConversationRecord>, key: Seq<char>)
    requires
        forall|j: int| 0 <= j < recs.len() ==> (#[trigger] recs[j]).thread_key@ != key,
    ensures
        key_count(recs, key) == 0,
    decreases recs.len(),
{
    if recs.len() > 0 {
        assert forall|j: int| 0 <= j < recs.drop_first().len() implies (
        #[trigger] recs.drop_first()[j]).thread_key@ != key by {
            assert(recs.drop_first()[j] == recs[j + 1]);
        }
        lemma_count_zero(recs.drop_first(), key);
    }
}

proof fn lemma_count_at(recs: Seq<ConversationRecord>, key: Seq<char>, i: int)
    requires
        0 <= i < recs.len(),
        recs[i].thread_key@ == key,
        forall|i0: int, j0: int|
            0 <= i0 < j0 < recs.len() ==> (#[trigger] recs[i0]).thread_key@ != (
            #[trigger] recs[j0]).thread_key@,
    ensures
        key_count(recs, key) == 1,
    decreases i,
{
    if i == 0 {
        assert forall|j: int| 0 <= j < recs.drop_first().len() implies (
        #[trigger] recs.drop_first()[j]).thread_key@ != key by {
            assert(recs.drop_first()[j] == recs[j + 1]);
        }
        lemma_count_zero(recs.drop_first(), key);
    } else {
        assert(recs[0].thread_key@ != key);
        assert forall|i0: int, j0: int|
            0 <= i0 < j0 < recs.drop_first().len() implies (
        #[trigger] recs.drop_first()[i0]).thread_key@ != (
        #[trigger] recs.drop_first()[j0]).thread_key@ by {
            assert(recs.drop_first()[i0] == recs[i0 + 1]);
            assert(recs.drop_first()[j0] == recs[j0 + 1]);
        }
        assert(recs.drop_first()[i - 1] == recs[i]);
        lemma_count_at(recs.drop_first(), key, i - 1);
    }
}

/// Upserting the same `(key, value)` twice is the same as doing it once:
/// the store's map afterwards is identical, and the key holds exactly one
/// record with that value.
pub proof fn lemma_upsert_idempotent(m: Map<Seq<char>, Seq<char>>, k: Seq<char>, v: Seq<char>)
    ensures
        m.insert(k, v).insert(k, v) =~= m.insert(k, v),
        m.insert(k, v).contains_key(k),
        m.insert(k, v)[k] == v,
{
}

} // verus!

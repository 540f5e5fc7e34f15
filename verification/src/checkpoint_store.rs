//! Durable record of partition ownership and consumption progress.
//!
//! Both collections are keyed by the `(namespace, entity, consumer group,
//! partition)` tuple and partitioned first by the `(namespace, entity,
//! consumer group)` triple: a listing is scoped to exactly one triple and
//! never leaks records written under another, even when partition ids
//! collide across triples. Updates replace the full record for a key;
//! listing returns records in insertion order. The in-memory store issues a
//! fresh opaque etag and refreshes the modification stamp on every
//! ownership write; it does not reject writes whose etag is stale —
//! optimistic concurrency is the caller's to enforce.

use vstd::prelude::*;

use crate::error::{Error, ErrorKind};

verus! {

/// The scope of a listing: namespace, entity, and consumer group.
pub type TripleKey = (Seq<char>, Seq<char>, Seq<char>);

/// The unique key of a record: its triple, then its partition id.
pub type RecordKey = (TripleKey, Seq<char>);

/// A lease-like record of which consumer currently claims a partition.
#[derive(Clone, Debug, PartialEq)]
pub struct Ownership {
    /// The fully qualified namespace the partition lives in.
    pub fully_qualified_namespace: String,
    /// The entity (event hub) the partition belongs to.
    pub event_hub_name: String,
    /// The consumer group the claim is scoped to.
    pub consumer_group: String,
    /// The partition being claimed.
    pub partition_id: String,
    /// The consumer claiming the partition; absent means unowned.
    pub owner_id: Option<String>,
    /// When the record was last written: a monotonic stamp issued by the
    /// store, standing in for the wall-clock write time.
    pub last_modified_time: Option<u64>,
    /// Opaque tag for optimistic-concurrency updates, issued by the store.
    pub etag: Option<String>,
}

impl Default for Ownership {
    /// An empty record: every field blank or absent.
    fn default() -> (r: Self)
        ensures
            r.fully_qualified_namespace@ == Seq::<char>::empty(),
            r.event_hub_name@ == Seq::<char>::empty(),
            r.consumer_group@ == Seq::<char>::empty(),
            r.partition_id@ == Seq::<char>::empty(),
            r.owner_id is None,
            r.last_modified_time is None,
            r.etag is None,
    {
        Ownership {
            fully_qualified_namespace: String::new(),
            event_hub_name: String::new(),
            consumer_group: String::new(),
            partition_id: String::new(),
            owner_id: None,
            last_modified_time: None,
            etag: None,
        }
    }
}

/// The last successfully processed position for a partition.
#[derive(Clone, Debug, PartialEq)]
pub struct Checkpoint {
    /// The fully qualified namespace the partition lives in.
    pub fully_qualified_namespace: String,
    /// The entity (event hub) the partition belongs to.
    pub event_hub_name: String,
    /// The consumer group the progress is scoped to.
    pub consumer_group: String,
    /// The partition the progress belongs to.
    pub partition_id: String,
    /// The offset of the last processed event.
    pub offset: Option<String>,
    /// The sequence number of the last processed event.
    pub sequence_number: Option<i64>,
}

impl Default for Checkpoint {
    /// An empty record: every field blank or absent.
    fn default() -> (r: Self)
        ensures
            r.fully_qualified_namespace@ == Seq::<char>::empty(),
            r.event_hub_name@ == Seq::<char>::empty(),
            r.consumer_group@ == Seq::<char>::empty(),
            r.partition_id@ == Seq::<char>::empty(),
            r.offset is None,
            r.sequence_number is None,
    {
        Checkpoint {
            fully_qualified_namespace: String::new(),
            event_hub_name: String::new(),
            consumer_group: String::new(),
            partition_id: String::new(),
            offset: None,
            sequence_number: None,
        }
    }
}

/// The triple an ownership record was written under.
pub open spec fn ownership_triple(o: Ownership) -> TripleKey {
    (o.fully_qualified_namespace@, o.event_hub_name@, o.consumer_group@)
}

/// The unique key of an ownership record.
pub open spec fn ownership_key(o: Ownership) -> RecordKey {
    (ownership_triple(o), o.partition_id@)
}

/// The triple a checkpoint was written under.
pub open spec fn checkpoint_triple(c: Checkpoint) -> TripleKey {
    (c.fully_qualified_namespace@, c.event_hub_name@, c.consumer_group@)
}

/// The unique key of a checkpoint.
pub open spec fn checkpoint_key(c: Checkpoint) -> RecordKey {
    (checkpoint_triple(c), c.partition_id@)
}

/// Whether the four required fields of an ownership record are all
/// non-empty.
pub open spec fn ownership_fields_valid(o: Ownership) -> bool {
    o.fully_qualified_namespace@.len() > 0 && o.event_hub_name@.len() > 0
        && o.consumer_group@.len() > 0 && o.partition_id@.len() > 0
}

/// Whether the four required fields of a checkpoint are all non-empty.
pub open spec fn checkpoint_fields_valid(c: Checkpoint) -> bool {
    c.fully_qualified_namespace@.len() > 0 && c.event_hub_name@.len() > 0
        && c.consumer_group@.len() > 0 && c.partition_id@.len() > 0
}

/// The index of the first record with key `k`, or `-1` if none has it.
pub open spec fn key_index<T>(s: Seq<T>, key: spec_fn(T) -> RecordKey, k: RecordKey) -> int
    decreases s.len(),
{
    if s.len() == 0 {
        -1
    } else if key(s[0]) == k {
        0
    } else if key_index(s.skip(1), key, k) < 0 {
        -1
    } else {
        key_index(s.skip(1), key, k) + 1
    }
}

/// What `key_index` finds: a valid first occurrence, or proof of absence.
pub proof fn lemma_key_index<T>(s: Seq<T>, key: spec_fn(T) -> RecordKey, k: RecordKey)
    ensures
        key_index(s, key, k) == -1 ==> forall|j: int| 0 <= j < s.len() ==> key(#[trigger] s[j]) != k,
        key_index(s, key, k) >= 0 ==> 0 <= key_index(s, key, k) < s.len() && key(
            s[key_index(s, key, k)],
        ) == k && forall|j: int| 0 <= j < key_index(s, key, k) ==> key(#[trigger] s[j]) != k,
    decreases s.len(),
{
    if s.len() > 0 {
        lemma_key_index(s.skip(1), key, k);
        let idx = key_index(s, key, k);
        if key(s[0]) != k {
            let rest = key_index(s.skip(1), key, k);
            if rest == -1 {
                assert forall|j: int| 0 <= j < s.len() implies key(#[trigger] s[j]) != k by {
                    if j >= 1 {
                        assert(s.skip(1)[j - 1] == s[j]);
                    }
                }
            } else {
                assert(s.skip(1)[rest] == s[rest + 1]);
                assert forall|j: int| 0 <= j < idx implies key(#[trigger] s[j]) != k by {
                    if j >= 1 {
                        assert(s.skip(1)[j - 1] == s[j]);
                    }
                }
            }
        }
    }
}

/// A write into a keyed sequence: the full record replaces the first
/// record with its key, or is appended if the key is new.
pub open spec fn upsert<T>(s: Seq<T>, key: spec_fn(T) -> RecordKey, x: T) -> Seq<T> {
    let idx = key_index(s, key, key(x));
    if idx >= 0 {
        s.update(idx, x)
    } else {
        s.push(x)
    }
}

/// The records written under triple `t`, in insertion order.
pub open spec fn records_for<T>(s: Seq<T>, key: spec_fn(T) -> RecordKey, t: TripleKey) -> Seq<T>
    decreases s.len(),
{
    if s.len() == 0 {
        Seq::empty()
    } else if key(s[0]).0 == t {
        seq![s[0]] + records_for(s.skip(1), key, t)
    } else {
        records_for(s.skip(1), key, t)
    }
}

/// Appending a record of another triple leaves a triple's listing alone.
proof fn lemma_records_for_push<T>(s: Seq<T>, key: spec_fn(T) -> RecordKey, t: TripleKey, x: T)
    requires
        key(x).0 != t,
    ensures
        records_for(s.push(x), key, t) == records_for(s, key, t),
    decreases s.len(),
{
    if s.len() == 0 {
        assert(s.push(x)[0] == x);
        assert(s.push(x).skip(1) =~= s);
        assert(records_for(s.push(x), key, t) == records_for(s, key, t));
    } else {
        assert(s.push(x)[0] == s[0]);
        assert(s.push(x).skip(1) =~= s.skip(1).push(x));
        lemma_records_for_push(s.skip(1), key, t, x);
    }
}

/// Replacing a record of another triple with a record of another triple
/// leaves a triple's listing alone.
proof fn lemma_records_for_update<T>(
    s: Seq<T>,
    key: spec_fn(T) -> RecordKey,
    t: TripleKey,
    i: int,
    x: T,
)
    requires
        0 <= i < s.len(),
        key(s[i]).0 != t,
        key(x).0 != t,
    ensures
        records_for(s.update(i, x), key, t) == records_for(s, key, t),
    decreases s.len(),
{
    if i == 0 {
        assert(s.update(0, x)[0] == x);
        assert(s.update(0, x).skip(1) =~= s.skip(1));
    } else {
        assert(s.update(i, x)[0] == s[0]);
        assert(s.update(i, x).skip(1) =~= s.skip(1).update(i - 1, x));
        assert(s.skip(1)[i - 1] == s[i]);
        lemma_records_for_update(s.skip(1), key, t, i - 1, x);
    }
}

/// Writing a record under one triple never changes what a listing under a
/// different triple returns, even when the partition ids collide: the
/// collections are isolated by the full triple.
pub proof fn lemma_triple_isolation<T>(
    s: Seq<T>,
    key: spec_fn(T) -> RecordKey,
    x: T,
    t: TripleKey,
)
    requires
        key(x).0 != t,
    ensures
        records_for(upsert(s, key, x), key, t) == records_for(s, key, t),
{
    let idx = key_index(s, key, key(x));
    lemma_key_index(s, key, key(x));
    if idx >= 0 {
        assert(key(s[idx]) == key(x));
        lemma_records_for_update(s, key, t, idx, x);
    } else {
        lemma_records_for_push(s, key, t, x);
    }
}

/// The decimal digit `d` as a character.
pub open spec fn spec_digit_char(d: nat) -> char {
    if d == 0 {
        '0'
    } else if d == 1 {
        '1'
    } else if d == 2 {
        '2'
    } else if d == 3 {
        '3'
    } else if d == 4 {
        '4'
    } else if d == 5 {
        '5'
    } else if d == 6 {
        '6'
    } else if d == 7 {
        '7'
    } else if d == 8 {
        '8'
    } else {
        '9'
    }
}

/// The decimal rendering of `n`, most significant digit first.
pub open spec fn spec_decimal(n: nat) -> Seq<char>
    decreases n,
{
    if n < 10 {
        seq![spec_digit_char(n)]
    } else {
        spec_decimal(n / 10) + seq![spec_digit_char(n % 10)]
    }
}

/// A decimal rendering has at least one digit.
pub proof fn lemma_decimal_len(n: nat)
    ensures
        spec_decimal(n).len() >= 1,
    decreases n,
{
    if n >= 10 {
        lemma_decimal_len(n / 10);
    }
}

/// Different numbers render to different decimal strings.
pub proof fn lemma_decimal_injective(a: nat, b: nat)
    requires
        a != b,
    ensures
        spec_decimal(a) != spec_decimal(b),
    decreases a + b,
{
    lemma_decimal_len(a);
    lemma_decimal_len(b);
    if a < 10 && b < 10 {
        assert(spec_decimal(a)[0] == spec_digit_char(a));
        assert(spec_decimal(b)[0] == spec_digit_char(b));
        assert(spec_digit_char(a) != spec_digit_char(b));
    } else if a < 10 {
        lemma_decimal_len(b / 10);
        assert(spec_decimal(b).len() >= 2);
    } else if b < 10 {
        lemma_decimal_len(a / 10);
        assert(spec_decimal(a).len() >= 2);
    } else {
        if spec_decimal(a) == spec_decimal(b) {
            let pa = spec_decimal(a / 10);
            let pb = spec_decimal(b / 10);
            let da = spec_digit_char(a % 10);
            let db = spec_digit_char(b % 10);
            assert(spec_decimal(a) == pa + seq![da]);
            assert(spec_decimal(b) == pb + seq![db]);
            assert(pa.len() == pb.len());
            assert((pa + seq![da])[pa.len() as int] == da);
            assert((pb + seq![db])[pb.len() as int] == db);
            assert(da == db);
            assert(a % 10 == b % 10);
            vstd::arithmetic::div_mod::lemma_fundamental_div_mod(a as int, 10);
            vstd::arithmetic::div_mod::lemma_fundamental_div_mod(b as int, 10);
            assert(a / 10 != b / 10);
            lemma_decimal_injective((a / 10) as nat, (b / 10) as nat);
            assert(pa =~= (pa + seq![da]).subrange(0, pa.len() as int));
            assert(pb =~= (pb + seq![db]).subrange(0, pb.len() as int));
            assert(false);
        }
    }
}

/// Every ownership write issues an opaque etag of its own: records stored
/// at different revisions never carry the same etag, and the store's
/// revision advances with every successful write.
pub proof fn lemma_etags_are_fresh(
    stored1: Ownership,
    o1: Ownership,
    r1: u64,
    stored2: Ownership,
    o2: Ownership,
    r2: u64,
)
    requires
        r1 != r2,
        ownership_refreshed(stored1, o1, r1),
        ownership_refreshed(stored2, o2, r2),
    ensures
        ({
            &&& stored1.etag matches Some(e1)
            &&& stored2.etag matches Some(e2)
            &&& e1@ != e2@
        }),
{
    lemma_decimal_injective(r1 as nat, r2 as nat);
}

/// The decimal digit `d` as a one-character string.
fn digit_str(d: u64) -> (r: &'static str)
    requires
        d < 10,
    ensures
        r@ == seq![spec_digit_char(d as nat)],
{
    let r = match d {
        0 => "0",
        1 => "1",
        2 => "2",
        3 => "3",
        4 => "4",
        5 => "5",
        6 => "6",
        7 => "7",
        8 => "8",
        _ => "9",
    };
    proof {
        reveal_strlit("0");
        reveal_strlit("1");
        reveal_strlit("2");
        reveal_strlit("3");
        reveal_strlit("4");
        reveal_strlit("5");
        reveal_strlit("6");
        reveal_strlit("7");
        reveal_strlit("8");
        reveal_strlit("9");
        assert(r@ =~= seq![spec_digit_char(d as nat)]);
    }
    r
}

/// Renders `n` in decimal.
pub fn decimal_string(n: u64) -> (r: String)
    ensures
        r@ == spec_decimal(n as nat),
    decreases n,
{
    if n < 10 {
        digit_str(n).to_owned()
    } else {
        let prefix = decimal_string(n / 10);
        prefix.concat(digit_str(n % 10))
    }
}

/// A field-for-field copy of an ownership record.
fn clone_ownership(o: &Ownership) -> (r: Ownership)
    ensures
        r == *o,
{
    Ownership {
        fully_qualified_namespace: o.fully_qualified_namespace.clone(),
        event_hub_name: o.event_hub_name.clone(),
        consumer_group: o.consumer_group.clone(),
        partition_id: o.partition_id.clone(),
        owner_id: match &o.owner_id {
            Some(s) => Some(s.clone()),
            None => None,
        },
        last_modified_time: o.last_modified_time,
        etag: match &o.etag {
            Some(s) => Some(s.clone()),
            None => None,
        },
    }
}

/// A field-for-field copy of a checkpoint.
fn clone_checkpoint(c: &Checkpoint) -> (r: Checkpoint)
    ensures
        r == *c,
{
    Checkpoint {
        fully_qualified_namespace: c.fully_qualified_namespace.clone(),
        event_hub_name: c.event_hub_name.clone(),
        consumer_group: c.consumer_group.clone(),
        partition_id: c.partition_id.clone(),
        offset: match &c.offset {
            Some(s) => Some(s.clone()),
            None => None,
        },
        sequence_number: c.sequence_number,
    }
}

/// Whether two ownership records have the same key.
fn same_ownership_key(a: &Ownership, b: &Ownership) -> (r: bool)
    ensures
        r == (ownership_key(*a) == ownership_key(*b)),
{
    a.fully_qualified_namespace == b.fully_qualified_namespace && a.event_hub_name
        == b.event_hub_name && a.consumer_group == b.consumer_group && a.partition_id
        == b.partition_id
}

/// Whether two checkpoints have the same key.
fn same_checkpoint_key(a: &Checkpoint, b: &Checkpoint) -> (r: bool)
    ensures
        r == (checkpoint_key(*a) == checkpoint_key(*b)),
{
    a.fully_qualified_namespace == b.fully_qualified_namespace && a.event_hub_name
        == b.event_hub_name && a.consumer_group == b.consumer_group && a.partition_id
        == b.partition_id
}

/// What the store writes for an ownership update: the caller's record with
/// a refreshed modification stamp and a freshly issued etag.
pub open spec fn ownership_refreshed(stored: Ownership, o: Ownership, revision: u64) -> bool {
    &&& stored.fully_qualified_namespace@ == o.fully_qualified_namespace@
    &&& stored.event_hub_name@ == o.event_hub_name@
    &&& stored.consumer_group@ == o.consumer_group@
    &&& stored.partition_id@ == o.partition_id@
    &&& (match (stored.owner_id, o.owner_id) {
        (Some(a), Some(b)) => a@ == b@,
        (None, None) => true,
        _ => false,
    })
    &&& stored.last_modified_time == Some(revision)
    &&& (stored.etag matches Some(s) && s@ == spec_decimal(revision as nat))
}

/// An in-memory store of partition ownership and checkpoints for one
/// process.
#[derive(Debug)]
pub struct InMemoryCheckpointStore {
    /// Ownership records, one per key, in insertion order.
    pub ownerships: Vec<Ownership>,
    /// Checkpoints, one per key, in insertion order.
    pub checkpoints: Vec<Checkpoint>,
    /// Source of modification stamps and etags: bumped on every ownership
    /// write.
    pub revision: u64,
}

impl InMemoryCheckpointStore {
    /// Each collection holds at most one record per key.
    pub open spec fn wf(self) -> bool {
        &&& forall|i: int, j: int|
            0 <= i < j < self.ownerships@.len() ==> ownership_key(#[trigger] self.ownerships@[i])
                != ownership_key(#[trigger] self.ownerships@[j])
        &&& forall|i: int, j: int|
            0 <= i < j < self.checkpoints@.len() ==> checkpoint_key(
                #[trigger] self.checkpoints@[i],
            ) != checkpoint_key(#[trigger] self.checkpoints@[j])
    }

    /// An empty store.
    pub fn new() -> (r: Self)
        ensures
            r.wf(),
            r.ownerships@ == Seq::<Ownership>::empty(),
            r.checkpoints@ == Seq::<Checkpoint>::empty(),
            r.revision == 0,
    {
        InMemoryCheckpointStore { ownerships: Vec::new(), checkpoints: Vec::new(), revision: 0 }
    }

    /// The index of the ownership record with `o`'s key, if one exists.
    fn find_ownership(&self, o: &Ownership) -> (r: Option<usize>)
        ensures
            ({
                let idx = key_index(
                    self.ownerships@,
                    |x: Ownership| ownership_key(x),
                    ownership_key(*o),
                );
                match r {
                    Some(i) => idx == i,
                    None => idx == -1,
                }
            }),
    {
        let ghost keyf = |x: Ownership| ownership_key(x);
        let ghost k = ownership_key(*o);
        proof {
            lemma_key_index(self.ownerships@, keyf, k);
        }
        let mut i: usize = 0;
        while i < self.ownerships.len()
            invariant
                i <= self.ownerships@.len(),
                forall|j: int| 0 <= j < i ==> keyf(#[trigger] self.ownerships@[j]) != k,
                keyf == (|x: Ownership| ownership_key(x)),
                k == ownership_key(*o),
            decreases self.ownerships@.len() - i,
        {
            if same_ownership_key(&self.ownerships[i], o) {
                proof {
                    lemma_key_index(self.ownerships@, keyf, k);
                }
                return Some(i);
            }
            i = i + 1;
        }
        proof {
            lemma_key_index(self.ownerships@, keyf, k);
        }
        None
    }

    /// The index of the checkpoint with `c`'s key, if one exists.
    fn find_checkpoint(&self, c: &Checkpoint) -> (r: Option<usize>)
        ensures
            ({
                let idx = key_index(
                    self.checkpoints@,
                    |x: Checkpoint| checkpoint_key(x),
                    checkpoint_key(*c),
                );
                match r {
                    Some(i) => idx == i,
                    None => idx == -1,
                }
            }),
    {
        let ghost keyf = |x: Checkpoint| checkpoint_key(x);
        let ghost k = checkpoint_key(*c);
        proof {
            lemma_key_index(self.checkpoints@, keyf, k);
        }
        let mut i: usize = 0;
        while i < self.checkpoints.len()
            invariant
                i <= self.checkpoints@.len(),
                forall|j: int| 0 <= j < i ==> keyf(#[trigger] self.checkpoints@[j]) != k,
                keyf == (|x: Checkpoint| checkpoint_key(x)),
                k == checkpoint_key(*c),
            decreases self.checkpoints@.len() - i,
        {
            if same_checkpoint_key(&self.checkpoints[i], c) {
                proof {
                    lemma_key_index(self.checkpoints@, keyf, k);
                }
                return Some(i);
            }
            i = i + 1;
        }
        proof {
            lemma_key_index(self.checkpoints@, keyf, k);
        }
        None
    }

    /// Claims or refreshes the ownership of one partition.
    ///
    /// Rejects a record whose namespace, entity, consumer group, or
    /// partition id is empty with a validation error (never a storage
    /// error) and leaves the store untouched. Otherwise inserts or fully
    /// replaces the record for the key, refreshing the modification stamp
    /// and issuing a fresh opaque etag, and returns the stored record so
    /// the caller observes both. A stale etag on the way in is not
    /// rejected: the store is last-writer-wins.
    pub fn update_ownership(&mut self, ownership: &Ownership) -> (r: Result<Ownership, Error>)
        requires
            old(self).wf(),
            old(self).revision < u64::MAX,
        ensures
            final(self).wf(),
            final(self).checkpoints@ == old(self).checkpoints@,
            !ownership_fields_valid(*ownership) ==> (r matches Err(e) && e.kind
                == ErrorKind::Validation) && *final(self) == *old(self),
            ownership_fields_valid(*ownership) ==> ({
                &&& r matches Ok(stored)
                &&& ownership_refreshed(stored, *ownership, old(self).revision)
                &&& final(self).ownerships@ == upsert(
                    old(self).ownerships@,
                    |x: Ownership| ownership_key(x),
                    stored,
                )
                &&& final(self).revision == old(self).revision + 1
            }),
    {
        if self.ownership_invalid(ownership) {
            return Err(Error::message(ErrorKind::Validation, "ownership is missing a required field"));
        }
        let stored = Ownership {
            fully_qualified_namespace: ownership.fully_qualified_namespace.clone(),
            event_hub_name: ownership.event_hub_name.clone(),
            consumer_group: ownership.consumer_group.clone(),
            partition_id: ownership.partition_id.clone(),
            owner_id: match &ownership.owner_id {
                Some(s) => Some(s.clone()),
                None => None,
            },
            last_modified_time: Some(self.revision),
            etag: Some(decimal_string(self.revision)),
        };
        let returned = clone_ownership(&stored);
        let ghost keyf = |x: Ownership| ownership_key(x);
        let ghost pre = self.ownerships@;
        proof {
            lemma_key_index(pre, keyf, ownership_key(stored));
            assert(ownership_key(stored) == ownership_key(*ownership));
        }
        match self.find_ownership(&stored) {
            Some(i) => {
                self.ownerships.set(i, stored);
            },
            None => {
                self.ownerships.push(stored);
            },
        }
        self.revision = self.revision + 1;
        proof {
            lemma_key_index(pre, keyf, ownership_key(returned));
        }
        Ok(returned)
    }

    /// Whether a required ownership field is empty.
    fn ownership_invalid(&self, o: &Ownership) -> (r: bool)
        ensures
            r == !ownership_fields_valid(*o),
    {
        o.fully_qualified_namespace.as_str().is_empty() || o.event_hub_name.as_str().is_empty()
            || o.consumer_group.as_str().is_empty() || o.partition_id.as_str().is_empty()
    }

    /// Whether a required checkpoint field is empty.
    fn checkpoint_invalid(&self, c: &Checkpoint) -> (r: bool)
        ensures
            r == !checkpoint_fields_valid(*c),
    {
        c.fully_qualified_namespace.as_str().is_empty() || c.event_hub_name.as_str().is_empty()
            || c.consumer_group.as_str().is_empty() || c.partition_id.as_str().is_empty()
    }

    /// Records the consumption progress of one partition.
    ///
    /// Rejects a record whose namespace, entity, consumer group, or
    /// partition id is empty with a validation error and leaves the store
    /// untouched. Otherwise the record fully replaces — never partially
    /// updates — whatever the store held for the key.
    pub fn update_checkpoint(&mut self, checkpoint: Checkpoint) -> (r: Result<(), Error>)
        requires
            old(self).wf(),
        ensures
            final(self).wf(),
            final(self).ownerships@ == old(self).ownerships@,
            final(self).revision == old(self).revision,
            !checkpoint_fields_valid(checkpoint) ==> (r matches Err(e) && e.kind
                == ErrorKind::Validation) && *final(self) == *old(self),
            checkpoint_fields_valid(checkpoint) ==> r is Ok && final(self).checkpoints@ == upsert(
                old(self).checkpoints@,
                |x: Checkpoint| checkpoint_key(x),
                checkpoint,
            ),
    {
        if self.checkpoint_invalid(&checkpoint) {
            return Err(Error::message(ErrorKind::Validation, "checkpoint is missing a required field"));
        }
        let ghost keyf = |x: Checkpoint| checkpoint_key(x);
        let ghost pre = self.checkpoints@;
        proof {
            lemma_key_index(pre, keyf, checkpoint_key(checkpoint));
        }
        match self.find_checkpoint(&checkpoint) {
            Some(i) => {
                self.checkpoints.set(i, checkpoint);
            },
            None => {
                self.checkpoints.push(checkpoint);
            },
        }
        Ok(())
    }

    /// Lists the current owners under one triple, in insertion order.
    /// An untouched triple yields an empty listing, never an error.
    pub fn list_ownership(
        &self,
        fully_qualified_namespace: &str,
        event_hub_name: &str,
        consumer_group: &str,
    ) -> (r: Result<Vec<Ownership>, Error>)
        ensures
            r matches Ok(list) && list@ == records_for(
                self.ownerships@,
                |x: Ownership| ownership_key(x),
                (fully_qualified_namespace@, event_hub_name@, consumer_group@),
            ),
    {
        let ghost keyf = |x: Ownership| ownership_key(x);
        let ghost t = (fully_qualified_namespace@, event_hub_name@, consumer_group@);
        let ns = fully_qualified_namespace.to_owned();
        let eh = event_hub_name.to_owned();
        let cg = consumer_group.to_owned();
        let mut out: Vec<Ownership> = Vec::new();
        let mut i: usize = 0;
        proof {
            assert(self.ownerships@.skip(0) =~= self.ownerships@);
            assert(out@ + records_for(self.ownerships@, keyf, t) =~= records_for(
                self.ownerships@,
                keyf,
                t,
            ));
        }
        while i < self.ownerships.len()
            invariant
                i <= self.ownerships@.len(),
                ns@ == t.0,
                eh@ == t.1,
                cg@ == t.2,
                keyf == (|x: Ownership| ownership_key(x)),
                records_for(self.ownerships@, keyf, t) == out@ + records_for(
                    self.ownerships@.skip(i as int),
                    keyf,
                    t,
                ),
            decreases self.ownerships@.len() - i,
        {
            let ghost rest = self.ownerships@.skip(i as int);
            let o = &self.ownerships[i];
            proof {
                assert(rest[0] == self.ownerships@[i as int]);
                assert(rest.skip(1) =~= self.ownerships@.skip(i as int + 1));
            }
            let matches_triple = o.fully_qualified_namespace == ns && o.event_hub_name == eh
                && o.consumer_group == cg;
            if matches_triple {
                let ghost pre_out = out@;
                out.push(clone_ownership(o));
                proof {
                    assert((pre_out + seq![self.ownerships@[i as int]]) + records_for(
                        rest.skip(1),
                        keyf,
                        t,
                    ) =~= pre_out + (seq![self.ownerships@[i as int]] + records_for(
                        rest.skip(1),
                        keyf,
                        t,
                    )));
                }
            }
            i = i + 1;
        }
        proof {
            assert(self.ownerships@.skip(self.ownerships@.len() as int) =~= Seq::<
                Ownership,
            >::empty());
            assert(out@ + Seq::<Ownership>::empty() =~= out@);
        }
        Ok(out)
    }

    /// Lists the checkpoints under one triple, in insertion order.
    /// An untouched triple yields an empty listing, never an error.
    pub fn list_checkpoints(
        &self,
        fully_qualified_namespace: &str,
        event_hub_name: &str,
        consumer_group: &str,
    ) -> (r: Result<Vec<Checkpoint>, Error>)
        ensures
            r matches Ok(list) && list@ == records_for(
                self.checkpoints@,
                |x: Checkpoint| checkpoint_key(x),
                (fully_qualified_namespace@, event_hub_name@, consumer_group@),
            ),
    {
        let ghost keyf = |x: Checkpoint| checkpoint_key(x);
        let ghost t = (fully_qualified_namespace@, event_hub_name@, consumer_group@);
        let ns = fully_qualified_namespace.to_owned();
        let eh = event_hub_name.to_owned();
        let cg = consumer_group.to_owned();
        let mut out: Vec<Checkpoint> = Vec::new();
        let mut i: usize = 0;
        proof {
            assert(self.checkpoints@.skip(0) =~= self.checkpoints@);
            assert(out@ + records_for(self.checkpoints@, keyf, t) =~= records_for(
                self.checkpoints@,
                keyf,
                t,
            ));
        }
        while i < self.checkpoints.len()
            invariant
                i <= self.checkpoints@.len(),
                ns@ == t.0,
                eh@ == t.1,
                cg@ == t.2,
                keyf == (|x: Checkpoint| checkpoint_key(x)),
                records_for(self.checkpoints@, keyf, t) == out@ + records_for(
                    self.checkpoints@.skip(i as int),
                    keyf,
                    t,
                ),
            decreases self.checkpoints@.len() - i,
        {
            let ghost rest = self.checkpoints@.skip(i as int);
            let c = &self.checkpoints[i];
            proof {
                assert(rest[0] == self.checkpoints@[i as int]);
                assert(rest.skip(1) =~= self.checkpoints@.skip(i as int + 1));
            }
            let matches_triple = c.fully_qualified_namespace == ns && c.event_hub_name == eh
                && c.consumer_group == cg;
            if matches_triple {
                let ghost pre_out = out@;
                out.push(clone_checkpoint(c));
                proof {
                    assert((pre_out + seq![self.checkpoints@[i as int]]) + records_for(
                        rest.skip(1),
                        keyf,
                        t,
                    ) =~= pre_out + (seq![self.checkpoints@[i as int]] + records_for(
                        rest.skip(1),
                        keyf,
                        t,
                    )));
                }
            }
            i = i + 1;
        }
        proof {
            assert(self.checkpoints@.skip(self.checkpoints@.len() as int) =~= Seq::<
                Checkpoint,
            >::empty());
            assert(out@ + Seq::<Checkpoint>::empty() =~= out@);
        }
        Ok(out)
    }
}

/// A checkpoint written under one triple is invisible to a listing under
/// any other triple, even with an identical partition id.
pub proof fn lemma_checkpoint_write_isolated(
    s: Seq<Checkpoint>,
    c: Checkpoint,
    t: TripleKey,
)
    requires
        checkpoint_triple(c) != t,
    ensures
        records_for(upsert(s, |x: Checkpoint| checkpoint_key(x), c), |x: Checkpoint| checkpoint_key(x), t)
            == records_for(s, |x: Checkpoint| checkpoint_key(x), t),
{
    lemma_triple_isolation(s, |x: Checkpoint| checkpoint_key(x), c, t);
}

/// An ownership record written under one triple is invisible to a listing
/// under any other triple, even with an identical partition id.
pub proof fn lemma_ownership_write_isolated(
    s: Seq<Ownership>,
    o: Ownership,
    t: TripleKey,
)
    requires
        ownership_triple(o) != t,
    ensures
        records_for(upsert(s, |x: Ownership| ownership_key(x), o), |x: Ownership| ownership_key(x), t)
            == records_for(s, |x: Ownership| ownership_key(x), t),
{
    lemma_triple_isolation(s, |x: Ownership| ownership_key(x), o, t);
}

} // verus!

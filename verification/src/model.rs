//! The mathematical model of a store, and the laws that hold of it.

use vstd::prelude::*;
use vstd::utf8::encode_utf8;

verus! {

/// What a store is, as far as its callers can tell: the secret's bytes and
/// the bytes of the current state snapshot.
pub struct StoreModel {
    pub secret: Seq<u8>,
    pub state: Seq<u8>,
}

/// The passphrase that a configuration stands for: the one it holds, or the
/// empty passphrase where it holds none.
pub open spec fn effective_passphrase(password: Option<Seq<char>>) -> Seq<char> {
    match password {
        Some(p) => p,
        None => Seq::empty(),
    }
}

/// The secret derived from a configuration: the UTF-8 encoding of its
/// effective passphrase.
pub open spec fn secret_bytes(password: Option<Seq<char>>) -> Seq<u8> {
    encode_utf8(effective_passphrase(password))
}

impl StoreModel {
    /// The store as it is right after construction: the secret derived from
    /// the passphrase, and the empty state.
    pub open spec fn initial(password: Option<Seq<char>>) -> StoreModel {
        StoreModel { secret: secret_bytes(password), state: Seq::empty() }
    }

    /// The store after one write: the state is replaced as a whole, the
    /// secret is untouched.
    pub open spec fn write(self, state: Seq<u8>) -> StoreModel {
        StoreModel { secret: self.secret, state }
    }

    /// The store after the writes of `writes`, applied first to last.
    pub open spec fn write_all(self, writes: Seq<Seq<u8>>) -> StoreModel
        decreases writes.len(),
    {
        if writes.len() == 0 {
            self
        } else {
            self.write_all(writes.drop_last()).write(writes.last())
        }
    }
}

/// Whether `merged` holds the writes of two callers, `a` and `b`, in an
/// order that keeps each caller's own order: one way in which the lock may
/// have been handed to them.
pub open spec fn interleaves(a: Seq<Seq<u8>>, b: Seq<Seq<u8>>, merged: Seq<Seq<u8>>) -> bool
    decreases merged.len(),
{
    if merged.len() == 0 {
        a.len() == 0 && b.len() == 0
    } else {
        ||| (a.len() > 0 && a.last() == merged.last() && interleaves(
            a.drop_last(),
            b,
            merged.drop_last(),
        ))
        ||| (b.len() > 0 && b.last() == merged.last() && interleaves(
            a,
            b.drop_last(),
            merged.drop_last(),
        ))
    }
}

/// A store built without a passphrase has the secret of a store built with
/// the empty passphrase, and that secret has no bytes.
pub proof fn lemma_absent_passphrase_is_empty()
    ensures
        secret_bytes(None) == secret_bytes(Some(Seq::<char>::empty())),
        secret_bytes(None) == Seq::<u8>::empty(),
{
    assert(encode_utf8(Seq::<char>::empty()) =~= Seq::<u8>::empty());
}

/// A freshly built store holds the encoding of its passphrase as secret and
/// the empty snapshot as state.
pub proof fn lemma_initial_store(password: Option<Seq<char>>)
    ensures
        StoreModel::initial(password).secret == encode_utf8(effective_passphrase(password)),
        StoreModel::initial(password).state == Seq::<u8>::empty(),
{
}

/// Last write wins: after any non-empty run of writes the state is the one
/// written last, whatever the store held before.
pub proof fn lemma_last_write_wins(store: StoreModel, writes: Seq<Seq<u8>>)
    requires
        writes.len() > 0,
    ensures
        store.write_all(writes).state == writes.last(),
{
}

/// No write touches the secret: after any run of writes the secret is the
/// one the store was built with.
pub proof fn lemma_secret_survives_writes(store: StoreModel, writes: Seq<Seq<u8>>)
    ensures
        store.write_all(writes).secret == store.secret,
    decreases writes.len(),
{
    if writes.len() > 0 {
        lemma_secret_survives_writes(store, writes.drop_last());
    }
}

/// A read never makes a value up: at every point of a run of writes, the
/// state is either the one the run started from or exactly one of the
/// values written so far.
pub proof fn lemma_reads_see_only_written(store: StoreModel, writes: Seq<Seq<u8>>, done: int)
    requires
        0 <= done <= writes.len(),
    ensures
        ({
            let seen = store.write_all(writes.take(done)).state;
            (done == 0 && seen == store.state) || (done > 0 && seen == writes[done - 1])
        }),
{
    if done > 0 {
        assert(writes.take(done).last() == writes[done - 1]);
    } else {
        assert(writes.take(done).len() == 0);
    }
}

/// Two callers that write in turns, in whatever order, leave the last write
/// of one of them: the state is never a mixture of two writes.
pub proof fn lemma_two_writers_leave_one_write(
    store: StoreModel,
    a: Seq<Seq<u8>>,
    b: Seq<Seq<u8>>,
    merged: Seq<Seq<u8>>,
)
    requires
        interleaves(a, b, merged),
        merged.len() > 0,
    ensures
        (a.len() > 0 && store.write_all(merged).state == a.last()) || (b.len() > 0
            && store.write_all(merged).state == b.last()),
{
}

/// Every write in an interleaving was issued by one of the two callers, so
/// with the law on reads, no read between their writes sees a value that
/// neither wrote.
pub proof fn lemma_interleaving_holds_only_written(
    a: Seq<Seq<u8>>,
    b: Seq<Seq<u8>>,
    merged: Seq<Seq<u8>>,
    i: int,
)
    requires
        interleaves(a, b, merged),
        0 <= i < merged.len(),
    ensures
        a.contains(merged[i]) || b.contains(merged[i]),
    decreases merged.len(),
{
    let from_a = a.len() > 0 && a.last() == merged.last() && interleaves(
        a.drop_last(),
        b,
        merged.drop_last(),
    );
    if i == merged.len() - 1 {
        if from_a {
            assert(a[a.len() - 1] == merged[i]);
        } else {
            assert(b[b.len() - 1] == merged[i]);
        }
    } else if from_a {
        lemma_interleaving_holds_only_written(a.drop_last(), b, merged.drop_last(), i);
        if a.drop_last().contains(merged[i]) {
            let j: int = choose|j: int| 0 <= j < a.drop_last().len() && a.drop_last()[j] == merged[i];
            assert(a[j] == merged[i]);
        }
    } else {
        lemma_interleaving_holds_only_written(a, b.drop_last(), merged.drop_last(), i);
        if b.drop_last().contains(merged[i]) {
            let j: int = choose|j: int| 0 <= j < b.drop_last().len() && b.drop_last()[j] == merged[i];
            assert(b[j] == merged[i]);
        }
    }
}

} // verus!

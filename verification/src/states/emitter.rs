use crate::common::error::WormholeError;
use crate::common::pubkey::Pubkey;
use std::collections::HashMap;
use vstd::prelude::*;

verus! {

broadcast use vstd::std_specs::hash::group_hash_axioms;

/// The emitters from which attested messages are accepted: for each foreign
/// chain at most one address.
pub struct ForeignEmitterRegistry {
    emitters: HashMap<u16, Pubkey>,
}

impl View for ForeignEmitterRegistry {
    type V = Map<u16, Pubkey>;

    closed spec fn view(&self) -> Map<u16, Pubkey> {
        self.emitters@
    }
}

impl ForeignEmitterRegistry {
    /// A registry without emitters.
    pub fn new() -> (registry: ForeignEmitterRegistry)
        ensures
            registry@ == Map::<u16, Pubkey>::empty(),
    {
        ForeignEmitterRegistry { emitters: HashMap::new() }
    }

    /// Makes `emitter` the emitter of `chain`, in place of any other.
    pub fn register_emitter(&mut self, chain: u16, emitter: Pubkey)
        ensures
            final(self)@ == old(self)@.insert(chain, emitter),
    {
        self.emitters.insert(chain, emitter);
    }

    /// The emitter registered for `chain`, if there is one.
    pub fn emitter_of(&self, chain: u16) -> (emitter: Option<Pubkey>)
        ensures
            emitter == if self@.contains_key(chain) {
                Some(self@[chain])
            } else {
                None
            },
    {
        match self.emitters.get(&chain) {
            Some(emitter) => Some(*emitter),
            None => None,
        }
    }
}

/// The last sequence number consumed from one emitter of one chain.
#[derive(Clone, Copy, Debug, PartialEq, Eq)]
pub struct SequenceEntry {
    pub chain: u16,
    pub emitter: Pubkey,
    pub sequence: u64,
}

impl SequenceEntry {
    /// Whether the entry is the one of `emitter` on `chain`.
    pub open spec fn is_for(&self, chain: u16, emitter: Pubkey) -> bool {
        self.chain == chain && self.emitter == emitter
    }
}

/// The sequence number that `entries` hold for an emitter: that of the last
/// entry for it.
pub open spec fn last_consumed_in(entries: Seq<SequenceEntry>, chain: u16, emitter: Pubkey)
    -> Option<u64>
    decreases entries.len(),
{
    if entries.len() == 0 {
        None
    } else if entries.last().is_for(chain, emitter) {
        Some(entries.last().sequence)
    } else {
        last_consumed_in(entries.drop_last(), chain, emitter)
    }
}

/// Whether a sequence number is new to an emitter whose last consumed one is
/// `last`: there is none, or the number is greater.
pub open spec fn is_fresh_sequence(last: Option<u64>, sequence: u64) -> bool {
    match last {
        Some(consumed) => sequence > consumed,
        None => true,
    }
}

/// For each emitter of each chain, the last sequence number consumed from it:
/// the defence against a message that is presented twice.
pub struct SequenceLedger {
    entries: Vec<SequenceEntry>,
}

impl View for SequenceLedger {
    type V = Map<(u16, Pubkey), u64>;

    closed spec fn view(&self) -> Map<(u16, Pubkey), u64> {
        Map::new(
            |k: (u16, Pubkey)| last_consumed_in(self.entries@, k.0, k.1) is Some,
            |k: (u16, Pubkey)| last_consumed_in(self.entries@, k.0, k.1)->Some_0,
        )
    }
}

/// The last sequence number that a ledger holds for an emitter.
pub open spec fn last_consumed_spec(ledger: Map<(u16, Pubkey), u64>, chain: u16, emitter: Pubkey)
    -> Option<u64> {
    if ledger.contains_key((chain, emitter)) {
        Some(ledger[(chain, emitter)])
    } else {
        None
    }
}

proof fn lemma_last_match(entries: Seq<SequenceEntry>, chain: u16, emitter: Pubkey, i: int)
    requires
        0 <= i < entries.len(),
        entries[i].is_for(chain, emitter),
        forall|j: int| i < j < entries.len() ==> !(#[trigger] entries[j]).is_for(chain, emitter),
    ensures
        last_consumed_in(entries, chain, emitter) == Some(entries[i].sequence),
    decreases entries.len(),
{
    if i < entries.len() - 1 {
        lemma_last_match(entries.drop_last(), chain, emitter, i);
    }
}

proof fn lemma_no_match(entries: Seq<SequenceEntry>, chain: u16, emitter: Pubkey)
    requires
        forall|j: int| 0 <= j < entries.len() ==> !(#[trigger] entries[j]).is_for(chain, emitter),
    ensures
        last_consumed_in(entries, chain, emitter) is None,
    decreases entries.len(),
{
    if entries.len() > 0 {
        lemma_no_match(entries.drop_last(), chain, emitter);
    }
}

proof fn lemma_replace_last_match(
    entries: Seq<SequenceEntry>,
    entry: SequenceEntry,
    i: int,
    chain: u16,
    emitter: Pubkey,
)
    requires
        0 <= i < entries.len(),
        entries[i].is_for(entry.chain, entry.emitter),
        forall|j: int|
            i < j < entries.len() ==> !(#[trigger] entries[j]).is_for(entry.chain, entry.emitter),
    ensures
        last_consumed_in(entries.update(i, entry), chain, emitter) == if entry.is_for(
            chain,
            emitter,
        ) {
            Some(entry.sequence)
        } else {
            last_consumed_in(entries, chain, emitter)
        },
    decreases entries.len(),
{
    let updated = entries.update(i, entry);
    if i == entries.len() - 1 {
        assert(updated.drop_last() =~= entries.drop_last());
    } else {
        assert(updated.drop_last() =~= entries.drop_last().update(i, entry));
        assert(updated.last() == entries.last());
        assert(!entries[entries.len() - 1].is_for(entry.chain, entry.emitter));
        lemma_replace_last_match(entries.drop_last(), entry, i, chain, emitter);
    }
}

proof fn lemma_append(entries: Seq<SequenceEntry>, entry: SequenceEntry, chain: u16, emitter: Pubkey)
    ensures
        last_consumed_in(entries.push(entry), chain, emitter) == if entry.is_for(chain, emitter) {
            Some(entry.sequence)
        } else {
            last_consumed_in(entries, chain, emitter)
        },
{
    assert(entries.push(entry).drop_last() =~= entries);
}

impl SequenceLedger {
    /// A ledger from which nothing has been consumed.
    pub fn new() -> (ledger: SequenceLedger)
        ensures
            ledger@ == Map::<(u16, Pubkey), u64>::empty(),
    {
        let ledger = SequenceLedger { entries: Vec::new() };
        assert(ledger@ =~= Map::<(u16, Pubkey), u64>::empty());
        ledger
    }

    /// Where the emitter's entry is, if it has one.
    fn position(&self, chain: u16, emitter: &Pubkey) -> (found: Option<usize>)
        ensures
            match found {
                Some(i) => {
                    &&& i < self.entries@.len()
                    &&& self.entries@[i as int].is_for(chain, *emitter)
                    &&& forall|j: int|
                        i < j < self.entries@.len() ==> !(#[trigger] self.entries@[j]).is_for(
                            chain,
                            *emitter,
                        )
                },
                None => forall|j: int|
                    0 <= j < self.entries@.len() ==> !(#[trigger] self.entries@[j]).is_for(
                        chain,
                        *emitter,
                    ),
            },
    {
        let mut i: usize = self.entries.len();
        while i > 0
            invariant
                i <= self.entries@.len(),
                forall|j: int|
                    i <= j < self.entries@.len() ==> !(#[trigger] self.entries@[j]).is_for(
                        chain,
                        *emitter,
                    ),
            decreases i,
        {
            i -= 1;
            if self.entries[i].chain == chain && self.entries[i].emitter == *emitter {
                return Some(i);
            }
        }
        None
    }

    /// The last sequence number consumed from `emitter` on `chain`, if any
    /// was.
    pub fn last_consumed(&self, chain: u16, emitter: &Pubkey) -> (last: Option<u64>)
        ensures
            last == last_consumed_spec(self@, chain, *emitter),
    {
        match self.position(chain, emitter) {
            Some(i) => {
                proof {
                    lemma_last_match(self.entries@, chain, *emitter, i as int);
                }
                Some(self.entries[i].sequence)
            },
            None => {
                proof {
                    lemma_no_match(self.entries@, chain, *emitter);
                }
                None
            },
        }
    }

    /// Consumes `sequence` from `emitter` on `chain`.
    ///
    /// A number that is new to the emitter becomes its last consumed one, and
    /// no other emitter's entry changes. A number at or below the emitter's
    /// last consumed one is turned down with `InvalidSequence`, and the ledger
    /// stays as it was.
    pub fn consume(&mut self, chain: u16, emitter: Pubkey, sequence: u64) -> (result: Result<
        (),
        WormholeError,
    >)
        ensures
            match result {
                Ok(()) => {
                    &&& is_fresh_sequence(last_consumed_spec(old(self)@, chain, emitter), sequence)
                    &&& final(self)@ == old(self)@.insert((chain, emitter), sequence)
                },
                Err(e) => {
                    &&& !is_fresh_sequence(
                        last_consumed_spec(old(self)@, chain, emitter),
                        sequence,
                    )
                    &&& e == WormholeError::InvalidSequence
                    &&& final(self)@ == old(self)@
                },
            },
    {
        let entry = SequenceEntry { chain, emitter, sequence };
        let ghost before = self.entries@;
        match self.position(chain, &emitter) {
            Some(i) => {
                proof {
                    lemma_last_match(before, chain, emitter, i as int);
                }
                if sequence <= self.entries[i].sequence {
                    return Err(WormholeError::InvalidSequence);
                }
                self.entries.set(i, entry);
                proof {
                    assert forall|k: (u16, Pubkey)|
                        last_consumed_in(self.entries@, k.0, k.1) == if k == (chain, emitter) {
                            Some(sequence)
                        } else {
                            last_consumed_in(before, k.0, k.1)
                        } by {
                        lemma_replace_last_match(before, entry, i as int, k.0, k.1);
                    }
                }
            },
            None => {
                proof {
                    lemma_no_match(before, chain, emitter);
                }
                self.entries.push(entry);
                proof {
                    assert forall|k: (u16, Pubkey)|
                        last_consumed_in(self.entries@, k.0, k.1) == if k == (chain, emitter) {
                            Some(sequence)
                        } else {
                            last_consumed_in(before, k.0, k.1)
                        } by {
                        lemma_append(before, entry, k.0, k.1);
                    }
                }
            },
        }
        assert(self@ =~= old(self)@.insert((chain, emitter), sequence));
        Ok(())
    }
}

} // verus!

//! The breakpoint table.
//!
//! A software breakpoint is the trap byte `0xCC` written over the first byte
//! of an instruction. The table remembers, for every address, the byte that
//! the trap displaced and whether the trap is in place. It never touches the
//! tracee: the caller reads the word at the address, hands it in, and writes
//! back the word the table returns.

use std::collections::HashMap;
use vstd::prelude::*;
use crate::error::DebugError;
use crate::seqs::{lemma_push_contains, lemma_take_next};

verus! {

broadcast use vstd::std_specs::hash::group_hash_axioms;

/// The `int3` instruction byte.
pub const TRAP: u8 = 0xCC;

/// What the table holds for one address.
#[derive(PartialEq, Eq, Structural, Clone, Copy, Debug)]
pub struct Breakpoint {
    /// The byte that was at the address at the most recent installation; 0
    /// while the breakpoint has never been installed.
    pub saved: u8,
    /// Whether the trap byte is in place.
    pub enabled: bool,
}

/// A word of tracee memory together with the address it was read from or is
/// to be written to.
#[derive(PartialEq, Eq, Structural, Clone, Copy, Debug)]
pub struct WordAt {
    pub address: u64,
    pub word: u64,
}

/// The byte at the lowest address of a word as ptrace hands it out.
pub open spec fn low_byte(word: u64) -> u8 {
    (word % 256) as u8
}

/// `word` with its lowest byte replaced by `byte`; the other seven bytes stay.
pub open spec fn with_low_byte(word: u64, byte: u8) -> u64 {
    (word - word % 256 + byte) as u64
}

/// The table has an installed breakpoint at `a`.
pub open spec fn installed(t: Map<u64, Breakpoint>, a: u64) -> bool {
    t.contains_key(a) && t[a].enabled
}

/// The table after `add_pending(a)`.
pub open spec fn pending_table(t: Map<u64, Breakpoint>, a: u64) -> Map<u64, Breakpoint> {
    if t.contains_key(a) {
        t
    } else {
        t.insert(a, Breakpoint { saved: 0, enabled: false })
    }
}

/// An installation at `a` goes ahead: none is in place and the byte there
/// is not already a trap.
pub open spec fn installable(t: Map<u64, Breakpoint>, a: u64, byte: u8) -> bool {
    !installed(t, a) && byte != TRAP
}

/// The table after `install(a)` where `byte` is the byte found at `a`.
pub open spec fn install_table(t: Map<u64, Breakpoint>, a: u64, byte: u8) -> Map<u64, Breakpoint> {
    if installable(t, a, byte) {
        t.insert(a, Breakpoint { saved: byte, enabled: true })
    } else {
        t
    }
}

/// The byte at `a` after `install(a)` where `byte` was there before.
pub open spec fn install_byte(t: Map<u64, Breakpoint>, a: u64, byte: u8) -> u8 {
    if installable(t, a, byte) {
        TRAP
    } else {
        byte
    }
}

/// The table after `remove(a)`.
pub open spec fn remove_table(t: Map<u64, Breakpoint>, a: u64) -> Map<u64, Breakpoint> {
    if installed(t, a) {
        t.insert(a, Breakpoint { saved: t[a].saved, enabled: false })
    } else {
        t
    }
}

/// The byte at `a` after `remove(a)` where `byte` was there before.
pub open spec fn remove_byte(t: Map<u64, Breakpoint>, a: u64, byte: u8) -> u8 {
    if installed(t, a) {
        t[a].saved
    } else {
        byte
    }
}

/// Every installed breakpoint of `t` has the trap byte at its address in the
/// memory `m`.
pub open spec fn traps_in_place(t: Map<u64, Breakpoint>, m: Map<u64, u8>) -> bool {
    forall|a: u64| #[trigger] installed(t, a) ==> m.contains_key(a) && m[a] == TRAP
}

/// The table after every breakpoint that can be installed has been, in the
/// memory `m`. An address that `m` does not hold is left as it is.
pub open spec fn enable_all_table(t: Map<u64, Breakpoint>, m: Map<u64, u8>) -> Map<u64, Breakpoint> {
    Map::new(
        |a: u64| t.contains_key(a),
        |a: u64| if m.contains_key(a) { install_table(t, a, m[a])[a] } else { t[a] },
    )
}

/// The memory after every breakpoint that can be installed has been.
pub open spec fn enable_all_memory(t: Map<u64, Breakpoint>, m: Map<u64, u8>) -> Map<u64, u8> {
    Map::new(
        |a: u64| m.contains_key(a),
        |a: u64| if t.contains_key(a) { install_byte(t, a, m[a]) } else { m[a] },
    )
}

/// The table after every installed breakpoint whose address `m` holds has
/// been removed.
pub open spec fn disable_all_table(t: Map<u64, Breakpoint>, m: Map<u64, u8>) -> Map<u64, Breakpoint> {
    Map::new(
        |a: u64| t.contains_key(a),
        |a: u64| if m.contains_key(a) { remove_table(t, a)[a] } else { t[a] },
    )
}

/// The memory after every installed breakpoint has been removed.
pub open spec fn disable_all_memory(t: Map<u64, Breakpoint>, m: Map<u64, u8>) -> Map<u64, u8> {
    Map::new(
        |a: u64| m.contains_key(a),
        |a: u64| if t.contains_key(a) { remove_byte(t, a, m[a]) } else { m[a] },
    )
}

/// The table with every breakpoint marked as not installed.
pub open spec fn forgotten(t: Map<u64, Breakpoint>) -> Map<u64, Breakpoint> {
    Map::new(
        |a: u64| t.contains_key(a),
        |a: u64| Breakpoint { saved: t[a].saved, enabled: false },
    )
}

/// The lowest byte of each word that was read, by address.
pub open spec fn bytes_read(words: Map<u64, u64>) -> Map<u64, u8> {
    Map::new(|a: u64| words.contains_key(a), |a: u64| low_byte(words[a]))
}

/// Replacing the lowest byte of a word sets that byte and no other, and
/// putting the old byte back gives the old word.
pub proof fn lemma_low_byte_replaced(word: u64, byte: u8)
    ensures
        low_byte(with_low_byte(word, byte)) == byte,
        with_low_byte(word, byte) / 256 == word / 256,
        with_low_byte(with_low_byte(word, byte), low_byte(word)) == word,
        with_low_byte(word, low_byte(word)) == word,
{
}

/// Replaces the lowest byte of `word`.
pub fn patch_word(word: u64, byte: u8) -> (patched: u64)
    ensures
        patched == with_low_byte(word, byte),
{
    let b: u64 = byte as u64;
    assert((word & !0xffu64) | b == word - word % 256 + b) by (bit_vector)
        requires
            b < 256,
    ;
    (word & !0xffu64) | b
}

/// The lowest byte of `word`.
pub fn first_byte(word: u64) -> (byte: u8)
    ensures
        byte == low_byte(word),
{
    (word % 256) as u8
}

/// The set of breakpoints, by address.
pub struct BreakpointTable {
    entries: HashMap<u64, Breakpoint>,
    /// The addresses of `entries`, in the order in which they were recorded.
    order: Vec<u64>,
}

impl View for BreakpointTable {
    type V = Map<u64, Breakpoint>;

    closed spec fn view(&self) -> Map<u64, Breakpoint> {
        self.entries@
    }
}

impl BreakpointTable {
    /// The table is in order: its list of addresses names exactly the
    /// addresses it holds an entry for.
    pub closed spec fn wf(&self) -> bool {
        forall|a: u64| self.entries@.contains_key(a) <==> self.order@.contains(a)
    }

    /// An empty table.
    pub fn new() -> (table: Self)
        ensures
            table.wf(),
            table@ == Map::<u64, Breakpoint>::empty(),
    {
        BreakpointTable { entries: HashMap::new(), order: Vec::new() }
    }

    /// What the table holds for `address`.
    pub fn get(&self, address: u64) -> (entry: Option<Breakpoint>)
        ensures
            entry == (if self@.contains_key(address) {
                Some(self@[address])
            } else {
                None
            }),
    {
        match self.entries.get(&address) {
            Some(b) => Some(*b),
            None => None,
        }
    }

    /// Whether a breakpoint is installed at `address`.
    pub fn is_installed(&self, address: u64) -> (yes: bool)
        ensures
            yes == installed(self@, address),
    {
        match self.entries.get(&address) {
            Some(b) => b.enabled,
            None => false,
        }
    }

    /// Records a breakpoint at `address` without installing it. An address
    /// that the table already holds keeps its state.
    pub fn add_pending(&mut self, address: u64)
        requires
            old(self).wf(),
        ensures
            final(self).wf(),
            final(self)@ == pending_table(old(self)@, address),
    {
        if !self.entries.contains_key(&address) {
            self.record(address, Breakpoint { saved: 0, enabled: false });
        }
    }

    /// Sets the entry of `address`, listing the address if it is new.
    fn record(&mut self, address: u64, entry: Breakpoint)
        requires
            old(self).wf(),
        ensures
            final(self).wf(),
            final(self)@ == old(self)@.insert(address, entry),
    {
        let known = self.entries.contains_key(&address);
        self.entries.insert(address, entry);
        if !known {
            proof {
                lemma_push_contains(self.order@, address);
            }
            self.order.push(address);
        }
    }

    /// Installs the breakpoint at `address`, given the word the caller read
    /// there.
    ///
    /// Returns the word to write back: the word read with its lowest byte
    /// replaced by the trap byte. Where a breakpoint is already installed
    /// nothing changes and nothing is to be written. Where none is installed
    /// and the byte read is already a trap, the displaced byte cannot be
    /// known and the installation is refused.
    pub fn install(&mut self, address: u64, word: u64) -> (write: Result<Option<u64>, DebugError>)
        requires
            old(self).wf(),
        ensures
            final(self).wf(),
            final(self)@ == install_table(old(self)@, address, low_byte(word)),
            write == (if installed(old(self)@, address) {
                Ok::<Option<u64>, DebugError>(None)
            } else if low_byte(word) == TRAP {
                Err::<Option<u64>, DebugError>(DebugError::BreakpointStateInconsistent)
            } else {
                Ok::<Option<u64>, DebugError>(Some(with_low_byte(word, TRAP)))
            }),
    {
        if self.is_installed(address) {
            return Ok(None);
        }
        let byte = first_byte(word);
        if byte == TRAP {
            return Err(DebugError::BreakpointStateInconsistent);
        }
        self.record(address, Breakpoint { saved: byte, enabled: true });
        Ok(Some(patch_word(word, TRAP)))
    }

    /// Removes the installed breakpoint at `address`, given the word the
    /// caller read there.
    ///
    /// Returns the word to write back: the word read with its lowest byte
    /// replaced by the saved byte. The entry stays in the table, disabled.
    /// Removing where none is installed is an error and changes nothing.
    pub fn remove(&mut self, address: u64, word: u64) -> (write: Result<u64, DebugError>)
        requires
            old(self).wf(),
        ensures
            final(self).wf(),
            final(self)@ == remove_table(old(self)@, address),
            write == (if installed(old(self)@, address) {
                Ok::<u64, DebugError>(with_low_byte(word, old(self)@[address].saved))
            } else {
                Err::<u64, DebugError>(DebugError::BreakpointStateInconsistent)
            }),
    {
        let saved = match self.entries.get(&address) {
            Some(b) => {
                if !b.enabled {
                    return Err(DebugError::BreakpointStateInconsistent);
                }
                b.saved
            },
            None => {
                return Err(DebugError::BreakpointStateInconsistent);
            },
        };
        self.record(address, Breakpoint { saved, enabled: false });
        Ok(patch_word(word, saved))
    }

    /// Forgets the breakpoint at `address`. The caller removes it from the
    /// tracee first: an installed breakpoint is not forgotten.
    pub fn clear_breakpoint(&mut self, address: u64) -> (done: Result<(), DebugError>)
        requires
            old(self).wf(),
        ensures
            final(self).wf(),
            installed(old(self)@, address) ==> final(self)@ == old(self)@ && done == Err::<
                (),
                DebugError,
            >(DebugError::BreakpointStateInconsistent),
            !installed(old(self)@, address) ==> final(self)@ == old(self)@.remove(address) && done
                == Ok::<(), DebugError>(()),
    {
        if self.is_installed(address) {
            return Err(DebugError::BreakpointStateInconsistent);
        }
        let mut kept: Vec<u64> = Vec::new();
        let mut i: usize = 0;
        while i < self.order.len()
            invariant
                i <= self.order@.len(),
                forall|a: u64|
                    kept@.contains(a) <==> a != address && self.order@.take(i as int).contains(a),
            decreases self.order@.len() - i,
        {
            let a = self.order[i];
            proof {
                lemma_take_next(self.order@, i as int);
                lemma_push_contains(kept@, a);
            }
            if a != address {
                kept.push(a);
            }
            i += 1;
        }
        assert(self.order@.take(i as int) =~= self.order@);
        self.entries.remove(&address);
        self.order = kept;
        Ok(())
    }

    /// Marks every breakpoint as not installed without asking for any write:
    /// for a tracee that is gone, whose memory went with it.
    pub fn forget_installations(&mut self)
        requires
            old(self).wf(),
        ensures
            final(self).wf(),
            final(self)@ == forgotten(old(self)@),
    {
        let todo = self.enabled();
        let ghost t0 = self@;
        let mut i: usize = 0;
        while i < todo.len()
            invariant
                i <= todo@.len(),
                self.wf(),
                forall|a: u64| todo@.contains(a) <==> installed(t0, a),
                self@.dom() == t0.dom(),
                forall|a: u64|
                    t0.contains_key(a) ==> #[trigger] self@[a] == (if todo@.take(i as int).contains(
                        a,
                    ) {
                        forgotten(t0)[a]
                    } else {
                        t0[a]
                    }),
            decreases todo@.len() - i,
        {
            let a = todo[i];
            proof {
                lemma_take_next(todo@, i as int);
                assert(todo@.contains(a));
                assert(installed(t0, a));
            }
            let saved = match self.entries.get(&a) {
                Some(b) => b.saved,
                None => 0,
            };
            self.record(a, Breakpoint { saved, enabled: false });
            assert(self@.dom() =~= t0.dom());
            i += 1;
        }
        proof {
            assert(todo@.take(i as int) =~= todo@);
            assert(self@ =~= forgotten(t0));
        }
    }

    /// The addresses whose breakpoint is recorded and not installed.
    pub fn disabled(&self) -> (list: Vec<u64>)
        requires
            self.wf(),
        ensures
            forall|a: u64| list@.contains(a) <==> self@.contains_key(a) && !self@[a].enabled,
    {
        self.select(false)
    }

    /// The addresses whose breakpoint is installed.
    pub fn enabled(&self) -> (list: Vec<u64>)
        requires
            self.wf(),
        ensures
            forall|a: u64| list@.contains(a) <==> installed(self@, a),
    {
        self.select(true)
    }

    fn select(&self, state: bool) -> (list: Vec<u64>)
        requires
            self.wf(),
        ensures
            forall|a: u64| list@.contains(a) <==> self@.contains_key(a) && self@[a].enabled == state,
    {
        let mut list: Vec<u64> = Vec::new();
        let mut i: usize = 0;
        while i < self.order.len()
            invariant
                i <= self.order@.len(),
                self.wf(),
                forall|a: u64|
                    list@.contains(a) <==> self.order@.take(i as int).contains(a)
                        && self.entries@[a].enabled == state,
            decreases self.order@.len() - i,
        {
            let a = self.order[i];
            proof {
                lemma_take_next(self.order@, i as int);
                lemma_push_contains(list@, a);
                assert(self.order@.contains(a));
            }
            if let Some(b) = self.entries.get(&a) {
                if b.enabled == state {
                    list.push(a);
                }
            }
            i += 1;
        }
        assert(self.order@.take(i as int) =~= self.order@);
        list
    }

    /// Installs every breakpoint that is recorded and not installed, given
    /// the words the caller read at their addresses. A breakpoint for whose
    /// address no word was read, or whose installation is refused, stays as
    /// it is. Returns the words to write back.
    pub fn enable_all(&mut self, words: &HashMap<u64, u64>) -> (writes: Vec<WordAt>)
        requires
            old(self).wf(),
        ensures
            final(self).wf(),
            final(self)@ == enable_all_table(old(self)@, bytes_read(words@)),
            forall|w: WordAt|
                writes@.contains(w) <==> {
                    &&& old(self)@.contains_key(w.address)
                    &&& words@.contains_key(w.address)
                    &&& installable(old(self)@, w.address, low_byte(words@[w.address]))
                    &&& w.word == with_low_byte(words@[w.address], TRAP)
                },
    {
        let todo = self.disabled();
        let mut writes: Vec<WordAt> = Vec::new();
        let ghost t0 = self@;
        let ghost m = bytes_read(words@);
        let mut i: usize = 0;
        while i < todo.len()
            invariant
                i <= todo.len(),
                self.wf(),
                m == bytes_read(words@),
                forall|a: u64| todo@.contains(a) <==> t0.contains_key(a) && !t0[a].enabled,
                self@.dom() == t0.dom(),
                forall|a: u64|
                    t0.contains_key(a) ==> #[trigger] self@[a] == (if exists|j: int|
                        0 <= j < i && todo@[j] == a {
                        enable_all_table(t0, m)[a]
                    } else {
                        t0[a]
                    }),
                forall|w: WordAt|
                    writes@.contains(w) <==> {
                        &&& exists|j: int| 0 <= j < i && todo@[j] == w.address
                        &&& words@.contains_key(w.address)
                        &&& installable(t0, w.address, low_byte(words@[w.address]))
                        &&& w.word == with_low_byte(words@[w.address], TRAP)
                    },
            decreases todo.len() - i,
        {
            let a = todo[i];
            let ghost before = self@;
            let ghost wrote = writes@;
            assert(todo@.contains(a));
            let ghost seen = exists|j: int| 0 <= j < i && todo@[j] == a;
            let ghost mut pushed: Option<WordAt> = None;
            if let Some(word) = words.get(&a) {
                if let Ok(Some(patched)) = self.install(a, *word) {
                    writes.push(WordAt { address: a, word: patched });
                    proof {
                        pushed = Some(WordAt { address: a, word: patched });
                    }
                }
            }
            proof {
                assert forall|b: u64| t0.contains_key(b) implies #[trigger] self@[b] == (if exists|
                    j: int,
                | 0 <= j < i + 1 && todo@[j] == b {
                    enable_all_table(t0, m)[b]
                } else {
                    t0[b]
                }) by {
                    if b == a {
                        assert(todo@[i as int] == b);
                    } else {
                        if exists|j: int| 0 <= j < i + 1 && todo@[j] == b {
                            let j = choose|j: int| 0 <= j < i + 1 && todo@[j] == b;
                            assert(j < i);
                        }
                    }
                }
                assert(self@.dom() =~= t0.dom());
                assert forall|w: WordAt|
                    writes@.contains(w) <==> {
                        &&& exists|j: int| 0 <= j < i + 1 && todo@[j] == w.address
                        &&& words@.contains_key(w.address)
                        &&& installable(t0, w.address, low_byte(words@[w.address]))
                        &&& w.word == with_low_byte(words@[w.address], TRAP)
                    } by {
                    if writes@.contains(w) {
                        let j = choose|j: int| 0 <= j < writes@.len() && writes@[j] == w;
                        if j < wrote.len() {
                            assert(wrote[j] == w);
                            assert(wrote.contains(w));
                            let k = choose|k: int| 0 <= k < i && todo@[k] == w.address;
                            assert(0 <= k < i + 1 && todo@[k] == w.address);
                        } else {
                            assert(pushed == Some(w));
                            assert(todo@[i as int] == w.address);
                        }
                    }
                    if ({
                        &&& exists|j: int| 0 <= j < i + 1 && todo@[j] == w.address
                        &&& words@.contains_key(w.address)
                        &&& installable(t0, w.address, low_byte(words@[w.address]))
                        &&& w.word == with_low_byte(words@[w.address], TRAP)
                    }) {
                        let j = choose|j: int| 0 <= j < i + 1 && todo@[j] == w.address;
                        if w.address == a && !seen {
                            assert(pushed == Some(w));
                            assert(writes@[wrote.len() as int] == w);
                        } else {
                            if j == i {
                                let k = choose|k: int| 0 <= k < i && todo@[k] == a;
                                assert(0 <= k < i && todo@[k] == w.address);
                            }
                            assert(wrote.contains(w));
                            let k = choose|k: int| 0 <= k < wrote.len() && wrote[k] == w;
                            assert(writes@[k] == w);
                        }
                    }
                }
            }
            i += 1;
        }
        proof {
            assert forall|a: u64| t0.contains_key(a) implies #[trigger] self@[a]
                == enable_all_table(t0, m)[a] by {
                if !t0[a].enabled {
                    assert(todo@.contains(a));
                    let j = choose|j: int| 0 <= j < todo@.len() && todo@[j] == a;
                    assert(0 <= j < i && todo@[j] == a);
                }
            }
            assert(self@ =~= enable_all_table(t0, m));
            assert forall|w: WordAt|
                ({
                    &&& t0.contains_key(w.address)
                    &&& words@.contains_key(w.address)
                    &&& installable(t0, w.address, low_byte(words@[w.address]))
                    &&& w.word == with_low_byte(words@[w.address], TRAP)
                }) implies writes@.contains(w) by {
                assert(todo@.contains(w.address));
                let j = choose|j: int| 0 <= j < todo@.len() && todo@[j] == w.address;
                assert(0 <= j < i && todo@[j] == w.address);
            }
            assert forall|w: WordAt| writes@.contains(w) implies t0.contains_key(w.address) by {
                let j = choose|j: int| 0 <= j < i && todo@[j] == w.address;
                assert(todo@.contains(w.address));
            }
        }
        writes
    }

    /// Removes every installed breakpoint, given the words the caller read
    /// at their addresses. A breakpoint for whose address no word was read
    /// stays as it is. Returns the words to write back.
    pub fn disable_all(&mut self, words: &HashMap<u64, u64>) -> (writes: Vec<WordAt>)
        requires
            old(self).wf(),
        ensures
            final(self).wf(),
            final(self)@ == disable_all_table(old(self)@, bytes_read(words@)),
            forall|w: WordAt|
                writes@.contains(w) <==> {
                    &&& old(self)@.contains_key(w.address)
                    &&& words@.contains_key(w.address)
                    &&& installed(old(self)@, w.address)
                    &&& w.word == with_low_byte(words@[w.address], old(self)@[w.address].saved)
                },
    {
        let todo = self.enabled();
        let mut writes: Vec<WordAt> = Vec::new();
        let ghost t0 = self@;
        let ghost m = bytes_read(words@);
        let mut i: usize = 0;
        while i < todo.len()
            invariant
                i <= todo.len(),
                self.wf(),
                m == bytes_read(words@),
                forall|a: u64| todo@.contains(a) <==> installed(t0, a),
                self@.dom() == t0.dom(),
                forall|a: u64|
                    t0.contains_key(a) ==> #[trigger] self@[a] == (if exists|j: int|
                        0 <= j < i && todo@[j] == a {
                        disable_all_table(t0, m)[a]
                    } else {
                        t0[a]
                    }),
                forall|w: WordAt|
                    writes@.contains(w) <==> {
                        &&& exists|j: int| 0 <= j < i && todo@[j] == w.address
                        &&& words@.contains_key(w.address)
                        &&& installed(t0, w.address)
                        &&& w.word == with_low_byte(words@[w.address], t0[w.address].saved)
                    },
            decreases todo.len() - i,
        {
            let a = todo[i];
            let ghost before = self@;
            let ghost wrote = writes@;
            assert(todo@.contains(a));
            let ghost seen = exists|j: int| 0 <= j < i && todo@[j] == a;
            let ghost mut pushed: Option<WordAt> = None;
            if let Some(word) = words.get(&a) {
                if let Ok(patched) = self.remove(a, *word) {
                    writes.push(WordAt { address: a, word: patched });
                    proof {
                        pushed = Some(WordAt { address: a, word: patched });
                    }
                }
            }
            proof {
                assert forall|b: u64| t0.contains_key(b) implies #[trigger] self@[b] == (if exists|
                    j: int,
                | 0 <= j < i + 1 && todo@[j] == b {
                    disable_all_table(t0, m)[b]
                } else {
                    t0[b]
                }) by {
                    if b == a {
                        assert(todo@[i as int] == b);
                    } else {
                        if exists|j: int| 0 <= j < i + 1 && todo@[j] == b {
                            let j = choose|j: int| 0 <= j < i + 1 && todo@[j] == b;
                            assert(j < i);
                        }
                    }
                }
                assert(self@.dom() =~= t0.dom());
                assert forall|w: WordAt|
                    writes@.contains(w) <==> {
                        &&& exists|j: int| 0 <= j < i + 1 && todo@[j] == w.address
                        &&& words@.contains_key(w.address)
                        &&& installed(t0, w.address)
                        &&& w.word == with_low_byte(words@[w.address], t0[w.address].saved)
                    } by {
                    if writes@.contains(w) {
                        let j = choose|j: int| 0 <= j < writes@.len() && writes@[j] == w;
                        if j < wrote.len() {
                            assert(wrote[j] == w);
                            assert(wrote.contains(w));
                            let k = choose|k: int| 0 <= k < i && todo@[k] == w.address;
                            assert(0 <= k < i + 1 && todo@[k] == w.address);
                        } else {
                            assert(pushed == Some(w));
                            assert(todo@[i as int] == w.address);
                        }
                    }
                    if ({
                        &&& exists|j: int| 0 <= j < i + 1 && todo@[j] == w.address
                        &&& words@.contains_key(w.address)
                        &&& installed(t0, w.address)
                        &&& w.word == with_low_byte(words@[w.address], t0[w.address].saved)
                    }) {
                        let j = choose|j: int| 0 <= j < i + 1 && todo@[j] == w.address;
                        if w.address == a && !seen {
                            assert(pushed == Some(w));
                            assert(writes@[wrote.len() as int] == w);
                        } else {
                            if j == i {
                                let k = choose|k: int| 0 <= k < i && todo@[k] == a;
                                assert(0 <= k < i && todo@[k] == w.address);
                            }
                            assert(wrote.contains(w));
                            let k = choose|k: int| 0 <= k < wrote.len() && wrote[k] == w;
                            assert(writes@[k] == w);
                        }
                    }
                }
            }
            i += 1;
        }
        proof {
            assert forall|a: u64| t0.contains_key(a) implies #[trigger] self@[a]
                == disable_all_table(t0, m)[a] by {
                if t0[a].enabled {
                    assert(todo@.contains(a));
                    let j = choose|j: int| 0 <= j < todo@.len() && todo@[j] == a;
                    assert(0 <= j < i && todo@[j] == a);
                }
            }
            assert(self@ =~= disable_all_table(t0, m));
            assert forall|w: WordAt|
                ({
                    &&& t0.contains_key(w.address)
                    &&& words@.contains_key(w.address)
                    &&& installed(t0, w.address)
                    &&& w.word == with_low_byte(words@[w.address], t0[w.address].saved)
                }) implies writes@.contains(w) by {
                assert(todo@.contains(w.address));
                let j = choose|j: int| 0 <= j < todo@.len() && todo@[j] == w.address;
                assert(0 <= j < i && todo@[j] == w.address);
            }
            assert forall|w: WordAt| writes@.contains(w) implies t0.contains_key(w.address) by {
                let j = choose|j: int| 0 <= j < i && todo@[j] == w.address;
                assert(todo@.contains(w.address));
            }
        }
        writes
    }
}

/// Installing a breakpoint puts the trap byte at its address and saves the
/// byte that was there; removing it puts the saved byte back.
pub proof fn lemma_install_then_remove_bytes(t: Map<u64, Breakpoint>, a: u64, byte: u8)
    requires
        installable(t, a, byte),
    ensures
        installed(install_table(t, a, byte), a),
        install_byte(t, a, byte) == TRAP,
        install_table(t, a, byte)[a].saved == byte,
        !installed(remove_table(install_table(t, a, byte), a), a),
        remove_byte(install_table(t, a, byte), a, install_byte(t, a, byte)) == byte,
{
}

/// Installation and removal keep the trap byte under every installed
/// breakpoint, when the memory changes at the address as they say.
pub proof fn lemma_traps_stay_in_place(t: Map<u64, Breakpoint>, m: Map<u64, u8>, a: u64)
    requires
        traps_in_place(t, m),
        m.contains_key(a),
    ensures
        traps_in_place(install_table(t, a, m[a]), m.insert(a, install_byte(t, a, m[a]))),
        traps_in_place(remove_table(t, a), m.insert(a, remove_byte(t, a, m[a]))),
        traps_in_place(pending_table(t, a), m),
{
    let t1 = install_table(t, a, m[a]);
    let m1 = m.insert(a, install_byte(t, a, m[a]));
    assert forall|b: u64| #[trigger] installed(t1, b) implies m1.contains_key(b) && m1[b] == TRAP by {
        if b != a {
            assert(installed(t, b));
            assert(m[b] == TRAP);
        } else if installed(t, a) {
            assert(m[a] == TRAP);
        }
    }
    let t2 = remove_table(t, a);
    let m2 = m.insert(a, remove_byte(t, a, m[a]));
    assert forall|b: u64| #[trigger] installed(t2, b) implies m2.contains_key(b) && m2[b] == TRAP by {
        if b != a {
            assert(installed(t, b));
            assert(m[b] == TRAP);
        }
    }
    assert forall|b: u64| #[trigger] installed(pending_table(t, a), b) implies m.contains_key(b) && m[b]
        == TRAP by {
        assert(installed(t, b));
    }
}

/// Install, remove, install again: the table and the byte at the address are
/// what they were after the first installation, and in between the byte was
/// the one that the first installation displaced.
pub proof fn lemma_install_remove_install(t: Map<u64, Breakpoint>, a: u64, byte: u8)
    requires
        installable(t, a, byte),
    ensures
        ({
            let t1 = install_table(t, a, byte);
            let b1 = install_byte(t, a, byte);
            let t2 = remove_table(t1, a);
            let b2 = remove_byte(t1, a, b1);
            let t3 = install_table(t2, a, b2);
            let b3 = install_byte(t2, a, b2);
            &&& b2 == byte
            &&& t3 == t1
            &&& b3 == b1
        }),
{
    let t1 = install_table(t, a, byte);
    let b1 = install_byte(t, a, byte);
    let t2 = remove_table(t1, a);
    let b2 = remove_byte(t1, a, b1);
    let t3 = install_table(t2, a, b2);
    assert(t3 =~= t1);
}

/// Enabling all breakpoints twice is the same as enabling them once.
pub proof fn lemma_enable_all_idempotent(t: Map<u64, Breakpoint>, m: Map<u64, u8>)
    ensures
        enable_all_table(enable_all_table(t, m), enable_all_memory(t, m)) == enable_all_table(
            t,
            m,
        ),
        enable_all_memory(enable_all_table(t, m), enable_all_memory(t, m)) == enable_all_memory(
            t,
            m,
        ),
{
    let t1 = enable_all_table(t, m);
    let m1 = enable_all_memory(t, m);
    assert(enable_all_table(t1, m1) =~= t1);
    assert(enable_all_memory(t1, m1) =~= m1);
}

/// Disabling all breakpoints twice is the same as disabling them once.
pub proof fn lemma_disable_all_idempotent(t: Map<u64, Breakpoint>, m: Map<u64, u8>)
    ensures
        disable_all_table(disable_all_table(t, m), disable_all_memory(t, m)) == disable_all_table(
            t,
            m,
        ),
        disable_all_memory(disable_all_table(t, m), disable_all_memory(t, m))
            == disable_all_memory(t, m),
{
    let t1 = disable_all_table(t, m);
    let m1 = disable_all_memory(t, m);
    assert(disable_all_table(t1, m1) =~= t1);
    assert(disable_all_memory(t1, m1) =~= m1);
}

/// Enabling all breakpoints leaves the trap byte under every installed one.
pub proof fn lemma_enable_all_traps_in_place(t: Map<u64, Breakpoint>, m: Map<u64, u8>)
    requires
        traps_in_place(t, m),
    ensures
        traps_in_place(enable_all_table(t, m), enable_all_memory(t, m)),
{
    let t1 = enable_all_table(t, m);
    let m1 = enable_all_memory(t, m);
    assert forall|a: u64| #[trigger] installed(t1, a) implies m1.contains_key(a) && m1[a] == TRAP by {
        if installed(t, a) {
            assert(m[a] == TRAP);
        }
    }
}

} // verus!

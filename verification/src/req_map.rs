//! The requests of one channel that wait for a reply.

use vstd::prelude::*;

verus! {

/// Holds, for each reference that a reply may carry, where the reply goes.
pub struct ReqMap<R> {
    entries: Vec<(String, R)>,
}

impl<R> ReqMap<R> {
    /// No reference occurs twice.
    pub closed spec fn wf(self) -> bool {
        forall|i: int, j: int|
            0 <= i < j < self.entries@.len() ==> self.entries@[i].0@ != self.entries@[j].0@
    }

    spec fn occurs_at(self, cmd_ref: Seq<char>, i: int) -> bool {
        0 <= i < self.entries@.len() && self.entries@[i].0@ == cmd_ref
    }

    spec fn place(self, cmd_ref: Seq<char>) -> int {
        choose|i: int| self.occurs_at(cmd_ref, i)
    }

    pub closed spec fn pending(self) -> Map<Seq<char>, R> {
        Map::new(
            |cmd_ref: Seq<char>| exists|i: int| self.occurs_at(cmd_ref, i),
            |cmd_ref: Seq<char>| self.entries@[self.place(cmd_ref)].1,
        )
    }

    proof fn lemma_entry(self, i: int)
        requires
            self.wf(),
            0 <= i < self.entries@.len(),
        ensures
            self@.contains_key(self.entries@[i].0@),
            self@[self.entries@[i].0@] == self.entries@[i].1,
    {
        assert(self.occurs_at(self.entries@[i].0@, i));
        assert(self.occurs_at(self.entries@[i].0@, self.place(self.entries@[i].0@)));
    }

    /// No request waits.
    pub fn new() -> (map: Self)
        ensures
            map.wf(),
            map@ == Map::<Seq<char>, R>::empty(),
    {
        let map = ReqMap { entries: Vec::new() };
        assert(map@ =~= Map::<Seq<char>, R>::empty());
        map
    }

    /// Where `cmd_ref` stands, if it occurs.
    fn find(&self, cmd_ref: &String) -> (found: Option<usize>)
        requires
            self.wf(),
        ensures
            match found {
                Some(i) => self.occurs_at(cmd_ref@, i as int),
                None => !self@.contains_key(cmd_ref@),
            },
    {
        let mut i: usize = 0;
        while i < self.entries.len()
            invariant
                i <= self.entries@.len(),
                forall|j: int| 0 <= j < i ==> !self.occurs_at(cmd_ref@, j),
            decreases self.entries@.len() - i,
        {
            if self.entries[i].0 == *cmd_ref {
                return Some(i);
            }
            i = i + 1;
        }
        None
    }

    /// Takes the request of reference `cmd_ref` out, if there is one.
    pub fn remove(&mut self, cmd_ref: &String) -> (slot: Option<R>)
        requires
            old(self).wf(),
        ensures
            final(self).wf(),
            final(self)@ == old(self)@.remove(cmd_ref@),
            slot == (if old(self)@.contains_key(cmd_ref@) {
                Some(old(self)@[cmd_ref@])
            } else {
                None
            }),
    {
        match self.find(cmd_ref) {
            Some(i) => {
                let entry = self.entries.remove(i);
                proof {
                    old(self).lemma_entry(i as int);
                    let before = old(self).entries@;
                    let after = self.entries@;
                    assert(after == before.remove(i as int));
                    assert forall|a: int, b: int| 0 <= a < b < after.len() implies after[a].0@
                        != after[b].0@ by {
                        let a0 = if a < i { a } else { a + 1 };
                        let b0 = if b < i { b } else { b + 1 };
                        assert(after[a] == before[a0] && after[b] == before[b0]);
                    }
                    assert forall|r: Seq<char>| self@.contains_key(r) <==> old(
                        self,
                    )@.remove(cmd_ref@).contains_key(r) by {
                        if self@.contains_key(r) {
                            let a = self.place(r);
                            assert(self.occurs_at(r, a));
                            let a0 = if a < i { a } else { a + 1 };
                            assert(after[a] == before[a0]);
                            assert(old(self).occurs_at(r, a0));
                        }
                        if old(self)@.remove(cmd_ref@).contains_key(r) {
                            let b = old(self).place(r);
                            assert(old(self).occurs_at(r, b));
                            let b0 = if b < i { b } else { b - 1 };
                            assert(after[b0] == before[b]);
                            assert(self.occurs_at(r, b0));
                        }
                    }
                    assert forall|r: Seq<char>| self@.contains_key(r) implies self@[r] == old(
                        self,
                    )@[r] by {
                        let a = self.place(r);
                        assert(self.occurs_at(r, a));
                        let a0 = if a < i { a } else { a + 1 };
                        assert(after[a] == before[a0]);
                        old(self).lemma_entry(a0);
                    }
                    assert(self@ =~= old(self)@.remove(cmd_ref@));
                }
                Some(entry.1)
            },
            None => {
                assert(self@ =~= old(self)@.remove(cmd_ref@));
                None
            },
        }
    }

    /// Lets the reply to `cmd_ref` go to `slot`. A request that waited under
    /// the same reference is dropped.
    pub fn insert(&mut self, cmd_ref: String, slot: R)
        requires
            old(self).wf(),
        ensures
            final(self).wf(),
            final(self)@ == old(self)@.insert(cmd_ref@, slot),
    {
        let _ = self.remove(&cmd_ref);
        let ghost rest = *self;
        self.entries.push((cmd_ref, slot));
        proof {
            let before = rest.entries@;
            let after = self.entries@;
            assert forall|a: int| 0 <= a < before.len() implies before[a].0@ != cmd_ref@ by {
                rest.lemma_entry(a);
            }
            assert(self.wf());
            assert forall|r: Seq<char>| self@.contains_key(r) <==> old(self)@.insert(
                cmd_ref@,
                slot,
            ).contains_key(r) by {
                if self@.contains_key(r) {
                    let a = self.place(r);
                    assert(self.occurs_at(r, a));
                    if a < before.len() {
                        assert(rest.occurs_at(r, a));
                        assert(rest@.contains_key(r));
                    }
                }
                if r == cmd_ref@ {
                    self.lemma_entry(before.len() as int);
                } else if old(self)@.contains_key(r) {
                    assert(rest@.contains_key(r));
                    assert(rest.occurs_at(r, rest.place(r)));
                    assert(self.occurs_at(r, rest.place(r)));
                }
            }
            assert forall|r: Seq<char>| self@.contains_key(r) implies self@[r] == old(
                self,
            )@.insert(cmd_ref@, slot)[r] by {
                let a = self.place(r);
                assert(self.occurs_at(r, a));
                if a < before.len() {
                    rest.lemma_entry(a);
                }
            }
            assert(self@ =~= old(self)@.insert(cmd_ref@, slot));
        }
    }
}

impl<R> View for ReqMap<R> {
    type V = Map<Seq<char>, R>;

    open spec fn view(&self) -> Map<Seq<char>, R> {
        self.pending()
    }
}

} // verus!

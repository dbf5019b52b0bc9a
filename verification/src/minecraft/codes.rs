//! The pending verification codes of Minecraft account linking: each code
//! names the Discord user who asked for it and the Minecraft username that
//! is expected to join with it.

use vstd::prelude::*;

verus! {

/// One pending code.
pub struct CodeEntry {
    pub code: String,
    pub user: u64,
    pub username: String,
}

/// The pending codes, each held at most once.
pub struct VerificationCodes {
    entries: Vec<CodeEntry>,
    map: Ghost<Map<Seq<char>, (u64, Seq<char>)>>,
}

/// `m` without the codes held by `user`.
pub open spec fn without_user(m: Map<Seq<char>, (u64, Seq<char>)>, user: u64) -> Map<
    Seq<char>,
    (u64, Seq<char>),
> {
    Map::new(|k: Seq<char>| m.contains_key(k) && m[k].0 != user, |k: Seq<char>| m[k])
}

impl View for VerificationCodes {
    type V = Map<Seq<char>, (u64, Seq<char>)>;

    closed spec fn view(&self) -> Map<Seq<char>, (u64, Seq<char>)> {
        self.map@
    }
}

/// The entries `e` hold exactly the codes of `m`, each once.
spec fn entries_match(e: Seq<CodeEntry>, m: Map<Seq<char>, (u64, Seq<char>)>) -> bool {
    &&& forall|i: int, j: int|
        0 <= i < e.len() && 0 <= j < e.len() && i != j ==> #[trigger] e[i].code@
            != #[trigger] e[j].code@
    &&& forall|i: int|
        0 <= i < e.len() ==> m.contains_key(#[trigger] e[i].code@) && m[e[i].code@] == (
            e[i].user,
            e[i].username@,
        )
    &&& forall|k: Seq<char>|
        #[trigger] m.contains_key(k) ==> exists|i: int| 0 <= i < e.len() && #[trigger] e[i].code@ == k
}

impl VerificationCodes {
    /// Well-formedness: the entries hold the codes of the view, each once.
    pub closed spec fn wf(&self) -> bool {
        entries_match(self.entries@, self.map@)
    }

    /// No pending code.
    pub fn new() -> (r: VerificationCodes)
        ensures
            r.wf(),
            r@ == Map::<Seq<char>, (u64, Seq<char>)>::empty(),
    {
        VerificationCodes { entries: Vec::new(), map: Ghost(Map::empty()) }
    }

    /// Number of pending codes.
    pub fn len(&self) -> (n: usize)
        requires
            self.wf(),
        ensures
            n == self@.len(),
    {
        proof {
            self.lemma_len();
        }
        self.entries.len()
    }

    proof fn lemma_len(&self)
        requires
            self.wf(),
        ensures
            self@.len() == self.entries@.len(),
            self@.dom().finite(),
    {
        let e = self.entries@;
        let codes = Seq::new(e.len(), |i: int| e[i].code@);
        assert(self@.dom() =~= codes.to_set()) by {
            assert forall|k: Seq<char>| self@.dom().contains(k) implies codes.to_set().contains(k) by {
                let i = choose|i: int| 0 <= i < e.len() && #[trigger] e[i].code@ == k;
                assert(codes[i] == k);
            }
            assert forall|k: Seq<char>| codes.to_set().contains(k) implies self@.dom().contains(k) by {
                let i = choose|i: int| 0 <= i < codes.len() && codes[i] == k;
                assert(self@.contains_key(e[i].code@));
            }
        }
        assert(codes.no_duplicates()) by {
            assert forall|i: int, j: int| 0 <= i < codes.len() && 0 <= j < codes.len() && i != j
                implies codes[i] != codes[j] by {
                assert(e[i].code@ != e[j].code@);
            }
        }
        codes.unique_seq_to_set();
    }

    /// Hands out `code` to `user`, who will join as `username`: every code
    /// the user held before is withdrawn, and `code` is given to the user
    /// (replacing whoever held it).
    pub fn issue(&mut self, code: String, user: u64, username: String)
        requires
            old(self).wf(),
        ensures
            final(self).wf(),
            final(self)@ == without_user(old(self)@, user).insert(code@, (user, username@)),
    {
        let ghost old_map = self.map@;
        let ghost target = without_user(old_map, user).remove(code@);
        let mut kept: Vec<CodeEntry> = Vec::new();
        let n = self.entries.len();
        let mut i: usize = 0;
        while i < n
            invariant
                n == self.entries@.len(),
                i <= n,
                entries_match(self.entries@, old_map),
                target == without_user(old_map, user).remove(code@),
                forall|a: int, b: int|
                    0 <= a < kept@.len() && 0 <= b < kept@.len() && a != b ==> #[trigger] kept@[a].code@
                        != #[trigger] kept@[b].code@,
                forall|a: int|
                    0 <= a < kept@.len() ==> target.contains_key(#[trigger] kept@[a].code@)
                        && target[kept@[a].code@] == (kept@[a].user, kept@[a].username@),
                forall|a: int|
                    #![trigger kept@[a]]
                    0 <= a < kept@.len() ==> exists|j: int|
                        0 <= j < i && #[trigger] self.entries@[j].code@ == kept@[a].code@,
                forall|j: int|
                    0 <= j < i && target.contains_key(#[trigger] self.entries@[j].code@) ==> exists|
                        a: int,
                    | 0 <= a < kept@.len() && #[trigger] kept@[a].code@ == self.entries@[j].code@,
            decreases n - i,
        {
            let e = &self.entries[i];
            let same_code = e.code == code;
            if e.user != user && !same_code {
                let entry = CodeEntry {
                    code: e.code.clone(),
                    user: e.user,
                    username: e.username.clone(),
                };
                let ghost before = kept@;
                kept.push(entry);
                proof {
                    assert forall|a: int, b: int|
                        0 <= a < kept@.len() && 0 <= b < kept@.len() && a != b implies #[trigger] kept@[a].code@
                        != #[trigger] kept@[b].code@ by {
                        if a == i || b == i {
                        }
                        if a < before.len() && b < before.len() {
                            assert(kept@[a] == before[a] && kept@[b] == before[b]);
                        } else if a < before.len() {
                            assert(kept@[a] == before[a]);
                            let j = choose|j: int| 0 <= j < i && #[trigger] self.entries@[j].code@ == before[a].code@;
                            assert(self.entries@[j].code@ != self.entries@[i as int].code@);
                        } else if b < before.len() {
                            assert(kept@[b] == before[b]);
                            let j = choose|j: int| 0 <= j < i && #[trigger] self.entries@[j].code@ == before[b].code@;
                            assert(self.entries@[j].code@ != self.entries@[i as int].code@);
                        }
                    }
                    assert forall|a: int| #![trigger kept@[a]] 0 <= a < kept@.len() implies exists|j: int|
                        0 <= j < i + 1 && #[trigger] self.entries@[j].code@ == kept@[a].code@ by {
                        if a < before.len() {
                            assert(kept@[a] == before[a]);
                            let j = choose|j: int| 0 <= j < i && #[trigger] self.entries@[j].code@ == before[a].code@;
                            assert(0 <= j < i + 1 && self.entries@[j].code@ == kept@[a].code@);
                        } else {
                            assert(self.entries@[i as int].code@ == kept@[a].code@);
                        }
                    }
                    assert forall|j: int|
                        0 <= j < i + 1 && target.contains_key(#[trigger] self.entries@[j].code@) implies exists|
                            a: int,
                        | 0 <= a < kept@.len() && #[trigger] kept@[a].code@ == self.entries@[j].code@ by {
                        if j < i {
                            let a = choose|a: int| 0 <= a < before.len() && #[trigger] before[a].code@ == self.entries@[j].code@;
                            assert(kept@[a] == before[a]);
                        } else {
                            assert(kept@[before.len() as int].code@ == self.entries@[j].code@);
                        }
                    }
                }
            } else {
                proof {
                    assert(!target.contains_key(self.entries@[i as int].code@));
                    assert forall|j: int|
                        0 <= j < i + 1 && target.contains_key(#[trigger] self.entries@[j].code@) implies exists|
                            a: int,
                        | 0 <= a < kept@.len() && #[trigger] kept@[a].code@ == self.entries@[j].code@ by {
                    }
                    assert forall|a: int| #![trigger kept@[a]] 0 <= a < kept@.len() implies exists|j: int|
                        0 <= j < i + 1 && #[trigger] self.entries@[j].code@ == kept@[a].code@ by {
                        let j = choose|j: int| 0 <= j < i && #[trigger] self.entries@[j].code@ == kept@[a].code@;
                        assert(0 <= j < i + 1 && self.entries@[j].code@ == kept@[a].code@);
                    }
                }
            }
            i = i + 1;
        }
        let ghost before = kept@;
        let ghost new_map = target.insert(code@, (user, username@));
        proof {
            assert forall|k: Seq<char>| #[trigger] target.contains_key(k) implies exists|a: int|
                0 <= a < before.len() && #[trigger] before[a].code@ == k by {
                assert(old_map.contains_key(k));
                let j = choose|j: int| 0 <= j < n && #[trigger] self.entries@[j].code@ == k;
                assert(target.contains_key(self.entries@[j].code@));
            }
        }
        kept.push(CodeEntry { code, user, username });
        proof {
            assert(new_map =~= without_user(old_map, user).insert(kept@[before.len() as int].code@, (user, kept@[before.len() as int].username@)));
            assert forall|a: int, b: int|
                0 <= a < kept@.len() && 0 <= b < kept@.len() && a != b implies #[trigger] kept@[a].code@
                != #[trigger] kept@[b].code@ by {
                if a < before.len() && b < before.len() {
                    assert(kept@[a] == before[a] && kept@[b] == before[b]);
                } else if a < before.len() {
                    assert(kept@[a] == before[a]);
                    assert(target.contains_key(before[a].code@));
                } else if b < before.len() {
                    assert(kept@[b] == before[b]);
                    assert(target.contains_key(before[b].code@));
                }
            }
            assert forall|a: int|
                0 <= a < kept@.len() implies new_map.contains_key(#[trigger] kept@[a].code@)
                && new_map[kept@[a].code@] == (kept@[a].user, kept@[a].username@) by {
                if a < before.len() {
                    assert(kept@[a] == before[a]);
                    assert(target.contains_key(before[a].code@));
                }
            }
            assert forall|k: Seq<char>| #[trigger] new_map.contains_key(k) implies exists|a: int|
                0 <= a < kept@.len() && #[trigger] kept@[a].code@ == k by {
                if k == kept@[before.len() as int].code@ {
                    assert(kept@[before.len() as int].code@ == k);
                } else {
                    assert(target.contains_key(k));
                    let a = choose|a: int| 0 <= a < before.len() && #[trigger] before[a].code@ == k;
                    assert(kept@[a] == before[a]);
                }
            }
        }
        self.entries = kept;
        self.map = Ghost(new_map);
    }

    /// Withdraws `code`, handing back the user and username it was given for.
    pub fn take(&mut self, code: &String) -> (r: Option<(u64, String)>)
        requires
            old(self).wf(),
        ensures
            final(self).wf(),
            final(self)@ == old(self)@.remove(code@),
            match r {
                Some((user, username)) => old(self)@.contains_key(code@) && old(self)@[code@] == (
                    user,
                    username@,
                ),
                None => !old(self)@.contains_key(code@),
            },
    {
        let n = self.entries.len();
        let mut i: usize = 0;
        while i < n
            invariant
                n == self.entries@.len(),
                i <= n,
                entries_match(self.entries@, self.map@),
                self.map@ == old(self).map@,
                self.entries@ == old(self).entries@,
                forall|j: int| 0 <= j < i ==> #[trigger] self.entries@[j].code@ != code@,
            decreases n - i,
        {
            if self.entries[i].code == *code {
                let ghost old_entries = self.entries@;
                let ghost new_map = self.map@.remove(code@);
                let e = self.entries.remove(i);
                proof {
                    let ne = self.entries@;
                    assert(ne =~= old_entries.remove(i as int));
                    assert forall|a: int, b: int|
                        0 <= a < ne.len() && 0 <= b < ne.len() && a != b implies #[trigger] ne[a].code@
                        != #[trigger] ne[b].code@ by {
                        let a2 = if a < i { a } else { a + 1 };
                        let b2 = if b < i { b } else { b + 1 };
                        assert(ne[a] == old_entries[a2] && ne[b] == old_entries[b2]);
                    }
                    assert forall|a: int|
                        0 <= a < ne.len() implies new_map.contains_key(#[trigger] ne[a].code@)
                        && new_map[ne[a].code@] == (ne[a].user, ne[a].username@) by {
                        let a2 = if a < i { a } else { a + 1 };
                        assert(ne[a] == old_entries[a2]);
                        assert(old_entries[a2].code@ != old_entries[i as int].code@);
                    }
                    assert forall|k: Seq<char>| #[trigger] new_map.contains_key(k) implies exists|
                        a: int,
                    | 0 <= a < ne.len() && #[trigger] ne[a].code@ == k by {
                        let j = choose|j: int| 0 <= j < old_entries.len() && #[trigger] old_entries[j].code@ == k;
                        assert(j != i);
                        let a = if j < i { j } else { j - 1 };
                        assert(ne[a] == old_entries[j]);
                    }
                }
                self.map = Ghost(new_map);
                return Some((e.user, e.username));
            }
            i = i + 1;
        }
        proof {
            if self.map@.contains_key(code@) {
                let j = choose|j: int| 0 <= j < self.entries@.len() && #[trigger] self.entries@[j].code@ == code@;
                assert(self.entries@[j].code@ != code@);
            }
            assert(self.map@.remove(code@) =~= self.map@);
        }
        None
    }
}

} // verus!

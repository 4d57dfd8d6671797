//! The enabled-panels toggle map.
//!
//! For each inspectable resource the host registers, the editor keeps one
//! named boolean flag. The inspector panel shows a radio button per flag
//! and flips it on a click; each resource panel's run predicate reads its
//! own flag to decide whether the panel renders that frame.

use vstd::prelude::*;

verus! {

/// The name-to-flag map behind the inspector's per-resource toggles.
/// Registration order is display order; names are registered once each,
/// so keys stay pairwise distinct.
pub struct EnabledPlugins {
    entries: Vec<(String, bool)>,
}

impl EnabledPlugins {
    /// The entries in registration order, as a mathematical value.
    pub closed spec fn entries_seq(&self) -> Seq<(String, bool)> {
        self.entries@
    }

    /// Keys are pairwise distinct.
    pub open spec fn wf(&self) -> bool {
        forall|i: int, j: int|
            0 <= i < j < self.entries_seq().len() ==> (#[trigger] self.entries_seq()[i]).0@ != (
            #[trigger] self.entries_seq()[j]).0@
    }

    /// Whether some entry carries `name`.
    pub open spec fn spec_contains(&self, name: Seq<char>) -> bool {
        exists|i: int|
            0 <= i < self.entries_seq().len() && (#[trigger] self.entries_seq()[i]).0@ == name
    }

    /// The index of the entry carrying `name`.
    pub open spec fn spec_key_index(&self, name: Seq<char>) -> int {
        choose|i: int|
            0 <= i < self.entries_seq().len() && (#[trigger] self.entries_seq()[i]).0@ == name
    }

    /// The flag registered under `name`.
    pub open spec fn spec_enabled(&self, name: Seq<char>) -> bool {
        self.entries_seq()[self.spec_key_index(name)].1
    }

    /// Creates an empty map.
    pub fn new() -> (e: Self)
        ensures
            e.entries_seq() == Seq::<(String, bool)>::empty(),
            e.wf(),
    {
        EnabledPlugins { entries: Vec::new() }
    }

    /// Registers `name` with its flag off, as the host does once per
    /// inspectable resource at build time. A name registered before has
    /// its flag reset to off; any other entry is untouched.
    pub fn register(&mut self, name: String)
        requires
            old(self).wf(),
        ensures
            final(self).wf(),
            final(self).spec_contains(name@),
            !final(self).spec_enabled(name@),
            forall|n: Seq<char>|
                n != name@ ==> #[trigger] final(self).spec_contains(n)
                    == old(self).spec_contains(n),
            forall|n: Seq<char>|
                n != name@ && old(self).spec_contains(n) ==> #[trigger] final(self).spec_enabled(n)
                    == old(self).spec_enabled(n),
            old(self).spec_contains(name@) ==> final(self).entries_seq().len()
                == old(self).entries_seq().len(),
            !old(self).spec_contains(name@) ==> final(self).entries_seq().len()
                == old(self).entries_seq().len() + 1,
            forall|j: int|
                0 <= j < old(self).entries_seq().len()
                    ==> (#[trigger] final(self).entries_seq()[j]).0@
                    == old(self).entries_seq()[j].0@,
    {
        let end = self.entries.len();
        let mut idx: usize = 0;
        while idx < end
            invariant
                end == self.entries_seq().len(),
                0 <= idx <= end,
                forall|j: int| 0 <= j < idx ==> (#[trigger] self.entries_seq()[j]).0@ != name@,
                *self == *old(self),
                old(self).wf(),
            decreases end - idx,
        {
            if self.entries[idx].0 == name {
                let key = self.entries[idx].0.clone();
                self.entries.set(idx, (key, false));
                proof {
                    lemma_one_key_changed(
                        old(self).entries_seq(),
                        self.entries_seq(),
                        idx as int,
                        false,
                    );
                    let all = self.entries_seq();
                    assert(all[idx as int].0@ == name@);
                    let w = self.spec_key_index(name@);
                    assert(all[w].0@ == name@);
                    if w != idx as int {
                        if w < idx as int {
                            assert(all[w].0@ != all[idx as int].0@);
                        } else {
                            assert(all[idx as int].0@ != all[w].0@);
                        }
                    }
                    assert forall|nm: Seq<char>| nm != name@ implies #[trigger] self.spec_contains(
                        nm,
                    ) == old(self).spec_contains(nm) by {
                        if old(self).spec_contains(nm) {
                            let v = old(self).spec_key_index(nm);
                            assert(old(self).entries_seq()[v].0@ == nm);
                            assert(all[v].0@ == nm);
                        }
                        if self.spec_contains(nm) {
                            let v = self.spec_key_index(nm);
                            assert(all[v].0@ == nm);
                            assert(old(self).entries_seq()[v].0@ == nm);
                        }
                    }
                    assert forall|nm: Seq<char>|
                        nm != name@ && old(self).spec_contains(nm) implies #[trigger] self
                        .spec_enabled(nm) == old(self).spec_enabled(nm) by {
                        lemma_same_lookup(old(self).entries_seq(), self.entries_seq(), nm);
                        let v = old(self).spec_key_index(nm);
                        if v != idx as int {
                            assert(self.entries_seq()[v] == old(self).entries_seq()[v]);
                        }
                    }
                }
                return ;
            }
            idx += 1;
        }
        self.entries.push((name, false));
        proof {
            let all = self.entries_seq();
            let olds = old(self).entries_seq();
            let n = all.len() - 1;
            assert(all[n].0@ == name@);
            assert forall|i: int, j: int| 0 <= i < j < all.len() implies (#[trigger] all[i]).0@ != (
            #[trigger] all[j]).0@ by {
                if j == n {
                    assert(olds[i] == all[i]);
                } else {
                    assert(olds[i] == all[i]);
                    assert(olds[j] == all[j]);
                }
            }
            assert forall|nm: Seq<char>| nm != name@ implies #[trigger] self.spec_contains(nm)
                == old(self).spec_contains(nm) by {
                if old(self).spec_contains(nm) {
                    let w = old(self).spec_key_index(nm);
                    assert(olds[w].0@ == nm);
                    assert(all[w] == olds[w]);
                }
                if self.spec_contains(nm) {
                    let w = self.spec_key_index(nm);
                    assert(all[w].0@ == nm);
                    if w != n {
                        assert(olds[w] == all[w]);
                    }
                }
            }
            assert forall|nm: Seq<char>| nm != name@ && old(self).spec_contains(nm) implies
                #[trigger] self.spec_enabled(nm) == old(self).spec_enabled(nm) by {
                let wo = old(self).spec_key_index(nm);
                assert(olds[wo].0@ == nm);
                assert(all[wo] == olds[wo]);
                let wn = self.spec_key_index(nm);
                assert(all[wn].0@ == nm);
                if wn != n {
                    assert(olds[wn] == all[wn]);
                    if wn < wo {
                        assert(olds[wn].0@ != olds[wo].0@);
                    } else if wo < wn {
                        assert(olds[wo].0@ != olds[wn].0@);
                    }
                }
            }
        }
    }

    /// How many flags are registered.
    pub fn len(&self) -> (n: usize)
        ensures
            n == self.entries_seq().len(),
    {
        self.entries.len()
    }

    /// The name of the flag at `index`, in registration order.
    pub fn name_at(&self, index: usize) -> (n: &String)
        requires
            index < self.entries_seq().len(),
        ensures
            n@ == self.entries_seq()[index as int].0@,
    {
        &self.entries[index].0
    }

    /// The flag at `index`, in registration order.
    pub fn enabled_at(&self, index: usize) -> (b: bool)
        requires
            index < self.entries_seq().len(),
        ensures
            b == self.entries_seq()[index as int].1,
    {
        self.entries[index].1
    }

    /// Flips the flag at `index`, as the inspector does when its radio
    /// button is clicked. Every other entry is untouched, so the run
    /// predicate of that one panel — and only that one — changes.
    pub fn toggle_at(&mut self, index: usize)
        requires
            old(self).wf(),
            index < old(self).entries_seq().len(),
        ensures
            final(self).wf(),
            final(self).entries_seq().len() == old(self).entries_seq().len(),
            final(self).entries_seq()[index as int].0@ == old(self).entries_seq()[
                index as int
            ].0@,
            final(self).entries_seq()[index as int].1 == !old(self).entries_seq()[
                index as int
            ].1,
            forall|j: int|
                0 <= j < old(self).entries_seq().len() && j != index
                    ==> #[trigger] final(self).entries_seq()[j] == old(self).entries_seq()[j],
            final(self).spec_enabled(old(self).entries_seq()[index as int].0@) == !old(
                self,
            ).spec_enabled(old(self).entries_seq()[index as int].0@),
    {
        let key = self.entries[index].0.clone();
        let flag = self.entries[index].1;
        self.entries.set(index, (key, !flag));
        proof {
            lemma_one_key_changed(
                old(self).entries_seq(),
                self.entries_seq(),
                index as int,
                !flag,
            );
            let olds = old(self).entries_seq();
            let all = self.entries_seq();
            let nm = olds[index as int].0@;
            let wo = old(self).spec_key_index(nm);
            assert(olds[index as int].0@ == nm);
            assert(olds[wo].0@ == nm);
            if wo < index as int {
                assert(olds[wo].0@ != olds[index as int].0@);
            } else if (index as int) < wo {
                assert(olds[index as int].0@ != olds[wo].0@);
            }
            let wn = self.spec_key_index(nm);
            assert(all[index as int].0@ == nm);
            assert(all[wn].0@ == nm);
            if wn < index as int {
                assert(all[wn].0@ != all[index as int].0@);
            } else if (index as int) < wn {
                assert(all[index as int].0@ != all[wn].0@);
            }
        }
    }

    /// Decides whether `name` is registered, so a host can test it before
    /// asking for a run predicate.
    pub fn contains(&self, name: &String) -> (b: bool)
        ensures
            b == self.spec_contains(name@),
    {
        let end = self.entries.len();
        let mut idx: usize = 0;
        while idx < end
            invariant
                end == self.entries_seq().len(),
                0 <= idx <= end,
                forall|j: int| 0 <= j < idx ==> (#[trigger] self.entries_seq()[j]).0@ != name@,
            decreases end - idx,
        {
            if self.entries[idx].0 == *name {
                return true;
            }
            idx += 1;
        }
        false
    }

    /// The run predicate of the panel registered under `name`: whether
    /// that panel renders this frame. The host only asks for names it
    /// registered.
    pub fn is_enabled(&self, name: &String) -> (b: bool)
        requires
            self.wf(),
            self.spec_contains(name@),
        ensures
            b == self.spec_enabled(name@),
    {
        let end = self.entries.len();
        let mut idx: usize = 0;
        while idx < end
            invariant
                end == self.entries_seq().len(),
                0 <= idx <= end,
                forall|j: int| 0 <= j < idx ==> (#[trigger] self.entries_seq()[j]).0@ != name@,
                self.wf(),
                self.spec_contains(name@),
            decreases end - idx,
        {
            if self.entries[idx].0 == *name {
                proof {
                    let w = self.spec_key_index(name@);
                    assert(self.entries_seq()[w].0@ == name@);
                }
                return self.entries[idx].1;
            }
            idx += 1;
        }
        proof {
            let w = self.spec_key_index(name@);
            assert(self.entries_seq()[w].0@ == name@);
        }
        false
    }
}

impl Default for EnabledPlugins {
    /// The empty map the plugin starts with.
    fn default() -> (e: Self)
        ensures
            e.entries_seq() == Seq::<(String, bool)>::empty(),
            e.wf(),
    {
        Self::new()
    }
}

/// Flipping one toggle flips — and only flips — its panel's run
/// predicate: turned from off to on, the predicate reports true on its
/// next evaluation, and from on to off false, while every other panel's
/// predicate keeps its value. The hypotheses are exactly what `toggle_at`
/// ensures of the map before and after a click.
pub proof fn lemma_toggle_gates_run_predicate(
    before: EnabledPlugins,
    after: EnabledPlugins,
    index: int,
)
    requires
        before.wf(),
        0 <= index < before.entries_seq().len(),
        after.wf(),
        after.entries_seq().len() == before.entries_seq().len(),
        after.entries_seq()[index].0@ == before.entries_seq()[index].0@,
        after.entries_seq()[index].1 == !before.entries_seq()[index].1,
        forall|j: int|
            0 <= j < before.entries_seq().len() && j != index ==> #[trigger] after.entries_seq()[j]
                == before.entries_seq()[j],
    ensures
        after.spec_enabled(before.entries_seq()[index].0@) == !before.spec_enabled(
            before.entries_seq()[index].0@,
        ),
        forall|n: Seq<char>|
            n != before.entries_seq()[index].0@ && before.spec_contains(n)
                ==> #[trigger] after.spec_enabled(n) == before.spec_enabled(n),
{
    lemma_one_key_changed(
        before.entries_seq(),
        after.entries_seq(),
        index,
        after.entries_seq()[index].1,
    );
    let key = before.entries_seq()[index].0@;
    let wb = before.spec_key_index(key);
    assert(before.entries_seq()[index].0@ == key);
    assert(before.entries_seq()[wb].0@ == key);
    if wb != index {
        if wb < index {
            assert(before.entries_seq()[wb].0@ != before.entries_seq()[index].0@);
        } else {
            assert(before.entries_seq()[index].0@ != before.entries_seq()[wb].0@);
        }
    }
    let wa = after.spec_key_index(key);
    assert(after.entries_seq()[index].0@ == key);
    assert(after.entries_seq()[wa].0@ == key);
    if wa != index {
        if wa < index {
            assert(after.entries_seq()[wa].0@ != after.entries_seq()[index].0@);
        } else {
            assert(after.entries_seq()[index].0@ != after.entries_seq()[wa].0@);
        }
    }
    assert forall|n: Seq<char>|
        n != before.entries_seq()[index].0@ && before.spec_contains(n) implies #[trigger] after
        .spec_enabled(n) == before.spec_enabled(n) by {
        lemma_same_lookup(before.entries_seq(), after.entries_seq(), n);
        let v = before.spec_key_index(n);
        assert(before.entries_seq()[v].0@ == n);
        if v != index {
            assert(after.entries_seq()[v] == before.entries_seq()[v]);
        }
    }
}

/// When two entry sequences agree on length and on every key, a name
/// registered in the first is registered at the same index in the second.
proof fn lemma_same_lookup(a: Seq<(String, bool)>, b: Seq<(String, bool)>, name: Seq<char>)
    requires
        a.len() == b.len(),
        forall|i: int| 0 <= i < a.len() ==> (#[trigger] a[i]).0@ == (#[trigger] b[i]).0@,
        forall|i: int, j: int| 0 <= i < j < a.len() ==> (#[trigger] a[i]).0@ != (#[trigger] a[j]).0@,
        exists|i: int| 0 <= i < a.len() && (#[trigger] a[i]).0@ == name,
    ensures
        ({
            let wa = choose|i: int| 0 <= i < a.len() && (#[trigger] a[i]).0@ == name;
            let wb = choose|i: int| 0 <= i < b.len() && (#[trigger] b[i]).0@ == name;
            wa == wb
        }),
{
    let wa = choose|i: int| 0 <= i < a.len() && (#[trigger] a[i]).0@ == name;
    let wb = choose|i: int| 0 <= i < b.len() && (#[trigger] b[i]).0@ == name;
    assert(b[wa].0@ == name);
    assert(a[wb].0@ == name);
    if wa < wb {
        assert(a[wa].0@ != a[wb].0@);
    } else if wb < wa {
        assert(a[wb].0@ != a[wa].0@);
    }
}

/// Updating one entry's flag in place keeps the keys, their uniqueness,
/// and every other entry's flag; only the updated key's lookup changes.
proof fn lemma_one_key_changed(
    before: Seq<(String, bool)>,
    after: Seq<(String, bool)>,
    index: int,
    value: bool,
)
    requires
        0 <= index < before.len(),
        forall|i: int, j: int|
            0 <= i < j < before.len() ==> (#[trigger] before[i]).0@ != (#[trigger] before[j]).0@,
        after.len() == before.len(),
        after[index].0@ == before[index].0@,
        after[index].1 == value,
        forall|j: int| 0 <= j < before.len() && j != index ==> #[trigger] after[j] == before[j],
    ensures
        forall|i: int, j: int|
            0 <= i < j < after.len() ==> (#[trigger] after[i]).0@ != (#[trigger] after[j]).0@,
        forall|i: int| 0 <= i < after.len() ==> (#[trigger] after[i]).0@ == (#[trigger] before[i]).0@,
{
    assert forall|i: int| 0 <= i < after.len() implies (#[trigger] after[i]).0@ == (
    #[trigger] before[i]).0@ by {
        if i != index {
            assert(after[i] == before[i]);
        }
    }
}

} // verus!

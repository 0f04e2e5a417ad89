use vstd::prelude::*;
use crate::models::DialogInstanceData;

verus! {

/// The active dialog sessions: for each dialog surface's label, the data of
/// its session. Labels are unique among the entries.
pub struct SessionRegistry {
    entries: Vec<(String, DialogInstanceData)>,
    model: Ghost<Map<Seq<char>, Seq<char>>>,
}

impl SessionRegistry {
    /// The registered sessions: each label mapped to its result event's name.
    pub closed spec fn view(&self) -> Map<Seq<char>, Seq<char>> {
        self.model@
    }

    pub closed spec fn wf(&self) -> bool {
        &&& forall|i: int, j: int|
            0 <= i < j < self.entries@.len() ==> self.entries@[i].0@ != self.entries@[j].0@
        &&& forall|i: int|
            0 <= i < self.entries@.len() ==> #[trigger] self.model@.contains_key(
                self.entries@[i].0@,
            ) && self.model@[self.entries@[i].0@] == self.entries@[i].1.event_name@
        &&& forall|k: Seq<char>|
            #[trigger] self.model@.contains_key(k) ==> exists|i: int|
                0 <= i < self.entries@.len() && self.entries@[i].0@ == k
    }

    /// An empty registry.
    pub fn new() -> (r: Self)
        ensures
            r.wf(),
            r@ == Map::<Seq<char>, Seq<char>>::empty(),
    {
        SessionRegistry { entries: Vec::new(), model: Ghost(Map::empty()) }
    }

    /// The position of `label` among the entries, if it is there.
    fn find(&self, label: &String) -> (r: Option<usize>)
        requires
            self.wf(),
        ensures
            match r {
                Some(i) => i < self.entries@.len() && self.entries@[i as int].0@ == label@,
                None => !self@.contains_key(label@),
            },
    {
        let mut i: usize = 0;
        while i < self.entries.len()
            invariant
                self.wf(),
                i <= self.entries@.len(),
                forall|j: int| 0 <= j < i ==> self.entries@[j].0@ != label@,
            decreases self.entries@.len() - i,
        {
            if self.entries[i].0 == *label {
                return Some(i);
            }
            i = i + 1;
        }
        None
    }

    /// Records the session of the surface `label`, replacing any session
    /// registered under it before.
    pub fn register(&mut self, label: String, data: DialogInstanceData)
        requires
            old(self).wf(),
        ensures
            final(self).wf(),
            final(self)@ == old(self)@.insert(label@, data.event_name@),
    {
        let ghost key = label@;
        let ghost name = data.event_name@;
        match self.find(&label) {
            Some(i) => {
                self.entries.set(i, (label, data));
                self.model = Ghost(self.model@.insert(key, name));
                assert(forall|k: Seq<char>|
                    #[trigger] self.model@.contains_key(k) ==> exists|j: int|
                        0 <= j < self.entries@.len() && self.entries@[j].0@ == k) by {
                    assert forall|k: Seq<char>| #[trigger]
                        self.model@.contains_key(k) implies exists|j: int|
                        0 <= j < self.entries@.len() && self.entries@[j].0@ == k by {
                        if k == key {
                            assert(self.entries@[i as int].0@ == k);
                        } else {
                            assert(old(self).model@.contains_key(k));
                            let j = choose|j: int|
                                0 <= j < old(self).entries@.len() && old(self).entries@[j].0@
                                    == k;
                            assert(self.entries@[j].0@ == k);
                        }
                    }
                }
            },
            None => {
                self.entries.push((label, data));
                self.model = Ghost(self.model@.insert(key, name));
                let ghost n = self.entries@.len() - 1;
                assert(self.entries@[n].0@ == key);
                assert forall|i: int| 0 <= i < n implies self.entries@[i].0@ != key by {
                    assert(old(self).model@.contains_key(old(self).entries@[i].0@));
                }
                assert forall|k: Seq<char>| #[trigger]
                    self.model@.contains_key(k) implies exists|j: int|
                    0 <= j < self.entries@.len() && self.entries@[j].0@ == k by {
                    if k == key {
                        assert(self.entries@[n].0@ == k);
                    } else {
                        assert(old(self).model@.contains_key(k));
                        let j = choose|j: int|
                            0 <= j < old(self).entries@.len() && old(self).entries@[j].0@ == k;
                        assert(self.entries@[j].0@ == k);
                    }
                }
            },
        }
    }

    /// The name of the result event of the session registered for `label`.
    pub fn lookup(&self, label: &String) -> (r: Option<String>)
        requires
            self.wf(),
        ensures
            r is Some <==> self@.contains_key(label@),
            r is Some ==> r->Some_0@ == self@[label@],
    {
        match self.find(label) {
            Some(i) => {
                assert(self.model@.contains_key(self.entries@[i as int].0@));
                Some(self.entries[i].1.event_name.clone())
            },
            None => None,
        }
    }

    /// Forgets the session registered for `label`, if there is one.
    pub fn remove(&mut self, label: &String)
        requires
            old(self).wf(),
        ensures
            final(self).wf(),
            final(self)@ == old(self)@.remove(label@),
    {
        match self.find(label) {
            Some(i) => {
                let ghost old_entries = self.entries@;
                self.entries.remove(i);
                self.model = Ghost(self.model@.remove(label@));
                assert forall|j: int|
                    0 <= j < self.entries@.len() implies #[trigger] self.model@.contains_key(
                    self.entries@[j].0@,
                ) && self.model@[self.entries@[j].0@] == self.entries@[j].1.event_name@ by {
                    if j < i {
                        assert(self.entries@[j] == old_entries[j]);
                        assert(old(self).model@.contains_key(old_entries[j].0@));
                    } else {
                        assert(self.entries@[j] == old_entries[j + 1]);
                        assert(old(self).model@.contains_key(old_entries[j + 1].0@));
                    }
                }
                assert forall|a: int, b: int|
                    0 <= a < b < self.entries@.len() implies self.entries@[a].0@
                    != self.entries@[b].0@ by {
                    let oa = if a < i { a } else { a + 1 };
                    let ob = if b < i { b } else { b + 1 };
                    assert(self.entries@[a] == old_entries[oa]);
                    assert(self.entries@[b] == old_entries[ob]);
                }
                assert forall|k: Seq<char>| #[trigger]
                    self.model@.contains_key(k) implies exists|j: int|
                    0 <= j < self.entries@.len() && self.entries@[j].0@ == k by {
                    let j = choose|j: int| 0 <= j < old_entries.len() && old_entries[j].0@ == k;
                    if j < i {
                        assert(self.entries@[j] == old_entries[j]);
                    } else {
                        assert(self.entries@[j - 1] == old_entries[j]);
                    }
                }
            },
            None => {
                assert(self.model@.remove(label@) =~= self.model@);
            },
        }
    }
}

} // verus!

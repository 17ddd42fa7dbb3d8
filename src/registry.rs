use vstd::prelude::*;

verus! {

/// The windows that are open, each under a unique label, with whether it is
/// visible. A closed window is no longer in the registry.
pub struct WindowRegistry {
    labels: Vec<String>,
    visible: Vec<bool>,
}

impl View for WindowRegistry {
    type V = Map<Seq<char>, bool>;

    /// Each open window's label mapped to its visibility.
    closed spec fn view(&self) -> Map<Seq<char>, bool> {
        Map::new(|l: Seq<char>| self.has_label(l), |l: Seq<char>| self.visible@[self.index_of(l)])
    }
}

impl WindowRegistry {
    spec fn has_label(&self, l: Seq<char>) -> bool {
        exists|i: int| 0 <= i < self.labels@.len() && #[trigger] self.labels@[i]@ == l
    }

    spec fn index_of(&self, l: Seq<char>) -> int {
        choose|i: int| 0 <= i < self.labels@.len() && #[trigger] self.labels@[i]@ == l
    }

    /// The labels are unique and each has a visibility.
    pub closed spec fn wf(&self) -> bool {
        &&& self.labels@.len() == self.visible@.len()
        &&& forall|i: int, j: int|
            0 <= i < self.labels@.len() && 0 <= j < self.labels@.len() && i != j
                ==> #[trigger] self.labels@[i]@ != #[trigger] self.labels@[j]@
    }

    proof fn lemma_entry(&self, i: int)
        requires
            self.wf(),
            0 <= i < self.labels@.len(),
        ensures
            self@.contains_key(self.labels@[i]@),
            self@[self.labels@[i]@] == self.visible@[i],
    {
        let l = self.labels@[i]@;
        assert(self.has_label(l));
        let k = self.index_of(l);
        assert(self.labels@[k]@ == l);
    }

    /// A registry with no window.
    pub fn new() -> (r: WindowRegistry)
        ensures
            r.wf(),
            r@ == Map::<Seq<char>, bool>::empty(),
    {
        let r = WindowRegistry { labels: Vec::new(), visible: Vec::new() };
        assert(r@ =~= Map::<Seq<char>, bool>::empty());
        r
    }

    fn find(&self, label: &String) -> (r: Option<usize>)
        requires
            self.wf(),
        ensures
            r is None ==> !self@.contains_key(label@),
            r matches Some(i) ==> i < self.labels@.len() && self.labels@[i as int]@ == label@,
    {
        let mut i: usize = 0;
        while i < self.labels.len()
            invariant
                i <= self.labels@.len(),
                forall|j: int| 0 <= j < i ==> #[trigger] self.labels@[j]@ != label@,
            decreases self.labels@.len() - i,
        {
            if self.labels[i] == *label {
                return Some(i);
            }
            i = i + 1;
        }
        None
    }

    /// Whether a window with this label is open.
    pub fn contains(&self, label: &str) -> (r: bool)
        requires
            self.wf(),
        ensures
            r == self@.contains_key(label@),
    {
        let l = label.to_owned();
        match self.find(&l) {
            Some(i) => {
                proof {
                    self.lemma_entry(i as int);
                }
                true
            },
            None => false,
        }
    }

    /// The visibility of the window with this label, if it is open.
    pub fn visibility(&self, label: &str) -> (r: Option<bool>)
        requires
            self.wf(),
        ensures
            r == (if self@.contains_key(label@) {
                Some(self@[label@])
            } else {
                None
            }),
    {
        let l = label.to_owned();
        match self.find(&l) {
            Some(i) => {
                proof {
                    self.lemma_entry(i as int);
                }
                Some(self.visible[i])
            },
            None => None,
        }
    }

    /// Opens a window under a label that no open window has. Where the label
    /// is taken the registry stays as it is and `false` comes back.
    pub fn open_window(&mut self, label: &str, visible: bool) -> (r: bool)
        requires
            old(self).wf(),
        ensures
            final(self).wf(),
            r == !old(self)@.contains_key(label@),
            r ==> final(self)@ == old(self)@.insert(label@, visible),
            !r ==> final(self)@ == old(self)@,
    {
        let l = label.to_owned();
        match self.find(&l) {
            Some(i) => {
                proof {
                    self.lemma_entry(i as int);
                }
                false
            },
            None => {
                let ghost prev = *self;
                self.labels.push(l);
                self.visible.push(visible);
                let ghost n = prev.labels@.len() as int;
                assert(self.labels@[n]@ == label@);
                assert(forall|j: int| 0 <= j < n ==> #[trigger] self.labels@[j] == prev.labels@[j]);
                assert forall|j: int| 0 <= j < n implies #[trigger] prev.labels@[j]@ != label@ by {
                    prev.lemma_entry(j);
                }
                assert(self.wf());
                proof {
                    self.lemma_entry(n);
                }
                assert forall|k: Seq<char>| #[trigger] prev@.contains_key(k) implies self@.contains_key(k)
                    && self@[k] == prev@[k] by {
                    let j = prev.index_of(k);
                    prev.lemma_entry(j);
                    self.lemma_entry(j);
                }
                assert forall|k: Seq<char>| #[trigger] self@.contains_key(k) implies k == label@
                    || prev@.contains_key(k) by {
                    let j = self.index_of(k);
                    if j < n {
                        prev.lemma_entry(j);
                    }
                }
                assert(self@ =~= prev@.insert(label@, visible));
                true
            },
        }
    }

    /// Sets the visibility of the window with this label. Where no such
    /// window is open nothing changes and `false` comes back.
    pub fn set_visible(&mut self, label: &str, visible: bool) -> (r: bool)
        requires
            old(self).wf(),
        ensures
            final(self).wf(),
            r == old(self)@.contains_key(label@),
            r ==> final(self)@ == old(self)@.insert(label@, visible),
            !r ==> final(self)@ == old(self)@,
    {
        let l = label.to_owned();
        match self.find(&l) {
            Some(i) => {
                let ghost prev = *self;
                proof {
                    prev.lemma_entry(i as int);
                }
                self.visible.set(i, visible);
                assert(self.labels@ == prev.labels@);
                assert(self.wf());
                proof {
                    self.lemma_entry(i as int);
                }
                assert forall|k: Seq<char>| #[trigger] prev@.contains_key(k) && k != label@
                    implies self@.contains_key(k) && self@[k] == prev@[k] by {
                    let j = prev.index_of(k);
                    prev.lemma_entry(j);
                    self.lemma_entry(j);
                }
                assert forall|k: Seq<char>| #[trigger] self@.contains_key(k) implies prev@.contains_key(
                    k,
                ) by {
                    let j = self.index_of(k);
                    prev.lemma_entry(j);
                }
                assert(self@ =~= prev@.insert(label@, visible));
                true
            },
            None => false,
        }
    }

    /// Closes the window with this label, which leaves the registry. Where no
    /// such window is open nothing changes and `false` comes back.
    pub fn close(&mut self, label: &str) -> (r: bool)
        requires
            old(self).wf(),
        ensures
            final(self).wf(),
            r == old(self)@.contains_key(label@),
            r ==> final(self)@ == old(self)@.remove(label@),
            !r ==> final(self)@ == old(self)@,
    {
        let l = label.to_owned();
        match self.find(&l) {
            Some(i) => {
                let ghost prev = *self;
                proof {
                    prev.lemma_entry(i as int);
                }
                self.labels.remove(i);
                self.visible.remove(i);
                let ghost idx = i as int;
                assert forall|j: int| 0 <= j < self.labels@.len() implies #[trigger] self.labels@[j]
                    == prev.labels@[if j < idx { j } else { j + 1 }] && self.visible@[j]
                    == prev.visible@[if j < idx { j } else { j + 1 }] by {}
                assert(self.wf()) by {
                    assert forall|a: int, b: int|
                        0 <= a < self.labels@.len() && 0 <= b < self.labels@.len() && a != b
                            implies #[trigger] self.labels@[a]@ != #[trigger] self.labels@[b]@ by {
                        let pa = if a < idx { a } else { a + 1 };
                        let pb = if b < idx { b } else { b + 1 };
                        assert(self.labels@[a] == prev.labels@[pa]);
                        assert(self.labels@[b] == prev.labels@[pb]);
                    }
                }
                assert forall|k: Seq<char>| #[trigger] prev@.contains_key(k) && k != label@
                    implies self@.contains_key(k) && self@[k] == prev@[k] by {
                    let p = prev.index_of(k);
                    prev.lemma_entry(p);
                    let j = if p < idx { p } else { p - 1 };
                    assert(self.labels@[j] == prev.labels@[p]);
                    self.lemma_entry(j);
                }
                assert forall|k: Seq<char>| #[trigger] self@.contains_key(k) implies prev@.contains_key(
                    k,
                ) && k != label@ by {
                    let j = self.index_of(k);
                    let p = if j < idx { j } else { j + 1 };
                    assert(self.labels@[j] == prev.labels@[p]);
                    prev.lemma_entry(p);
                }
                assert(self@ =~= prev@.remove(label@));
                true
            },
            None => false,
        }
    }
}

} // verus!

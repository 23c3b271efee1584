use vstd::prelude::*;

verus! {

/// The map that a sequence of `(user id, settings)` entries stands for: later
/// entries win over earlier ones with the same id.
pub open spec fn entries_map<V>(s: Seq<(String, V)>) -> Map<Seq<char>, V>
    decreases s.len(),
{
    if s.len() == 0 {
        Map::empty()
    } else {
        entries_map(s.drop_last()).insert(s.last().0@, s.last().1)
    }
}

/// No user id occurs twice among the entries.
pub open spec fn distinct_ids<V>(s: Seq<(String, V)>) -> bool {
    forall|i: int, j: int| 0 <= i < j < s.len() ==> #[trigger] s[i].0@ != #[trigger] s[j].0@
}

/// What the map holds, entry by entry: its keys are exactly the entries' ids,
/// each mapped to the settings stored beside it, and it has one key per entry.
proof fn lemma_entries_map_contents<V>(s: Seq<(String, V)>)
    requires
        distinct_ids(s),
    ensures
        entries_map(s).dom().finite(),
        entries_map(s).dom().len() == s.len(),
        forall|k: Seq<char>|
            #[trigger] entries_map(s).dom().contains(k) <==> exists|i: int|
                0 <= i < s.len() && #[trigger] s[i].0@ == k,
        forall|i: int| 0 <= i < s.len() ==> #[trigger] entries_map(s)[s[i].0@] == s[i].1,
    decreases s.len(),
{
    if s.len() > 0 {
        let t = s.drop_last();
        assert(distinct_ids(t));
        lemma_entries_map_contents(t);
        let last = s.last();
        assert(!entries_map(t).dom().contains(last.0@)) by {
            if entries_map(t).dom().contains(last.0@) {
                let i = choose|i: int| 0 <= i < t.len() && #[trigger] t[i].0@ == last.0@;
                assert(s[i].0@ == s[s.len() - 1].0@);
            }
        }
        assert forall|k: Seq<char>|
            #[trigger] entries_map(s).dom().contains(k) implies exists|i: int|
                0 <= i < s.len() && #[trigger] s[i].0@ == k by {
            if k != last.0@ {
                let i = choose|i: int| 0 <= i < t.len() && #[trigger] t[i].0@ == k;
                assert(s[i].0@ == k);
            } else {
                assert(s[s.len() - 1].0@ == k);
            }
        }
        assert forall|i: int| 0 <= i < s.len() implies #[trigger] entries_map(s)[s[i].0@]
            == s[i].1 by {
            if i < s.len() - 1 {
                assert(t[i] == s[i]);
                assert(s[i].0@ != s[s.len() - 1].0@);
            }
        }
        assert forall|k: Seq<char>|
            (exists|i: int| 0 <= i < s.len() && #[trigger] s[i].0@ == k) implies #[trigger] entries_map(
            s,
        ).dom().contains(k) by {
            let i = choose|i: int| 0 <= i < s.len() && #[trigger] s[i].0@ == k;
            if i < s.len() - 1 {
                assert(t[i] == s[i]);
            }
        }
    }
}

/// Storing new settings in an existing entry is an insertion into the map.
proof fn lemma_entries_map_update<V>(s: Seq<(String, V)>, i: int, e: (String, V))
    requires
        distinct_ids(s),
        0 <= i < s.len(),
        s[i].0@ == e.0@,
    ensures
        distinct_ids(s.update(i, e)),
        entries_map(s.update(i, e)) == entries_map(s).insert(e.0@, e.1),
{
    let u = s.update(i, e);
    assert forall|a: int, b: int| 0 <= a < b < u.len() implies #[trigger] u[a].0@
        != #[trigger] u[b].0@ by {
        assert(s[a].0@ != s[b].0@);
    }
    lemma_entries_map_contents(s);
    lemma_entries_map_contents(u);
    let m = entries_map(s).insert(e.0@, e.1);
    assert forall|k: Seq<char>| #[trigger] entries_map(u).dom().contains(k) <==> m.dom().contains(
        k,
    ) by {
        if m.dom().contains(k) && k != e.0@ {
            let j = choose|j: int| 0 <= j < s.len() && #[trigger] s[j].0@ == k;
            assert(u[j].0@ == k);
        }
        if k == e.0@ {
            assert(u[i].0@ == k);
        }
        if entries_map(u).dom().contains(k) {
            let j = choose|j: int| 0 <= j < u.len() && #[trigger] u[j].0@ == k;
            if j != i {
                assert(s[j].0@ == k);
            }
        }
    }
    assert forall|k: Seq<char>| #[trigger] entries_map(u).dom().contains(k) implies entries_map(
        u,
    )[k] == m[k] by {
        let j = choose|j: int| 0 <= j < u.len() && #[trigger] u[j].0@ == k;
        if j != i {
            assert(s[j] == u[j]);
        }
    }
    assert(entries_map(u) =~= m);
}

/// Appending an entry for a new id is an insertion into the map.
proof fn lemma_entries_map_push<V>(s: Seq<(String, V)>, e: (String, V))
    requires
        distinct_ids(s),
        !entries_map(s).dom().contains(e.0@),
    ensures
        distinct_ids(s.push(e)),
        entries_map(s.push(e)) == entries_map(s).insert(e.0@, e.1),
{
    lemma_entries_map_contents(s);
    let p = s.push(e);
    assert(p.drop_last() =~= s);
    assert forall|a: int, b: int| 0 <= a < b < p.len() implies #[trigger] p[a].0@
        != #[trigger] p[b].0@ by {
        if b == s.len() {
            assert(s[a].0@ == p[a].0@);
        } else {
            assert(s[a].0@ != s[b].0@);
        }
    }
}

/// Dropping the entry of an id removes that id from the map.
proof fn lemma_entries_map_remove<V>(s: Seq<(String, V)>, i: int)
    requires
        distinct_ids(s),
        0 <= i < s.len(),
    ensures
        distinct_ids(s.remove(i)),
        entries_map(s.remove(i)) == entries_map(s).remove(s[i].0@),
{
    let r = s.remove(i);
    assert forall|a: int, b: int| 0 <= a < b < r.len() implies #[trigger] r[a].0@
        != #[trigger] r[b].0@ by {
        let a0 = if a < i { a } else { a + 1 };
        let b0 = if b < i { b } else { b + 1 };
        assert(r[a] == s[a0]);
        assert(r[b] == s[b0]);
        assert(s[a0].0@ != s[b0].0@);
    }
    lemma_entries_map_contents(s);
    lemma_entries_map_contents(r);
    let m = entries_map(s).remove(s[i].0@);
    assert forall|k: Seq<char>| #[trigger] entries_map(r).dom().contains(k) <==> m.dom().contains(
        k,
    ) by {
        if entries_map(r).dom().contains(k) {
            let j = choose|j: int| 0 <= j < r.len() && #[trigger] r[j].0@ == k;
            let j0 = if j < i { j } else { j + 1 };
            assert(r[j] == s[j0]);
            assert(s[j0].0@ != s[i].0@);
        }
        if m.dom().contains(k) {
            let j = choose|j: int| 0 <= j < s.len() && #[trigger] s[j].0@ == k;
            assert(j != i);
            let j1 = if j < i { j } else { j - 1 };
            assert(r[j1] == s[j]);
        }
    }
    assert forall|k: Seq<char>| #[trigger] entries_map(r).dom().contains(k) implies entries_map(
        r,
    )[k] == m[k] by {
        let j = choose|j: int| 0 <= j < r.len() && #[trigger] r[j].0@ == k;
        let j0 = if j < i { j } else { j + 1 };
        assert(r[j] == s[j0]);
    }
    assert(entries_map(r) =~= m);
}

/// The voice settings of the other users in the current voice channel, keyed by
/// user id.
pub struct VoiceUserMap<V> {
    entries: Vec<(String, V)>,
}

impl<V> View for VoiceUserMap<V> {
    type V = Map<Seq<char>, V>;

    closed spec fn view(&self) -> Map<Seq<char>, V> {
        entries_map(self.entries@)
    }
}

impl<V> VoiceUserMap<V> {
    /// The map is well formed: no user id is stored twice.
    pub closed spec fn wf(&self) -> bool {
        distinct_ids(self.entries@)
    }

    /// An empty map.
    pub fn new() -> (m: Self)
        ensures
            m.wf(),
            m@ == Map::<Seq<char>, V>::empty(),
    {
        VoiceUserMap { entries: Vec::new() }
    }

    /// The number of users in the map.
    pub fn len(&self) -> (n: usize)
        requires
            self.wf(),
        ensures
            self@.dom().finite(),
            n == self@.dom().len(),
    {
        proof {
            lemma_entries_map_contents(self.entries@);
        }
        self.entries.len()
    }

    /// Whether the map holds no user.
    pub fn is_empty(&self) -> (b: bool)
        requires
            self.wf(),
        ensures
            b <==> self@ == Map::<Seq<char>, V>::empty(),
    {
        proof {
            lemma_entries_map_contents(self.entries@);
            if self.entries@.len() > 0 {
                assert(self@.dom().contains(self.entries@[0].0@));
            } else {
                assert(self@ =~= Map::<Seq<char>, V>::empty());
            }
        }
        self.entries.len() == 0
    }

    /// The position of the entry of `user_id`, if the map holds that user.
    fn position(&self, user_id: &String) -> (pos: Option<usize>)
        requires
            self.wf(),
        ensures
            match pos {
                Some(i) => i < self.entries@.len() && self.entries@[i as int].0@ == user_id@,
                None => !self@.dom().contains(user_id@),
            },
    {
        proof {
            lemma_entries_map_contents(self.entries@);
        }
        let mut i: usize = 0;
        while i < self.entries.len()
            invariant
                i <= self.entries@.len(),
                forall|j: int| 0 <= j < i ==> #[trigger] self.entries@[j].0@ != user_id@,
            decreases self.entries@.len() - i,
        {
            if self.entries[i].0 == *user_id {
                return Some(i);
            }
            i = i + 1;
        }
        None
    }

    /// Whether the map holds settings for `user_id`.
    pub fn contains_key(&self, user_id: &String) -> (b: bool)
        requires
            self.wf(),
        ensures
            b == self@.dom().contains(user_id@),
    {
        proof {
            lemma_entries_map_contents(self.entries@);
        }
        match self.position(user_id) {
            Some(_) => true,
            None => false,
        }
    }

    /// The settings stored for `user_id`, if any.
    pub fn get(&self, user_id: &String) -> (res: Option<&V>)
        requires
            self.wf(),
        ensures
            match res {
                Some(v) => self@.dom().contains(user_id@) && *v == self@[user_id@],
                None => !self@.dom().contains(user_id@),
            },
    {
        proof {
            lemma_entries_map_contents(self.entries@);
        }
        match self.position(user_id) {
            Some(i) => Some(&self.entries[i].1),
            None => None,
        }
    }

    /// Stores `settings` for `user_id`, replacing what was stored for that user.
    pub fn insert(&mut self, user_id: String, settings: V)
        requires
            old(self).wf(),
        ensures
            final(self).wf(),
            final(self)@ == old(self)@.insert(user_id@, settings),
    {
        match self.position(&user_id) {
            Some(i) => {
                proof {
                    lemma_entries_map_update(self.entries@, i as int, (user_id, settings));
                }
                self.entries.set(i, (user_id, settings));
            },
            None => {
                proof {
                    lemma_entries_map_push(self.entries@, (user_id, settings));
                }
                self.entries.push((user_id, settings));
            },
        }
    }

    /// Forgets what is stored for `user_id`.
    pub fn remove(&mut self, user_id: &String)
        requires
            old(self).wf(),
        ensures
            final(self).wf(),
            final(self)@ == old(self)@.remove(user_id@),
    {
        match self.position(user_id) {
            Some(i) => {
                proof {
                    lemma_entries_map_remove(self.entries@, i as int);
                }
                self.entries.remove(i);
            },
            None => {
                assert(self@ =~= self@.remove(user_id@));
            },
        }
    }

    /// Forgets every user.
    pub fn clear(&mut self)
        requires
            old(self).wf(),
        ensures
            final(self).wf(),
            final(self)@ == Map::<Seq<char>, V>::empty(),
    {
        self.entries.clear();
    }

    /// The ids of all users in the map, each once.
    pub fn user_ids(&self) -> (ids: Vec<String>)
        requires
            self.wf(),
        ensures
            ids@.len() == self@.dom().len(),
            forall|i: int, j: int| 0 <= i < j < ids@.len() ==> #[trigger] ids@[i]@ != #[trigger] ids@[j]@,
            forall|k: Seq<char>| #[trigger] self@.dom().contains(k) <==> exists|i: int|
                0 <= i < ids@.len() && #[trigger] ids@[i]@ == k,
    {
        proof {
            lemma_entries_map_contents(self.entries@);
        }
        let mut ids: Vec<String> = Vec::new();
        let mut i: usize = 0;
        while i < self.entries.len()
            invariant
                i <= self.entries@.len(),
                ids@.len() == i,
                forall|j: int| 0 <= j < i ==> #[trigger] ids@[j]@ == self.entries@[j].0@,
            decreases self.entries@.len() - i,
        {
            ids.push(self.entries[i].0.clone());
            i = i + 1;
        }
        proof {
            assert forall|a: int, b: int| 0 <= a < b < ids@.len() implies #[trigger] ids@[a]@
                != #[trigger] ids@[b]@ by {
                assert(self.entries@[a].0@ != self.entries@[b].0@);
            }
            assert forall|k: Seq<char>| #[trigger] self@.dom().contains(k) <==> exists|i: int|
                0 <= i < ids@.len() && #[trigger] ids@[i]@ == k by {
                if self@.dom().contains(k) {
                    let i = choose|i: int|
                        0 <= i < self.entries@.len() && #[trigger] self.entries@[i].0@ == k;
                    assert(ids@[i]@ == k);
                }
                if exists|i: int| 0 <= i < ids@.len() && #[trigger] ids@[i]@ == k {
                    let i = choose|i: int| 0 <= i < ids@.len() && #[trigger] ids@[i]@ == k;
                    assert(self.entries@[i].0@ == k);
                }
            }
        }
        ids
    }
}

} // verus!

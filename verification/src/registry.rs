//! The routing table from client ids to the channels of their connections.
use vstd::prelude::*;

verus! {

/// No two entries of `s` carry the same client id.
pub open spec fn ids_distinct<C>(s: Seq<(String, C)>) -> bool {
    forall|i: int, j: int|
        0 <= i < s.len() && 0 <= j < s.len() && i != j ==> #[trigger] s[i].0@ != #[trigger] s[j].0@
}

/// Some entry of `s` carries the client id `id`.
pub open spec fn has_id<C>(s: Seq<(String, C)>, id: Seq<char>) -> bool {
    exists|i: int| 0 <= i < s.len() && #[trigger] s[i].0@ == id
}

/// The map from client id to channel that the entries `s` describe.
pub open spec fn entries_map<C>(s: Seq<(String, C)>) -> Map<Seq<char>, C> {
    Map::new(
        |id: Seq<char>| has_id(s, id),
        |id: Seq<char>| s[choose|i: int| 0 <= i < s.len() && #[trigger] s[i].0@ == id].1,
    )
}

/// With distinct ids, the map sends the id of each entry to that entry's channel.
proof fn lemma_entry_in_map<C>(s: Seq<(String, C)>, i: int)
    requires
        ids_distinct(s),
        0 <= i < s.len(),
    ensures
        entries_map(s).contains_key(s[i].0@),
        entries_map(s)[s[i].0@] == s[i].1,
{
    let id = s[i].0@;
    assert(has_id(s, id));
    let j = choose|j: int| 0 <= j < s.len() && #[trigger] s[j].0@ == id;
    assert(s[j].0@ == id);
    assert(j == i);
}

/// The registry of connected clients: each client id is bound to at most one
/// channel, the one registered last for it.
pub struct ClientRegistry<C> {
    entries: Vec<(String, C)>,
}

impl<C> View for ClientRegistry<C> {
    type V = Map<Seq<char>, C>;

    closed spec fn view(&self) -> Map<Seq<char>, C> {
        entries_map(self.entries@)
    }
}

impl<C> ClientRegistry<C> {
    #[verifier::type_invariant]
    closed spec fn inv(self) -> bool {
        ids_distinct(self.entries@)
    }

    /// An empty registry.
    pub fn new() -> (r: Self)
        ensures
            r@ == Map::<Seq<char>, C>::empty(),
    {
        let r = ClientRegistry { entries: Vec::new() };
        assert(r@ =~= Map::<Seq<char>, C>::empty());
        r
    }

    /// The position of `client_id` among the entries.
    fn position(&self, client_id: &String) -> (pos: Option<usize>)
        ensures
            match pos {
                Some(i) => i < self.entries@.len() && self.entries@[i as int].0@ == client_id@,
                None => !has_id(self.entries@, client_id@),
            },
    {
        let n = self.entries.len();
        let mut i: usize = 0;
        while i < n
            invariant
                n == self.entries@.len(),
                i <= n,
                forall|j: int| 0 <= j < i ==> #[trigger] self.entries@[j].0@ != client_id@,
            decreases n - i,
        {
            if self.entries[i].0 == *client_id {
                return Some(i);
            }
            i = i + 1;
        }
        None
    }

    /// Whether `client_id` is registered.
    pub fn contains(&self, client_id: &String) -> (b: bool)
        ensures
            b == self@.contains_key(client_id@),
    {
        self.position(client_id).is_some()
    }

    /// The channel registered for `client_id`, if any.
    pub fn get(&self, client_id: &String) -> (found: Option<&C>)
        ensures
            match found {
                Some(c) => self@.contains_key(client_id@) && *c == self@[client_id@],
                None => !self@.contains_key(client_id@),
            },
    {
        proof {
            use_type_invariant(self);
        }
        match self.position(client_id) {
            Some(i) => {
                proof {
                    lemma_entry_in_map(self.entries@, i as int);
                }
                Some(&self.entries[i].1)
            },
            None => None,
        }
    }

    /// Binds `client_id` to `channel`, replacing any channel bound to it before.
    pub fn insert(&mut self, client_id: String, channel: C)
        ensures
            final(self)@ == old(self)@.insert(client_id@, channel),
    {
        proof {
            use_type_invariant(&*self);
        }
        let ghost old_entries = self.entries@;
        let ghost id = client_id@;
        match self.position(&client_id) {
            Some(i) => {
                let ghost new_entries = old_entries.update(i as int, (client_id, channel));
                assert(ids_distinct(new_entries)) by {
                    assert forall|a: int, b: int|
                        0 <= a < new_entries.len() && 0 <= b < new_entries.len() && a != b
                        implies #[trigger] new_entries[a].0@ != #[trigger] new_entries[b].0@ by {
                        assert(new_entries[a].0@ == old_entries[a].0@);
                        assert(new_entries[b].0@ == old_entries[b].0@);
                    }
                }
                let mut entries = Vec::new();
                std::mem::swap(&mut entries, &mut self.entries);
                entries.set(i, (client_id, channel));
                assert(entries@ == new_entries);
                self.entries = entries;
                proof {
                    Self::lemma_update_map(old_entries, i as int, new_entries[i as int]);
                }
            },
            None => {
                let mut entries = Vec::new();
                std::mem::swap(&mut entries, &mut self.entries);
                entries.push((client_id, channel));
                proof {
                    Self::lemma_push_map(old_entries, entries@.last());
                    assert(entries@ == old_entries.push(entries@.last()));
                }
                self.entries = entries;
            },
        }
    }

    /// Unbinds `client_id`; the registry is unchanged where it was not bound.
    pub fn remove(&mut self, client_id: &String)
        ensures
            final(self)@ == old(self)@.remove(client_id@),
    {
        proof {
            use_type_invariant(&*self);
        }
        let ghost old_entries = self.entries@;
        match self.position(client_id) {
            Some(i) => {
                let ghost new_entries = old_entries.remove(i as int);
                assert(ids_distinct(new_entries)) by {
                    assert forall|a: int, b: int|
                        0 <= a < new_entries.len() && 0 <= b < new_entries.len() && a != b
                        implies #[trigger] new_entries[a].0@ != #[trigger] new_entries[b].0@ by {
                        let oa = if a < i { a } else { a + 1 };
                        let ob = if b < i { b } else { b + 1 };
                        assert(new_entries[a] == old_entries[oa]);
                        assert(new_entries[b] == old_entries[ob]);
                    }
                }
                let mut entries = Vec::new();
                std::mem::swap(&mut entries, &mut self.entries);
                let _removed = entries.remove(i);
                assert(entries@ == new_entries);
                self.entries = entries;
                proof {
                    Self::lemma_remove_map(old_entries, i as int);
                }
            },
            None => {
                assert(old(self)@ =~= old(self)@.remove(client_id@));
            },
        }
    }

    proof fn lemma_update_map(s: Seq<(String, C)>, i: int, e: (String, C))
        requires
            ids_distinct(s),
            0 <= i < s.len(),
            s[i].0@ == e.0@,
            ids_distinct(s.update(i, e)),
        ensures
            entries_map(s.update(i, e)) == entries_map(s).insert(e.0@, e.1),
    {
        let t = s.update(i, e);
        let m = entries_map(s).insert(e.0@, e.1);
        assert forall|id: Seq<char>| #[trigger] entries_map(t).contains_key(id) <==> m.contains_key(id) by {
            if has_id(t, id) {
                let j = choose|j: int| 0 <= j < t.len() && #[trigger] t[j].0@ == id;
                if j != i {
                    assert(s[j].0@ == id);
                }
            }
            if has_id(s, id) {
                let j = choose|j: int| 0 <= j < s.len() && #[trigger] s[j].0@ == id;
                assert(t[j].0@ == id);
            }
            if id == e.0@ {
                assert(t[i].0@ == id);
            }
        }
        assert forall|id: Seq<char>| #[trigger] entries_map(t).contains_key(id)
            implies entries_map(t)[id] == m[id] by {
            let j = choose|j: int| 0 <= j < t.len() && #[trigger] t[j].0@ == id;
            lemma_entry_in_map(t, j);
            if j != i {
                assert(s[j].0@ == id);
                lemma_entry_in_map(s, j);
            }
        }
        assert(entries_map(t) =~= m);
    }

    proof fn lemma_push_map(s: Seq<(String, C)>, e: (String, C))
        requires
            ids_distinct(s),
            !has_id(s, e.0@),
        ensures
            ids_distinct(s.push(e)),
            entries_map(s.push(e)) == entries_map(s).insert(e.0@, e.1),
    {
        let t = s.push(e);
        assert(ids_distinct(t)) by {
            assert forall|a: int, b: int|
                0 <= a < t.len() && 0 <= b < t.len() && a != b
                implies #[trigger] t[a].0@ != #[trigger] t[b].0@ by {
                if a < s.len() {
                    assert(t[a] == s[a]);
                }
                if b < s.len() {
                    assert(t[b] == s[b]);
                }
            }
        }
        let m = entries_map(s).insert(e.0@, e.1);
        assert forall|id: Seq<char>| #[trigger] entries_map(t).contains_key(id) <==> m.contains_key(id) by {
            if has_id(t, id) {
                let j = choose|j: int| 0 <= j < t.len() && #[trigger] t[j].0@ == id;
                if j < s.len() {
                    assert(s[j].0@ == id);
                }
            }
            if has_id(s, id) {
                let j = choose|j: int| 0 <= j < s.len() && #[trigger] s[j].0@ == id;
                assert(t[j].0@ == id);
            }
            if id == e.0@ {
                assert(t[s.len() as int].0@ == id);
            }
        }
        assert forall|id: Seq<char>| #[trigger] entries_map(t).contains_key(id)
            implies entries_map(t)[id] == m[id] by {
            let j = choose|j: int| 0 <= j < t.len() && #[trigger] t[j].0@ == id;
            lemma_entry_in_map(t, j);
            if j < s.len() {
                assert(t[j] == s[j]);
                lemma_entry_in_map(s, j);
            }
        }
        assert(entries_map(t) =~= m);
    }

    proof fn lemma_remove_map(s: Seq<(String, C)>, i: int)
        requires
            ids_distinct(s),
            0 <= i < s.len(),
            ids_distinct(s.remove(i)),
        ensures
            entries_map(s.remove(i)) == entries_map(s).remove(s[i].0@),
    {
        let t = s.remove(i);
        let k = s[i].0@;
        let m = entries_map(s).remove(k);
        assert forall|id: Seq<char>| #[trigger] entries_map(t).contains_key(id) <==> m.contains_key(id) by {
            if has_id(t, id) {
                let j = choose|j: int| 0 <= j < t.len() && #[trigger] t[j].0@ == id;
                let oj = if j < i { j } else { j + 1 };
                assert(t[j] == s[oj]);
                assert(s[oj].0@ == id);
            }
            if has_id(s, id) && id != k {
                let j = choose|j: int| 0 <= j < s.len() && #[trigger] s[j].0@ == id;
                assert(j != i);
                let tj = if j < i { j } else { j - 1 };
                assert(t[tj] == s[j]);
                assert(t[tj].0@ == id);
            }
        }
        assert forall|id: Seq<char>| #[trigger] entries_map(t).contains_key(id)
            implies entries_map(t)[id] == m[id] by {
            let j = choose|j: int| 0 <= j < t.len() && #[trigger] t[j].0@ == id;
            lemma_entry_in_map(t, j);
            let oj = if j < i { j } else { j + 1 };
            assert(t[j] == s[oj]);
            lemma_entry_in_map(s, oj);
        }
        assert(entries_map(t) =~= m);
    }
}

/// A client found right after it was registered is found with the channel
/// registered for it; a client found right after it was removed is not found.
pub proof fn law_lookup_after_change<C>(clients: Map<Seq<char>, C>, id: Seq<char>, channel: C)
    ensures
        clients.insert(id, channel).contains_key(id),
        clients.insert(id, channel)[id] == channel,
        !clients.remove(id).contains_key(id),
{
}

/// Registering or removing one client leaves the binding of every other
/// client as it was.
pub proof fn law_other_clients_unchanged<C>(
    clients: Map<Seq<char>, C>,
    id: Seq<char>,
    channel: C,
    other: Seq<char>,
)
    requires
        other != id,
    ensures
        clients.insert(id, channel).contains_key(other) == clients.contains_key(other),
        clients.remove(id).contains_key(other) == clients.contains_key(other),
        clients.contains_key(other) ==> clients.insert(id, channel)[other] == clients[other]
            && clients.remove(id)[other] == clients[other],
{
}

/// The binding of a client registered twice is the later one.
pub proof fn law_last_registration_wins<C>(clients: Map<Seq<char>, C>, id: Seq<char>, first: C, second: C)
    ensures
        clients.insert(id, first).insert(id, second) == clients.insert(id, second),
{
    assert(clients.insert(id, first).insert(id, second) =~= clients.insert(id, second));
}

} // verus!

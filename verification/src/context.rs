//! What the server knows: its own settings, each connection, and the
//! members of each channel.

use vstd::prelude::*;
use crate::time::Timestamp;

verus! {

/// Settings and facts of the running server.
#[derive(Clone)]
pub struct ServerContext {
    pub start_time: Timestamp,
    pub server_host: String,
    pub version: String,
    pub ping_frequency_secs: u64,
    pub motd_lines: Vec<String>,
}

/// What is known about one client connection. `client_host` holds the
/// text of the peer's socket address.
pub struct ConnectionContext {
    pub connection_id: u128,
    pub client: Option<String>,
    pub nick: Option<String>,
    pub user: Option<String>,
    pub real_name: Option<String>,
    pub client_host: Option<String>,
}

impl Default for ConnectionContext {
    fn default() -> (c: ConnectionContext)
        ensures
            c.connection_id == 0,
            c.client is None,
            c.nick is None,
            c.user is None,
            c.real_name is None,
            c.client_host is None,
    {
        ConnectionContext {
            connection_id: 0,
            client: None,
            nick: None,
            user: None,
            real_name: None,
            client_host: None,
        }
    }
}

/// The connections in a channel, each once, in the order they joined.
pub struct ChannelContext {
    pub members: Vec<u128>,
}

/// `s` with every occurrence of `x` removed, order kept.
pub open spec fn without(s: Seq<u128>, x: u128) -> Seq<u128>
    decreases s.len(),
{
    if s.len() == 0 {
        seq![]
    } else {
        let w = without(s.drop_last(), x);
        if s.last() == x {
            w
        } else {
            w.push(s.last())
        }
    }
}

/// `s` with `x` added at the end unless it is there already.
pub open spec fn with_member(s: Seq<u128>, x: u128) -> Seq<u128> {
    if s.contains(x) {
        s
    } else {
        s.push(x)
    }
}

/// What `without` keeps.
pub proof fn lemma_without(s: Seq<u128>, x: u128)
    ensures
        forall|y: u128| without(s, x).contains(y) <==> (s.contains(y) && y != x),
        s.no_duplicates() ==> without(s, x).no_duplicates(),
        !s.contains(x) ==> without(s, x) == s,
    decreases s.len(),
{
    if s.len() > 0 {
        let d = s.drop_last();
        lemma_without(d, x);
        assert forall|y: u128| s.contains(y) <==> (d.contains(y) || y == s.last()) by {
            if s.contains(y) {
                let j = choose|j: int| 0 <= j < s.len() && s[j] == y;
                if j < s.len() - 1 {
                    assert(d[j] == y);
                }
            }
            if y == s.last() {
                assert(s[s.len() - 1] == y);
            }
            if d.contains(y) {
                let j = choose|j: int| 0 <= j < d.len() && d[j] == y;
                assert(s[j] == y);
            }
        }
        let w = without(d, x);
        if s.last() != x {
            assert forall|y: u128| w.push(s.last()).contains(y) <==> (w.contains(y) || y == s.last()) by {
                if w.push(s.last()).contains(y) {
                    let j = choose|j: int| 0 <= j < w.len() + 1 && w.push(s.last())[j] == y;
                    if j < w.len() {
                        assert(w[j] == y);
                    }
                }
                if w.contains(y) {
                    let j = choose|j: int| 0 <= j < w.len() && w[j] == y;
                    assert(w.push(s.last())[j] == y);
                }
                if y == s.last() {
                    assert(w.push(s.last())[w.len() as int] == y);
                }
            }
        }
        if s.no_duplicates() {
            assert(d.no_duplicates());
            assert(!d.contains(s.last())) by {
                if d.contains(s.last()) {
                    let j = choose|j: int| 0 <= j < d.len() && d[j] == s.last();
                    assert(s[j] == s[s.len() - 1]);
                }
            }
        }
        if !s.contains(x) {
            assert(s.last() != x) by {
                assert(s[s.len() - 1] == s.last());
            }
            assert(!d.contains(x));
            assert(s == d.push(s.last()));
        }
    } else {
        assert(without(s, x) =~= s);
    }
}

/// Whether `v` holds `id`.
pub fn contains_id(v: &Vec<u128>, id: u128) -> (b: bool)
    ensures
        b == v@.contains(id),
{
    let mut i: usize = 0;
    while i < v.len()
        invariant
            i <= v.len(),
            forall|j: int| 0 <= j < i ==> v@[j] != id,
        decreases v.len() - i,
    {
        if v[i] == id {
            return true;
        }
        i = i + 1;
    }
    false
}

/// The storage behind the channel table: names and member lists side by
/// side.
struct ChannelTable {
    names: Vec<String>,
    contexts: Vec<ChannelContext>,
}

impl ChannelTable {
    /// No two channels share a name and no channel lists a member twice.
    spec fn wf(self) -> bool {
        &&& self.names.len() == self.contexts.len()
        &&& forall|i: int, j: int|
            0 <= i < self.names.len() && 0 <= j < self.names.len() && i != j
                ==> self.names@[i]@ != self.names@[j]@
        &&& forall|i: int| 0 <= i < self.contexts.len() ==> (#[trigger] self.contexts@[i]).members@.no_duplicates()
    }

    spec fn slot(self, k: Seq<char>) -> int {
        choose|i: int| 0 <= i < self.names.len() && self.names@[i]@ == k
    }

    proof fn lemma_slot(self, i: int)
        requires
            self.wf(),
            0 <= i < self.names.len(),
        ensures
            self@.contains_key(self.names@[i]@),
            self@[self.names@[i]@] == self.contexts@[i].members@,
            self.slot(self.names@[i]@) == i,
    {
        let k = self.names@[i]@;
        assert(exists|j: int| 0 <= j < self.names.len() && self.names@[j]@ == k);
    }
}

impl View for ChannelTable {
    type V = Map<Seq<char>, Seq<u128>>;

    /// Each channel's name and its members.
    closed spec fn view(&self) -> Map<Seq<char>, Seq<u128>> {
        Map::new(
            |k: Seq<char>| exists|i: int| 0 <= i < self.names.len() && self.names@[i]@ == k,
            |k: Seq<char>| self.contexts@[self.slot(k)].members@,
        )
    }
}

impl ChannelTable {
    /// Members of every channel are listed once each.
    proof fn lemma_members_distinct(self, k: Seq<char>)
        requires
            self.wf(),
            self@.contains_key(k),
        ensures
            self@[k].no_duplicates(),
    {
        let i = self.slot(k);
        self.lemma_slot(i);
    }

    /// A server with no channels.
    fn new() -> (c: ChannelTable)
        ensures
            c.wf(),
            c@ == Map::<Seq<char>, Seq<u128>>::empty(),
    {
        let c = ChannelTable { names: Vec::new(), contexts: Vec::new() };
        assert(c@ =~= Map::<Seq<char>, Seq<u128>>::empty());
        c
    }

    fn find(&self, name: &str) -> (r: Option<usize>)
        requires
            self.wf(),
        ensures
            r matches Some(i) ==> i < self.names.len() && self.names@[i as int]@ == name@,
            r is None ==> !self@.contains_key(name@),
    {
        let mut i: usize = 0;
        while i < self.names.len()
            invariant
                i <= self.names.len(),
                forall|j: int| 0 <= j < i ==> self.names@[j]@ != name@,
            decreases self.names.len() - i,
        {
            if crate::tokens::str_eq(self.names[i].as_str(), name) {
                return Some(i);
            }
            i = i + 1;
        }
        None
    }

    /// The channel called `name`, if there is one.
    fn get(&self, name: &str) -> (r: Option<&ChannelContext>)
        requires
            self.wf(),
        ensures
            r is Some <==> self@.contains_key(name@),
            r matches Some(c) ==> c.members@ == self@[name@],
    {
        match self.find(name) {
            Some(i) => {
                proof {
                    self.lemma_slot(i as int);
                }
                Some(&self.contexts[i])
            },
            None => None,
        }
    }

    /// Adds `id` to the channel called `name`, creating the channel if it
    /// does not exist.
    fn add_member(&mut self, name: &str, id: u128)
        requires
            old(self).wf(),
        ensures
            final(self).wf(),
            final(self)@ == old(self)@.insert(
                name@,
                if old(self)@.contains_key(name@) {
                    with_member(old(self)@[name@], id)
                } else {
                    seq![id]
                },
            ),
    {
        match self.find(name) {
            Some(i) => {
                proof {
                    self.lemma_slot(i as int);
                }
                if !contains_id(&self.contexts[i].members, id) {
                    let ghost before = *self;
                    self.contexts[i].members.push(id);
                    proof {
                        assert forall|j: int| 0 <= j < self.contexts.len() implies (#[trigger] self.contexts@[j]).members@.no_duplicates() by {
                            if j != i {
                                assert(self.contexts@[j] == before.contexts@[j]);
                            } else {
                                let m = before.contexts@[j].members@;
                                assert(self.contexts@[j].members@ == m.push(id));
                                assert(before.contexts@[j].members@.no_duplicates());
                            }
                        }
                        assert(self.names@ == before.names@);
                        self.lemma_view_update(before, i as int);
                    }
                }
            },
            None => {
                let ghost before = *self;
                self.names.push(name.to_owned());
                let mut members: Vec<u128> = Vec::new();
                members.push(id);
                self.contexts.push(ChannelContext { members });
                proof {
                    assert(self.contexts@[self.contexts.len() - 1].members@ =~= seq![id]);
                    assert forall|j: int| 0 <= j < self.contexts.len() implies (#[trigger] self.contexts@[j]).members@.no_duplicates() by {
                        if j < before.contexts.len() {
                            assert(self.contexts@[j] == before.contexts@[j]);
                        }
                    }
                    assert forall|a: int, b: int|
                        0 <= a < self.names.len() && 0 <= b < self.names.len() && a != b
                        implies self.names@[a]@ != self.names@[b]@ by {
                        if a < before.names.len() && b < before.names.len() {
                        } else if a < before.names.len() {
                            assert(before@.contains_key(before.names@[a]@)) by {
                                before.lemma_slot(a);
                            }
                        } else {
                            assert(before@.contains_key(before.names@[b]@)) by {
                                before.lemma_slot(b);
                            }
                        }
                    }
                    let n = before.names.len() as int;
                    self.lemma_slot(n);
                    assert forall|k: Seq<char>| #![trigger self@.contains_key(k)] self@.contains_key(k) <==> before@.contains_key(k) || k == name@ by {
                        if self@.contains_key(k) {
                            let j = choose|j: int| 0 <= j < self.names.len() && self.names@[j]@ == k;
                            if j < n {
                                assert(before.names@[j]@ == k);
                            }
                        }
                        if before@.contains_key(k) {
                            let j = choose|j: int| 0 <= j < before.names.len() && before.names@[j]@ == k;
                            assert(self.names@[j]@ == k);
                        }
                    }
                    assert forall|k: Seq<char>| #![trigger self@[k]] before@.contains_key(k) implies self@[k] == before@[k] by {
                        let j = before.slot(k);
                        before.lemma_slot(j);
                        self.lemma_slot(j);
                    }
                    assert(self@ =~= before@.insert(name@, seq![id]));
                }
            },
        }
    }

    proof fn lemma_view_update(self, before: ChannelTable, i: int)
        requires
            before.wf(),
            self.wf(),
            0 <= i < self.names.len(),
            self.names@ == before.names@,
            self.contexts.len() == before.contexts.len(),
            forall|j: int| 0 <= j < self.contexts.len() && j != i ==> self.contexts@[j] == before.contexts@[j],
        ensures
            self@ == before@.insert(self.names@[i]@, self.contexts@[i].members@),
    {
        let k0 = self.names@[i]@;
        self.lemma_slot(i);
        assert forall|k: Seq<char>| #![trigger self@.contains_key(k)] self@.contains_key(k) <==> before@.contains_key(k) by {
            if self@.contains_key(k) {
                let j = choose|j: int| 0 <= j < self.names.len() && self.names@[j]@ == k;
                assert(before.names@[j]@ == k);
            }
            if before@.contains_key(k) {
                let j = choose|j: int| 0 <= j < before.names.len() && before.names@[j]@ == k;
                assert(self.names@[j]@ == k);
            }
        }
        assert forall|k: Seq<char>| #![trigger self@[k]] self@.contains_key(k) && k != k0 implies self@[k] == before@[k] by {
            let j = self.slot(k);
            self.lemma_slot(j);
            before.lemma_slot(j);
        }
        before.lemma_slot(i);
        assert(self@ =~= before@.insert(k0, self.contexts@[i].members@));
    }
}

/// A copy of `v` without `id`.
pub fn without_id(v: &Vec<u128>, id: u128) -> (r: Vec<u128>)
    ensures
        r@ == without(v@, id),
{
    let mut r: Vec<u128> = Vec::new();
    let mut i: usize = 0;
    while i < v.len()
        invariant
            i <= v.len(),
            r@ == without(v@.take(i as int), id),
        decreases v.len() - i,
    {
        assert(v@.take(i + 1).drop_last() =~= v@.take(i as int));
        if v[i] != id {
            r.push(v[i]);
        }
        i = i + 1;
    }
    assert(v@.take(v.len() as int) =~= v@);
    r
}

impl ChannelTable {
    /// Removes `id` from the channel called `name`, if there is one.
    fn remove_member(&mut self, name: &str, id: u128)
        requires
            old(self).wf(),
        ensures
            final(self).wf(),
            final(self)@ == if old(self)@.contains_key(name@) {
                old(self)@.insert(name@, without(old(self)@[name@], id))
            } else {
                old(self)@
            },
    {
        match self.find(name) {
            Some(i) => {
                proof {
                    self.lemma_slot(i as int);
                }
                let ghost before = *self;
                let kept = without_id(&self.contexts[i].members, id);
                proof {
                    lemma_without(before.contexts@[i as int].members@, id);
                }
                self.contexts[i].members = kept;
                proof {
                    assert forall|j: int| 0 <= j < self.contexts.len() implies (#[trigger] self.contexts@[j]).members@.no_duplicates() by {
                        if j != i {
                            assert(self.contexts@[j] == before.contexts@[j]);
                        }
                    }
                    self.lemma_view_update(before, i as int);
                }
            },
            None => {},
        }
    }

    /// Removes `id` from every channel and lists the other members of the
    /// channels it was in (a member may be listed more than once).
    fn leave_all(&mut self, id: u128) -> (others: Vec<u128>)
        requires
            old(self).wf(),
        ensures
            final(self).wf(),
            final(self)@.dom() == old(self)@.dom(),
            forall|k: Seq<char>| #[trigger] final(self)@.contains_key(k) ==> final(self)@[k] == without(old(self)@[k], id),
            forall|m: u128| others@.contains(m) <==> m != id && exists|k: Seq<char>|
                #[trigger] old(self)@.contains_key(k) && old(self)@[k].contains(id) && old(self)@[k].contains(m),
    {
        let ghost start = *self;
        let mut others: Vec<u128> = Vec::new();
        let mut i: usize = 0;
        while i < self.contexts.len()
            invariant
                start.wf(),
                self.wf(),
                i <= self.contexts.len(),
                self.names@ == start.names@,
                self.contexts.len() == start.contexts.len(),
                forall|j: int| 0 <= j < i ==> self.contexts@[j].members@ == without(start.contexts@[j].members@, id),
                forall|j: int| i <= j < self.contexts.len() ==> self.contexts@[j] == start.contexts@[j],
                forall|m: u128| others@.contains(m) <==> m != id && exists|j: int|
                    0 <= j < i && #[trigger] start.contexts@[j].members@.contains(id) && start.contexts@[j].members@.contains(m),
            decreases self.contexts.len() - i,
        {
            let ghost before_others = others@;
            let ghost before = *self;
            let ghost mem = start.contexts@[i as int].members@;
            if contains_id(&self.contexts[i].members, id) {
                let mut k: usize = 0;
                while k < self.contexts[i].members.len()
                    invariant
                        self.contexts@ == before.contexts@,
                        i < self.contexts.len(),
                        self.contexts@[i as int].members@ == mem,
                        k <= mem.len(),
                        forall|m: u128| others@.contains(m) <==> before_others.contains(m) || (m != id && mem.take(k as int).contains(m)),
                    decreases mem.len() - k,
                {
                    let m = self.contexts[i].members[k];
                    let ghost prev = others@;
                    let ghost k0 = k as int;
                    if m != id {
                        others.push(m);
                    }
                    k = k + 1;
                    proof {
                        broadcast use vstd::seq_lib::group_seq_properties;
                        assert(mem.take(k as int) =~= mem.take(k0).push(m));
                        assert forall|y: u128| others@.contains(y) <==> before_others.contains(y) || (y != id && mem.take(k as int).contains(y)) by {
                            assert(prev.contains(y) <==> before_others.contains(y) || (y != id && mem.take(k0).contains(y)));
                            assert(mem.take(k as int).contains(y) <==> mem.take(k0).contains(y) || y == m);
                            if m != id {
                                assert(others@ == prev.push(m));
                                assert(others@.contains(y) <==> prev.contains(y) || y == m);
                            } else {
                                assert(others@ == prev);
                            }
                        }
                    }
                    assert(forall|y: u128| others@.contains(y) <==> before_others.contains(y) || (y != id && mem.take(k as int).contains(y)));
                    assert(self.contexts@ == before.contexts@);
                    assert(k <= mem.len());
                }
                assert(mem.take(mem.len() as int) =~= mem);
                assert(k == mem.len());
                assert forall|m: u128| others@.contains(m) <==> before_others.contains(m) || (m != id && mem.contains(m)) by {
                    assert(others@.contains(m) <==> before_others.contains(m) || (m != id && mem.take(k as int).contains(m)));
                    assert(mem.take(k as int) == mem);
                }
                let kept = without_id(&self.contexts[i].members, id);
                proof {
                    lemma_without(mem, id);
                }
                self.contexts[i].members = kept;
                proof {
                    assert forall|j: int| 0 <= j < self.contexts.len() implies (#[trigger] self.contexts@[j]).members@.no_duplicates() by {
                        if j != i {
                            assert(self.contexts@[j] == before.contexts@[j]);
                        }
                    }
                }
            } else {
                proof {
                    lemma_without(mem, id);
                }
            }
            proof {
                let here = start.contexts@[i as int].members@;
                assert(here == mem);
                assert forall|m: u128| others@.contains(m) <==> m != id && exists|j: int|
                    0 <= j < i + 1 && #[trigger] start.contexts@[j].members@.contains(id) && start.contexts@[j].members@.contains(m) by {
                    if here.contains(id) {
                        assert(others@.contains(m) <==> before_others.contains(m) || (m != id && mem.contains(m)));
                        if m != id && mem.contains(m) {
                            assert(start.contexts@[i as int].members@.contains(id) && start.contexts@[i as int].members@.contains(m));
                        }
                    } else {
                        assert(others@ == before_others);
                    }
                    if m != id && (exists|j: int|
                        0 <= j < i + 1 && #[trigger] start.contexts@[j].members@.contains(id) && start.contexts@[j].members@.contains(m)) {
                        let j = choose|j: int|
                            0 <= j < i + 1 && #[trigger] start.contexts@[j].members@.contains(id) && start.contexts@[j].members@.contains(m);
                        if j < i {
                            assert(before_others.contains(m));
                        }
                    }
                }
            }
            i = i + 1;
        }
        proof {
            assert forall|k: Seq<char>| #![trigger self@.contains_key(k)] self@.contains_key(k) <==> start@.contains_key(k) by {
                if self@.contains_key(k) {
                    let j = choose|j: int| 0 <= j < self.names.len() && self.names@[j]@ == k;
                    assert(start.names@[j]@ == k);
                }
                if start@.contains_key(k) {
                    let j = choose|j: int| 0 <= j < start.names.len() && start.names@[j]@ == k;
                    assert(self.names@[j]@ == k);
                }
            }
            assert(self@.dom() =~= start@.dom());
            assert forall|k: Seq<char>| #[trigger] self@.contains_key(k) implies self@[k] == without(start@[k], id) by {
                let j = self.slot(k);
                self.lemma_slot(j);
                start.lemma_slot(j);
            }
            assert forall|m: u128| others@.contains(m) <==> m != id && exists|k: Seq<char>|
                #[trigger] start@.contains_key(k) && start@[k].contains(id) && start@[k].contains(m) by {
                if others@.contains(m) {
                    let j = choose|j: int|
                        0 <= j < self.contexts.len() && #[trigger] start.contexts@[j].members@.contains(id) && start.contexts@[j].members@.contains(m);
                    start.lemma_slot(j);
                    assert(start@.contains_key(start.names@[j]@));
                }
                if m != id && exists|k: Seq<char>|
                    #[trigger] start@.contains_key(k) && start@[k].contains(id) && start@[k].contains(m) {
                    let k = choose|k: Seq<char>|
                        #[trigger] start@.contains_key(k) && start@[k].contains(id) && start@[k].contains(m);
                    let j = start.slot(k);
                    start.lemma_slot(j);
                    assert(start.contexts@[j].members@.contains(id));
                }
            }
        }
        others
    }
}

/// The channels of the server, by name. No two channels share a name and
/// no channel lists a member twice.
pub struct Channels {
    table: ChannelTable,
}

impl Channels {
    /// No two channels share a name and no channel lists a member twice.
    #[verifier::type_invariant]
    pub closed spec fn wf(self) -> bool {
        self.table.wf()
    }
}

impl View for Channels {
    type V = Map<Seq<char>, Seq<u128>>;

    /// Each channel's name and its members.
    closed spec fn view(&self) -> Map<Seq<char>, Seq<u128>> {
        self.table@
    }
}

impl Channels {
    /// Members of every channel are listed once each.
    pub proof fn lemma_members_distinct(self, k: Seq<char>)
        requires
            self.wf(),
            self@.contains_key(k),
        ensures
            self@[k].no_duplicates(),
    {
        self.table.lemma_members_distinct(k);
    }

    /// A server with no channels.
    pub fn new() -> (c: Channels)
        ensures
            c@ == Map::<Seq<char>, Seq<u128>>::empty(),
    {
        Channels { table: ChannelTable::new() }
    }

    /// The channel called `name`, if there is one.
    pub fn get(&self, name: &str) -> (r: Option<&ChannelContext>)
        ensures
            r is Some <==> self@.contains_key(name@),
            r matches Some(c) ==> c.members@ == self@[name@],
    {
        proof {
            use_type_invariant(self);
        }
        self.table.get(name)
    }

    /// Adds `id` to the channel called `name`, creating the channel if it
    /// does not exist.
    pub fn add_member(&mut self, name: &str, id: u128)
        ensures
            final(self)@ == old(self)@.insert(
                name@,
                if old(self)@.contains_key(name@) {
                    with_member(old(self)@[name@], id)
                } else {
                    seq![id]
                },
            ),
    {
        proof {
            use_type_invariant(&*self);
        }
        let mut t = ChannelTable::new();
        std::mem::swap(&mut t, &mut self.table);
        t.add_member(name, id);
        self.table = t;
    }

    /// Removes `id` from the channel called `name`, if there is one.
    pub fn remove_member(&mut self, name: &str, id: u128)
        ensures
            final(self)@ == if old(self)@.contains_key(name@) {
                old(self)@.insert(name@, without(old(self)@[name@], id))
            } else {
                old(self)@
            },
    {
        proof {
            use_type_invariant(&*self);
        }
        let mut t = ChannelTable::new();
        std::mem::swap(&mut t, &mut self.table);
        t.remove_member(name, id);
        self.table = t;
    }

    /// Removes `id` from every channel and lists the other members of the
    /// channels it was in (a member may be listed more than once).
    pub fn leave_all(&mut self, id: u128) -> (others: Vec<u128>)
        ensures
            final(self)@.dom() == old(self)@.dom(),
            forall|k: Seq<char>| #[trigger] final(self)@.contains_key(k) ==> final(self)@[k] == without(old(self)@[k], id),
            forall|m: u128| others@.contains(m) <==> m != id && exists|k: Seq<char>|
                #[trigger] old(self)@.contains_key(k) && old(self)@[k].contains(id) && old(self)@[k].contains(m),
    {
        proof {
            use_type_invariant(&*self);
        }
        let mut t = ChannelTable::new();
        std::mem::swap(&mut t, &mut self.table);
        let others = t.leave_all(id);
        self.table = t;
        others
    }
}

} // verus!

use vstd::prelude::*;
use vstd::seq_lib::seq_to_set_is_finite;
use vstd::set_lib::{lemma_int_range, lemma_len_subset, set_int_range};
use crate::channel::{Channel, MAX_CAPACITY};

verus! {

/// The capacity a channel gets when none (or zero) is asked for.
pub const DEFAULT_CAPACITY: usize = 32;

/// How many random ids channel creation draws before it falls back to the
/// smallest id that no channel has.
pub const ID_ATTEMPTS: usize = 4;

/// What `list_channels` reports of one channel.
#[derive(Debug)]
pub struct ChannelInfo {
    pub id: u128,
    pub name: String,
    pub capacity: usize,
}

impl View for ChannelInfo {
    type V = (u128, Seq<char>, usize);

    open spec fn view(&self) -> (u128, Seq<char>, usize) {
        (self.id, self.name@, self.capacity)
    }
}

/// Why a channel was not created.
#[derive(Debug, Clone, Copy, PartialEq, Eq, Structural)]
pub enum CreateError {
    /// The name is absent or empty.
    EmptyName,
    /// The capacity is above what a message bus can hold.
    CapacityTooLarge,
}

/// The `(id, name, capacity)` record of a channel.
pub open spec fn meta(c: Channel) -> (u128, Seq<char>, usize) {
    (c.id_spec(), c.name_spec(), c.size_spec())
}

/// Some entry is this channel's record.
pub open spec fn listed(entries: Seq<(u128, Seq<char>, usize)>, c: Channel) -> bool {
    exists|i: int| 0 <= i < entries.len() && entries[i] == meta(c)
}

/// Some entry has this id.
pub open spec fn has_id(entries: Seq<(u128, Seq<char>, usize)>, id: u128) -> bool {
    exists|i: int| 0 <= i < entries.len() && (#[trigger] entries[i]).0 == id
}

/// The capacity that a request for `capacity` gives.
pub open spec fn effective_capacity(capacity: Option<usize>) -> usize {
    match capacity {
        Some(n) => if n > 0 { n } else { DEFAULT_CAPACITY },
        None => DEFAULT_CAPACITY,
    }
}

/// The ids of `ids` that some entry has, each once, in the order of first mention.
pub open spec fn known_ids(entries: Seq<(u128, Seq<char>, usize)>, ids: Seq<u128>) -> Seq<u128>
    decreases ids.len(),
{
    if ids.len() == 0 {
        Seq::empty()
    } else {
        let head = known_ids(entries, ids.drop_last());
        if has_id(entries, ids.last()) && !head.contains(ids.last()) {
            head.push(ids.last())
        } else {
            head
        }
    }
}

/// After a creation that succeeded, exactly one record has the new id: the
/// last one, which carries the name and capacity asked for; every earlier
/// record is as it was.
pub proof fn lemma_created_listed_once(
    before: Seq<(u128, Seq<char>, usize)>,
    after: Seq<(u128, Seq<char>, usize)>,
    id: u128,
    name: Seq<char>,
    capacity: usize,
)
    requires
        !has_id(before, id),
        after == before.push((id, name, capacity)),
    ensures
        after.len() == before.len() + 1,
        after.last() == (id, name, capacity),
        forall|i: int| 0 <= i < after.len() ==> ((#[trigger] after[i]).0 == id <==> i == before.len()),
        forall|i: int| 0 <= i < before.len() ==> #[trigger] after[i] == before[i],
{
    assert forall|i: int| 0 <= i < after.len() implies ((#[trigger] after[i]).0 == id <==> i
        == before.len()) by {
        if i < before.len() {
            assert(after[i] == before[i]);
        }
    }
}

/// Among `0..=entries.len()` some id is free when ids are unique: there are
/// more candidates than entries.
proof fn lemma_some_id_free(entries: Seq<(u128, Seq<char>, usize)>)
    requires
        entries.len() <= usize::MAX,
        forall|i: int, j: int|
            0 <= i < j < entries.len() ==> (#[trigger] entries[i]).0 != (#[trigger] entries[j]).0,
    ensures
        exists|c: u128| c <= entries.len() && !has_id(entries, c),
{
    let n: int = entries.len() as int;
    let t = entries.map_values(|e: (u128, Seq<char>, usize)| e.0 as int);
    assert forall|i: int, j: int| 0 <= i < t.len() && 0 <= j < t.len() && i != j implies t[i]
        != t[j] by {
        if i < j {
            assert(entries[i].0 != entries[j].0);
        } else {
            assert(entries[j].0 != entries[i].0);
        }
    }
    assert(t.no_duplicates());
    t.unique_seq_to_set();
    seq_to_set_is_finite(t);
    lemma_int_range(0, n + 1);
    if forall|c: u128| c <= n ==> has_id(entries, c) {
        assert forall|x: int| set_int_range(0, n + 1).contains(x) implies t.to_set().contains(x) by {
            let c = x as u128;
            assert(has_id(entries, c));
            let i = choose|i: int| 0 <= i < entries.len() && (#[trigger] entries[i]).0 == c;
            assert(c as int == x);
            assert(t[i] == x);
            assert(t.contains(x));
        }
        lemma_len_subset(set_int_range(0, n + 1), t.to_set());
        assert(false);
    }
}

fn holds_id(v: &Vec<u128>, id: u128) -> (r: bool)
    ensures
        r == v@.contains(id),
{
    let mut i: usize = 0;
    while i < v.len()
        invariant
            0 <= i <= v@.len(),
            forall|k: int| 0 <= k < i ==> v@[k] != id,
        decreases v@.len() - i,
    {
        if v[i] == id {
            assert(v@[i as int] == id);
            return true;
        }
        i = i + 1;
    }
    false
}

/// Every channel there is, keyed by id, in creation order, so that a listing
/// is the same on every call. Channels are only ever added.
pub struct Registry {
    channels: Vec<Channel>,
}

impl View for Registry {
    type V = Seq<(u128, Seq<char>, usize)>;

    closed spec fn view(&self) -> Seq<(u128, Seq<char>, usize)> {
        self.channels@.map_values(|c: Channel| meta(c))
    }
}

impl Registry {
    /// Ids are unique and every capacity is one a bus can be built with.
    pub open spec fn wf(&self) -> bool {
        &&& forall|i: int, j: int|
            0 <= i < j < self@.len() ==> (#[trigger] self@[i]).0 != (#[trigger] self@[j]).0
        &&& forall|i: int| 0 <= i < self@.len() ==> 0 < (#[trigger] self@[i]).2 <= MAX_CAPACITY
    }

    pub fn new() -> (r: Registry)
        ensures
            r.wf(),
            r@ == Seq::<(u128, Seq<char>, usize)>::empty(),
    {
        let r = Registry { channels: Vec::new() };
        assert(r@ =~= Seq::<(u128, Seq<char>, usize)>::empty());
        r
    }

    /// Whether some channel has this id.
    pub fn contains_id(&self, id: u128) -> (r: bool)
        ensures
            r == has_id(self@, id),
    {
        let mut i: usize = 0;
        while i < self.channels.len()
            invariant
                0 <= i <= self@.len(),
                self@.len() == self.channels@.len(),
                forall|k: int| 0 <= k < i ==> (#[trigger] self@[k]).0 != id,
            decreases self@.len() - i,
        {
            assert(self@[i as int] == meta(self.channels@[i as int]));
            if self.channels[i].get_id() == id {
                return true;
            }
            i = i + 1;
        }
        false
    }

    /// The smallest id that no channel has.
    pub fn free_id(&self) -> (r: u128)
        requires
            self.wf(),
        ensures
            !has_id(self@, r),
            forall|d: u128| d < r ==> has_id(self@, d),
    {
        let count = self.channels.len();
        proof {
            assert(self@.len() == count);
            lemma_some_id_free(self@);
        }
        let mut c: u128 = 0;
        while self.contains_id(c)
            invariant
                self.wf(),
                c <= self@.len(),
                exists|f: u128| f <= self@.len() && !has_id(self@, f),
                forall|d: u128| d < c ==> has_id(self@, d),
            decreases self@.len() - c,
        {
            let ghost f = choose|f: u128| f <= self@.len() && !has_id(self@, f);
            assert(c < f) by {
                if f < c {
                    assert(has_id(self@, f));
                }
            }
            c = c + 1;
        }
        c
    }

    /// Adds `chan` unless a channel already has its id; says whether it did.
    pub fn insert(&mut self, chan: Channel) -> (r: bool)
        requires
            old(self).wf(),
            0 < chan.size_spec() <= MAX_CAPACITY,
        ensures
            final(self).wf(),
            r == !has_id(old(self)@, chan.id_spec()),
            final(self)@ == if r {
                old(self)@.push(meta(chan))
            } else {
                old(self)@
            },
    {
        if self.contains_id(chan.get_id()) {
            return false;
        }
        let ghost before = self.channels@;
        self.channels.push(chan);
        assert(self.channels@ == before.push(chan));
        assert(self@ =~= old(self)@.push(meta(chan)));
        true
    }

    /// Creates a channel named `name` with `capacity` (32 when absent or zero)
    /// and returns its id, one that no channel had before.
    pub fn create_channel(&mut self, name: Option<String>, capacity: Option<usize>) -> (r: Result<
        u128,
        CreateError,
    >)
        requires
            old(self).wf(),
        ensures
            final(self).wf(),
            (name is None || name->Some_0@.len() == 0) ==> r == Err::<u128, CreateError>(
                CreateError::EmptyName,
            ),
            (name matches Some(n) && n@.len() > 0 && effective_capacity(capacity) > MAX_CAPACITY)
                ==> r == Err::<u128, CreateError>(CreateError::CapacityTooLarge),
            (name matches Some(n) && n@.len() > 0 && effective_capacity(capacity) <= MAX_CAPACITY)
                ==> r is Ok,
            r is Err ==> final(self)@ == old(self)@,
            r matches Ok(id) ==> {
                &&& !has_id(old(self)@, id)
                &&& final(self)@ == old(self)@.push(
                    (id, name->Some_0@, effective_capacity(capacity)),
                )
            },
    {
        let given = match name {
            Some(n) => n,
            None => {
                return Err(CreateError::EmptyName);
            },
        };
        if given.as_str().is_empty() {
            return Err(CreateError::EmptyName);
        }
        let size: usize = match capacity {
            Some(n) => if n > 0 { n } else { DEFAULT_CAPACITY },
            None => DEFAULT_CAPACITY,
        };
        if size > MAX_CAPACITY {
            return Err(CreateError::CapacityTooLarge);
        }
        let mut attempt: usize = 0;
        while attempt < ID_ATTEMPTS
            invariant
                self.wf(),
                self@ == old(self)@,
                name matches Some(x) && x@ == given@,
                given@.len() > 0,
                size == effective_capacity(capacity),
                0 < size <= MAX_CAPACITY,
            decreases ID_ATTEMPTS - attempt,
        {
            let chan = Channel::new(given.clone(), size);
            let id = chan.get_id();
            if self.insert(chan) {
                return Ok(id);
            }
            attempt = attempt + 1;
        }
        let id = self.free_id();
        let chan = Channel::with_id(id, given, size);
        let added = self.insert(chan);
        assert(added);
        Ok(id)
    }

    /// The `(id, name, capacity)` of every channel, in creation order.
    pub fn list_channels(&self) -> (r: Vec<ChannelInfo>)
        ensures
            r@.map_values(|c: ChannelInfo| c@) == self@,
    {
        let mut out: Vec<ChannelInfo> = Vec::new();
        let mut i: usize = 0;
        while i < self.channels.len()
            invariant
                0 <= i <= self@.len(),
                self@.len() == self.channels@.len(),
                out@.map_values(|c: ChannelInfo| c@) == self@.subrange(0, i as int),
            decreases self@.len() - i,
        {
            let c = &self.channels[i];
            assert(self@[i as int] == meta(self.channels@[i as int]));
            let info = ChannelInfo { id: c.get_id(), name: c.get_name(), capacity: c.get_size() };
            let ghost before = out@;
            out.push(info);
            assert(out@.map_values(|c: ChannelInfo| c@) =~= before.map_values(|c: ChannelInfo| c@).push(info@));
            assert(out@.map_values(|c: ChannelInfo| c@) =~= self@.subrange(0, i + 1));
            i = i + 1;
        }
        assert(self@.subrange(0, i as int) =~= self@);
        out
    }

    /// The channel with this id, if there is one.
    pub fn lookup(&self, id: u128) -> (r: Option<&Channel>)
        ensures
            r is Some <==> has_id(self@, id),
            r matches Some(c) ==> c.id_spec() == id && listed(self@, *c),
    {
        let mut i: usize = 0;
        while i < self.channels.len()
            invariant
                0 <= i <= self@.len(),
                self@.len() == self.channels@.len(),
                forall|k: int| 0 <= k < i ==> (#[trigger] self@[k]).0 != id,
            decreases self@.len() - i,
        {
            assert(self@[i as int] == meta(self.channels@[i as int]));
            if self.channels[i].get_id() == id {
                return Some(&self.channels[i]);
            }
            i = i + 1;
        }
        None
    }

    /// Handles on the set of channels that `ids` name, each once, in the order
    /// of first mention; ids that no channel has are skipped.
    pub fn resolve(&self, ids: &Vec<u128>) -> (r: Vec<Channel>)
        ensures
            r@.map_values(|c: Channel| c.id_spec()) == known_ids(self@, ids@),
            forall|k: int| 0 <= k < r@.len() ==> listed(self@, #[trigger] r@[k]),
    {
        let mut out: Vec<Channel> = Vec::new();
        let mut taken: Vec<u128> = Vec::new();
        let mut j: usize = 0;
        while j < ids.len()
            invariant
                0 <= j <= ids@.len(),
                taken@ == known_ids(self@, ids@.subrange(0, j as int)),
                out@.map_values(|c: Channel| c.id_spec()) == taken@,
                forall|k: int| 0 <= k < out@.len() ==> listed(self@, #[trigger] out@[k]),
            decreases ids@.len() - j,
        {
            let id = ids[j];
            assert(ids@.subrange(0, j + 1).drop_last() =~= ids@.subrange(0, j as int));
            let ghost before = out@;
            let already = holds_id(&taken, id);
            match self.lookup(id) {
                Some(c) if !already => {
                    taken.push(id);
                    out.push(c.share());
                    assert(out@.map_values(|c: Channel| c.id_spec()) =~= before.map_values(|c: Channel| c.id_spec()).push(id));
                    assert(forall|k: int| 0 <= k < before.len() ==> out@[k] == before[k]);
                    assert(meta(out@.last()) == meta(*c));
                    assert(listed(self@, out@.last()));
                },
                _ => {},
            }
            j = j + 1;
        }
        assert(ids@.subrange(0, j as int) =~= ids@);
        out
    }
}

} // verus!

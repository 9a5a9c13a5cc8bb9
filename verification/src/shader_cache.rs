use vstd::prelude::*;

use vstd::relations::{sorted_by, total_ordering};

verus! {

/// Identifies a pair of a vertex shader and a fragment shader: the name of the
/// crate that defines the shaders, and a name that is unique within that crate.
pub struct ShaderId {
    crate_name: String,
    shader_name: String,
}

impl View for ShaderId {
    type V = (Seq<char>, Seq<char>);

    closed spec fn view(&self) -> (Seq<char>, Seq<char>) {
        (self.crate_name@, self.shader_name@)
    }
}

impl ShaderId {
    /// Constructs the id with the given crate name and shader name.
    pub fn from_strings(crate_name: String, shader_name: String) -> (r: Self)
        ensures
            r@ == (crate_name@, shader_name@),
    {
        ShaderId { crate_name, shader_name }
    }

    /// Constructs the id with the given crate name and shader name.
    pub fn from_strs(crate_name: &str, shader_name: &str) -> (r: Self)
        ensures
            r@ == (crate_name@, shader_name@),
    {
        ShaderId { crate_name: crate_name.to_owned(), shader_name: shader_name.to_owned() }
    }

    /// Gets the name of the crate that defines the shader.
    pub fn get_crate_name(&self) -> (r: &str)
        ensures
            r@ == self@.0,
    {
        self.crate_name.as_str()
    }

    /// Gets the name of the shader within its crate.
    pub fn get_shader_name(&self) -> (r: &str)
        ensures
            r@ == self@.1,
    {
        self.shader_name.as_str()
    }

    /// Whether both ids have the same crate name and the same shader name.
    pub fn same_as(&self, other: &Self) -> (r: bool)
        ensures
            r == (self@ == other@),
    {
        let r = self.crate_name == other.crate_name && self.shader_name == other.shader_name;
        proof {
            if self.crate_name@ == other.crate_name@ && self.shader_name@ == other.shader_name@ {
                assert(self@ == other@);
            }
        }
        r
    }
}

impl Clone for ShaderId {
    fn clone(&self) -> (r: Self)
        ensures
            r@ == self@,
    {
        ShaderId { crate_name: self.crate_name.clone(), shader_name: self.shader_name.clone() }
    }
}

/// The views of a sequence of ids.
pub open spec fn id_views(ids: Seq<ShaderId>) -> Seq<(Seq<char>, Seq<char>)> {
    ids.map_values(|id: ShaderId| id@)
}

/// The order on timestamps.
pub open spec fn time_leq() -> spec_fn(u64, u64) -> bool {
    |a: u64, b: u64| a <= b
}

/// The median of the timestamps: the element in the middle (rounding up) when
/// they are sorted.
pub open spec fn median_of(times: Seq<u64>) -> u64 {
    times.sort_by(time_leq())[(times.len() / 2) as int]
}

/// The positions of the timestamps that are later than `median`, in order.
pub open spec fn kept_indices(times: Seq<u64>, median: u64) -> Seq<int>
    decreases times.len(),
{
    if times.len() == 0 {
        Seq::empty()
    } else {
        let rest = kept_indices(times.drop_last(), median);
        if times.last() > median {
            rest.push(times.len() - 1)
        } else {
            rest
        }
    }
}

/// The positions that `kept_indices` gives are valid, increasing, and exactly
/// those of the timestamps later than `median`.
pub proof fn lemma_kept_indices(times: Seq<u64>, median: u64)
    ensures
        forall|k: int| 0 <= k < kept_indices(times, median).len() ==> 0 <= #[trigger] kept_indices(times, median)[k] < times.len(),
        forall|k: int| 0 <= k < kept_indices(times, median).len() ==> times[#[trigger] kept_indices(times, median)[k]] > median,
        forall|k1: int, k2: int| 0 <= k1 < k2 < kept_indices(times, median).len() ==> #[trigger] kept_indices(times, median)[k1] < #[trigger] kept_indices(times, median)[k2],
        forall|i: int| 0 <= i < times.len() && times[i] > median ==> #[trigger] kept_indices(times, median).contains(i),
        kept_indices(times, median).len() <= times.len(),
    decreases times.len(),
{
    if times.len() > 0 {
        let rest = kept_indices(times.drop_last(), median);
        lemma_kept_indices(times.drop_last(), median);
        assert forall|i: int| 0 <= i < times.len() && times[i] > median implies #[trigger] kept_indices(times, median).contains(i) by {
            if i < times.len() - 1 {
                assert(times.drop_last()[i] == times[i]);
                assert(rest.contains(i));
                let k = choose|k: int| 0 <= k < rest.len() && rest[k] == i;
                assert(kept_indices(times, median)[k] == i);
            } else {
                let r = kept_indices(times, median);
                assert(r[r.len() - 1] == i);
            }
        }
    }
}

/// An insertion sort of timestamps.
fn sorted_times(times: &Vec<u64>) -> (r: Vec<u64>)
    ensures
        sorted_by(r@, time_leq()),
        r@.to_multiset() == times@.to_multiset(),
{
    broadcast use vstd::seq_lib::group_to_multiset_ensures;

    let mut sorted: Vec<u64> = Vec::new();
    let mut i: usize = 0;
    while i < times.len()
        invariant
            i <= times@.len(),
            sorted_by(sorted@, time_leq()),
            sorted@.to_multiset() == times@.take(i as int).to_multiset(),
        decreases times.len() - i,
    {
        let value = times[i];
        let mut pos: usize = 0;
        while pos < sorted.len() && sorted[pos] <= value
            invariant
                pos <= sorted@.len(),
                forall|k: int| 0 <= k < pos ==> sorted@[k] <= value,
            decreases sorted.len() - pos,
        {
            pos = pos + 1;
        }
        let ghost before = sorted@;
        sorted.insert(pos, value);
        proof {
            assert(sorted@ == before.insert(pos as int, value));
            assert forall|a: int, b: int| 0 <= a < b < sorted@.len() implies #[trigger] time_leq()(sorted@[a], sorted@[b]) by {
                assert(sorted_by(before, time_leq()));
                if b < pos {
                    assert(time_leq()(before[a], before[b]));
                } else if b == pos {
                    assert(before[a] <= value);
                } else if a < pos {
                    assert(before[a] <= value);
                    if pos < before.len() {
                        assert(time_leq()(before[a], before[b - 1]));
                    }
                } else if a == pos {
                    assert(!(before[pos as int] <= value));
                    if b - 1 > pos {
                        assert(time_leq()(before[pos as int], before[b - 1]));
                    }
                } else {
                    assert(time_leq()(before[a - 1], before[b - 1]));
                }
            }
            assert(times@.take(i + 1) =~= times@.take(i as int).push(value));
            vstd::seq_lib::to_multiset_insert(before, pos as int, value);
            vstd::seq_lib::to_multiset_build(times@.take(i as int), value);
            assert(sorted@.to_multiset() == before.to_multiset().insert(value));
            assert(times@.take(i as int).push(value).to_multiset() == times@.take(i as int).to_multiset().insert(value));
        }
        i = i + 1;
    }
    assert(times@.take(times@.len() as int) =~= times@);
    sorted
}

/// A cache of values (in practice: compiled shader programs) by `ShaderId`,
/// which holds at most a fixed number of them. Each use of a value records the
/// time of that use; when the cache is full, the least recently used half of
/// the values is dropped.
pub struct ShaderCache<V> {
    ids: Vec<ShaderId>,
    times: Vec<u64>,
    values: Vec<V>,
    max_cached_shaders: usize,
    current_time: u64,
}

impl<V> ShaderCache<V> {
    /// The ids of the cached values.
    pub closed spec fn ids(&self) -> Seq<(Seq<char>, Seq<char>)> {
        id_views(self.ids@)
    }

    /// The time at which each cached value was last used.
    pub closed spec fn times(&self) -> Seq<u64> {
        self.times@
    }

    /// The cached values.
    pub closed spec fn values(&self) -> Seq<V> {
        self.values@
    }

    /// The most values that this cache holds.
    pub closed spec fn max(&self) -> nat {
        self.max_cached_shaders as nat
    }

    /// The current time.
    pub closed spec fn time(&self) -> u64 {
        self.current_time
    }

    /// The ids, times and values line up, no id occurs twice, the cache holds
    /// no more values than its maximum, and no value was used in the future.
    pub open spec fn wf(&self) -> bool {
        &&& self.ids().len() == self.times().len()
        &&& self.ids().len() == self.values().len()
        &&& self.ids().no_duplicates()
        &&& self.ids().len() <= self.max()
        &&& self.max() > 0
        &&& forall|i: int| 0 <= i < self.times().len() ==> #[trigger] self.times()[i] <= self.time()
    }

    /// The positions of the values that stay when room is made for one more
    /// value: all of them when there is room already, else those used later
    /// than the median time (see `make_room`).
    pub open spec fn room_indices(&self) -> Seq<int> {
        if self.ids().len() + 1 <= self.max() {
            Seq::new(self.ids().len(), |k: int| k)
        } else {
            kept_indices(self.times(), median_of(self.times()))
        }
    }

    /// Constructs the empty cache that holds at most `max_cached_shaders` values.
    pub fn new(max_cached_shaders: usize) -> (r: Self)
        requires
            max_cached_shaders > 0,
        ensures
            r.wf(),
            r.ids().len() == 0,
            r.max() == max_cached_shaders,
            r.time() == 0,
    {
        ShaderCache { ids: Vec::new(), times: Vec::new(), values: Vec::new(), max_cached_shaders, current_time: 0 }
    }

    /// The number of cached values.
    pub fn len(&self) -> (r: usize)
        ensures
            r == self.ids().len(),
    {
        proof {
            assert(self.ids().len() == self.ids@.len());
        }
        self.ids.len()
    }

    /// The current time of the clock of this cache.
    pub fn get_time(&self) -> (r: u64)
        ensures
            r == self.time(),
    {
        self.current_time
    }

    /// Advances the clock of this cache; every use of the cache starts so.
    pub fn tick(&mut self)
        requires
            old(self).wf(),
            old(self).time() < u64::MAX,
        ensures
            final(self).wf(),
            final(self).time() == old(self).time() + 1,
            final(self).ids() == old(self).ids(),
            final(self).times() == old(self).times(),
            final(self).values() == old(self).values(),
            final(self).max() == old(self).max(),
    {
        self.current_time = self.current_time + 1;
    }

    /// The position of the value with the given id, if it is cached.
    fn find(&self, id: &ShaderId) -> (r: Option<usize>)
        requires
            self.wf(),
        ensures
            r matches Some(i) ==> i < self.ids().len() && self.ids()[i as int] == id@,
            r is None <==> !self.ids().contains(id@),
    {
        let mut i: usize = 0;
        while i < self.ids.len()
            invariant
                i <= self.ids@.len(),
                self.wf(),
                forall|j: int| 0 <= j < i ==> self.ids()[j] != id@,
            decreases self.ids.len() - i,
        {
            assert(self.ids()[i as int] == self.ids@[i as int]@);
            if self.ids[i].same_as(id) {
                assert(self.ids()[i as int] == self.ids@[i as int]@);
                return Some(i);
            }
            i = i + 1;
        }
        proof {
            if self.ids().contains(id@) {
                let j = choose|j: int| 0 <= j < self.ids().len() && self.ids()[j] == id@;
            }
        }
        None
    }

    /// Whether a value with the given id is cached.
    pub fn contains(&self, id: &ShaderId) -> (r: bool)
        requires
            self.wf(),
        ensures
            r == self.ids().contains(id@),
    {
        self.find(id).is_some()
    }

    /// Gives access to the cached value with the given id, and records that it
    /// was used now.
    pub fn get_existing(&mut self, id: &ShaderId) -> (r: &mut V)
        requires
            old(self).wf(),
            old(self).ids().contains(id@),
        ensures
            final(self).wf(),
            final(self).ids() == old(self).ids(),
            final(self).time() == old(self).time(),
            final(self).max() == old(self).max(),
            ({
                let k = old(self).ids().index_of(id@);
                &&& *r == old(self).values()[k]
                &&& final(self).times() == old(self).times().update(k, old(self).time())
                &&& final(self).values() == old(self).values().update(k, *final(r))
            }),
    {
        let k = self.find(id).unwrap();
        proof {
            let j = self.ids().index_of(id@);
            assert(self.ids()[j] == id@);
            assert(self.ids()[k as int] == id@);
            assert(j == k);
        }
        let now = self.current_time;
        self.times.set(k, now);
        &mut self.values[k]
    }

    /// Makes room for one more value: when the cache is full, every value that
    /// was last used no later than the median of the times of last use is
    /// dropped. That drops more than half of the values.
    pub fn make_room(&mut self)
        requires
            old(self).wf(),
        ensures
            final(self).wf(),
            final(self).ids().len() + 1 <= final(self).max(),
            final(self).max() == old(self).max(),
            final(self).time() == old(self).time(),
            old(self).ids().len() + 1 <= old(self).max() ==> {
                &&& final(self).ids() == old(self).ids()
                &&& final(self).times() == old(self).times()
                &&& final(self).values() == old(self).values()
            },
            old(self).ids().len() + 1 > old(self).max() ==> {
                let kept = kept_indices(old(self).times(), median_of(old(self).times()));
                &&& 2 * final(self).ids().len() < old(self).ids().len()
                &&& final(self).ids() == kept.map_values(|k: int| old(self).ids()[k])
                &&& final(self).times() == kept.map_values(|k: int| old(self).times()[k])
                &&& final(self).values() == kept.map_values(|k: int| old(self).values()[k])
            },
    {
        if self.ids.len() < self.max_cached_shaders {
            return;
        }
        let ghost old_ids = self.ids();
        let ghost old_times = self.times();
        let ghost old_values = self.values();
        let sorted = sorted_times(&self.times);
        proof {
            broadcast use vstd::seq_lib::group_to_multiset_ensures;
            assert(sorted@.to_multiset().len() == old_times.to_multiset().len());
            assert(sorted@.len() == old_times.len());
            assert(old_ids.len() == self.ids@.len());
            assert(old_times.len() > 0);
        }
        let median = sorted[sorted.len() / 2];
        proof {
            broadcast use vstd::seq_lib::group_to_multiset_ensures;
            assert(total_ordering(time_leq()));
            old_times.lemma_sort_by_ensures(time_leq());
            vstd::seq_lib::lemma_sorted_unique(sorted@, old_times.sort_by(time_leq()), time_leq());
            assert(sorted@ == old_times.sort_by(time_leq()));
            assert(median == median_of(old_times));
            assert(old_times.sort_by(time_leq()).len() == old_times.len());
        }
        let mut work_ids: Vec<ShaderId> = Vec::new();
        let mut work_times: Vec<u64> = Vec::new();
        let mut work_values: Vec<V> = Vec::new();
        std::mem::swap(&mut work_ids, &mut self.ids);
        std::mem::swap(&mut work_times, &mut self.times);
        std::mem::swap(&mut work_values, &mut self.values);
        let count = work_times.len();
        let mut i: usize = 0;
        while i < count
            invariant
                i <= count,
                count == old_times.len(),
                old_ids.len() == count,
                old_values.len() == count,
                work_ids@.len() == count - i,
                work_times@.len() == count - i,
                work_values@.len() == count - i,
                self.max_cached_shaders == old(self).max_cached_shaders,
                self.current_time == old(self).current_time,
                id_views(work_ids@) == old_ids.skip(i as int),
                work_times@ == old_times.skip(i as int),
                work_values@ == old_values.skip(i as int),
                self.ids() == kept_indices(old_times.take(i as int), median).map_values(|k: int| old_ids[k]),
                self.times() == kept_indices(old_times.take(i as int), median).map_values(|k: int| old_times[k]),
                self.values() == kept_indices(old_times.take(i as int), median).map_values(|k: int| old_values[k]),
            decreases count - i,
        {
            let ghost prev_work_ids = work_ids@;
            let id = work_ids.remove(0);
            let time = work_times.remove(0);
            let value = work_values.remove(0);
            proof {
                assert(id_views(prev_work_ids)[0] == prev_work_ids[0]@);
                assert(work_ids@ == prev_work_ids.remove(0));
                assert(id@ == old_ids[i as int]) by {
                    assert(old_ids.skip(i as int)[0] == old_ids[i as int]);
                }
                assert(time == old_times[i as int]);
                assert(value == old_values[i as int]);
                assert forall|j: int| 0 <= j < work_ids@.len() implies #[trigger] id_views(work_ids@)[j] == old_ids.skip(i + 1)[j] by {
                    assert(work_ids@[j] == prev_work_ids[j + 1]);
                    assert(id_views(prev_work_ids)[j + 1] == old_ids.skip(i as int)[j + 1]);
                }
                assert(id_views(work_ids@) =~= old_ids.skip(i + 1));
                assert(work_times@ =~= old_times.skip(i + 1));
                assert(work_values@ =~= old_values.skip(i + 1));
                assert(old_times.take(i + 1).drop_last() =~= old_times.take(i as int));
            }
            if time > median {
                let ghost before_ids = self.ids@;
                let ghost before_times = self.times@;
                let ghost before_values = self.values@;
                self.ids.push(id);
                self.times.push(time);
                self.values.push(value);
                proof {
                    assert(self.ids@ == before_ids.push(id));
                    assert(self.ids() =~= id_views(before_ids).push(id@));
                    let kept = kept_indices(old_times.take(i + 1), median);
                    assert(kept == kept_indices(old_times.take(i as int), median).push(i as int));
                    assert(self.ids() =~= kept.map_values(|k: int| old_ids[k]));
                    assert(self.times() =~= kept.map_values(|k: int| old_times[k]));
                    assert(self.values() =~= kept.map_values(|k: int| old_values[k]));
                }
            } else {
                proof {
                    assert(kept_indices(old_times.take(i + 1), median) == kept_indices(old_times.take(i as int), median));
                }
            }
            i = i + 1;
        }
        proof {
            assert(old(self).wf());
            assert(old_times.take(count as int) =~= old_times);
            let kept = kept_indices(old_times, median);
            lemma_kept_indices(old_times, median);
            lemma_room_drops_most(old_times);
            assert(self.ids().no_duplicates()) by {
                assert forall|a: int, b: int| 0 <= a < b < self.ids().len() implies self.ids()[a] != self.ids()[b] by {
                    assert(kept[a] < kept[b]);
                    assert(old_ids[kept[a]] != old_ids[kept[b]]);
                }
            }
            assert forall|a: int| 0 <= a < self.times().len() implies #[trigger] self.times()[a] <= self.time() by {
                assert(self.times()[a] == old_times[kept[a]]);
                assert(old_times[kept[a]] <= old(self).time());
            }
        }
    }

    /// Uses the value cached under `id`: the clock advances; when the id is
    /// cached, its value is marked as used now and handed to `use_shader`;
    /// otherwise room is made (see `make_room`), `create_shader` makes the
    /// value, which is cached under `id`, used now, and handed to
    /// `use_shader`. An error of `create_shader` is returned as it is, and
    /// then nothing is cached.
    pub fn use_shader<E, C, U>(&mut self, id: &ShaderId, create_shader: C, use_shader: U) -> (r: Result<(), E>)
        where
            C: FnOnce() -> Result<V, E>,
            U: FnOnce(&mut V) -> Result<(), E>,
        requires
            old(self).wf(),
            old(self).time() < u64::MAX,
            create_shader.requires(()),
            forall|v: &mut V| use_shader.requires((v,)),
        ensures
            final(self).wf(),
            final(self).time() == old(self).time() + 1,
            final(self).max() == old(self).max(),
            old(self).ids().contains(id@) ==> {
                let k = old(self).ids().index_of(id@);
                &&& final(self).ids() == old(self).ids()
                &&& final(self).times() == old(self).times().update(k, (old(self).time() + 1) as u64)
                &&& final(self).values().len() == old(self).values().len()
                &&& forall|j: int| 0 <= j < old(self).values().len() && j != k ==> final(self).values()[j] == old(self).values()[j]
                &&& exists|v: &mut V| *v == old(self).values()[k] && *final(v) == final(self).values()[k] && use_shader.ensures((v,), r)
            },
            !old(self).ids().contains(id@) ==> {
                let room = old(self).room_indices();
                let room_ids = room.map_values(|k: int| old(self).ids()[k]);
                let room_times = room.map_values(|k: int| old(self).times()[k]);
                let room_values = room.map_values(|k: int| old(self).values()[k]);
                ||| exists|e: E| {
                    &&& create_shader.ensures((), Err(e))
                    &&& r == Err::<(), E>(e)
                    &&& final(self).ids() == room_ids
                    &&& final(self).times() == room_times
                    &&& final(self).values() == room_values
                }
                ||| exists|value: V| {
                    &&& create_shader.ensures((), Ok(value))
                    &&& final(self).ids() == room_ids.push(id@)
                    &&& final(self).times() == room_times.push((old(self).time() + 1) as u64)
                    &&& final(self).values().drop_last() == room_values
                    &&& final(self).values().len() == room_values.len() + 1
                    &&& exists|v: &mut V| *v == value && *final(v) == final(self).values().last() && use_shader.ensures((v,), r)
                }
            },
    {
        self.tick();
        if self.contains(id) {
            let shader = self.get_existing(id);
            return use_shader(shader);
        }
        self.make_room();
        proof {
            if self.ids().contains(id@) {
                let j = choose|j: int| 0 <= j < self.ids().len() && self.ids()[j] == id@;
                if old(self).ids().len() + 1 > old(self).max() {
                    let kept = kept_indices(old(self).times(), median_of(old(self).times()));
                    lemma_kept_indices(old(self).times(), median_of(old(self).times()));
                    assert(old(self).ids()[kept[j]] == id@);
                }
                assert(old(self).ids().contains(id@));
            }
            let ghost before = old(self);
            if before.ids().len() + 1 <= before.max() {
                assert(before.room_indices().map_values(|k: int| before.ids()[k]) =~= self.ids());
                assert(before.room_indices().map_values(|k: int| before.times()[k]) =~= self.times());
                assert(before.room_indices().map_values(|k: int| before.values()[k]) =~= self.values());
            }
        }
        let created = create_shader();
        match created {
            Ok(value) => {
                let shader = self.insert(id.clone(), value);
                use_shader(shader)
            }
            Err(e) => Err(e),
        }
    }

    /// Caches `value` under the given id, used now, and gives access to it. The
    /// id must not be cached yet and there must be room (see `make_room`).
    pub fn insert(&mut self, id: ShaderId, value: V) -> (r: &mut V)
        requires
            old(self).wf(),
            !old(self).ids().contains(id@),
            old(self).ids().len() + 1 <= old(self).max(),
        ensures
            final(self).wf(),
            final(self).ids() == old(self).ids().push(id@),
            final(self).times() == old(self).times().push(old(self).time()),
            final(self).values() == old(self).values().push(*final(r)),
            *r == value,
            final(self).time() == old(self).time(),
            final(self).max() == old(self).max(),
    {
        let ghost old_ids = self.ids();
        let now = self.current_time;
        self.ids.push(id);
        self.times.push(now);
        self.values.push(value);
        proof {
            assert(self.ids() =~= old_ids.push(id@));
            assert(self.ids().no_duplicates()) by {
                assert forall|a: int, b: int| 0 <= a < b < self.ids().len() implies self.ids()[a] != self.ids()[b] by {
                    if b == old_ids.len() {
                        assert(old_ids.contains(old_ids[a]));
                    } else {
                        assert(old_ids[a] != old_ids[b]);
                    }
                }
            }
        }
        let last = self.values.len() - 1;
        &mut self.values[last]
    }
}

/// Removing one timestamp removes one kept position exactly when that
/// timestamp is later than `median`.
pub proof fn lemma_kept_len_remove(times: Seq<u64>, i: int, median: u64)
    requires
        0 <= i < times.len(),
    ensures
        kept_indices(times, median).len() == kept_indices(times.remove(i), median).len() + (if times[i] > median { 1int } else { 0int }),
    decreases times.len(),
{
    if i == times.len() - 1 {
        assert(times.remove(i) =~= times.drop_last());
    } else {
        let rest = times.drop_last();
        lemma_kept_len_remove(rest, i, median);
        assert(times.remove(i).drop_last() =~= rest.remove(i));
        assert(times.remove(i).last() == times.last());
        assert(times.remove(i).len() > 0);
    }
}

/// The number of timestamps later than `median` does not depend on their order.
pub proof fn lemma_kept_len_permutation(a: Seq<u64>, b: Seq<u64>, median: u64)
    requires
        a.to_multiset() == b.to_multiset(),
    ensures
        kept_indices(a, median).len() == kept_indices(b, median).len(),
    decreases a.len(),
{
    broadcast use vstd::seq_lib::group_to_multiset_ensures;
    broadcast use vstd::multiset::group_multiset_axioms;

    if a.len() == 0 {
        assert(b.to_multiset().len() == 0);
        assert(b.len() == 0);
    } else {
        let x = a.last();
        let rest = a.drop_last();
        assert(a =~= rest.push(x));
        assert(a.to_multiset() == rest.to_multiset().insert(x));
        assert(b.to_multiset().count(x) > 0);
        assert(b.contains(x));
        let i = choose|i: int| 0 <= i < b.len() && b[i] == x;
        assert(b.remove(i).to_multiset() == b.to_multiset().remove(x));
        assert(rest.to_multiset() =~= b.remove(i).to_multiset());
        lemma_kept_len_permutation(rest, b.remove(i), median);
        lemma_kept_len_remove(b, i, median);
    }
}

/// In timestamps sorted from early to late, fewer than `times.len() - j`
/// of them are later than the one at position `j`.
pub proof fn lemma_kept_len_sorted(times: Seq<u64>, j: int)
    requires
        0 <= j < times.len(),
        sorted_by(times, time_leq()),
    ensures
        kept_indices(times, times[j]).len() <= times.len() - j - 1,
    decreases times.len(),
{
    let median = times[j];
    let rest = times.drop_last();
    if j == times.len() - 1 {
        lemma_kept_indices(rest, median);
        if kept_indices(rest, median).len() > 0 {
            let k = kept_indices(rest, median)[0];
            assert(rest[k] > median);
            assert(time_leq()(times[k], times[j]));
        }
    } else {
        assert(sorted_by(rest, time_leq())) by {
            assert forall|a: int, b: int| 0 <= a < b < rest.len() implies #[trigger] time_leq()(rest[a], rest[b]) by {
                assert(time_leq()(times[a], times[b]));
            }
        }
        assert(rest[j] == median);
        lemma_kept_len_sorted(rest, j);
    }
}

/// When room is made in a full cache, more values are dropped than kept.
pub proof fn lemma_room_drops_most(times: Seq<u64>)
    requires
        times.len() > 0,
    ensures
        2 * kept_indices(times, median_of(times)).len() < times.len(),
{
    broadcast use vstd::seq_lib::group_to_multiset_ensures;

    let sorted = times.sort_by(time_leq());
    assert(total_ordering(time_leq()));
    times.lemma_sort_by_ensures(time_leq());
    assert(sorted.to_multiset().len() == times.to_multiset().len());
    let j = (times.len() / 2) as int;
    lemma_kept_len_sorted(sorted, j);
    lemma_kept_len_permutation(times, sorted, median_of(times));
}

} // verus!

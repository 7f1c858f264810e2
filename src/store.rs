use vstd::prelude::*;
use crate::utils::local_now;

verus! {

/// A place on the map. The coordinates are the IEEE-754 bit patterns of
/// the latitude and longitude in degrees, so identity is exact and the
/// value round-trips through `f64` without loss.
#[derive(Clone, Debug)]
pub struct CityData {
    pub lat_bits: u64,
    pub lon_bits: u64,
    pub city_name: String,
}

/// Identity of a city: all three fields.
pub open spec fn same_city(a: CityData, b: CityData) -> bool {
    a.lat_bits == b.lat_bits && a.lon_bits == b.lon_bits && a.city_name@ == b.city_name@
}

impl CityData {
    pub fn new(lat_bits: u64, lon_bits: u64, city_name: String) -> (r: CityData)
        ensures
            r.lat_bits == lat_bits,
            r.lon_bits == lon_bits,
            r.city_name@ == city_name@,
    {
        CityData { lat_bits, lon_bits, city_name }
    }

    /// Structural comparison of two cities.
    pub fn same_as(&self, other: &CityData) -> (r: bool)
        ensures
            r == same_city(*self, *other),
    {
        self.lat_bits == other.lat_bits && self.lon_bits == other.lon_bits
            && self.city_name == other.city_name
    }
}

/// The error of an index-based command on the store.
#[derive(Clone, Copy, Debug, PartialEq, Eq, Structural)]
pub enum StoreError {
    IndexOutOfRange,
}

/// One city with its latest weather payload and the time it was fetched.
#[derive(Clone, Debug)]
pub struct WeatherClient<P> {
    pub city_data: CityData,
    pub weather_data: Option<P>,
    /// Seconds since the epoch; zero when never fetched.
    pub last_update_timestamp: i64,
}

/// The entry that a fetch result leaves behind: a payload replaces the
/// payload and the timestamp together; a failure leaves the entry as it was.
pub open spec fn refreshed<P>(c: WeatherClient<P>, fetched: Option<P>, now: i64) -> WeatherClient<P> {
    match fetched {
        Some(p) => WeatherClient { weather_data: Some(p), last_update_timestamp: now, ..c },
        None => c,
    }
}

/// A new, never fetched entry for `city`.
pub open spec fn is_fresh_for<P>(c: WeatherClient<P>, city: CityData) -> bool {
    same_city(c.city_data, city) && c.weather_data is None && c.last_update_timestamp == 0
}

pub open spec fn city_in<P>(s: Seq<WeatherClient<P>>, city: CityData) -> bool {
    exists|i: int| 0 <= i < s.len() && same_city(#[trigger] s[i].city_data, city)
}

/// No two entries of `s` share a city.
pub open spec fn distinct_cities<P>(s: Seq<WeatherClient<P>>) -> bool {
    forall|i: int, j: int|
        0 <= i < s.len() && 0 <= j < s.len() && i != j ==> !same_city(
            #[trigger] s[i].city_data,
            #[trigger] s[j].city_data,
        )
}

/// The entries of `s` in order, each city kept at its first occurrence.
pub open spec fn unique_cities<P>(s: Seq<WeatherClient<P>>) -> Seq<WeatherClient<P>>
    decreases s.len(),
{
    if s.len() == 0 {
        s
    } else {
        let r = unique_cities(s.drop_last());
        if city_in(r, s.last().city_data) {
            r
        } else {
            r.push(s.last())
        }
    }
}

impl<P> WeatherClient<P> {
    /// A never fetched entry for the city at the given coordinates.
    pub fn new(lat_bits: u64, lon_bits: u64, cname: &str) -> (r: WeatherClient<P>)
        ensures
            r.city_data.lat_bits == lat_bits,
            r.city_data.lon_bits == lon_bits,
            r.city_data.city_name@ == cname@,
            r.weather_data is None,
            r.last_update_timestamp == 0,
    {
        WeatherClient {
            city_data: CityData { lat_bits, lon_bits, city_name: String::from_str(cname) },
            weather_data: None,
            last_update_timestamp: 0,
        }
    }

    /// Applies the outcome of one fetch, made at time `now`.
    pub fn apply_refresh(&mut self, fetched: Option<P>, now: i64)
        ensures
            *final(self) == refreshed(*old(self), fetched, now),
    {
        match fetched {
            Some(p) => {
                self.weather_data = Some(p);
                self.last_update_timestamp = now;
            },
            None => {},
        }
    }

    /// Applies the outcome of one fetch, stamped with the current time.
    pub fn refresh_weather(&mut self, fetched: Option<P>)
        ensures
            final(self).city_data == old(self).city_data,
            fetched is None ==> *final(self) == *old(self),
            fetched is Some ==> final(self).weather_data == fetched,
    {
        let (now, _) = local_now();
        self.apply_refresh(fetched, now);
    }
}


/// The ordered store of city entries, in the order the user chose, with the
/// busy indicator shown while a fetch is under way.
pub struct WeatherController<P> {
    city_clients: Vec<WeatherClient<P>>,
    busy: bool,
}

impl<P> View for WeatherController<P> {
    type V = Seq<WeatherClient<P>>;

    closed spec fn view(&self) -> Seq<WeatherClient<P>> {
        self.city_clients@
    }
}

impl<P> WeatherController<P> {
    pub closed spec fn busy_spec(&self) -> bool {
        self.busy
    }

    /// No city appears twice.
    pub open spec fn wf(&self) -> bool {
        distinct_cities(self@)
    }

    /// An empty store, not busy.
    pub fn new() -> (r: WeatherController<P>)
        ensures
            r@ == Seq::<WeatherClient<P>>::empty(),
            !r.busy_spec(),
            r.wf(),
    {
        WeatherController { city_clients: Vec::new(), busy: false }
    }

    pub fn len(&self) -> (r: usize)
        ensures
            r == self@.len(),
    {
        self.city_clients.len()
    }

    /// The entries in display order.
    pub fn entries(&self) -> (r: &Vec<WeatherClient<P>>)
        ensures
            r@ == self@,
    {
        &self.city_clients
    }

    pub fn city_at(&self, index: usize) -> (r: &CityData)
        requires
            index < self@.len(),
        ensures
            *r == self@[index as int].city_data,
    {
        &self.city_clients[index].city_data
    }

    pub fn is_busy(&self) -> (r: bool)
        ensures
            r == self.busy_spec(),
    {
        self.busy
    }

    /// Shows the busy indicator.
    pub fn set_busy(&mut self)
        ensures
            final(self)@ == old(self)@,
            final(self).busy_spec(),
    {
        self.busy = true;
    }

    pub fn contains_city(&self, city: &CityData) -> (r: bool)
        ensures
            r == city_in(self@, *city),
    {
        let mut i: usize = 0;
        while i < self.city_clients.len()
            invariant
                i <= self@.len(),
                forall|j: int| 0 <= j < i ==> !same_city(#[trigger] self@[j].city_data, *city),
            decreases self@.len() - i,
        {
            if self.city_clients[i].city_data.same_as(city) {
                return true;
            }
            i = i + 1;
        }
        false
    }

    /// Appends a never fetched entry for `city`, unless the city is already
    /// in the store, in which case nothing changes.
    pub fn add_city(&mut self, city: CityData) -> (r: bool)
        requires
            old(self).wf(),
        ensures
            final(self).wf(),
            final(self).busy_spec() == old(self).busy_spec(),
            r == !city_in(old(self)@, city),
            !r ==> final(self)@ == old(self)@,
            r ==> final(self)@.len() == old(self)@.len() + 1,
            r ==> final(self)@.drop_last() == old(self)@,
            r ==> is_fresh_for(final(self)@.last(), city),
    {
        if self.contains_city(&city) {
            return false;
        }
        let entry = WeatherClient { city_data: city, weather_data: None, last_update_timestamp: 0 };
        self.city_clients.push(entry);
        assert(final(self)@.drop_last() =~= old(self)@);
        true
    }

    /// Deletes the entry at `index`; later entries move up by one.
    pub fn remove_city(&mut self, index: usize) -> (r: Result<(), StoreError>)
        requires
            old(self).wf(),
        ensures
            final(self).wf(),
            final(self).busy_spec() == old(self).busy_spec(),
            index < old(self)@.len() ==> r is Ok && final(self)@ == old(self)@.remove(index as int),
            index >= old(self)@.len() ==> r == Err::<(), StoreError>(StoreError::IndexOutOfRange)
                && final(self)@ == old(self)@,
    {
        if index >= self.city_clients.len() {
            return Err(StoreError::IndexOutOfRange);
        }
        self.city_clients.remove(index);
        let ghost s = old(self)@;
        let ghost t = self@;
        assert forall|i: int, j: int|
            0 <= i < t.len() && 0 <= j < t.len() && i != j implies !same_city(
            #[trigger] t[i].city_data,
            #[trigger] t[j].city_data,
        ) by {
            let a = if i < index { i } else { i + 1 };
            let b = if j < index { j } else { j + 1 };
            assert(t[i] == s[a] && t[j] == s[b]);
        }
        Ok(())
    }

    /// Swaps the entries at `index` and `new_index`; all others keep their
    /// places.
    pub fn reorder_cities(&mut self, index: usize, new_index: usize) -> (r: Result<(), StoreError>)
        requires
            old(self).wf(),
        ensures
            final(self).wf(),
            final(self).busy_spec() == old(self).busy_spec(),
            index < old(self)@.len() && new_index < old(self)@.len() ==> r is Ok && final(self)@
                == old(self)@.update(index as int, old(self)@[new_index as int]).update(
                new_index as int,
                old(self)@[index as int],
            ),
            !(index < old(self)@.len() && new_index < old(self)@.len()) ==> r == Err::<
                (),
                StoreError,
            >(StoreError::IndexOutOfRange) && final(self)@ == old(self)@,
    {
        let n = self.city_clients.len();
        if index >= n || new_index >= n {
            return Err(StoreError::IndexOutOfRange);
        }
        let ghost s = old(self)@;
        let ghost want = s.update(index as int, s[new_index as int]).update(
            new_index as int,
            s[index as int],
        );
        if index != new_index {
            let (lo, hi) = if index < new_index {
                (index, new_index)
            } else {
                (new_index, index)
            };
            let high = self.city_clients.remove(hi);
            let low = self.city_clients.remove(lo);
            self.city_clients.insert(lo, high);
            self.city_clients.insert(hi, low);
        }
        assert(self@ =~= want);
        let ghost t = self@;
        assert forall|i: int, j: int|
            0 <= i < t.len() && 0 <= j < t.len() && i != j implies !same_city(
            #[trigger] t[i].city_data,
            #[trigger] t[j].city_data,
        ) by {
            let a = if i == index { new_index as int } else if i == new_index { index as int } else { i };
            let b = if j == index { new_index as int } else if j == new_index { index as int } else { j };
            assert(t[i] == s[a] && t[j] == s[b]);
        }
        Ok(())
    }

    /// Applies the outcome of one fetch, made at time `now`, to the entry at
    /// `index`.
    pub fn apply_fetch(&mut self, index: usize, fetched: Option<P>, now: i64) -> (r: Result<(), StoreError>)
        requires
            old(self).wf(),
        ensures
            final(self).wf(),
            final(self).busy_spec() == old(self).busy_spec(),
            index < old(self)@.len() ==> r is Ok && final(self)@ == old(self)@.update(
                index as int,
                refreshed(old(self)@[index as int], fetched, now),
            ),
            index >= old(self)@.len() ==> r == Err::<(), StoreError>(StoreError::IndexOutOfRange)
                && final(self)@ == old(self)@,
    {
        if index >= self.city_clients.len() {
            return Err(StoreError::IndexOutOfRange);
        }
        let ghost s = old(self)@;
        let mut entry = self.city_clients.remove(index);
        entry.apply_refresh(fetched, now);
        self.city_clients.insert(index, entry);
        assert(self@ =~= s.update(index as int, refreshed(s[index as int], fetched, now)));
        assert forall|i: int, j: int|
            0 <= i < self@.len() && 0 <= j < self@.len() && i != j implies !same_city(
            #[trigger] self@[i].city_data,
            #[trigger] self@[j].city_data,
        ) by {
            assert(self@[i].city_data == s[i].city_data);
            assert(self@[j].city_data == s[j].city_data);
        }
        Ok(())
    }

    /// Applies one batch of fetch outcomes, all made at time `now`: the
    /// `i`-th outcome goes to the `i`-th entry, entries without an outcome
    /// stay as they are, and the busy indicator is cleared.
    pub fn apply_refresh_all(&mut self, fetched: Vec<Option<P>>, now: i64)
        requires
            old(self).wf(),
        ensures
            final(self).wf(),
            !final(self).busy_spec(),
            final(self)@.len() == old(self)@.len(),
            forall|i: int|
                0 <= i < old(self)@.len() ==> #[trigger] final(self)@[i] == if i < fetched@.len() {
                    refreshed(old(self)@[i], fetched@[i], now)
                } else {
                    old(self)@[i]
                },
    {
        let ghost s = old(self)@;
        let ghost f = fetched@;
        let mut fetched = fetched;
        fetched.truncate(self.city_clients.len());
        while fetched.len() > 0
            invariant
                self.wf(),
                self@.len() == s.len(),
                fetched@.len() <= s.len(),
                fetched@.len() <= f.len(),
                forall|k: int| 0 <= k < fetched@.len() ==> #[trigger] fetched@[k] == f[k],
                forall|i: int|
                    0 <= i < s.len() ==> #[trigger] self@[i] == if fetched@.len() <= i < f.len() {
                        refreshed(s[i], f[i], now)
                    } else {
                        s[i]
                    },
            decreases fetched@.len(),
        {
            let k = fetched.len() - 1;
            let outcome = fetched.pop().unwrap();
            let ghost before = self@;
            let _ = self.apply_fetch(k, outcome, now);
            assert forall|i: int| 0 <= i < s.len() implies #[trigger] self@[i] == if fetched@.len() <= i < f.len() {
                refreshed(s[i], f[i], now)
            } else {
                s[i]
            } by {
                if i != k {
                    assert(self@[i] == before[i]);
                }
            }
        }
        self.busy = false;
    }

    /// Applies one batch of fetch outcomes, stamped with the current time,
    /// and clears the busy indicator.
    pub fn refresh_all(&mut self, fetched: Vec<Option<P>>)
        requires
            old(self).wf(),
        ensures
            final(self).wf(),
            !final(self).busy_spec(),
            final(self)@.len() == old(self)@.len(),
            forall|i: int|
                0 <= i < old(self)@.len() ==> (#[trigger] final(self)@[i]).city_data == old(
                    self,
                )@[i].city_data,
            forall|i: int|
                0 <= i < old(self)@.len() && (i >= fetched@.len() || fetched@[i] is None)
                    ==> #[trigger] final(self)@[i] == old(self)@[i],
            forall|i: int|
                0 <= i < old(self)@.len() && i < fetched@.len() && fetched@[i] is Some
                    ==> (#[trigger] final(self)@[i]).weather_data == fetched@[i],
    {
        let (now, _) = local_now();
        self.apply_refresh_all(fetched, now);
    }

    /// Decides how an addition of `city` starts. When the city is already
    /// in the store nothing is fetched, nothing changes and the busy
    /// indicator is cleared; the result says whether a fetch is needed.
    pub fn plan_add(&mut self, city: &CityData) -> (fetch_needed: bool)
        ensures
            final(self)@ == old(self)@,
            fetch_needed == !city_in(old(self)@, *city),
            !fetch_needed ==> !final(self).busy_spec(),
            fetch_needed ==> final(self).busy_spec() == old(self).busy_spec(),
    {
        if self.contains_city(city) {
            self.busy = false;
            false
        } else {
            true
        }
    }

    /// Completes the addition of `city` with the outcome of its fetch, made
    /// at time `now`: the entry is appended whether or not the fetch
    /// succeeded, unless the city is already there. The busy indicator is
    /// cleared either way.
    pub fn apply_add(&mut self, city: CityData, fetched: Option<P>, now: i64) -> (r: bool)
        requires
            old(self).wf(),
        ensures
            final(self).wf(),
            !final(self).busy_spec(),
            r == !city_in(old(self)@, city),
            !r ==> final(self)@ == old(self)@,
            r ==> final(self)@.len() == old(self)@.len() + 1,
            r ==> final(self)@.drop_last() == old(self)@,
            r ==> exists|c: WeatherClient<P>|
                is_fresh_for(c, city) && final(self)@.last() == refreshed(c, fetched, now),
    {
        self.busy = false;
        if self.contains_city(&city) {
            return false;
        }
        let mut entry = WeatherClient { city_data: city, weather_data: None, last_update_timestamp: 0 };
        let ghost fresh = entry;
        entry.apply_refresh(fetched, now);
        self.city_clients.push(entry);
        assert(final(self)@.drop_last() =~= old(self)@);
        assert(is_fresh_for(fresh, city));
        true
    }

    /// Completes the addition of `city` with the outcome of its fetch,
    /// stamped with the current time.
    pub fn add_new_city(&mut self, city: CityData, fetched: Option<P>) -> (r: bool)
        requires
            old(self).wf(),
        ensures
            final(self).wf(),
            !final(self).busy_spec(),
            r == !city_in(old(self)@, city),
            !r ==> final(self)@ == old(self)@,
            r ==> final(self)@.len() == old(self)@.len() + 1,
            r ==> final(self)@.drop_last() == old(self)@,
            r ==> same_city(final(self)@.last().city_data, city),
            r ==> final(self)@.last().weather_data == fetched,
            r && fetched is None ==> final(self)@.last().last_update_timestamp == 0,
    {
        let (now, _) = local_now();
        self.apply_add(city, fetched, now)
    }

    /// A store holding the given entries in order, each city kept at its
    /// first occurrence; not busy.
    pub fn from_entries(entries: Vec<WeatherClient<P>>) -> (r: WeatherController<P>)
        ensures
            r@ == unique_cities(entries@),
            r.wf(),
            !r.busy_spec(),
    {
        let ghost src = entries@;
        let total = entries.len();
        let mut rest = entries;
        let mut r = WeatherController::new();
        let mut i: usize = 0;
        while rest.len() > 0
            invariant
                i + rest@.len() == src.len(),
                src.len() == total,
                rest@ == src.subrange(i as int, src.len() as int),
                r@ == unique_cities(src.subrange(0, i as int)),
                r.wf(),
                !r.busy_spec(),
            decreases rest@.len(),
        {
            let entry = rest.remove(0);
            let ghost e = entry;
            assert(src.subrange(0, i + 1).drop_last() =~= src.subrange(0, i as int));
            if !r.contains_city(&entry.city_data) {
                r.city_clients.push(entry);
                assert forall|a: int, b: int|
                    0 <= a < r@.len() && 0 <= b < r@.len() && a != b implies !same_city(
                    #[trigger] r@[a].city_data,
                    #[trigger] r@[b].city_data,
                ) by {
                    if a == r@.len() - 1 || b == r@.len() - 1 {
                        assert(r@.last() == e);
                    }
                }
            }
            i = i + 1;
            assert(rest@ =~= src.subrange(i as int, src.len() as int));
        }
        assert(src.subrange(0, i as int) =~= src);
        r
    }
}

/// Saving a store and loading it back gives the same store: every entry,
/// in order, with its city, payload and timestamp.
pub proof fn lemma_save_load_round_trip<P>(s: Seq<WeatherClient<P>>)
    requires
        distinct_cities(s),
    ensures
        unique_cities(s) == s,
    decreases s.len(),
{
    if s.len() > 0 {
        let t = s.drop_last();
        assert(distinct_cities(t)) by {
            assert forall|i: int, j: int|
                0 <= i < t.len() && 0 <= j < t.len() && i != j implies !same_city(
                #[trigger] t[i].city_data,
                #[trigger] t[j].city_data,
            ) by {
                assert(t[i] == s[i] && t[j] == s[j]);
            }
        }
        lemma_save_load_round_trip(t);
        if city_in(t, s.last().city_data) {
            let i = choose|i: int| 0 <= i < t.len() && same_city(#[trigger] t[i].city_data, s.last().city_data);
            assert(t[i] == s[i]);
            assert(!same_city(s[i].city_data, s[s.len() - 1].city_data));
        }
        assert(t.push(s.last()) =~= s);
    }
}

} // verus!

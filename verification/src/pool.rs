//! A pool of queries over many stations: which queries to run, how many at once,
//! when a query is retried, and how the plates found are gathered by station.

use crate::options::{lemma_stations_follow_region, spec_stations, PlateType, PlateVer, Station, WindowNo};
use crate::{Error, PlateInfo, QueryOptions};
use vstd::prelude::*;

verus! {

/// The options of a pool of queries.
#[derive(Debug, Clone)]
pub struct PoolClientOptions {
    pub plate_ver: PlateVer,
    pub plate_type: PlateType,
    /// If None, query all stations. If Some, query only the specified stations.
    pub stations: Option<Vec<Station>>,
    /// Number of times to retry when encountering a captcha error.
    pub retry_times: usize,
    /// Number of concurrent tasks to run.
    pub concurrency: usize,
}

/// The query for one station and window, with the station's regional office.
pub open spec fn spec_station_query(
    station: Station,
    window_no: WindowNo,
    plate_ver: PlateVer,
    plate_type: PlateType,
) -> QueryOptions {
    QueryOptions { region: station.spec_region(), station, window_no, plate_ver, plate_type }
}

/// The queries for the stations `stations`, in order, each over every window in order.
pub open spec fn spec_query_plan(
    stations: Seq<Station>,
    plate_ver: PlateVer,
    plate_type: PlateType,
) -> Seq<QueryOptions>
    decreases stations.len(),
{
    if stations.len() == 0 {
        Seq::empty()
    } else {
        spec_query_plan(stations.drop_last(), plate_ver, plate_type) + WindowNo::spec_all().map_values(
            |w: WindowNo| spec_station_query(stations.last(), w, plate_ver, plate_type),
        )
    }
}

impl PoolClientOptions {
    /// The default options on a machine that reports `available_parallelism` units of
    /// parallelism (`None` when it cannot tell): new style plates for electric normal
    /// heavy motorcycles, at every station, with three retries, running as many queries
    /// at once as there are units of parallelism, or four.
    pub fn with_available_parallelism(available_parallelism: Option<usize>) -> (o: Self)
        ensures
            o.plate_ver == PlateVer::New,
            o.plate_type == PlateType::MotorcycleElectricNormalHeavy,
            o.stations is None,
            o.retry_times == 3,
            o.concurrency == match available_parallelism {
                Some(n) => n,
                None => 4,
            },
    {
        PoolClientOptions {
            plate_ver: PlateVer::New,
            plate_type: PlateType::MotorcycleElectricNormalHeavy,
            stations: None,
            retry_times: 3,
            concurrency: match available_parallelism {
                Some(n) => n,
                None => 4,
            },
        }
    }

    /// How many queries run at once: the configured concurrency, and at least one.
    pub fn concurrency_limit(&self) -> (n: usize)
        ensures
            n == if self.concurrency >= 1 {
                self.concurrency
            } else {
                1
            },
    {
        if self.concurrency >= 1 {
            self.concurrency
        } else {
            1
        }
    }

    /// The stations the pool queries.
    pub open spec fn spec_stations_to_query(&self) -> Seq<Station> {
        match self.stations {
            Some(v) => v@,
            None => Station::spec_all(),
        }
    }

    /// The stations the pool queries: the given ones, or all of them.
    pub fn stations_to_query(&self) -> (v: Vec<Station>)
        ensures
            v@ == self.spec_stations_to_query(),
    {
        match &self.stations {
            Some(v) => v.clone(),
            None => Station::all(),
        }
    }

    /// The queries the pool runs, one for each station and window, each with the
    /// station's regional office and the pool's plate style and kind.
    pub fn query_plan(&self) -> (plan: Vec<QueryOptions>)
        ensures
            plan@ == spec_query_plan(self.spec_stations_to_query(), self.plate_ver, self.plate_type),
    {
        let stations = self.stations_to_query();
        let windows = WindowNo::all();
        let mut plan: Vec<QueryOptions> = Vec::new();
        let n = stations.len();
        let mut i: usize = 0;
        while i < n
            invariant
                i <= n,
                n == stations@.len(),
                stations@ == self.spec_stations_to_query(),
                windows@ == WindowNo::spec_all(),
                plan@ == spec_query_plan(stations@.take(i as int), self.plate_ver, self.plate_type),
            decreases n - i,
        {
            let station = stations[i];
            let ghost before = plan@;
            let ghost row = WindowNo::spec_all().map_values(
                |w: WindowNo| spec_station_query(station, w, self.plate_ver, self.plate_type),
            );
            let m = windows.len();
            let mut j: usize = 0;
            while j < m
                invariant
                    j <= m,
                    m == windows@.len(),
                    windows@ == WindowNo::spec_all(),
                    row == WindowNo::spec_all().map_values(
                        |w: WindowNo| spec_station_query(station, w, self.plate_ver, self.plate_type),
                    ),
                    plan@ == before + row.take(j as int),
                decreases m - j,
            {
                let window_no = windows[j];
                plan.push(
                    QueryOptions {
                        region: station.region(),
                        station,
                        window_no,
                        plate_ver: self.plate_ver,
                        plate_type: self.plate_type,
                    },
                );
                assert(row.take(j + 1) =~= row.take(j as int).push(row[j as int]));
                j = j + 1;
            }
            assert(row.take(m as int) =~= row);
            assert(stations@.take(i + 1).drop_last() =~= stations@.take(i as int));
            i = i + 1;
        }
        assert(stations@.take(n as int) =~= stations@);
        plan
    }
}

/// Law: the plan holds one query for each station and window, station by station in
/// the order given and window by window within a station, and every query in it names
/// a station that its regional office lists, with the pool's plate style and kind.
pub proof fn lemma_query_plan_consistent(
    stations: Seq<Station>,
    plate_ver: PlateVer,
    plate_type: PlateType,
)
    ensures
        spec_query_plan(stations, plate_ver, plate_type).len() == stations.len()
            * WindowNo::spec_all().len(),
        forall|k: int|
            0 <= k < spec_query_plan(stations, plate_ver, plate_type).len() ==> {
                let q = #[trigger] spec_query_plan(stations, plate_ver, plate_type)[k];
                &&& spec_stations(q.region).contains(q.station)
                &&& stations.contains(q.station)
                &&& q.plate_ver == plate_ver
                &&& q.plate_type == plate_type
                &&& q == spec_station_query(
                    stations[k / WindowNo::spec_all().len() as int],
                    WindowNo::spec_all()[k % WindowNo::spec_all().len() as int],
                    plate_ver,
                    plate_type,
                )
            },
    decreases stations.len(),
{
    if stations.len() > 0 {
        let prefix = stations.drop_last();
        lemma_query_plan_consistent(prefix, plate_ver, plate_type);
        let plan = spec_query_plan(stations, plate_ver, plate_type);
        let head = spec_query_plan(prefix, plate_ver, plate_type);
        assert forall|k: int| 0 <= k < plan.len() implies {
            let q = #[trigger] plan[k];
            &&& spec_stations(q.region).contains(q.station)
            &&& stations.contains(q.station)
            &&& q.plate_ver == plate_ver
            &&& q.plate_type == plate_type
            &&& q == spec_station_query(
                stations[k / WindowNo::spec_all().len() as int],
                WindowNo::spec_all()[k % WindowNo::spec_all().len() as int],
                plate_ver,
                plate_type,
            )
        } by {
            let q = plan[k];
            assert(WindowNo::spec_all().len() == 1);
            assert(k / 1 == k && k % 1 == 0);
            if k < head.len() {
                assert(q == head[k]);
                assert(stations[k] == prefix[k]);
                let j = choose|j: int| 0 <= j < prefix.len() && prefix[j] == q.station;
                assert(stations[j] == q.station);
            } else {
                assert(q.station == stations.last());
                assert(stations[stations.len() - 1] == q.station);
            }
            lemma_stations_follow_region(q.region, q.station);
        }
        let w = WindowNo::spec_all().len();
        assert(stations.len() * w == prefix.len() * w + w) by (nonlinear_arith)
            requires
                stations.len() == prefix.len() + 1,
        ;
    }
}

/// Whether a query that failed with `error` after `attempts` retries is tried again:
/// only a rejected captcha is, and only while fewer than `retry_times` retries were made.
pub fn should_retry(error: &Error, attempts: usize, retry_times: usize) -> (b: bool)
    ensures
        b == (error is CaptchaError && attempts < retry_times),
{
    match error {
        Error::CaptchaError => attempts < retry_times,
        _ => false,
    }
}

/// A station's entry of gathered plates, as plain values.
pub open spec fn entry_view(e: (Station, Vec<PlateInfo>)) -> (Station, Seq<(Seq<char>, i32)>) {
    (e.0, e.1.deep_view())
}

/// The plates that `entries` holds for `station`: those of its first entry, or none.
pub open spec fn plates_of(entries: Seq<(Station, Seq<(Seq<char>, i32)>)>, station: Station) -> Seq<
    (Seq<char>, i32),
>
    decreases entries.len(),
{
    if entries.len() == 0 {
        Seq::empty()
    } else if entries[0].0 == station {
        entries[0].1
    } else {
        plates_of(entries.drop_first(), station)
    }
}

/// No station has two entries in `entries`.
pub open spec fn stations_distinct(entries: Seq<(Station, Seq<(Seq<char>, i32)>)>) -> bool {
    forall|i: int, j: int|
        0 <= i < entries.len() && 0 <= j < entries.len() && i != j ==> #[trigger] entries[i].0
            != #[trigger] entries[j].0
}

/// Whether `station` has an entry in `entries`.
pub open spec fn has_station(entries: Seq<(Station, Seq<(Seq<char>, i32)>)>, station: Station) -> bool {
    exists|i: int| 0 <= i < entries.len() && #[trigger] entries[i].0 == station
}

proof fn lemma_plates_of_entry(entries: Seq<(Station, Seq<(Seq<char>, i32)>)>, i: int)
    requires
        stations_distinct(entries),
        0 <= i < entries.len(),
    ensures
        plates_of(entries, entries[i].0) == entries[i].1,
    decreases i,
{
    if i > 0 {
        let rest = entries.drop_first();
        assert(entries[0].0 != entries[i].0);
        assert(rest[i - 1] == entries[i]);
        assert forall|a: int, b: int|
            0 <= a < rest.len() && 0 <= b < rest.len() && a != b implies #[trigger] rest[a].0
            != #[trigger] rest[b].0 by {
            assert(rest[a] == entries[a + 1] && rest[b] == entries[b + 1]);
        }
        lemma_plates_of_entry(rest, i - 1);
    }
}

proof fn lemma_plates_of_absent(entries: Seq<(Station, Seq<(Seq<char>, i32)>)>, station: Station)
    requires
        !has_station(entries, station),
    ensures
        plates_of(entries, station) == Seq::<(Seq<char>, i32)>::empty(),
    decreases entries.len(),
{
    if entries.len() > 0 {
        let rest = entries.drop_first();
        assert(entries[0].0 != station);
        assert forall|k: int| 0 <= k < rest.len() implies #[trigger] rest[k].0 != station by {
            assert(rest[k] == entries[k + 1]);
        }
        lemma_plates_of_absent(rest, station);
    }
}

/// What the plates gathered for `station` are in `entries`, when no station has two
/// entries: those of its entry, or none.
proof fn lemma_plates_of(entries: Seq<(Station, Seq<(Seq<char>, i32)>)>, station: Station)
    requires
        stations_distinct(entries),
    ensures
        has_station(entries, station) ==> exists|i: int|
            0 <= i < entries.len() && #[trigger] entries[i].0 == station && plates_of(entries, station)
                == entries[i].1,
        !has_station(entries, station) ==> plates_of(entries, station) == Seq::<
            (Seq<char>, i32),
        >::empty(),
{
    if has_station(entries, station) {
        let i = choose|i: int| 0 <= i < entries.len() && #[trigger] entries[i].0 == station;
        lemma_plates_of_entry(entries, i);
    } else {
        lemma_plates_of_absent(entries, station);
    }
}

/// The stations and plates of `entries`, as plain values.
pub open spec fn entries_view(entries: Seq<(Station, Vec<PlateInfo>)>) -> Seq<
    (Station, Seq<(Seq<char>, i32)>),
> {
    entries.map_values(|e: (Station, Vec<PlateInfo>)| entry_view(e))
}

/// `entries` with `plates` added after those of `station`'s entry, or in a new entry at
/// the end when `station` has none.
fn gather(initial: Vec<(Station, Vec<PlateInfo>)>, station: Station, plates: Vec<PlateInfo>) -> (r: Vec<
    (Station, Vec<PlateInfo>),
>)
    requires
        stations_distinct(entries_view(initial@)),
    ensures
        stations_distinct(entries_view(r@)),
        plates_of(entries_view(r@), station) == plates_of(entries_view(initial@), station)
            + plates.deep_view(),
        forall|s: Station|
            s != station ==> plates_of(entries_view(r@), s) == plates_of(entries_view(initial@), s),
        forall|s: Station|
            #[trigger] has_station(entries_view(r@), s) <==> (s == station || has_station(
                entries_view(initial@),
                s,
            )),
        has_station(entries_view(initial@), station) ==> exists|i: int|
            0 <= i < initial@.len() && #[trigger] entries_view(initial@)[i].0 == station
                && entries_view(r@) == entries_view(initial@).update(
                i,
                (station, entries_view(initial@)[i].1 + plates.deep_view()),
            ),
        !has_station(entries_view(initial@), station) ==> entries_view(r@) == entries_view(
            initial@,
        ).push((station, plates.deep_view())),
{
    let ghost old_entries = entries_view(initial@);
    proof {
        lemma_plates_of(old_entries, station);
    }
    let mut entries = initial;
    let n = entries.len();
    let mut i: usize = 0;
    while i < n
        invariant
            i <= n,
            n == entries@.len(),
            old_entries == entries_view(initial@),
            old_entries == entries_view(entries@),
            stations_distinct(old_entries),
            forall|k: int| 0 <= k < i ==> old_entries[k].0 != station,
        decreases n - i,
    {
        assert(old_entries[i as int] == entry_view(entries@[i as int]));
        if entries[i].0 == station {
            let ghost old_vec = entries@;
            let ghost added = plates.deep_view();
            let (s, mut found) = entries.remove(i);
            assert(found.deep_view() == old_entries[i as int].1);
            let ghost found_before = found@;
            let mut extra = plates;
            found.append(&mut extra);
            assert(found@ =~= found_before + plates@);
            assert(found.deep_view() =~= old_entries[i as int].1 + added);
            entries.insert(i, (s, found));
            assert(entries@ =~= old_vec.update(i as int, (s, found)));
            let ghost new_entries = entries_view(entries@);
            assert(new_entries =~= old_entries.update(
                i as int,
                (station, old_entries[i as int].1 + added),
            ));
            proof {
                assert(stations_distinct(new_entries));
                lemma_plates_of_entry(old_entries, i as int);
                lemma_plates_of_entry(new_entries, i as int);
                assert forall|t: Station| t != station implies plates_of(new_entries, t)
                    == plates_of(old_entries, t) by {
                    lemma_plates_of(old_entries, t);
                    lemma_plates_of(new_entries, t);
                    if has_station(old_entries, t) {
                        let j = choose|j: int|
                            0 <= j < old_entries.len() && #[trigger] old_entries[j].0 == t;
                        assert(new_entries[j] == old_entries[j]);
                        lemma_plates_of_entry(old_entries, j);
                        lemma_plates_of_entry(new_entries, j);
                    } else {
                        assert(!has_station(new_entries, t)) by {
                            if has_station(new_entries, t) {
                                let j = choose|j: int|
                                    0 <= j < new_entries.len() && #[trigger] new_entries[j].0
                                        == t;
                                assert(old_entries[j].0 == t);
                            }
                        }
                    }
                }
                assert forall|t: Station|
                    #[trigger] has_station(new_entries, t) <==> (t == station || has_station(
                        old_entries,
                        t,
                    )) by {
                    if has_station(new_entries, t) {
                        let j = choose|j: int|
                            0 <= j < new_entries.len() && #[trigger] new_entries[j].0 == t;
                        assert(old_entries[j].0 == t);
                    }
                    if has_station(old_entries, t) {
                        let j = choose|j: int|
                            0 <= j < old_entries.len() && #[trigger] old_entries[j].0 == t;
                        assert(new_entries[j].0 == t);
                    }
                    if t == station {
                        assert(new_entries[i as int].0 == t);
                    }
                }
            }
            return entries;
        }
        i = i + 1;
    }
    entries.push((station, plates));
    let ghost new_entries = entries_view(entries@);
    assert(new_entries =~= old_entries.push((station, plates.deep_view())));
    proof {
        assert(!has_station(old_entries, station));
        assert(stations_distinct(new_entries));
        lemma_plates_of_entry(new_entries, n as int);
        assert forall|t: Station| t != station implies plates_of(new_entries, t) == plates_of(
            old_entries,
            t,
        ) by {
            lemma_plates_of(old_entries, t);
            lemma_plates_of(new_entries, t);
            if has_station(old_entries, t) {
                let j = choose|j: int|
                    0 <= j < old_entries.len() && #[trigger] old_entries[j].0 == t;
                assert(new_entries[j] == old_entries[j]);
                lemma_plates_of_entry(old_entries, j);
                lemma_plates_of_entry(new_entries, j);
            } else {
                assert(!has_station(new_entries, t)) by {
                    if has_station(new_entries, t) {
                        let j = choose|j: int|
                            0 <= j < new_entries.len() && #[trigger] new_entries[j].0 == t;
                        assert(old_entries[j].0 == t);
                    }
                }
            }
        }
        assert forall|t: Station|
            #[trigger] has_station(new_entries, t) <==> (t == station || has_station(
                old_entries,
                t,
            )) by {
            if has_station(new_entries, t) {
                let j = choose|j: int|
                    0 <= j < new_entries.len() && #[trigger] new_entries[j].0 == t;
                if j < n {
                    assert(old_entries[j].0 == t);
                }
            }
            if has_station(old_entries, t) {
                let j = choose|j: int|
                    0 <= j < old_entries.len() && #[trigger] old_entries[j].0 == t;
                assert(new_entries[j].0 == t);
            }
            if t == station {
                assert(new_entries[n as int].0 == t);
            }
        }
    }
    entries
}

/// The plates found, gathered by station: each station once, with the plates of all
/// its queries in the order the results were added.
pub struct PlatesByStation {
    entries: Vec<(Station, Vec<PlateInfo>)>,
}

impl PlatesByStation {
    /// No station appears twice.
    #[verifier::type_invariant]
    spec fn stations_once(self) -> bool {
        stations_distinct(entries_view(self.entries@))
    }

    /// The stations and their plates, in the order each station's first plates came.
    pub closed spec fn spec_entries(&self) -> Seq<(Station, Seq<(Seq<char>, i32)>)> {
        entries_view(self.entries@)
    }

    /// The plates gathered for `station` (none when it has none).
    pub open spec fn spec_plates_of(&self, station: Station) -> Seq<(Seq<char>, i32)> {
        plates_of(self.spec_entries(), station)
    }

    /// Whether any plates were gathered for `station`.
    pub open spec fn spec_has(&self, station: Station) -> bool {
        has_station(self.spec_entries(), station)
    }

    /// Nothing gathered yet.
    pub fn new() -> (r: Self)
        ensures
            r.spec_entries().len() == 0,
    {
        let r = PlatesByStation { entries: Vec::new() };
        assert(entries_view(r.entries@) =~= Seq::empty());
        r
    }

    /// Adds the plates `plates` found for `station` after those already gathered for it.
    pub fn add(&mut self, station: Station, plates: Vec<PlateInfo>)
        ensures
            final(self).spec_plates_of(station) == old(self).spec_plates_of(station)
                + plates.deep_view(),
            forall|s: Station|
                s != station ==> final(self).spec_plates_of(s) == old(self).spec_plates_of(s),
            forall|s: Station|
                #[trigger] final(self).spec_has(s) <==> (s == station || old(self).spec_has(s)),
            old(self).spec_has(station) ==> exists|i: int|
                0 <= i < old(self).spec_entries().len() && #[trigger] old(self).spec_entries()[i].0
                    == station && final(self).spec_entries() == old(self).spec_entries().update(
                    i,
                    (station, old(self).spec_entries()[i].1 + plates.deep_view()),
                ),
            !old(self).spec_has(station) ==> final(self).spec_entries() == old(
                self,
            ).spec_entries().push((station, plates.deep_view())),
    {
        proof {
            use_type_invariant(&*self);
        }
        let mut entries = Vec::new();
        std::mem::swap(&mut entries, &mut self.entries);
        proof {
            assert(entries_view(self.entries@) =~= Seq::empty());
        }
        self.entries = gather(entries, station, plates);
    }

    /// The stations and their plates, each station once, in the order each station's
    /// first plates came.
    pub fn into_entries(self) -> (v: Vec<(Station, Vec<PlateInfo>)>)
        ensures
            entries_view(v@) == self.spec_entries(),
            stations_distinct(entries_view(v@)),
    {
        proof {
            use_type_invariant(&self);
        }
        self.entries
    }
}

/// The course of one station's query in a pool: the captcha retries made so far and
/// the plates read from its pages so far. The caller sends the query and fetches the
/// pages, and reports each outcome here; this decides whether to go on.
pub struct StationQuery {
    station: Station,
    retry_times: usize,
    attempts: usize,
    plates: Vec<PlateInfo>,
}

impl StationQuery {
    /// Never more retries than allowed.
    #[verifier::type_invariant]
    spec fn retries_within_limit(self) -> bool {
        self.attempts <= self.retry_times
    }

    /// The station queried.
    pub closed spec fn spec_station(&self) -> Station {
        self.station
    }

    /// How many captcha retries are allowed.
    pub closed spec fn spec_retry_times(&self) -> usize {
        self.retry_times
    }

    /// How many captcha retries were made.
    pub closed spec fn spec_attempts(&self) -> usize {
        self.attempts
    }

    /// The plates read so far, in the order of the pages.
    pub closed spec fn spec_plates(&self) -> Seq<(Seq<char>, i32)> {
        self.plates.deep_view()
    }

    /// A query of `station` that may retry a rejected captcha `retry_times` times.
    pub fn new(station: Station, retry_times: usize) -> (q: Self)
        ensures
            q.spec_station() == station,
            q.spec_retry_times() == retry_times,
            q.spec_attempts() == 0,
            q.spec_plates() == Seq::<(Seq<char>, i32)>::empty(),
    {
        let q = StationQuery { station, retry_times, attempts: 0, plates: Vec::new() };
        assert(q.plates.deep_view() =~= Seq::<(Seq<char>, i32)>::empty());
        q
    }

    /// The station queried.
    pub fn station(&self) -> (s: Station)
        ensures
            s == self.spec_station(),
    {
        self.station
    }

    /// How many captcha retries were made; never more than allowed.
    pub fn attempts(&self) -> (n: usize)
        ensures
            n == self.spec_attempts(),
            n <= self.spec_retry_times(),
    {
        proof {
            use_type_invariant(self);
        }
        self.attempts
    }

    /// Takes in that sending the query failed with `error`: a rejected captcha while
    /// retries are left counts one more retry and the query is sent again (`Ok`); any
    /// other failure ends the query with that error.
    pub fn on_send_error(&mut self, error: Error) -> (r: Result<(), Error>)
        ensures
            final(self).spec_station() == old(self).spec_station(),
            final(self).spec_retry_times() == old(self).spec_retry_times(),
            final(self).spec_plates() == old(self).spec_plates(),
            (error is CaptchaError && old(self).spec_attempts() < old(self).spec_retry_times())
                ==> r is Ok && final(self).spec_attempts() == old(self).spec_attempts() + 1,
            !(error is CaptchaError && old(self).spec_attempts() < old(self).spec_retry_times())
                ==> r == Err::<(), Error>(error) && final(self).spec_attempts() == old(
                self,
            ).spec_attempts(),
    {
        proof {
            use_type_invariant(&*self);
        }
        if should_retry(&error, self.attempts, self.retry_times) {
            self.attempts = self.attempts + 1;
            Ok(())
        } else {
            Err(error)
        }
    }

    /// Takes in the outcome of reading one page of results: its plates are added after
    /// those read before; no page adds nothing; an error ends the query with it.
    pub fn on_page(&mut self, page: Result<Option<Vec<PlateInfo>>, Error>) -> (r: Result<(), Error>)
        ensures
            final(self).spec_station() == old(self).spec_station(),
            final(self).spec_retry_times() == old(self).spec_retry_times(),
            final(self).spec_attempts() == old(self).spec_attempts(),
            match page {
                Ok(Some(v)) => r is Ok && final(self).spec_plates() == old(self).spec_plates()
                    + v.deep_view(),
                Ok(None) => r is Ok && final(self).spec_plates() == old(self).spec_plates(),
                Err(e) => r == Err::<(), Error>(e) && final(self).spec_plates() == old(
                    self,
                ).spec_plates(),
            },
    {
        proof {
            use_type_invariant(&*self);
        }
        match page {
            Ok(Some(v)) => {
                let ghost added = v.deep_view();
                let mut plates = Vec::new();
                std::mem::swap(&mut plates, &mut self.plates);
                let ghost before = plates@;
                let mut extra = v;
                plates.append(&mut extra);
                assert(plates.deep_view() =~= old(self).spec_plates() + added) by {
                    assert(plates@ =~= before + v@);
                }
                self.plates = plates;
                Ok(())
            },
            Ok(None) => Ok(()),
            Err(e) => Err(e),
        }
    }

    /// The station and every plate read for it, in the order of the pages.
    pub fn into_result(self) -> (r: (Station, Vec<PlateInfo>))
        ensures
            r.0 == self.spec_station(),
            r.1.deep_view() == self.spec_plates(),
    {
        (self.station, self.plates)
    }
}

} // verus!

use vstd::prelude::*;
use ahash::RandomState;
use dashmap::DashMap;
use crate::instant::{Timestamp, read_spec, paris_rfc3339, shifted, ts_le, DROP_OFFSET_SECS};
use crate::window::lemma_window_ordered;
use crate::window::{predicted, predict_window};
use crate::text::{lower_of, lowercase, listed, lines_of, parse_list};

verus! {

#[verifier::external_type_specification]
#[verifier::external_body]
#[verifier::reject_recursive_types(K)]
#[verifier::reject_recursive_types(V)]
#[verifier::reject_recursive_types(S)]
pub struct ExDashMap<K, V, S>(DashMap<K, V, S>);

#[verifier::external_type_specification]
#[verifier::external_body]
pub struct ExAhashRandomState(RandomState);

/// A handle's record: its current identity and the RFC 3339 text of the
/// instant it was last observed.
pub type HandleRecord = (Option<String>, Option<String>);

/// The handle registry: one record per lowercase handle name.
pub type HandleMap = DashMap<String, (Option<String>, Option<String>), RandomState>;

/// The window registry: handle name to (window begin, window end) texts.
pub type WindowMap = DashMap<String, (String, String), RandomState>;

/// Shards of a fresh handle registry (a power of two).
pub const HANDLE_SHARDS: usize = 1024;

/// Shards of a fresh window registry (a power of two).
pub const WINDOW_SHARDS: usize = 128;

pub open spec fn opt_view(o: Option<String>) -> Option<Seq<char>> {
    match o {
        Some(s) => Some(s@),
        None => None,
    }
}

pub open spec fn record_view(r: HandleRecord) -> (Option<Seq<char>>, Option<Seq<char>>) {
    (opt_view(r.0), opt_view(r.1))
}

/// The records that a handle registry holds.
pub uninterp spec fn handle_entries(
    m: DashMap<String, (Option<String>, Option<String>), RandomState>,
) -> Map<Seq<char>, (Option<Seq<char>>, Option<Seq<char>>)>;

/// The windows that a window registry holds.
pub uninterp spec fn window_entries(
    m: DashMap<String, (String, String), RandomState>,
) -> Map<Seq<char>, (Seq<char>, Seq<char>)>;

/// Relies on `ahash::RandomState::new`: a hasher with fresh seeds.
#[verifier::external_body]
fn fresh_hasher() -> (r: RandomState) {
    RandomState::new()
}

/// Relies on `DashMap::with_capacity_and_hasher_and_shard_amount`, which
/// asserts that the shard amount is above one and a power of two, and
/// returns a map with no entry.
#[verifier::external_body]
fn handle_map_with(capacity: usize, hasher: RandomState, shards: usize) -> (r: HandleMap)
    requires
        shards > 1,
        shards & ((shards - 1) as usize) == 0,
    ensures
        handle_entries(r) == HandlesView::empty(),
{
    DashMap::with_capacity_and_hasher_and_shard_amount(capacity, hasher, shards)
}

/// Relies on `DashMap::with_capacity_and_hasher_and_shard_amount`, as above,
/// for the window registry.
#[verifier::external_body]
fn window_map_with(capacity: usize, hasher: RandomState, shards: usize) -> (r: WindowMap)
    requires
        shards > 1,
        shards & ((shards - 1) as usize) == 0,
    ensures
        window_entries(r) == WindowsView::empty(),
{
    DashMap::with_capacity_and_hasher_and_shard_amount(capacity, hasher, shards)
}

/// Relies on `DashMap::get`: the record stored under `k`, if any. The map
/// is held exclusively, so nothing changes it meanwhile.
#[verifier::external_body]
fn handle_lookup(m: &mut HandleMap, k: &String) -> (r: Option<HandleRecord>)
    ensures
        handle_entries(*final(m)) == handle_entries(*old(m)),
        match r {
            Some(v) => handle_entries(*old(m)).dom().contains(k@) && handle_entries(*old(m))[k@]
                == record_view(v),
            None => !handle_entries(*old(m)).dom().contains(k@),
        },
{
    m.get(k).map(|g| g.value().clone())
}

/// Relies on `DashMap::insert`: afterwards `k` maps to `v`, other keys are kept.
#[verifier::external_body]
fn handle_store(m: &mut HandleMap, k: String, v: HandleRecord)
    ensures
        handle_entries(*final(m)) == handle_entries(*old(m)).insert(k@, record_view(v)),
{
    m.insert(k, v);
}

/// Relies on `DashMap::insert`: afterwards `k` maps to `v`, other keys are kept.
#[verifier::external_body]
fn window_store(m: &mut WindowMap, k: String, v: (String, String))
    ensures
        window_entries(*final(m)) == window_entries(*old(m)).insert(k@, (v.0@, v.1@)),
{
    m.insert(k, v);
}

/// A fresh, empty handle registry.
pub fn new_handle_map(capacity: usize) -> (r: HandleMap)
    ensures
        handle_entries(r) == HandlesView::empty(),
{
    assert(1024usize & 1023usize == 0) by (bit_vector);
    handle_map_with(capacity, fresh_hasher(), HANDLE_SHARDS)
}

/// A fresh, empty window registry.
pub fn new_window_map(capacity: usize) -> (r: WindowMap)
    ensures
        window_entries(r) == WindowsView::empty(),
{
    assert(128usize & 127usize == 0) by (bit_vector);
    window_map_with(capacity, fresh_hasher(), WINDOW_SHARDS)
}

/// Capacity reserved for a seeded handle registry.
pub const SEED_CAPACITY: usize = 70000;

/// The registry seeded with `names`: one record without identity or
/// last-seen instant per lowercase name.
pub open spec fn seeded(names: Seq<Seq<char>>) -> HandlesView
    decreases names.len(),
{
    if names.len() == 0 {
        Map::empty()
    } else {
        seeded(names.drop_last()).insert(lower_of(names.last()), (None, None))
    }
}

/// Builds the handle registry from a newline-separated list of handle
/// names: blank lines are skipped, names are trimmed and lowercased, and
/// each starts with neither identity nor last-seen instant.
pub fn init_hashmap_from_text(text: &str) -> (r: HandleMap)
    ensures
        handle_entries(r) == seeded(listed(lines_of(text@))),
{
    let names = parse_list(text);
    let ghost ns = names@.map_values(|l: String| l@);
    let mut map = new_handle_map(SEED_CAPACITY);
    let mut i: usize = 0;
    while i < names.len()
        invariant
            i <= names.len(),
            ns == names@.map_values(|l: String| l@),
            handle_entries(map) == seeded(ns.take(i as int)),
        decreases names.len() - i,
    {
        let key = lowercase(names[i].as_str());
        handle_store(&mut map, key, (None, None));
        assert(ns.take(i as int + 1).drop_last() =~= ns.take(i as int));
        assert(ns.take(i as int + 1).last() == names@[i as int]@);
        assert(record_view((None, None)) == (None::<Seq<char>>, None::<Seq<char>>));
        i += 1;
    }
    assert(ns.take(names.len() as int) =~= ns);
    map
}

/// One lookup result: a handle name, its identity if it resolved, and the
/// RFC 3339 text of the observation instant.
pub struct UsernameResult {
    pub username: String,
    pub uuid: Option<String>,
    pub last_seen: String,
}

/// One row of the handle registry, as a caller may list it.
pub struct UsernameEntry {
    pub username: String,
    pub uuid: Option<String>,
    pub last_seen: String,
}

/// Why no window could be computed.
#[derive(Clone, Copy, Debug, PartialEq, Eq, Structural)]
pub enum WindowError {
    /// One of the two texts is not an instant.
    InvalidTimestamp,
    /// A bound of the window cannot be represented.
    OutOfRange,
}

/// A predicted drop window for a handle, as RFC 3339 texts in Paris time.
pub struct DropWindow {
    pub username: String,
    pub begin: String,
    pub end: String,
}

/// The texts of the window predicted from the last-seen text and the
/// loss text.
pub open spec fn window_texts(last_seen: Seq<char>, lost_at: Seq<char>) -> Result<
    (Seq<char>, Seq<char>),
    WindowError,
> {
    match (read_spec(lost_at), read_spec(last_seen)) {
        (Some(l), Some(s)) => match predicted(s, l) {
            Some(p) => match (
                paris_rfc3339(p.0.secs, p.0.nanos),
                paris_rfc3339(p.1.secs, p.1.nanos),
            ) {
                (Some(b), Some(e)) => Ok((b, e)),
                _ => Err(WindowError::OutOfRange),
            },
            None => Err(WindowError::OutOfRange),
        },
        _ => Err(WindowError::InvalidTimestamp),
    }
}

pub open spec fn drop_view(d: DropWindow) -> (Seq<char>, Seq<char>, Seq<char>) {
    (d.username@, d.begin@, d.end@)
}

/// Computes the drop window of `username` from the instant it was last
/// seen bound and the instant it was first seen free, and records it in
/// the window registry, replacing any earlier window of that handle.
pub fn get_drop_window(
    username: &str,
    last_req_time_iso: &str,
    lost_at_iso: &str,
    map_windows: &mut WindowMap,
) -> (r: Result<DropWindow, WindowError>)
    ensures
        match window_texts(last_req_time_iso@, lost_at_iso@) {
            Ok(p) => r is Ok && drop_view(r->Ok_0) == (username@, p.0, p.1) && window_entries(
                *final(map_windows),
            ) == window_entries(*old(map_windows)).insert(username@, p),
            Err(e) => r == Err::<DropWindow, WindowError>(e) && window_entries(*final(map_windows))
                == window_entries(*old(map_windows)),
        },
{
    let lost_at = match Timestamp::parse_rfc3339(lost_at_iso) {
        Some(t) => t,
        None => return Err(WindowError::InvalidTimestamp),
    };
    let last_req = match Timestamp::parse_rfc3339(last_req_time_iso) {
        Some(t) => t,
        None => return Err(WindowError::InvalidTimestamp),
    };
    let (b, e) = match predict_window(last_req, lost_at) {
        Some(p) => p,
        None => return Err(WindowError::OutOfRange),
    };
    let begin = match b.to_paris_rfc3339() {
        Some(s) => s,
        None => return Err(WindowError::OutOfRange),
    };
    let end = match e.to_paris_rfc3339() {
        Some(s) => s,
        None => return Err(WindowError::OutOfRange),
    };
    window_store(map_windows, username.to_owned(), (begin.clone(), end.clone()));
    Ok(DropWindow { username: username.to_owned(), begin, end })
}

/// The registry key of an observation: its lowercase handle name.
pub open spec fn obs_key(r: UsernameResult) -> Seq<char> {
    lower_of(r.username@)
}

/// The window that an observation opens against the prior record of its
/// handle: only when the record had an identity and a last-seen instant,
/// the observation has no identity, and the window can be computed.
pub open spec fn loss_window(
    prior: (Option<Seq<char>>, Option<Seq<char>>),
    r: UsernameResult,
) -> Option<(Seq<char>, Seq<char>)> {
    if prior.0 is Some && r.uuid is None && prior.1 is Some {
        match window_texts(prior.1->Some_0, r.last_seen@) {
            Ok(p) => Some(p),
            Err(_) => None,
        }
    } else {
        None
    }
}

pub type HandlesView = Map<Seq<char>, (Option<Seq<char>>, Option<Seq<char>>)>;

pub type WindowsView = Map<Seq<char>, (Seq<char>, Seq<char>)>;

/// The window, if any, that merging `r` into `h` opens.
pub open spec fn step_window(h: HandlesView, r: UsernameResult) -> Option<(Seq<char>, Seq<char>)> {
    if h.dom().contains(obs_key(r)) {
        loss_window(h[obs_key(r)], r)
    } else {
        None
    }
}

/// Registries and emitted windows after merging the results `rs` in order.
pub open spec fn merged(h: HandlesView, w: WindowsView, rs: Seq<UsernameResult>) -> (
    HandlesView,
    WindowsView,
    Seq<(Seq<char>, Seq<char>, Seq<char>)>,
)
    decreases rs.len(),
{
    if rs.len() == 0 {
        (h, w, Seq::empty())
    } else {
        let prev = merged(h, w, rs.drop_last());
        let r = rs.last();
        let k = obs_key(r);
        let h2 = prev.0.insert(k, (opt_view(r.uuid), Some(r.last_seen@)));
        match step_window(prev.0, r) {
            Some(p) => (h2, prev.1.insert(k, p), prev.2.push((k, p.0, p.1))),
            None => (h2, prev.1, prev.2),
        }
    }
}

fn clone_opt(o: &Option<String>) -> (r: Option<String>)
    ensures
        opt_view(r) == opt_view(*o),
{
    match o {
        Some(s) => Some(s.clone()),
        None => None,
    }
}

/// Merges a batch of resolved results into the handle registry. For each
/// result, in order, the record of its lowercase name becomes (its identity,
/// its observation instant); a record that had an identity and receives none
/// opens a drop window, which goes to the window registry and into the list
/// returned. A window that cannot be computed is skipped; the merge goes on.
pub fn update_batch_status(
    map: &mut HandleMap,
    batch_results: &Vec<UsernameResult>,
    map_windows: &mut WindowMap,
) -> (r: Vec<DropWindow>)
    ensures
        (handle_entries(*final(map)), window_entries(*final(map_windows)), r@.map_values(
            |d: DropWindow| drop_view(d),
        )) == merged(
            handle_entries(*old(map)),
            window_entries(*old(map_windows)),
            batch_results@,
        ),
{
    let ghost h0 = handle_entries(*map);
    let ghost w0 = window_entries(*map_windows);
    let mut events: Vec<DropWindow> = Vec::new();
    let mut i: usize = 0;
    while i < batch_results.len()
        invariant
            i <= batch_results.len(),
            (handle_entries(*map), window_entries(*map_windows), events@.map_values(
                |d: DropWindow| drop_view(d),
            )) == merged(h0, w0, batch_results@.take(i as int)),
        decreases batch_results.len() - i,
    {
        let ghost hb = handle_entries(*map);
        let ghost wb = window_entries(*map_windows);
        let ghost eb = events@.map_values(|d: DropWindow| drop_view(d));
        let entry = &batch_results[i];
        let username = lowercase(entry.username.as_str());
        let prior = handle_lookup(map, &username);
        let mut opened: bool = false;
        if let Some(rec) = prior {
            if rec.0.is_some() && entry.uuid.is_none() {
                if let Some(prev_ts) = &rec.1 {
                    match get_drop_window(
                        username.as_str(),
                        prev_ts.as_str(),
                        entry.last_seen.as_str(),
                        map_windows,
                    ) {
                        Ok(w) => {
                            events.push(w);
                            opened = true;
                        },
                        Err(_) => {},
                    }
                }
            }
        }
        handle_store(map, username, (clone_opt(&entry.uuid), Some(entry.last_seen.clone())));
        proof {
            let rs = batch_results@.take(i as int + 1);
            assert(rs.drop_last() =~= batch_results@.take(i as int));
            assert(rs.last() == batch_results@[i as int]);
            if opened {
                assert(events@.map_values(|d: DropWindow| drop_view(d)) =~= eb.push(
                    drop_view(events@.last()),
                ));
            } else {
                assert(events@.map_values(|d: DropWindow| drop_view(d)) =~= eb);
            }
        }
        i += 1;
    }
    assert(batch_results@.take(batch_results.len() as int) =~= batch_results@);
    events
}

/// A handle whose record holds an identity and a last-seen instant T1, and
/// which is then observed without identity at an instant T2 no earlier than
/// T1, gains exactly one window in the registry: its begin is the Paris text
/// of T1 plus the offset, its end that of T2 plus the offset, and the begin
/// is no later than the end. The same window is the one emitted.
pub proof fn lemma_loss_opens_window(h: HandlesView, w: WindowsView, r: UsernameResult)
    requires
        h.dom().contains(obs_key(r)),
        h[obs_key(r)].0 is Some,
        h[obs_key(r)].1 is Some,
        r.uuid is None,
        read_spec(h[obs_key(r)].1->Some_0) is Some,
        read_spec(r.last_seen@) is Some,
        ts_le(read_spec(h[obs_key(r)].1->Some_0)->Some_0, read_spec(r.last_seen@)->Some_0),
        window_texts(h[obs_key(r)].1->Some_0, r.last_seen@) is Ok,
    ensures
        ({
            let k = obs_key(r);
            let t1 = read_spec(h[k].1->Some_0)->Some_0;
            let t2 = read_spec(r.last_seen@)->Some_0;
            let b = shifted(t1)->Some_0;
            let e = shifted(t2)->Some_0;
            let p = window_texts(h[k].1->Some_0, r.last_seen@)->Ok_0;
            &&& merged(h, w, seq![r]).1 == w.insert(k, p)
            &&& merged(h, w, seq![r]).2 == seq![(k, p.0, p.1)]
            &&& b.secs == t1.secs + DROP_OFFSET_SECS && b.nanos == t1.nanos
            &&& e.secs == t2.secs + DROP_OFFSET_SECS && e.nanos == t2.nanos
            &&& ts_le(b, e)
            &&& Some(p.0) == paris_rfc3339(b.secs, b.nanos)
            &&& Some(p.1) == paris_rfc3339(e.secs, e.nanos)
        }),
{
    let k = obs_key(r);
    let t1 = read_spec(h[k].1->Some_0)->Some_0;
    let t2 = read_spec(r.last_seen@)->Some_0;
    assert(seq![r].drop_last() =~= Seq::<UsernameResult>::empty());
    reveal_with_fuel(merged, 2);
    assert(predicted(t1, t2) is Some);
    lemma_window_ordered(t1, t2);
    assert(Seq::<(Seq<char>, Seq<char>, Seq<char>)>::empty().push(
        (k, window_texts(h[k].1->Some_0, r.last_seen@)->Ok_0.0, window_texts(h[k].1->Some_0, r.last_seen@)->Ok_0.1),
    ) =~= seq![(k, window_texts(h[k].1->Some_0, r.last_seen@)->Ok_0.0, window_texts(h[k].1->Some_0, r.last_seen@)->Ok_0.1)]);
}

/// Delivering the same observation without identity twice leaves the window
/// registry as one delivery does: the second finds the handle already free,
/// so it neither adds nor duplicates a window, and emits none.
pub proof fn lemma_repeated_loss_single_window(h: HandlesView, w: WindowsView, r: UsernameResult)
    requires
        r.uuid is None,
    ensures
        merged(h, w, seq![r, r]).1 == merged(h, w, seq![r]).1,
        merged(h, w, seq![r, r]).2 == merged(h, w, seq![r]).2,
{
    assert(seq![r, r].drop_last() =~= seq![r]);
    assert(seq![r].drop_last() =~= Seq::<UsernameResult>::empty());
    reveal_with_fuel(merged, 3);
}

/// A handle with no record that is observed for the first time gets a record
/// holding what was observed, and no window is opened or emitted.
pub proof fn lemma_first_sighting_no_window(h: HandlesView, w: WindowsView, r: UsernameResult)
    requires
        !h.dom().contains(obs_key(r)),
    ensures
        merged(h, w, seq![r]).0 == h.insert(obs_key(r), (opt_view(r.uuid), Some(r.last_seen@))),
        merged(h, w, seq![r]).0.dom().contains(obs_key(r)),
        merged(h, w, seq![r]).1 == w,
        merged(h, w, seq![r]).2.len() == 0,
{
    assert(seq![r].drop_last() =~= Seq::<UsernameResult>::empty());
    reveal_with_fuel(merged, 2);
}

} // verus!

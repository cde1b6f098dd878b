//! The geolocation cache: an origin is resolved from the store where the store knows it, and
//! through the lookup service, once, where it does not.
//!
//! Store and lookup service are reached by whoever drives a resolution. The resolution
//! itself is a state: it names the request it waits for, and a reply takes it to the next
//! state.

use crate::error::{CrawlerError, IpScannerError, StoreFault};
use crate::geolocation::Coordinate;
use crate::origin::{dotted, origin_text};
use vstd::prelude::*;

verus! {

/// How far the resolution of one origin has come.
#[derive(Debug, Clone, Copy, PartialEq, Eq)]
pub enum Resolution {
    /// The store is being asked for the origin.
    FindingOrigin { origin: u32 },
    /// The store knows the origin and is being asked for its most recent geolocation.
    FindingGeolocation { origin: u32, origin_id: i32 },
    /// The store does not know the origin, and the lookup service is being asked.
    Fetching { origin: u32 },
    /// The lookup service has answered, and the origin is being stored.
    SavingOrigin { origin: u32, fetched: Coordinate },
    /// The origin is stored, and its geolocation is being stored.
    SavingGeolocation { origin: u32, origin_id: i32, fetched: Coordinate },
    /// The resolution has ended.
    Done { outcome: Result<Coordinate, CrawlerError> },
}

/// What a resolution asks of the store or of the lookup service.
#[derive(Debug, PartialEq, Eq)]
pub enum Request {
    /// The stored origin with this address.
    FindOrigin { ipv4: String },
    /// The most recent geolocation stored for the origin.
    FindGeolocation { origin_id: i32 },
    /// The geolocation of the address, from the lookup service.
    Fetch { origin: u32 },
    /// Store a new origin with this address.
    InsertOrigin { ipv4: String },
    /// Store a new geolocation for the origin.
    InsertGeolocation { origin_id: i32, coordinate: Coordinate },
    /// Nothing: the resolution has ended with this outcome.
    Finish { outcome: Result<Coordinate, CrawlerError> },
}

/// A [`Request`] with each text as a sequence of characters.
pub enum RequestView {
    FindOrigin { ipv4: Seq<char> },
    FindGeolocation { origin_id: i32 },
    Fetch { origin: u32 },
    InsertOrigin { ipv4: Seq<char> },
    InsertGeolocation { origin_id: i32, coordinate: Coordinate },
    Finish { outcome: Result<Coordinate, CrawlerError> },
}

impl View for Request {
    type V = RequestView;

    open spec fn view(&self) -> RequestView {
        match self {
            Request::FindOrigin { ipv4 } => RequestView::FindOrigin { ipv4: ipv4@ },
            Request::FindGeolocation { origin_id } => RequestView::FindGeolocation {
                origin_id: *origin_id,
            },
            Request::Fetch { origin } => RequestView::Fetch { origin: *origin },
            Request::InsertOrigin { ipv4 } => RequestView::InsertOrigin { ipv4: ipv4@ },
            Request::InsertGeolocation { origin_id, coordinate } => RequestView::InsertGeolocation {
                origin_id: *origin_id,
                coordinate: *coordinate,
            },
            Request::Finish { outcome } => RequestView::Finish { outcome: *outcome },
        }
    }
}

/// What the store or the lookup service answers.
#[derive(Debug, Clone, Copy, PartialEq, Eq)]
pub enum Reply {
    /// The identifier of the stored origin, if the store has the address.
    Origin(Result<Option<i32>, StoreFault>),
    /// The most recent geolocation stored for the origin, if there is any.
    Geolocation(Result<Option<Coordinate>, StoreFault>),
    /// What the lookup service found.
    Fetched(Result<Coordinate, IpScannerError>),
    /// The identifier of the origin that was stored.
    OriginSaved(Result<i32, StoreFault>),
    /// The geolocation as it was stored.
    GeolocationSaved(Result<Coordinate, StoreFault>),
}

impl Resolution {
    /// The request that the resolution waits for.
    pub open spec fn request_of(self) -> RequestView {
        match self {
            Resolution::FindingOrigin { origin } => RequestView::FindOrigin {
                ipv4: dotted(origin),
            },
            Resolution::FindingGeolocation { origin, origin_id } => RequestView::FindGeolocation {
                origin_id,
            },
            Resolution::Fetching { origin } => RequestView::Fetch { origin },
            Resolution::SavingOrigin { origin, fetched } => RequestView::InsertOrigin {
                ipv4: dotted(origin),
            },
            Resolution::SavingGeolocation { origin, origin_id, fetched } => {
                RequestView::InsertGeolocation { origin_id, coordinate: fetched }
            },
            Resolution::Done { outcome } => RequestView::Finish { outcome },
        }
    }

    /// The state that a reply leads to. A stored origin is answered from the store alone; an
    /// unknown one is fetched, then stored, origin first, and only a geolocation that was
    /// stored is handed out. Any failure ends the resolution with that failure, and nothing
    /// more is asked. A reply that does not answer the pending request changes nothing.
    pub open spec fn advance(self, reply: Reply) -> Resolution {
        match (self, reply) {
            (Resolution::FindingOrigin { origin }, Reply::Origin(Ok(Some(origin_id)))) => {
                Resolution::FindingGeolocation { origin, origin_id }
            },
            (Resolution::FindingOrigin { origin }, Reply::Origin(Ok(None))) => {
                Resolution::Fetching { origin }
            },
            (Resolution::FindingOrigin { origin }, Reply::Origin(Err(fault))) => Resolution::Done {
                outcome: Err(CrawlerError::DbInteraction(fault)),
            },
            (
                Resolution::FindingGeolocation { origin, origin_id },
                Reply::Geolocation(Ok(Some(coordinate))),
            ) => Resolution::Done { outcome: Ok(coordinate) },
            (Resolution::FindingGeolocation { origin, origin_id }, Reply::Geolocation(Ok(None))) => {
                Resolution::Done {
                    outcome: Err(CrawlerError::DbInteraction(StoreFault::Incomplete)),
                }
            },
            (
                Resolution::FindingGeolocation { origin, origin_id },
                Reply::Geolocation(Err(fault)),
            ) => Resolution::Done { outcome: Err(CrawlerError::DbInteraction(fault)) },
            (Resolution::Fetching { origin }, Reply::Fetched(Ok(fetched))) => {
                Resolution::SavingOrigin { origin, fetched }
            },
            (Resolution::Fetching { origin }, Reply::Fetched(Err(error))) => Resolution::Done {
                outcome: Err(CrawlerError::ScannerInteraction(error)),
            },
            (Resolution::SavingOrigin { origin, fetched }, Reply::OriginSaved(Ok(origin_id))) => {
                Resolution::SavingGeolocation { origin, origin_id, fetched }
            },
            (Resolution::SavingOrigin { origin, fetched }, Reply::OriginSaved(Err(fault))) => {
                Resolution::Done { outcome: Err(CrawlerError::DbInteraction(fault)) }
            },
            (
                Resolution::SavingGeolocation { origin, origin_id, fetched },
                Reply::GeolocationSaved(Ok(saved)),
            ) => Resolution::Done { outcome: Ok(saved) },
            (
                Resolution::SavingGeolocation { origin, origin_id, fetched },
                Reply::GeolocationSaved(Err(fault)),
            ) => Resolution::Done { outcome: Err(CrawlerError::DbInteraction(fault)) },
            _ => self,
        }
    }

    /// The resolution of `origin`, at its start.
    pub fn start(origin: u32) -> (resolution: Resolution)
        ensures
            resolution == (Resolution::FindingOrigin { origin }),
    {
        Resolution::FindingOrigin { origin }
    }

    /// The request that the resolution waits for.
    pub fn request(&self) -> (request: Request)
        ensures
            request@ == self.request_of(),
    {
        match self {
            Resolution::FindingOrigin { origin } => Request::FindOrigin {
                ipv4: origin_text(*origin),
            },
            Resolution::FindingGeolocation { origin, origin_id } => Request::FindGeolocation {
                origin_id: *origin_id,
            },
            Resolution::Fetching { origin } => Request::Fetch { origin: *origin },
            Resolution::SavingOrigin { origin, fetched } => Request::InsertOrigin {
                ipv4: origin_text(*origin),
            },
            Resolution::SavingGeolocation { origin, origin_id, fetched } => {
                Request::InsertGeolocation { origin_id: *origin_id, coordinate: *fetched }
            },
            Resolution::Done { outcome } => Request::Finish { outcome: *outcome },
        }
    }

    /// Takes a reply in.
    pub fn step(self, reply: Reply) -> (next: Resolution)
        ensures
            next == self.advance(reply),
    {
        match (self, reply) {
            (Resolution::FindingOrigin { origin }, Reply::Origin(Ok(Some(origin_id)))) => {
                Resolution::FindingGeolocation { origin, origin_id }
            },
            (Resolution::FindingOrigin { origin }, Reply::Origin(Ok(None))) => {
                Resolution::Fetching { origin }
            },
            (Resolution::FindingOrigin { origin }, Reply::Origin(Err(fault))) => Resolution::Done {
                outcome: Err(CrawlerError::DbInteraction(fault)),
            },
            (
                Resolution::FindingGeolocation { origin, origin_id },
                Reply::Geolocation(Ok(Some(coordinate))),
            ) => Resolution::Done { outcome: Ok(coordinate) },
            (Resolution::FindingGeolocation { origin, origin_id }, Reply::Geolocation(Ok(None))) => {
                Resolution::Done {
                    outcome: Err(CrawlerError::DbInteraction(StoreFault::Incomplete)),
                }
            },
            (
                Resolution::FindingGeolocation { origin, origin_id },
                Reply::Geolocation(Err(fault)),
            ) => Resolution::Done { outcome: Err(CrawlerError::DbInteraction(fault)) },
            (Resolution::Fetching { origin }, Reply::Fetched(Ok(fetched))) => {
                Resolution::SavingOrigin { origin, fetched }
            },
            (Resolution::Fetching { origin }, Reply::Fetched(Err(error))) => Resolution::Done {
                outcome: Err(CrawlerError::ScannerInteraction(error)),
            },
            (Resolution::SavingOrigin { origin, fetched }, Reply::OriginSaved(Ok(origin_id))) => {
                Resolution::SavingGeolocation { origin, origin_id, fetched }
            },
            (Resolution::SavingOrigin { origin, fetched }, Reply::OriginSaved(Err(fault))) => {
                Resolution::Done { outcome: Err(CrawlerError::DbInteraction(fault)) }
            },
            (
                Resolution::SavingGeolocation { origin, origin_id, fetched },
                Reply::GeolocationSaved(Ok(saved)),
            ) => Resolution::Done { outcome: Ok(saved) },
            (
                Resolution::SavingGeolocation { origin, origin_id, fetched },
                Reply::GeolocationSaved(Err(fault)),
            ) => Resolution::Done { outcome: Err(CrawlerError::DbInteraction(fault)) },
            (state, _) => state,
        }
    }
}

/// An ideal store: the addresses of the stored origins, where the origin at index `i` has the
/// identifier `i`, and the stored geolocations, each with the identifier of its origin, the
/// most recent last.
pub struct StoreModel {
    pub origins: Seq<Seq<char>>,
    pub geolocations: Seq<(i32, Coordinate)>,
}

impl StoreModel {
    /// No address is stored twice.
    pub open spec fn unique(self) -> bool {
        forall|i: int, j: int|
            0 <= i < j < self.origins.len() ==> #[trigger] self.origins[i]
                != #[trigger] self.origins[j]
    }

    /// The identifier of the stored origin with the address.
    pub open spec fn find(self, ipv4: Seq<char>) -> Option<i32> {
        if exists|i: int| 0 <= i < self.origins.len() && self.origins[i] == ipv4 {
            Some((choose|i: int| 0 <= i < self.origins.len() && self.origins[i] == ipv4) as i32)
        } else {
            None
        }
    }

    /// The geolocations of the origin, the most recent last.
    pub open spec fn stored_for(self, origin_id: i32) -> Seq<(i32, Coordinate)> {
        self.geolocations.filter(|row: (i32, Coordinate)| row.0 == origin_id)
    }

    /// The most recent geolocation of the origin.
    pub open spec fn latest(self, origin_id: i32) -> Option<Coordinate> {
        let stored = self.stored_for(origin_id);
        if stored.len() > 0 {
            Some(stored.last().1)
        } else {
            None
        }
    }

    /// What the store, or for [`RequestView::Fetch`] a lookup service with the answer `fetch`,
    /// replies to a request, and the store after it. An address that is stored is not stored
    /// again: that request fails. There is no reply to [`RequestView::Finish`].
    pub open spec fn answer(
        self,
        request: RequestView,
        fetch: Result<Coordinate, IpScannerError>,
    ) -> (Option<Reply>, StoreModel) {
        match request {
            RequestView::FindOrigin { ipv4 } => (Some(Reply::Origin(Ok(self.find(ipv4)))), self),
            RequestView::FindGeolocation { origin_id } => (
                Some(Reply::Geolocation(Ok(self.latest(origin_id)))),
                self,
            ),
            RequestView::Fetch { origin } => (Some(Reply::Fetched(fetch)), self),
            RequestView::InsertOrigin { ipv4 } => if self.find(ipv4) is Some {
                (Some(Reply::OriginSaved(Err(StoreFault::Conflict))), self)
            } else if self.origins.len() >= i32::MAX {
                (Some(Reply::OriginSaved(Err(StoreFault::Failure))), self)
            } else {
                (
                    Some(Reply::OriginSaved(Ok(self.origins.len() as i32))),
                    StoreModel { origins: self.origins.push(ipv4), ..self },
                )
            },
            RequestView::InsertGeolocation { origin_id, coordinate } => (
                Some(Reply::GeolocationSaved(Ok(coordinate))),
                StoreModel { geolocations: self.geolocations.push((origin_id, coordinate)), ..self },
            ),
            RequestView::Finish { outcome } => (None, self),
        }
    }
}

/// How a resolution ended: its outcome, the store it left, and how often it asked the lookup
/// service.
pub struct Run {
    pub outcome: Result<Coordinate, CrawlerError>,
    pub store: StoreModel,
    pub fetches: nat,
}

impl Resolution {
    /// How many replies the resolution can still take.
    pub open spec fn rank(self) -> nat {
        match self {
            Resolution::FindingOrigin { .. } => 4,
            Resolution::Fetching { .. } => 3,
            Resolution::SavingOrigin { .. } => 2,
            Resolution::FindingGeolocation { .. } => 1,
            Resolution::SavingGeolocation { .. } => 1,
            Resolution::Done { .. } => 0,
        }
    }

    /// The resolution run to its end against an ideal store and a lookup service that
    /// answers `fetch`.
    pub open spec fn run(
        self,
        store: StoreModel,
        fetch: Result<Coordinate, IpScannerError>,
    ) -> Run
        decreases self.rank(),
    {
        match self {
            Resolution::Done { outcome } => Run { outcome, store, fetches: 0 },
            _ => {
                let (reply, after) = store.answer(self.request_of(), fetch);
                let rest = self.advance(reply->Some_0).run(after, fetch);
                Run {
                    outcome: rest.outcome,
                    store: rest.store,
                    fetches: rest.fetches + if self is Fetching {
                        1nat
                    } else {
                        0nat
                    },
                }
            },
        }
    }
}

/// The resolution of an origin from its start to its end.
pub open spec fn resolve(
    store: StoreModel,
    origin: u32,
    fetch: Result<Coordinate, IpScannerError>,
) -> Run {
    (Resolution::FindingOrigin { origin }).run(store, fetch)
}

/// An address that was just stored is found, under the identifier it was given.
pub proof fn lemma_find_after_insert(store: StoreModel, ipv4: Seq<char>)
    requires
        store.find(ipv4) is None,
        store.origins.len() < i32::MAX,
    ensures
        (StoreModel { origins: store.origins.push(ipv4), ..store }).find(ipv4) == Some(
            store.origins.len() as i32,
        ),
{
    let after = StoreModel { origins: store.origins.push(ipv4), ..store };
    let at = store.origins.len() as int;
    assert(after.origins[at] == ipv4);
    let found = choose|i: int| 0 <= i < after.origins.len() && after.origins[i] == ipv4;
    if found < at {
        assert(store.origins[found] == ipv4);
    }
}

/// The geolocation that was stored last for an origin is its most recent one.
pub proof fn lemma_latest_after_insert(store: StoreModel, origin_id: i32, coordinate: Coordinate)
    ensures
        (StoreModel {
            geolocations: store.geolocations.push((origin_id, coordinate)),
            ..store
        }).latest(origin_id) == Some(coordinate),
{
    let after = StoreModel {
        geolocations: store.geolocations.push((origin_id, coordinate)),
        ..store
    };
    reveal(Seq::filter);
    assert(after.geolocations.drop_last() =~= store.geolocations);
    assert(after.stored_for(origin_id) == store.stored_for(origin_id).push(
        (origin_id, coordinate),
    ));
}

/// An origin that the store does not know is fetched once, stored, and handed out; resolved
/// again, it is answered from the store: the lookup service is not asked, whatever it would
/// say, the store stays as it is, and the coordinate is the same.
pub proof fn lemma_resolved_once(
    store: StoreModel,
    origin: u32,
    fetched: Coordinate,
    later: Result<Coordinate, IpScannerError>,
)
    requires
        store.find(dotted(origin)) is None,
        store.origins.len() < i32::MAX,
    ensures
        resolve(store, origin, Ok(fetched)).outcome == Ok::<Coordinate, CrawlerError>(fetched),
        resolve(store, origin, Ok(fetched)).fetches == 1,
        resolve(resolve(store, origin, Ok(fetched)).store, origin, later).outcome == Ok::<
            Coordinate,
            CrawlerError,
        >(fetched),
        resolve(resolve(store, origin, Ok(fetched)).store, origin, later).fetches == 0,
        resolve(resolve(store, origin, Ok(fetched)).store, origin, later).store == resolve(
            store,
            origin,
            Ok(fetched),
        ).store,
{
    reveal_with_fuel(Resolution::run, 5);
    let ipv4 = dotted(origin);
    let origin_id = store.origins.len() as i32;
    let with_origin = StoreModel { origins: store.origins.push(ipv4), ..store };
    let with_both = StoreModel {
        geolocations: with_origin.geolocations.push((origin_id, fetched)),
        ..with_origin
    };
    lemma_find_after_insert(store, ipv4);
    lemma_latest_after_insert(with_origin, origin_id, fetched);
    assert(resolve(store, origin, Ok(fetched)).store == with_both);
    assert(with_both.find(ipv4) == with_origin.find(ipv4));
}

/// An origin whose lookup fails is not resolved, and the store is left as it was: it still
/// does not know the origin.
pub proof fn lemma_failure_is_not_stored(store: StoreModel, origin: u32, error: IpScannerError)
    requires
        store.find(dotted(origin)) is None,
    ensures
        resolve(store, origin, Err(error)).outcome == Err::<Coordinate, CrawlerError>(
            CrawlerError::ScannerInteraction(error),
        ),
        resolve(store, origin, Err(error)).fetches == 1,
        resolve(store, origin, Err(error)).store == store,
        resolve(store, origin, Err(error)).store.find(dotted(origin)) is None,
{
    reveal_with_fuel(Resolution::run, 5);
}

/// An origin that the store knows, with a geolocation, is answered from the store: the
/// lookup service is not asked and nothing is written.
pub proof fn lemma_served_from_the_store(
    store: StoreModel,
    origin: u32,
    fetch: Result<Coordinate, IpScannerError>,
)
    requires
        store.find(dotted(origin)) is Some,
        store.latest(store.find(dotted(origin))->Some_0) is Some,
    ensures
        resolve(store, origin, fetch).outcome == Ok::<Coordinate, CrawlerError>(
            store.latest(store.find(dotted(origin))->Some_0)->Some_0,
        ),
        resolve(store, origin, fetch).fetches == 0,
        resolve(store, origin, fetch).store == store,
{
    reveal_with_fuel(Resolution::run, 5);
}

/// Whatever is asked of a store that holds no address twice, it holds no address twice
/// afterwards.
pub proof fn lemma_answer_keeps_unique(
    store: StoreModel,
    request: RequestView,
    fetch: Result<Coordinate, IpScannerError>,
)
    requires
        store.unique(),
    ensures
        store.answer(request, fetch).1.unique(),
{
    let after = store.answer(request, fetch).1;
    if let RequestView::InsertOrigin { ipv4 } = request {
        if store.find(ipv4) is None && store.origins.len() < i32::MAX {
            assert forall|i: int, j: int| 0 <= i < j < after.origins.len() implies after.origins[i]
                != after.origins[j] by {
                if j == store.origins.len() {
                    assert(store.origins[i] == after.origins[i]);
                } else {
                    assert(store.origins[i] == after.origins[i]);
                    assert(store.origins[j] == after.origins[j]);
                }
            }
        }
    }
}

/// One step of several resolutions that share a store: which of them is answered next, and
/// what the lookup service would say if it is asked at that step.
pub struct Turn {
    pub caller: int,
    pub fetch: Result<Coordinate, IpScannerError>,
}

/// Several resolutions that share a store, after the turns of a schedule. At each turn the
/// pending request of one resolution is answered in one piece, and that resolution takes the
/// reply in. A turn for a resolution that has ended, or for none at all, changes nothing.
pub open spec fn interleaved(
    resolutions: Seq<Resolution>,
    store: StoreModel,
    schedule: Seq<Turn>,
) -> (Seq<Resolution>, StoreModel)
    decreases schedule.len(),
{
    if schedule.len() == 0 {
        (resolutions, store)
    } else {
        let (earlier, before) = interleaved(resolutions, store, schedule.drop_last());
        let turn = schedule.last();
        if 0 <= turn.caller < earlier.len() && !(earlier[turn.caller] is Done) {
            let (reply, after) = before.answer(earlier[turn.caller].request_of(), turn.fetch);
            (earlier.update(turn.caller, earlier[turn.caller].advance(reply->Some_0)), after)
        } else {
            (earlier, before)
        }
    }
}

/// However many resolutions run against one store, for whatever origins, and however their
/// steps fall between each other, no address is ever stored twice.
pub proof fn lemma_interleaving_keeps_unique(
    resolutions: Seq<Resolution>,
    store: StoreModel,
    schedule: Seq<Turn>,
)
    requires
        store.unique(),
    ensures
        interleaved(resolutions, store, schedule).1.unique(),
    decreases schedule.len(),
{
    if schedule.len() > 0 {
        lemma_interleaving_keeps_unique(resolutions, store, schedule.drop_last());
        let (earlier, before) = interleaved(resolutions, store, schedule.drop_last());
        let turn = schedule.last();
        if 0 <= turn.caller < earlier.len() {
            lemma_answer_keeps_unique(before, earlier[turn.caller].request_of(), turn.fetch);
        }
    }
}

/// The state of the resolution of `origin` after a run of replies, whatever they are and
/// whoever sent them.
pub open spec fn after(origin: u32, replies: Seq<Reply>) -> Resolution
    decreases replies.len(),
{
    if replies.len() == 0 {
        Resolution::FindingOrigin { origin }
    } else {
        after(origin, replies.drop_last()).advance(replies.last())
    }
}

/// The geolocation that the resolution asks to have stored, if it asks for a write.
pub open spec fn to_be_written(resolution: Resolution) -> Option<Coordinate> {
    match resolution {
        Resolution::SavingOrigin { origin, fetched } => Some(fetched),
        Resolution::SavingGeolocation { origin, origin_id, fetched } => Some(fetched),
        _ => None,
    }
}

/// Whatever the store and the lookup service reply, a resolution asks for a write only after
/// the lookup service has answered with a geolocation, and it is that geolocation that it
/// asks to have stored: a lookup that failed, or that has not ended, leaves no trace.
pub proof fn lemma_writes_follow_a_fetch(origin: u32, replies: Seq<Reply>)
    ensures
        to_be_written(after(origin, replies)) matches Some(fetched) ==> exists|i: int|
            0 <= i < replies.len() && #[trigger] replies[i] == Reply::Fetched(Ok(fetched)),
    decreases replies.len(),
{
    if replies.len() > 0 {
        let earlier = replies.drop_last();
        lemma_writes_follow_a_fetch(origin, earlier);
        if let Some(fetched) = to_be_written(after(origin, replies)) {
            if to_be_written(after(origin, earlier)) == Some(fetched) {
                let i = choose|i: int|
                    0 <= i < earlier.len() && #[trigger] earlier[i] == Reply::Fetched(Ok(fetched));
                assert(replies[i] == earlier[i]);
            } else {
                assert(replies[replies.len() - 1] == Reply::Fetched(Ok(fetched)));
            }
        }
    }
}

/// A resolution that has ended stays as it is, whatever reply comes in.
pub proof fn lemma_ended_stays_ended(resolution: Resolution, reply: Reply)
    requires
        resolution is Done,
    ensures
        resolution.advance(reply) == resolution,
{
}

} // verus!

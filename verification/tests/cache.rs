use service_observer::crawler::{Reply, Request, Resolution};
use service_observer::error::{CrawlerError, IpScannerError, StoreFault};
use service_observer::geolocation::{Coordinate, Geolocation};

/// A store in memory: origins with a unique address, and their geolocations by recency.
struct Store {
    origins: Vec<String>,
    geolocations: Vec<(i32, Coordinate)>,
}

/// A lookup service that counts how often it is asked.
struct Lookup {
    answer: Result<Coordinate, IpScannerError>,
    calls: usize,
}

impl Store {
    fn new() -> Store {
        Store { origins: Vec::new(), geolocations: Vec::new() }
    }

    fn find(&self, ipv4: &str) -> Option<i32> {
        self.origins.iter().position(|stored| stored == ipv4).map(|at| at as i32)
    }

    fn rows_with(&self, ipv4: &str) -> usize {
        self.origins.iter().filter(|stored| stored.as_str() == ipv4).count()
    }

    fn answer(&mut self, request: &Request, lookup: &mut Lookup) -> Reply {
        match request {
            Request::FindOrigin { ipv4 } => Reply::Origin(Ok(self.find(ipv4))),
            Request::FindGeolocation { origin_id } => Reply::Geolocation(Ok(self
                .geolocations
                .iter()
                .rev()
                .find(|row| row.0 == *origin_id)
                .map(|row| row.1))),
            Request::Fetch { .. } => {
                lookup.calls += 1;
                Reply::Fetched(lookup.answer)
            }
            Request::InsertOrigin { ipv4 } => {
                if self.find(ipv4).is_some() {
                    Reply::OriginSaved(Err(StoreFault::Conflict))
                } else {
                    self.origins.push(ipv4.clone());
                    Reply::OriginSaved(Ok(self.origins.len() as i32 - 1))
                }
            }
            Request::InsertGeolocation { origin_id, coordinate } => {
                self.geolocations.push((*origin_id, *coordinate));
                Reply::GeolocationSaved(Ok(*coordinate))
            }
            Request::Finish { .. } => unreachable!(),
        }
    }
}

fn resolve(store: &mut Store, lookup: &mut Lookup, origin: u32) -> Result<Coordinate, CrawlerError> {
    let mut resolution = Resolution::start(origin);
    loop {
        let request = resolution.request();
        if let Request::Finish { outcome } = request {
            return outcome;
        }
        let reply = store.answer(&request, lookup);
        resolution = resolution.step(reply);
    }
}

fn point(latitude: f64, longitude: f64) -> Coordinate {
    Coordinate { latitude_bits: latitude.to_bits(), longitude_bits: longitude.to_bits() }
}

const ORIGIN: u32 = (203 << 24) | (113 << 8) | 7;

#[test]
fn resolution_starts_with_a_lookup_by_address() {
    let resolution = Resolution::start(ORIGIN);
    assert_eq!(resolution, Resolution::FindingOrigin { origin: ORIGIN });
    assert_eq!(resolution.request(), Request::FindOrigin { ipv4: "203.0.113.7".to_string() });
}

#[test]
fn unknown_origin_is_fetched_then_stored_origin_first() {
    let fetched = point(52.52, 13.405);
    let mut resolution = Resolution::start(ORIGIN).step(Reply::Origin(Ok(None)));
    assert_eq!(resolution.request(), Request::Fetch { origin: ORIGIN });
    resolution = resolution.step(Reply::Fetched(Ok(fetched)));
    assert_eq!(resolution.request(), Request::InsertOrigin { ipv4: "203.0.113.7".to_string() });
    resolution = resolution.step(Reply::OriginSaved(Ok(41)));
    assert_eq!(
        resolution.request(),
        Request::InsertGeolocation { origin_id: 41, coordinate: fetched }
    );
    let saved = point(52.5, 13.4);
    resolution = resolution.step(Reply::GeolocationSaved(Ok(saved)));
    assert_eq!(resolution.request(), Request::Finish { outcome: Ok(saved) });
}

#[test]
fn known_origin_is_answered_with_its_latest_geolocation() {
    let stored = point(-33.86, 151.21);
    let mut resolution = Resolution::start(ORIGIN).step(Reply::Origin(Ok(Some(7))));
    assert_eq!(resolution.request(), Request::FindGeolocation { origin_id: 7 });
    resolution = resolution.step(Reply::Geolocation(Ok(Some(stored))));
    assert_eq!(resolution, Resolution::Done { outcome: Ok(stored) });
}

#[test]
fn every_failure_ends_the_resolution() {
    let fetched = point(1.0, 2.0);
    let start = Resolution::start(ORIGIN);
    assert_eq!(
        start.step(Reply::Origin(Err(StoreFault::Failure))),
        Resolution::Done { outcome: Err(CrawlerError::DbInteraction(StoreFault::Failure)) }
    );
    assert_eq!(
        start.step(Reply::Origin(Ok(Some(3)))).step(Reply::Geolocation(Err(StoreFault::Failure))),
        Resolution::Done { outcome: Err(CrawlerError::DbInteraction(StoreFault::Failure)) }
    );
    assert_eq!(
        start.step(Reply::Origin(Ok(Some(3)))).step(Reply::Geolocation(Ok(None))),
        Resolution::Done { outcome: Err(CrawlerError::DbInteraction(StoreFault::Incomplete)) }
    );
    let fetching = start.step(Reply::Origin(Ok(None)));
    assert_eq!(
        fetching.step(Reply::Fetched(Err(IpScannerError::RequestError))),
        Resolution::Done {
            outcome: Err(CrawlerError::ScannerInteraction(IpScannerError::RequestError))
        }
    );
    assert_eq!(
        fetching.step(Reply::Fetched(Err(IpScannerError::ResponseParsingError))),
        Resolution::Done {
            outcome: Err(CrawlerError::ScannerInteraction(IpScannerError::ResponseParsingError))
        }
    );
    let saving = fetching.step(Reply::Fetched(Ok(fetched)));
    assert_eq!(
        saving.step(Reply::OriginSaved(Err(StoreFault::Conflict))),
        Resolution::Done { outcome: Err(CrawlerError::DbInteraction(StoreFault::Conflict)) }
    );
    assert_eq!(
        saving.step(Reply::OriginSaved(Ok(1))).step(Reply::GeolocationSaved(Err(StoreFault::Failure))),
        Resolution::Done { outcome: Err(CrawlerError::DbInteraction(StoreFault::Failure)) }
    );
}

#[test]
fn reply_to_another_request_changes_nothing() {
    let start = Resolution::start(ORIGIN);
    assert_eq!(start.step(Reply::Fetched(Ok(point(1.0, 1.0)))), start);
    assert_eq!(start.step(Reply::OriginSaved(Ok(1))), start);
    let done = Resolution::Done { outcome: Ok(point(1.0, 1.0)) };
    assert_eq!(done.step(Reply::Origin(Ok(None))), done);
    let fetching = start.step(Reply::Origin(Ok(None)));
    assert_eq!(fetching.step(Reply::Origin(Ok(Some(5)))), fetching);
}

#[test]
fn second_resolution_is_served_from_the_store() {
    let mut store = Store::new();
    let fetched = point(48.8566, 2.3522);
    let mut lookup = Lookup { answer: Ok(fetched), calls: 0 };
    assert_eq!(resolve(&mut store, &mut lookup, ORIGIN), Ok(fetched));
    assert_eq!(lookup.calls, 1);
    lookup.answer = Err(IpScannerError::RequestError);
    assert_eq!(resolve(&mut store, &mut lookup, ORIGIN), Ok(fetched));
    assert_eq!(lookup.calls, 1);
    assert_eq!(store.origins, vec!["203.0.113.7".to_string()]);
    assert_eq!(store.geolocations, vec![(0, fetched)]);
    assert_eq!(f64::from_bits(fetched.latitude_bits), 48.8566);
    assert_eq!(f64::from_bits(fetched.longitude_bits), 2.3522);
}

#[test]
fn failed_lookup_is_not_stored() {
    let mut store = Store::new();
    let mut lookup = Lookup { answer: Err(IpScannerError::ResponseParsingError), calls: 0 };
    assert_eq!(
        resolve(&mut store, &mut lookup, ORIGIN),
        Err(CrawlerError::ScannerInteraction(IpScannerError::ResponseParsingError))
    );
    assert_eq!(lookup.calls, 1);
    assert_eq!(store.find("203.0.113.7"), None);
    assert!(store.origins.is_empty());
    assert!(store.geolocations.is_empty());
    lookup.answer = Ok(point(10.0, 20.0));
    assert_eq!(resolve(&mut store, &mut lookup, ORIGIN), Ok(point(10.0, 20.0)));
    assert_eq!(lookup.calls, 2);
}

#[test]
fn most_recent_geolocation_wins() {
    let mut store = Store::new();
    let mut lookup = Lookup { answer: Ok(point(1.0, 1.0)), calls: 0 };
    assert_eq!(resolve(&mut store, &mut lookup, ORIGIN), Ok(point(1.0, 1.0)));
    store.geolocations.push((0, point(2.0, 2.0)));
    store.geolocations.push((9, point(3.0, 3.0)));
    assert_eq!(resolve(&mut store, &mut lookup, ORIGIN), Ok(point(2.0, 2.0)));
    assert_eq!(lookup.calls, 1);
}

#[test]
fn racing_resolutions_store_the_origin_once() {
    for callers in 1..6usize {
        let mut store = Store::new();
        let mut lookup = Lookup { answer: Ok(point(5.0, 6.0)), calls: 0 };
        let mut resolutions: Vec<Resolution> = (0..callers).map(|_| Resolution::start(ORIGIN)).collect();
        // Round robin: every caller looks the origin up before any of them stores it.
        loop {
            let mut moved = false;
            for resolution in resolutions.iter_mut() {
                let request = resolution.request();
                if let Request::Finish { .. } = request {
                    continue;
                }
                let reply = store.answer(&request, &mut lookup);
                *resolution = resolution.step(reply);
                moved = true;
            }
            if !moved {
                break;
            }
        }
        assert_eq!(store.rows_with("203.0.113.7"), 1);
        assert_eq!(lookup.calls, callers);
        let won = resolutions.iter().filter(|r| **r == Resolution::Done { outcome: Ok(point(5.0, 6.0)) }).count();
        let lost = resolutions
            .iter()
            .filter(|r| {
                **r == Resolution::Done { outcome: Err(CrawlerError::DbInteraction(StoreFault::Conflict)) }
            })
            .count();
        assert_eq!(won, 1);
        assert_eq!(lost, callers - 1);
        // The losers resolve from the store at their next attempt.
        assert_eq!(resolve(&mut store, &mut lookup, ORIGIN), Ok(point(5.0, 6.0)));
        assert_eq!(lookup.calls, callers);
    }
}

#[test]
fn geolocation_hands_out_its_point() {
    let found = Geolocation {
        latitude_bits: 40.7128f64.to_bits(),
        longitude_bits: (-74.006f64).to_bits(),
        country_name: "United States".to_string(),
    };
    assert_eq!(found.coordinate(), point(40.7128, -74.006));
}

use tibber_optimizer::tibber::FeedError;
use tibber_optimizer::tibber::Home;
use tibber_optimizer::tibber::PriceCache;
use tibber_optimizer::tibber::PriceInfo;
use tibber_optimizer::tibber::PricePoint;
use tibber_optimizer::time::Timestamp;

fn at(total: i64, secs: i64) -> PricePoint {
    PricePoint { total, energy: total / 2, tax: total / 2, starts_at: Timestamp { secs, offset_secs: 0 } }
}

fn subscribed(today: Vec<PricePoint>) -> Home {
    Home { price_info: Some(PriceInfo { current: today.first().copied(), today, tomorrow: vec![at(9, 86_400)] }) }
}

fn stocked() -> PriceCache {
    let mut cache = PriceCache::default();
    cache.store(Some(at(1, 0)), vec![at(1, 0)], Vec::new(), Timestamp { secs: 10, offset_secs: 0 });
    cache
}

#[test]
fn report_without_homes_is_an_error() {
    let mut cache = stocked();
    let outcome = cache.take_in(Vec::new(), Timestamp { secs: 99, offset_secs: 0 });
    assert_eq!(outcome, Err(FeedError::NoHomes));
    assert_eq!(cache.today, vec![at(1, 0)]);
    assert_eq!(cache.last_fetch, Some(Timestamp { secs: 10, offset_secs: 0 }));
}

#[test]
fn first_home_without_subscription_is_an_error() {
    let mut cache = stocked();
    let homes = vec![Home { price_info: None }, subscribed(vec![at(5, 0)])];
    let outcome = cache.take_in(homes, Timestamp { secs: 99, offset_secs: 0 });
    assert_eq!(outcome, Err(FeedError::NoSubscription));
    assert_eq!(cache.current, Some(at(1, 0)));
    assert_eq!(cache.today, vec![at(1, 0)]);
    assert!(cache.tomorrow.is_empty());
    assert_eq!(cache.last_fetch, Some(Timestamp { secs: 10, offset_secs: 0 }));
}

#[test]
fn prices_of_the_first_home_are_taken_in() {
    let mut cache = stocked();
    let homes = vec![
        subscribed(vec![at(5, 0), at(6, 900)]),
        subscribed(vec![at(7, 0)]),
        Home { price_info: None },
    ];
    let fetched = Timestamp { secs: 99, offset_secs: 7_200 };
    assert_eq!(cache.take_in(homes, fetched), Ok(()));
    assert_eq!(cache.current, Some(at(5, 0)));
    assert_eq!(cache.today, vec![at(5, 0), at(6, 900)]);
    assert_eq!(cache.tomorrow, vec![at(9, 86_400)]);
    assert_eq!(cache.last_fetch, Some(fetched));
    assert!(!cache.needs_refresh_at(100, 900));
}

#[test]
fn feed_errors_in_words() {
    assert_eq!(FeedError::NoHomes.message(), "No homes found in Tibber account");
    assert_eq!(FeedError::NoSubscription.message(), "No active subscription found");
}

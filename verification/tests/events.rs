use shiplift::events::{
    event_filter_type_to_string, events_path, EventFilter, EventFilterType, EventsOptions,
};
use shiplift::strnum::u64_to_dec;

#[test]
fn empty_options_serialize_to_nothing() {
    let opts = EventsOptions::default();
    assert!(opts.serialize().is_none());
    assert_eq!(events_path(&opts), "/events");
}

#[test]
fn since_and_until_serialize_in_order() {
    let mut b = EventsOptions::builder();
    b.since(&1);
    b.until(&2);
    let opts = b.build();
    assert_eq!(opts.serialize().unwrap(), "since=1&until=2");
    assert_eq!(events_path(&opts), "/events?since=1&until=2");
}

#[test]
fn timestamps_render_in_decimal() {
    assert_eq!(u64_to_dec(0), "0");
    assert_eq!(u64_to_dec(12345), "12345");
    assert_eq!(u64_to_dec(18446744073709551615), "18446744073709551615");
    let mut b = EventsOptions::builder();
    b.since(&0);
    assert_eq!(b.build().serialize().unwrap(), "since=0");
}

#[test]
fn one_filter_becomes_a_json_group() {
    let mut b = EventsOptions::builder();
    b.filter(vec![EventFilter::Container("a".to_string())]);
    let opts = b.build();
    assert_eq!(
        opts.serialize().unwrap(),
        "filters=%7B%22container%22%3A%5B%22a%22%5D%7D"
    );
}

#[test]
fn filters_of_one_category_accumulate() {
    let mut b = EventsOptions::builder();
    b.filter(vec![
        EventFilter::Container("a".to_string()),
        EventFilter::Container("b".to_string()),
    ]);
    let opts = b.build();
    assert_eq!(
        opts.serialize().unwrap(),
        "filters=%7B%22container%22%3A%5B%22a%22%2C%22b%22%5D%7D"
    );
}

#[test]
fn later_call_reports_only_its_categories() {
    let mut b = EventsOptions::builder();
    b.filter(vec![EventFilter::Container("a".to_string())]);
    b.filter(vec![EventFilter::Image("i".to_string())]);
    let opts = b.build();
    assert_eq!(
        opts.serialize().unwrap(),
        "filters=%7B%22image%22%3A%5B%22i%22%5D%7D"
    );
}

#[test]
fn type_filters_use_their_query_value() {
    let mut b = EventsOptions::builder();
    b.filter(vec![EventFilter::Type(EventFilterType::Image)]);
    let opts = b.build();
    assert_eq!(
        opts.serialize().unwrap(),
        "filters=%7B%22type%22%3A%5B%22image%22%5D%7D"
    );
}

#[test]
fn categories_appear_in_key_order() {
    let mut b = EventsOptions::builder();
    b.filter(vec![
        EventFilter::Volume("v".to_string()),
        EventFilter::Daemon("d".to_string()),
    ]);
    let opts = b.build();
    assert_eq!(
        opts.serialize().unwrap(),
        "filters=%7B%22daemon%22%3A%5B%22d%22%5D%2C%22volume%22%3A%5B%22v%22%5D%7D"
    );
}

#[test]
fn filter_type_strings() {
    assert_eq!(event_filter_type_to_string(EventFilterType::Container), "container");
    assert_eq!(event_filter_type_to_string(EventFilterType::Image), "image");
    assert_eq!(event_filter_type_to_string(EventFilterType::Volume), "volume");
    assert_eq!(event_filter_type_to_string(EventFilterType::Network), "network");
    assert_eq!(event_filter_type_to_string(EventFilterType::Daemon), "daemon");
}

#[test]
fn values_are_percent_encoded() {
    let mut b = EventsOptions::builder();
    b.filter(vec![EventFilter::Label("k=v with space".to_string())]);
    let opts = b.build();
    assert_eq!(
        opts.serialize().unwrap(),
        "filters=%7B%22label%22%3A%5B%22k%3Dv+with+space%22%5D%7D"
    );
}

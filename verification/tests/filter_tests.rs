use dupebot::filter::ChannelFilter;

#[test]
fn empty_config_monitors_nothing() {
    let f = ChannelFilter::from_config("");
    assert!(!f.is_monitored("100"));
    assert!(!f.is_monitored(""));
}

#[test]
fn config_splits_on_commas() {
    let f = ChannelFilter::from_config("100,200,300");
    assert!(f.is_monitored("100"));
    assert!(f.is_monitored("200"));
    assert!(f.is_monitored("300"));
    assert!(!f.is_monitored("400"));
}

#[test]
fn single_entry_config() {
    let f = ChannelFilter::from_config("100");
    assert!(f.is_monitored("100"));
    assert!(!f.is_monitored("200"));
}

#[test]
fn membership_is_exact_match() {
    let f = ChannelFilter::from_config("100");
    assert!(!f.is_monitored("1000"));
    assert!(!f.is_monitored("10"));
    assert!(!f.is_monitored("100 "));
}

#[test]
fn empty_pieces_stay_on_the_list() {
    let f = ChannelFilter::from_config("100,,200");
    assert!(f.is_monitored("100"));
    assert!(f.is_monitored("200"));
    assert!(f.is_monitored(""));
    assert!(!f.is_monitored(","));
}

#[test]
fn explicit_list_constructor() {
    let f = ChannelFilter::new(vec![String::from("42")]);
    assert!(f.is_monitored("42"));
    assert!(!f.is_monitored("43"));
}

#[test]
fn empty_list_monitors_nothing() {
    let f = ChannelFilter::new(Vec::new());
    assert!(!f.is_monitored("100"));
}

use rngpaper::config::{Categories, Config, Orientation, Purity, DEFAULT_INTERVAL};
use std::time::Duration;

#[test]
fn default_config_values() {
    let c = Config::default();
    let collections = c.collections.expect("default collections");
    assert_eq!(collections, vec!["@arkas".to_string()]);
    assert_eq!(c.interval, Some(DEFAULT_INTERVAL));
    assert!(matches!(c.orientation, Some(Orientation::Landscape)));
    assert_eq!(c.image_resolution, Some("1920x1080".to_string()));
    assert!(c.api_key.is_none());
    let cats = c.categories.expect("default categories");
    assert_eq!(cats.general, Some(false));
    assert_eq!(cats.anime, Some(true));
    assert_eq!(cats.people, Some(false));
    let purity = c.purity.expect("default purity");
    assert_eq!(purity.sfw, Some(true));
    assert_eq!(purity.sketchy, Some(false));
    assert_eq!(purity.nsfw, Some(false));
}

#[test]
fn default_interval_is_ten_minutes() {
    let c = Config::default();
    assert_eq!(c.get_interval(), Duration::from_secs(600));
}

#[test]
fn interval_round_trip() {
    let mut c = Config::default();
    c.set_interval(Duration::from_secs(900));
    assert_eq!(c.interval, Some(15));
    assert_eq!(c.get_interval(), Duration::from_secs(900));
}

#[test]
fn interval_truncates_to_whole_minutes() {
    let mut c = Config::default();
    c.set_interval(Duration::from_secs(90));
    assert_eq!(c.interval, Some(1));
    assert_eq!(c.get_interval(), Duration::from_secs(60));
}

#[test]
fn search_readiness() {
    let c = Config::default();
    assert!(c.is_search_ready());
    let mut missing = Config::default();
    missing.collections = Some(vec![]);
    assert!(!missing.is_search_ready());
    let mut none = Config::default();
    none.purity = None;
    assert!(!none.is_search_ready());
}

#[test]
fn oversized_interval_has_no_duration() {
    let mut c = Config::default();
    assert_eq!(c.try_get_interval(), Some(Duration::from_secs(600)));
    c.interval = Some(u64::MAX);
    assert_eq!(c.try_get_interval(), None);
}

#[test]
fn orientation_names() {
    assert_eq!(Orientation::Landscape.as_str(), "landscape");
    assert_eq!(Orientation::Portrait.as_str(), "portrait");
    assert_eq!(Orientation::Squarish.as_str(), "squarish");
}

#[test]
fn orientation_resolutions() {
    assert_eq!(Orientation::Landscape.get_image_resolution(), "1920x1080");
    assert_eq!(Orientation::Portrait.get_image_resolution(), "1080x1920");
    assert_eq!(Orientation::Squarish.get_image_resolution(), "1440x1440");
}

#[test]
fn category_bit_string_order() {
    let cats = Categories { general: Some(false), anime: Some(true), people: Some(false) };
    assert_eq!(cats.bit_string(), "010");
    let all = Categories { general: Some(true), anime: Some(true), people: Some(true) };
    assert_eq!(all.bit_string(), "111");
    let none = Categories { general: Some(false), anime: Some(false), people: Some(false) };
    assert_eq!(none.bit_string(), "000");
}

#[test]
fn purity_bit_string_order() {
    let p = Purity { sfw: Some(true), sketchy: Some(false), nsfw: Some(false) };
    assert_eq!(p.bit_string(), "100");
    let q = Purity { sfw: Some(false), sketchy: Some(true), nsfw: Some(true) };
    assert_eq!(q.bit_string(), "011");
}

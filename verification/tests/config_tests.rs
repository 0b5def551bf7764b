use swiftbar_clocks::config::{default_config, expand_home, resolve_config, CityEntry, Config};

fn city(name: &str, tz: &str) -> CityEntry {
    CityEntry { name: name.to_string(), timezone: tz.to_string() }
}

#[test]
fn default_has_three_cities() {
    let d = default_config();
    assert_eq!(d.cities.len(), 3);
    assert_eq!(d.cities[0].name, "New York");
    assert_eq!(d.cities[0].timezone, "America/New_York");
    assert_eq!(d.cities[1].name, "London");
    assert_eq!(d.cities[1].timezone, "Europe/London");
    assert_eq!(d.cities[2].name, "Tokyo");
    assert_eq!(d.cities[2].timezone, "Asia/Tokyo");
}

#[test]
fn resolver_falls_back_with_no_candidates() {
    let r = resolve_config(vec![]);
    assert_eq!(r.cities.len(), 3);
    assert_eq!(r.cities[0].name, "New York");
}

#[test]
fn resolver_falls_back_when_all_candidates_fail() {
    let r = resolve_config(vec![None, None]);
    assert_eq!(r.cities.len(), 3);
    assert_eq!(r.cities[2].timezone, "Asia/Tokyo");
}

#[test]
fn resolver_takes_first_success() {
    let a = Config { cities: vec![city("Oslo", "Europe/Oslo")] };
    let b = Config { cities: vec![city("Lima", "America/Lima")] };
    let r = resolve_config(vec![None, Some(a), Some(b)]);
    assert_eq!(r.cities.len(), 1);
    assert_eq!(r.cities[0].name, "Oslo");
}

#[test]
fn resolver_preserves_source_order() {
    let a = Config { cities: vec![city("Lima", "America/Lima"), city("Oslo", "Europe/Oslo")] };
    let r = resolve_config(vec![Some(a)]);
    assert_eq!(r.cities.len(), 2);
    assert_eq!(r.cities[0].name, "Lima");
    assert_eq!(r.cities[1].name, "Oslo");
}

#[test]
fn empty_city_list_is_a_valid_configuration() {
    let r = resolve_config(vec![Some(Config { cities: vec![] })]);
    assert_eq!(r.cities.len(), 0);
}

#[test]
fn expand_home_rewrites_leading_tilde() {
    let r = expand_home("~/.config/clock.yaml", "/home/u");
    assert_eq!(r, Some("/home/u/.config/clock.yaml".to_string()));
}

#[test]
fn expand_home_leaves_other_paths_alone() {
    assert_eq!(expand_home("/etc/clock.yaml", "/home/u"), None);
    assert_eq!(expand_home("~", "/home/u"), None);
    assert_eq!(expand_home("", "/home/u"), None);
    assert_eq!(expand_home("clock.yaml", "/home/u"), None);
}

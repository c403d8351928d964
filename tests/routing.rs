use osm_routing::config::{preferences, profile};
use osm_routing::edges::Edges;
use osm_routing::restriction::{allow_travel_mode, is_denial};
use osm_routing::segment::Segment;
use osm_routing::text::find_key;
use osm_routing::{RouteConfig, Status, CANNOT_USE};

fn tags(pairs: &[(&str, &str)]) -> Vec<(String, String)> {
    pairs
        .iter()
        .map(|(k, v)| (k.to_string(), v.to_string()))
        .collect()
}

fn keys(list: &[&str]) -> Vec<String> {
    list.iter().map(|k| k.to_string()).collect()
}

fn car_config(weights: &[(&str, i64)]) -> RouteConfig {
    RouteConfig {
        name: "car".to_string(),
        weights: weights.iter().map(|(t, w)| (t.to_string(), *w)).collect(),
        can_use: keys(&["access", "vehicle", "motor_vehicle", "motorcar"]),
    }
}

fn car_edges() -> Edges {
    Edges::new("car".to_string(), car_config(&[("primary", 2000), ("motorway", 10000)]))
}

fn sorted_pairs(e: &Edges, node: i64) -> Vec<(i64, i64)> {
    let mut p = e.each(node);
    p.sort();
    p
}

#[test]
fn allow_travel_mode_test() {
    let way = Segment::new(
        vec![],
        tags(&[("highway", "service"), ("oneway", "yes"), ("motor_vehicle", "no")]),
    );
    let can_use = keys(&["access", "vehicle", "motor_vehicle", "motorcar"]);
    assert!(!allow_travel_mode(&way, &can_use));
}

#[test]
fn later_grant_overrides_earlier_denial() {
    let way = Segment::new(vec![], tags(&[("access", "no"), ("motor_vehicle", "yes")]));
    assert!(allow_travel_mode(&way, &keys(&["access", "motor_vehicle"])));
}

#[test]
fn later_denial_overrides_earlier_grant() {
    let way = Segment::new(vec![], tags(&[("access", "yes"), ("motor_vehicle", "no")]));
    assert!(!allow_travel_mode(&way, &keys(&["access", "motor_vehicle"])));
}

#[test]
fn no_access_tags_allows() {
    let way = Segment::new(vec![], tags(&[("highway", "primary")]));
    assert!(allow_travel_mode(&way, &keys(&["access", "motor_vehicle"])));
    assert!(allow_travel_mode(&way, &keys(&[])));
}

#[test]
fn missing_later_key_keeps_denial() {
    let way = Segment::new(vec![], tags(&[("access", "private")]));
    assert!(!allow_travel_mode(&way, &keys(&["access", "motor_vehicle"])));
}

#[test]
fn denial_values() {
    assert!(is_denial("no"));
    assert!(is_denial("private"));
    assert!(is_denial("no_entry"));
    assert!(!is_denial("yes"));
    assert!(!is_denial("designated"));
    assert!(!is_denial("n"));
    assert!(!is_denial(""));
}

#[test]
fn text_helpers() {
    assert!(is_denial("private_road"));
    assert!(!is_denial("priv"));
    let entries = vec![("a".to_string(), 1), ("b".to_string(), 2), ("a".to_string(), 3)];
    assert_eq!(find_key(&entries, "a"), Some(0));
    assert_eq!(find_key(&entries, "b"), Some(1));
    assert_eq!(find_key(&entries, "c"), None);
    assert_eq!(find_key(&entries, "aa"), None);
    assert_eq!(find_key(&entries, ""), None);
}

#[test]
fn first_tag_counts() {
    let way = Segment::new(vec![], tags(&[("oneway", "yes"), ("oneway", "-1")]));
    assert_eq!(way.get_tag("oneway"), Some("yes"));
    assert_eq!(way.get_tag("junction"), None);
}

#[test]
fn nonpositive_weight_adds_nothing() {
    let mut e = Edges::new("car".to_string(), car_config(&[("primary", 0), ("track", -5)]));
    let zero = Segment::new(vec![1, 2], tags(&[("highway", "primary")]));
    assert!(!e.from_way(&zero));
    let negative = Segment::new(vec![1, 2], tags(&[("highway", "track")]));
    assert!(!e.from_way(&negative));
    let unknown = Segment::new(vec![1, 2], tags(&[("highway", "footway")]));
    assert!(!e.from_way(&unknown));
    assert_eq!(e.len(), 0);
    assert!(!e.has(1));
}

#[test]
fn forward_only_values() {
    for v in ["yes", "true", "1"] {
        let mut e = car_edges();
        let way = Segment::new(vec![1, 2, 3], tags(&[("highway", "primary"), ("oneway", v)]));
        assert!(e.from_way(&way));
        assert_eq!(e.weight(1, 2), 2000);
        assert_eq!(e.weight(2, 3), 2000);
        assert!(!e.has_connection(2, 1));
        assert!(!e.has_connection(3, 2));
        assert_eq!(e.len(), 2);
    }
}

#[test]
fn reverse_only_values() {
    for v in ["-1", "reverse"] {
        let mut e = car_edges();
        let way = Segment::new(vec![1, 2, 3], tags(&[("highway", "primary"), ("oneway", v)]));
        assert!(e.from_way(&way));
        assert_eq!(e.weight(2, 1), 2000);
        assert_eq!(e.weight(3, 2), 2000);
        assert!(!e.has_connection(1, 2));
        assert!(!e.has_connection(2, 3));
        assert!(!e.has(1));
    }
}

#[test]
fn explicit_two_way() {
    let mut e = car_edges();
    let way = Segment::new(vec![1, 2], tags(&[("highway", "motorway"), ("oneway", "no")]));
    assert!(e.from_way(&way));
    assert_eq!(e.weight(1, 2), 10000);
    assert_eq!(e.weight(2, 1), 10000);
}

#[test]
fn foot_ignores_one_way() {
    let config = RouteConfig {
        name: "foot".to_string(),
        weights: vec![("footway".to_string(), 1000)],
        can_use: keys(&["access", "foot"]),
    };
    for v in ["yes", "-1", "no"] {
        let mut e = Edges::new("foot".to_string(), RouteConfig {
            name: config.name.clone(),
            weights: config.weights.clone(),
            can_use: config.can_use.clone(),
        });
        let way = Segment::new(vec![5, 6], tags(&[("highway", "footway"), ("oneway", v)]));
        assert!(e.from_way(&way));
        assert_eq!(e.weight(5, 6), 1000);
        assert_eq!(e.weight(6, 5), 1000);
    }
}

#[test]
fn mode_override_lifts_one_way() {
    let mut e = Edges::new("bicycle".to_string(), profile("bicycle").unwrap());
    let way = Segment::new(
        vec![1, 2],
        tags(&[("highway", "residential"), ("oneway", "yes"), ("oneway:bicycle", "no")]),
    );
    assert!(e.from_way(&way));
    assert_eq!(e.weight(1, 2), 2500);
    assert_eq!(e.weight(2, 1), 2500);
    let mut car = Edges::new("car".to_string(), profile("car").unwrap());
    assert!(car.from_way(&way));
    assert_eq!(car.weight(1, 2), 700);
    assert!(!car.has_connection(2, 1));
}

#[test]
fn unconnected_pairs_weigh_cannot_use() {
    let mut e = car_edges();
    assert_eq!(e.weight(1, 2), CANNOT_USE);
    let way = Segment::new(vec![1, 2], tags(&[("highway", "primary"), ("oneway", "yes")]));
    assert!(e.from_way(&way));
    assert_eq!(e.weight(2, 1), CANNOT_USE);
    assert_eq!(e.weight(1, 3), CANNOT_USE);
    assert_eq!(e.weight(7, 8), CANNOT_USE);
}

#[test]
fn two_node_primary_both_ways() {
    let mut e = Edges::new("car".to_string(), car_config(&[("primary", 2000)]));
    let way = Segment::new(vec![10, 11], tags(&[("highway", "primary")]));
    assert!(e.from_way(&way));
    assert_eq!(e.weight(10, 11), 2000);
    assert_eq!(e.weight(11, 10), 2000);
    assert_eq!(e.len(), 2);
}

#[test]
fn roundabout_is_one_way() {
    let mut e = car_edges();
    let way = Segment::new(vec![1, 2, 3], tags(&[("highway", "primary"), ("junction", "roundabout")]));
    assert!(e.from_way(&way));
    assert!(e.has_connection(1, 2));
    assert!(e.has_connection(2, 3));
    assert!(!e.has_connection(2, 1));
    assert!(!e.has_connection(3, 2));
}

#[test]
fn circular_and_motorway_are_one_way() {
    let mut e = car_edges();
    let circular = Segment::new(vec![1, 2], tags(&[("highway", "primary"), ("junction", "circular")]));
    assert!(e.from_way(&circular));
    assert!(!e.has_connection(2, 1));
    let motorway = Segment::new(vec![3, 4], tags(&[("highway", "motorway")]));
    assert!(e.from_way(&motorway));
    assert_eq!(e.weight(3, 4), 10000);
    assert!(!e.has_connection(4, 3));
}

#[test]
fn ingesting_twice_is_idempotent() {
    let way = Segment::new(vec![1, 2, 3, 1], tags(&[("highway", "primary")]));
    let mut once = car_edges();
    assert!(once.from_way(&way));
    let mut twice = car_edges();
    assert!(twice.from_way(&way));
    assert!(twice.from_way(&way));
    assert_eq!(once.len(), twice.len());
    for n in [1, 2, 3] {
        assert_eq!(sorted_pairs(&once, n), sorted_pairs(&twice, n));
        assert_eq!(sorted_pairs(&twice, n).len(), 2);
    }
}

#[test]
fn later_way_overwrites_weight() {
    let mut e = car_edges();
    assert!(e.from_way(&Segment::new(vec![1, 2], tags(&[("highway", "primary")]))));
    assert!(e.from_way(&Segment::new(vec![1, 2], tags(&[("highway", "motorway"), ("oneway", "no")]))));
    assert_eq!(e.weight(1, 2), 10000);
    assert_eq!(e.weight(2, 1), 10000);
}

#[test]
fn rail_type_fallback() {
    let mut e = Edges::new("train".to_string(), profile("train").unwrap());
    let way = Segment::new(vec![1, 2], tags(&[("railway", "rail")]));
    assert!(e.from_way(&way));
    assert_eq!(e.weight(1, 2), 1000);
    let both = Segment::new(vec![3, 4], tags(&[("highway", "primary"), ("railway", "light_rail")]));
    assert!(e.from_way(&both));
    assert_eq!(e.weight(4, 3), 1000);
}

#[test]
fn short_ways_add_nothing() {
    let mut e = car_edges();
    assert!(!e.from_way(&Segment::new(vec![], tags(&[("highway", "primary")]))));
    assert!(!e.from_way(&Segment::new(vec![1], tags(&[("highway", "primary")]))));
    assert_eq!(e.len(), 0);
}

#[test]
fn denied_access_adds_nothing() {
    let mut e = car_edges();
    let way = Segment::new(vec![1, 2], tags(&[("highway", "primary"), ("motor_vehicle", "private")]));
    assert!(!e.from_way(&way));
    assert_eq!(e.len(), 0);
    let granted = Segment::new(
        vec![1, 2],
        tags(&[("highway", "primary"), ("access", "no"), ("motorcar", "yes")]),
    );
    assert!(e.from_way(&granted));
}

#[test]
fn neighbours_and_map() {
    let mut e = car_edges();
    assert!(e.from_way(&Segment::new(vec![1, 2], tags(&[("highway", "primary")]))));
    assert!(e.from_way(&Segment::new(vec![1, 3], tags(&[("highway", "motorway"), ("oneway", "no")]))));
    assert_eq!(sorted_pairs(&e, 1), vec![(2000, 2), (10000, 3)]);
    assert!(e.each(9).is_empty());
    let mut mapped = e.map(1, |w, n| w + n);
    mapped.sort();
    assert_eq!(mapped, vec![2002, 10003]);
    assert!(e.map(9, |w, n| w + n).is_empty());
    e.ensure(&vec![1, 2, 3]);
    assert!(e.has(3));
    assert!(!e.has(4));
}

#[test]
fn built_in_profiles() {
    let modes = preferences();
    let names: Vec<&str> = modes.iter().map(|c| c.name.as_str()).collect();
    assert_eq!(names, vec!["car", "bus", "bicycle", "horse", "tram", "train"]);
    let car = profile("car").unwrap();
    assert_eq!(car.weights[2], ("primary".to_string(), 2000));
    assert_eq!(car.can_use, keys(&["access", "vehicle", "motor_vehicle", "motorcar"]));
    let horse = profile("horse").unwrap();
    assert_eq!(horse.weights.len(), 11);
    assert!(profile("foot").is_none());
    assert!(profile("").is_none());
}

#[test]
fn status_variants() {
    let all = [Status::NoRoute, Status::Success, Status::GaveUp];
    assert_eq!(all.len(), 3);
    assert!(matches!(all[1], Status::Success));
}

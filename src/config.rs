//! The built-in travel modes and their routing preferences.
use vstd::prelude::*;
use vstd::string::StringExecFns;

use crate::text::str_eq;
use crate::{EdgeWeight, RouteConfig};

verus! {

/// The weights of a configuration as (type, weight) pairs.
pub open spec fn weights_view(c: RouteConfig) -> Seq<(Seq<char>, EdgeWeight)> {
    c.weights@.map_values(|e: (String, EdgeWeight)| (e.0@, e.1))
}

/// The access keys of a configuration, in order.
pub open spec fn keys_view(c: RouteConfig) -> Seq<Seq<char>> {
    c.can_use@.map_values(|k: String| k@)
}

/// Whether `c` has the given name, weights and access keys.
pub open spec fn is_profile(c: RouteConfig, name: Seq<char>, weights: Seq<(Seq<char>, EdgeWeight)>, keys: Seq<Seq<char>>) -> bool {
    c.name@ == name && weights_view(c) == weights && keys_view(c) == keys
}

fn weight_entry(t: &str, w: EdgeWeight) -> (r: (String, EdgeWeight))
    ensures
        r.0@ == t@,
        r.1 == w,
{
    (String::from_str(t), w)
}

/// Weights of the `car` mode, in thousandths.
pub open spec fn car_weights() -> Seq<(Seq<char>, EdgeWeight)> {
    seq![
        ("motorway"@, 10000),
        ("trunk"@, 10000),
        ("primary"@, 2000),
        ("secondary"@, 1500),
        ("tertiary"@, 1000),
        ("unclassified"@, 1000),
        ("residential"@, 700),
        ("track"@, 500),
        ("service"@, 500),
    ]
}

/// Access keys of the `car` mode, general to specific.
pub open spec fn car_keys() -> Seq<Seq<char>> {
    seq!["access"@, "vehicle"@, "motor_vehicle"@, "motorcar"@]
}

/// Weights of the `bus` mode, in thousandths.
pub open spec fn bus_weights() -> Seq<(Seq<char>, EdgeWeight)> {
    seq![
        ("motorway"@, 10000),
        ("trunk"@, 10000),
        ("primary"@, 2000),
        ("secondary"@, 1500),
        ("tertiary"@, 1000),
        ("unclassified"@, 1000),
        ("residential"@, 800),
        ("track"@, 300),
        ("service"@, 900),
    ]
}

/// Access keys of the `bus` mode, general to specific.
pub open spec fn bus_keys() -> Seq<Seq<char>> {
    seq!["access"@, "vehicle"@, "motor_vehicle"@, "psv"@, "bus"@]
}

/// Weights of the `bicycle` mode, in thousandths.
pub open spec fn bicycle_weights() -> Seq<(Seq<char>, EdgeWeight)> {
    seq![
        ("trunk"@, 50),
        ("primary"@, 300),
        ("secondary"@, 900),
        ("tertiary"@, 1000),
        ("unclassified"@, 1000),
        ("cycleway"@, 2000),
        ("residential"@, 2500),
        ("track"@, 1000),
        ("bridleway"@, 800),
        ("footway"@, 800),
        ("steps"@, 500),
        ("path"@, 1000),
    ]
}

/// Access keys of the `bicycle` mode, general to specific.
pub open spec fn bicycle_keys() -> Seq<Seq<char>> {
    seq!["access"@, "vehicle"@, "bicycle"@]
}

/// Weights of the `horse` mode, in thousandths.
pub open spec fn horse_weights() -> Seq<(Seq<char>, EdgeWeight)> {
    seq![
        ("primary"@, 50),
        ("secondary"@, 150),
        ("tertiary"@, 300),
        ("unclassified"@, 1000),
        ("residential"@, 1000),
        ("track"@, 1000),
        ("service"@, 1000),
        ("bridleway"@, 1000),
        ("footway"@, 1200),
        ("steps"@, 1150),
        ("path"@, 1200),
    ]
}

/// Access keys of the `horse` mode, general to specific.
pub open spec fn horse_keys() -> Seq<Seq<char>> {
    seq!["access"@, "horse"@]
}

/// Weights of the `tram` mode, in thousandths.
pub open spec fn tram_weights() -> Seq<(Seq<char>, EdgeWeight)> {
    seq![
        ("tram"@, 1000),
        ("light_rail"@, 1000),
    ]
}

/// Access keys of the `tram` mode, general to specific.
pub open spec fn tram_keys() -> Seq<Seq<char>> {
    seq!["access"@]
}

/// Weights of the `train` mode, in thousandths.
pub open spec fn train_weights() -> Seq<(Seq<char>, EdgeWeight)> {
    seq![
        ("rail"@, 1000),
        ("light_rail"@, 1000),
        ("subway"@, 1000),
        ("narrow_gauge"@, 1000),
    ]
}

/// Access keys of the `train` mode, general to specific.
pub open spec fn train_keys() -> Seq<Seq<char>> {
    seq!["access"@]
}

fn car_profile() -> (r: RouteConfig)
    ensures
        is_profile(r, "car"@, car_weights(), car_keys()),
{
    let mut weights: Vec<(String, EdgeWeight)> = Vec::new();
    weights.push(weight_entry("motorway", 10000));
    weights.push(weight_entry("trunk", 10000));
    weights.push(weight_entry("primary", 2000));
    weights.push(weight_entry("secondary", 1500));
    weights.push(weight_entry("tertiary", 1000));
    weights.push(weight_entry("unclassified", 1000));
    weights.push(weight_entry("residential", 700));
    weights.push(weight_entry("track", 500));
    weights.push(weight_entry("service", 500));
    let mut can_use: Vec<String> = Vec::new();
    can_use.push(String::from_str("access"));
    can_use.push(String::from_str("vehicle"));
    can_use.push(String::from_str("motor_vehicle"));
    can_use.push(String::from_str("motorcar"));
    let r = RouteConfig { name: String::from_str("car"), weights, can_use };
    assert(weights_view(r) =~= car_weights());
    assert(keys_view(r) =~= car_keys());
    r
}

fn bus_profile() -> (r: RouteConfig)
    ensures
        is_profile(r, "bus"@, bus_weights(), bus_keys()),
{
    let mut weights: Vec<(String, EdgeWeight)> = Vec::new();
    weights.push(weight_entry("motorway", 10000));
    weights.push(weight_entry("trunk", 10000));
    weights.push(weight_entry("primary", 2000));
    weights.push(weight_entry("secondary", 1500));
    weights.push(weight_entry("tertiary", 1000));
    weights.push(weight_entry("unclassified", 1000));
    weights.push(weight_entry("residential", 800));
    weights.push(weight_entry("track", 300));
    weights.push(weight_entry("service", 900));
    let mut can_use: Vec<String> = Vec::new();
    can_use.push(String::from_str("access"));
    can_use.push(String::from_str("vehicle"));
    can_use.push(String::from_str("motor_vehicle"));
    can_use.push(String::from_str("psv"));
    can_use.push(String::from_str("bus"));
    let r = RouteConfig { name: String::from_str("bus"), weights, can_use };
    assert(weights_view(r) =~= bus_weights());
    assert(keys_view(r) =~= bus_keys());
    r
}

fn bicycle_profile() -> (r: RouteConfig)
    ensures
        is_profile(r, "bicycle"@, bicycle_weights(), bicycle_keys()),
{
    let mut weights: Vec<(String, EdgeWeight)> = Vec::new();
    weights.push(weight_entry("trunk", 50));
    weights.push(weight_entry("primary", 300));
    weights.push(weight_entry("secondary", 900));
    weights.push(weight_entry("tertiary", 1000));
    weights.push(weight_entry("unclassified", 1000));
    weights.push(weight_entry("cycleway", 2000));
    weights.push(weight_entry("residential", 2500));
    weights.push(weight_entry("track", 1000));
    weights.push(weight_entry("bridleway", 800));
    weights.push(weight_entry("footway", 800));
    weights.push(weight_entry("steps", 500));
    weights.push(weight_entry("path", 1000));
    let mut can_use: Vec<String> = Vec::new();
    can_use.push(String::from_str("access"));
    can_use.push(String::from_str("vehicle"));
    can_use.push(String::from_str("bicycle"));
    let r = RouteConfig { name: String::from_str("bicycle"), weights, can_use };
    assert(weights_view(r) =~= bicycle_weights());
    assert(keys_view(r) =~= bicycle_keys());
    r
}

fn horse_profile() -> (r: RouteConfig)
    ensures
        is_profile(r, "horse"@, horse_weights(), horse_keys()),
{
    let mut weights: Vec<(String, EdgeWeight)> = Vec::new();
    weights.push(weight_entry("primary", 50));
    weights.push(weight_entry("secondary", 150));
    weights.push(weight_entry("tertiary", 300));
    weights.push(weight_entry("unclassified", 1000));
    weights.push(weight_entry("residential", 1000));
    weights.push(weight_entry("track", 1000));
    weights.push(weight_entry("service", 1000));
    weights.push(weight_entry("bridleway", 1000));
    weights.push(weight_entry("footway", 1200));
    weights.push(weight_entry("steps", 1150));
    weights.push(weight_entry("path", 1200));
    let mut can_use: Vec<String> = Vec::new();
    can_use.push(String::from_str("access"));
    can_use.push(String::from_str("horse"));
    let r = RouteConfig { name: String::from_str("horse"), weights, can_use };
    assert(weights_view(r) =~= horse_weights());
    assert(keys_view(r) =~= horse_keys());
    r
}

fn tram_profile() -> (r: RouteConfig)
    ensures
        is_profile(r, "tram"@, tram_weights(), tram_keys()),
{
    let mut weights: Vec<(String, EdgeWeight)> = Vec::new();
    weights.push(weight_entry("tram", 1000));
    weights.push(weight_entry("light_rail", 1000));
    let mut can_use: Vec<String> = Vec::new();
    can_use.push(String::from_str("access"));
    let r = RouteConfig { name: String::from_str("tram"), weights, can_use };
    assert(weights_view(r) =~= tram_weights());
    assert(keys_view(r) =~= tram_keys());
    r
}

fn train_profile() -> (r: RouteConfig)
    ensures
        is_profile(r, "train"@, train_weights(), train_keys()),
{
    let mut weights: Vec<(String, EdgeWeight)> = Vec::new();
    weights.push(weight_entry("rail", 1000));
    weights.push(weight_entry("light_rail", 1000));
    weights.push(weight_entry("subway", 1000));
    weights.push(weight_entry("narrow_gauge", 1000));
    let mut can_use: Vec<String> = Vec::new();
    can_use.push(String::from_str("access"));
    let r = RouteConfig { name: String::from_str("train"), weights, can_use };
    assert(weights_view(r) =~= train_weights());
    assert(keys_view(r) =~= train_keys());
    r
}

/// The routing preferences of every built-in travel mode: car, bus,
/// bicycle, horse, tram and train.
pub fn preferences() -> (r: Vec<RouteConfig>)
    ensures
        r@.len() == 6,
        is_profile(r@[0], "car"@, car_weights(), car_keys()),
        is_profile(r@[1], "bus"@, bus_weights(), bus_keys()),
        is_profile(r@[2], "bicycle"@, bicycle_weights(), bicycle_keys()),
        is_profile(r@[3], "horse"@, horse_weights(), horse_keys()),
        is_profile(r@[4], "tram"@, tram_weights(), tram_keys()),
        is_profile(r@[5], "train"@, train_weights(), train_keys()),
{
    let mut modes: Vec<RouteConfig> = Vec::new();
    modes.push(car_profile());
    modes.push(bus_profile());
    modes.push(bicycle_profile());
    modes.push(horse_profile());
    modes.push(tram_profile());
    modes.push(train_profile());
    modes
}

/// The routing preferences of the named travel mode; none for a name that is
/// not a built-in mode.
pub fn profile(name: &str) -> (r: Option<RouteConfig>)
    ensures
        name@ == "car"@ ==> r is Some && is_profile(r.unwrap(), "car"@, car_weights(), car_keys()),
        name@ == "bus"@ ==> r is Some && is_profile(r.unwrap(), "bus"@, bus_weights(), bus_keys()),
        name@ == "bicycle"@ ==> r is Some && is_profile(r.unwrap(), "bicycle"@, bicycle_weights(), bicycle_keys()),
        name@ == "horse"@ ==> r is Some && is_profile(r.unwrap(), "horse"@, horse_weights(), horse_keys()),
        name@ == "tram"@ ==> r is Some && is_profile(r.unwrap(), "tram"@, tram_weights(), tram_keys()),
        name@ == "train"@ ==> r is Some && is_profile(r.unwrap(), "train"@, train_weights(), train_keys()),
        name@ != "car"@ && name@ != "bus"@ && name@ != "bicycle"@ && name@ != "horse"@ && name@ != "tram"@ && name@ != "train"@ ==> r is None,
{
    proof {
        reveal_strlit("car");
        reveal_strlit("bus");
        reveal_strlit("bicycle");
        reveal_strlit("horse");
        reveal_strlit("tram");
        reveal_strlit("train");
        assert("car"@.len() == 3);
        assert("bus"@.len() == 3);
        assert("bicycle"@.len() == 7);
        assert("horse"@.len() == 5);
        assert("tram"@.len() == 4);
        assert("train"@.len() == 5);
        assert("car"@[0] != "bus"@[0]);
        assert("horse"@[0] != "train"@[0]);
    }
    if str_eq(name, "car") {
        Some(car_profile())
    } else if str_eq(name, "bus") {
        Some(bus_profile())
    } else if str_eq(name, "bicycle") {
        Some(bicycle_profile())
    } else if str_eq(name, "horse") {
        Some(horse_profile())
    } else if str_eq(name, "tram") {
        Some(tram_profile())
    } else if str_eq(name, "train") {
        Some(train_profile())
    } else {
        None
    }
}

} // verus!

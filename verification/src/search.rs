//! Looking for a simulator to use in the list that the device-control tool
//! prints.

use crate::json::{
    flag_member, get_flag, get_text, items_match, json_model, json_parse, member, members_match,
    parse_value, text_member, value_as_array, value_get, value_members, JsonModel,
};
use crate::text::{contains, has_infix, same_text};
use vstd::prelude::*;

verus! {

/// What a look through the list of simulators gave.
#[derive(Clone, Debug, PartialEq, Eq)]
pub enum Search {
    /// The identifier of the first simulator that fits.
    Found(String),
    NotFound,
    /// The list does not have the form that the tool gives it.
    Malformed,
}

/// What a look through the list of simulators gave, as plain data.
pub enum SearchView {
    Found(Seq<char>),
    NotFound,
    Malformed,
}

impl View for Search {
    type V = SearchView;

    open spec fn view(&self) -> SearchView {
        match *self {
            Search::Found(udid) => SearchView::Found(udid@),
            Search::NotFound => SearchView::NotFound,
            Search::Malformed => SearchView::Malformed,
        }
    }
}

/// A simulator fits when it has the wanted name, is available and is shut
/// down.
pub open spec fn device_matches(device: JsonModel, name: Seq<char>) -> bool {
    &&& text_member(device, "name"@) == Some(name)
    &&& flag_member(device, "isAvailable"@) == Some(true)
    &&& text_member(device, "state"@) == Some("Shutdown"@)
}

/// The identifier of the first simulator in a list that fits. A simulator
/// that fits and has no identifier makes the list malformed.
pub open spec fn scan_devices(devices: Seq<JsonModel>, name: Seq<char>) -> SearchView
    decreases devices.len(),
{
    if devices.len() == 0 {
        SearchView::NotFound
    } else if device_matches(devices[0], name) {
        match text_member(devices[0], "udid"@) {
            Some(udid) => SearchView::Found(udid),
            None => SearchView::Malformed,
        }
    } else {
        scan_devices(devices.drop_first(), name)
    }
}

/// The first simulator that fits, among the runtimes whose name holds the
/// wanted operating system version. A runtime of that kind whose simulators
/// are not a list makes the whole malformed.
pub open spec fn scan_runtimes(
    runtimes: Seq<(Seq<char>, JsonModel)>,
    name: Seq<char>,
    os: Seq<char>,
) -> SearchView
    decreases runtimes.len(),
{
    if runtimes.len() == 0 {
        SearchView::NotFound
    } else if has_infix(runtimes[0].0, os) {
        match runtimes[0].1 {
            JsonModel::Array(devices) => match scan_devices(devices, name) {
                SearchView::NotFound => scan_runtimes(runtimes.drop_first(), name, os),
                found => found,
            },
            _ => SearchView::Malformed,
        }
    } else {
        scan_runtimes(runtimes.drop_first(), name, os)
    }
}

/// The simulator to use, given the list that the tool printed: the member
/// `devices` of the list holds, for each runtime, the simulators of that
/// runtime. A list without that member holds no simulator.
pub open spec fn search_simulator(
    listing: Option<JsonModel>,
    name: Seq<char>,
    os: Seq<char>,
) -> SearchView {
    match listing {
        None => SearchView::Malformed,
        Some(document) => match member(document, "devices"@) {
            None => SearchView::NotFound,
            Some(JsonModel::Object(runtimes)) => scan_runtimes(runtimes, name, os),
            Some(_) => SearchView::Malformed,
        },
    }
}

/// The simulator at place `j` in the list of the runtime at place `i`.
pub open spec fn device_at(runtimes: Seq<(Seq<char>, JsonModel)>, i: int, j: int) -> JsonModel {
    runtimes[i].1->Array_0[j]
}

/// Some runtime whose name holds the operating system version lists a
/// simulator that fits.
pub open spec fn offers(
    runtimes: Seq<(Seq<char>, JsonModel)>,
    name: Seq<char>,
    os: Seq<char>,
) -> bool {
    exists|i: int, j: int|
        0 <= i < runtimes.len() && has_infix(runtimes[i].0, os) && runtimes[i].1 is Array && 0 <= j
            < runtimes[i].1->Array_0.len() && device_matches(
            #[trigger] device_at(runtimes, i, j),
            name,
        )
}

fn text_is(value: &serde_json::Value, key: &str, wanted: &str) -> (r: bool)
    ensures
        r == (text_member(json_model(*value), key@) == Some(wanted@)),
{
    match get_text(value, key) {
        Some(text) => same_text(text.as_str(), wanted),
        None => false,
    }
}

fn fits(device: &serde_json::Value, name: &str) -> (r: bool)
    ensures
        r == device_matches(json_model(*device), name@),
{
    let available = match get_flag(device, "isAvailable") {
        Some(flag) => flag,
        None => false,
    };
    text_is(device, "name", name) && available && text_is(device, "state", "Shutdown")
}

fn scan_device_list(
    devices: &Vec<serde_json::Value>,
    name: &str,
    Ghost(models): Ghost<Seq<JsonModel>>,
) -> (r: Search)
    requires
        items_match(devices@, models),
    ensures
        r@ == scan_devices(models, name@),
{
    let mut i: usize = 0;
    assert(models.skip(0) =~= models);
    while i < devices.len()
        invariant
            i <= devices.len(),
            items_match(devices@, models),
            scan_devices(models, name@) == scan_devices(models.skip(i as int), name@),
        decreases devices.len() - i,
    {
        assert(models.skip(i as int).drop_first() =~= models.skip(i + 1));
        assert(models.skip(i as int)[0] == models[i as int]);
        if fits(&devices[i], name) {
            return match get_text(&devices[i], "udid") {
                Some(udid) => Search::Found(udid),
                None => Search::Malformed,
            };
        }
        i += 1;
    }
    Search::NotFound
}

/// Looks through the list of simulators that the tool printed for the first
/// one that has the given name, is available and is shut down, among the
/// runtimes whose name holds the given operating system version.
pub fn find_simulator(listing: &str, name: &str, os: &str) -> (r: Search)
    ensures
        r@ == search_simulator(json_parse(listing@), name@, os@),
{
    let document = match parse_value(listing) {
        Ok(document) => document,
        Err(_) => { return Search::Malformed; },
    };
    let devices = match value_get(&document, "devices") {
        Some(devices) => devices,
        None => { return Search::NotFound; },
    };
    let runtimes = match value_members(devices) {
        Some(runtimes) => runtimes,
        None => { return Search::Malformed; },
    };
    let ghost models = json_model(*devices)->Object_0;
    let mut i: usize = 0;
    assert(models.skip(0) =~= models);
    while i < runtimes.len()
        invariant
            i <= runtimes.len(),
            members_match(runtimes@, models),
            search_simulator(json_parse(listing@), name@, os@) == scan_runtimes(
                models,
                name@,
                os@,
            ),
            scan_runtimes(models, name@, os@) == scan_runtimes(models.skip(i as int), name@, os@),
        decreases runtimes.len() - i,
    {
        assert(models.skip(i as int).drop_first() =~= models.skip(i + 1));
        assert(models.skip(i as int)[0] == models[i as int]);
        let runtime = runtimes[i].0;
        let listed = runtimes[i].1;
        if contains(runtime.as_str(), os) {
            match value_as_array(listed) {
                Some(items) => {
                    let ghost item_models = json_model(*listed)->Array_0;
                    match scan_device_list(items, name, Ghost(item_models)) {
                        Search::NotFound => {},
                        found => { return found; },
                    }
                },
                None => { return Search::Malformed; },
            }
        }
        i += 1;
    }
    Search::NotFound
}

/// A simulator is found in a list only if one in the list fits.
pub proof fn lemma_found_device_fits(devices: Seq<JsonModel>, name: Seq<char>)
    requires
        scan_devices(devices, name) is Found,
    ensures
        exists|j: int| 0 <= j < devices.len() && device_matches(#[trigger] devices[j], name),
    decreases devices.len(),
{
    if !device_matches(devices[0], name) {
        lemma_found_device_fits(devices.drop_first(), name);
        let j = choose|j: int|
            0 <= j < devices.drop_first().len() && device_matches(
                #[trigger] devices.drop_first()[j],
                name,
            );
        assert(devices[j + 1] == devices.drop_first()[j]);
    }
}

/// A simulator is found among the runtimes only if a runtime of the wanted
/// operating system lists one that fits.
pub proof fn lemma_found_is_offered(
    runtimes: Seq<(Seq<char>, JsonModel)>,
    name: Seq<char>,
    os: Seq<char>,
)
    requires
        scan_runtimes(runtimes, name, os) is Found,
    ensures
        offers(runtimes, name, os),
    decreases runtimes.len(),
{
    let rest = runtimes.drop_first();
    if has_infix(runtimes[0].0, os) && scan_devices(runtimes[0].1->Array_0, name) is Found {
        let devices = runtimes[0].1->Array_0;
        lemma_found_device_fits(devices, name);
        let j = choose|j: int|
            0 <= j < devices.len() && device_matches(#[trigger] devices[j], name);
        assert(device_matches(device_at(runtimes, 0, j), name));
    } else {
        lemma_found_is_offered(rest, name, os);
        let (i, j) = choose|i: int, j: int|
            0 <= i < rest.len() && has_infix(rest[i].0, os) && rest[i].1 is Array && 0 <= j
                < rest[i].1->Array_0.len() && device_matches(
                #[trigger] device_at(rest, i, j),
                name,
            );
        assert(rest[i] == runtimes[i + 1]);
        assert(device_matches(device_at(runtimes, i + 1, j), name));
    }
}

/// A list in which no simulator is found holds none that fits.
pub proof fn lemma_not_found_device_fits_none(devices: Seq<JsonModel>, name: Seq<char>)
    requires
        scan_devices(devices, name) is NotFound,
    ensures
        forall|j: int| 0 <= j < devices.len() ==> !device_matches(#[trigger] devices[j], name),
    decreases devices.len(),
{
    if devices.len() > 0 {
        lemma_not_found_device_fits_none(devices.drop_first(), name);
        assert forall|j: int| 0 <= j < devices.len() implies !device_matches(
            #[trigger] devices[j],
            name,
        ) by {
            if j > 0 {
                assert(devices[j] == devices.drop_first()[j - 1]);
            }
        }
    }
}

/// Where the search through the runtimes finds no simulator, no runtime of
/// the wanted operating system lists one that fits: a simulator is created
/// only when there is none to use.
pub proof fn lemma_not_found_is_not_offered(
    runtimes: Seq<(Seq<char>, JsonModel)>,
    name: Seq<char>,
    os: Seq<char>,
)
    requires
        scan_runtimes(runtimes, name, os) is NotFound,
    ensures
        !offers(runtimes, name, os),
    decreases runtimes.len(),
{
    if runtimes.len() > 0 {
        let rest = runtimes.drop_first();
        lemma_not_found_is_not_offered(rest, name, os);
        if has_infix(runtimes[0].0, os) {
            lemma_not_found_device_fits_none(runtimes[0].1->Array_0, name);
        }
        assert forall|i: int, j: int|
            0 <= i < runtimes.len() && has_infix(runtimes[i].0, os) && runtimes[i].1 is Array && 0
                <= j < runtimes[i].1->Array_0.len() implies !device_matches(
            #[trigger] device_at(runtimes, i, j),
            name,
        ) by {
            if i > 0 {
                assert(runtimes[i] == rest[i - 1]);
                assert(device_at(runtimes, i, j) == device_at(rest, i - 1, j));
            }
        }
    }
}

/// Where no runtime of the wanted operating system lists a simulator that
/// has the wanted name, is available and is shut down, the search finds
/// none.
pub proof fn lemma_no_match_is_not_found(listing: Option<JsonModel>, name: Seq<char>, os: Seq<char>)
    requires
        listing matches Some(document) ==> (member(document, "devices"@) matches Some(
            JsonModel::Object(runtimes),
        ) ==> !offers(runtimes, name, os)),
    ensures
        !(search_simulator(listing, name, os) is Found),
{
    if search_simulator(listing, name, os) is Found {
        let runtimes = member(listing->0, "devices"@)->0->Object_0;
        lemma_found_is_offered(runtimes, name, os);
    }
}

} // verus!

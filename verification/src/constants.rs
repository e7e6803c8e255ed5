//! What is fixed about the installation: the controller's address and
//! endpoints, the number of schedules, and the table of zone names.

use crate::text::same_text;
use vstd::prelude::*;
use vstd::string::StringExecFns;

verus! {

/// The controller's address where no configuration names another.
pub const DEFAULT_IZONE_IP: &'static str = "http://192.168.1.130";

/// The path that queries are posted to.
pub const QUERY_URL_SUFFIX: &'static str = "/iZoneRequestV2";

/// The path that commands are posted to.
pub const COMMAND_URL_SUFFIX: &'static str = "/iZoneCommandV2";

/// The number of schedules that the controller stores; their indices start at 0.
pub const MAX_SCHEDULES: u8 = 8;

/// The number of zones in the table of zone names; their indices start at 0.
pub const ZONE_COUNT: u8 = 8;

/// What a configuration file may hold.
#[derive(Clone, Debug)]
pub struct Config {
    /// The controller's address, scheme included.
    pub izone_ip: Option<String>,
}

/// The name of the zone with the given index.
pub open spec fn zone_name(index: int) -> Seq<char> {
    if index == 0 {
        "kitchen"@
    } else if index == 1 {
        "theatre"@
    } else if index == 2 {
        "living"@
    } else if index == 3 {
        "master"@
    } else if index == 4 {
        "work"@
    } else if index == 5 {
        "guest"@
    } else if index == 6 {
        "rayden"@
    } else {
        "rumpus"@
    }
}

/// `index` is the zone called `name`.
pub open spec fn is_zone(name: Seq<char>, index: int) -> bool {
    0 <= index < ZONE_COUNT && zone_name(index) == name
}

/// The index of the zone called `name`, if there is such a zone.
pub open spec fn zone_index_of(name: Seq<char>) -> Option<u8> {
    if exists|i: int| is_zone(name, i) {
        Some((choose|i: int| is_zone(name, i)) as u8)
    } else {
        None
    }
}

/// No two zones share a name.
pub proof fn lemma_zone_names_differ(i: int, j: int)
    requires
        0 <= i < ZONE_COUNT,
        0 <= j < ZONE_COUNT,
        zone_name(i) == zone_name(j),
    ensures
        i == j,
{
    reveal_strlit("kitchen");
    reveal_strlit("theatre");
    reveal_strlit("living");
    reveal_strlit("master");
    reveal_strlit("work");
    reveal_strlit("guest");
    reveal_strlit("rayden");
    reveal_strlit("rumpus");
    let a = zone_name(i);
    let b = zone_name(j);
    assert(a.len() == b.len());
    assert(a[0] == b[0]);
    assert(a[1] == b[1]);
    assert(a[2] == b[2]);
}

/// Every zone is found under its own name.
pub proof fn lemma_zone_lookup(index: int)
    requires
        0 <= index < ZONE_COUNT,
    ensures
        zone_index_of(zone_name(index)) == Some(index as u8),
{
    assert(is_zone(zone_name(index), index));
    let found = choose|i: int| is_zone(zone_name(index), i);
    lemma_zone_names_differ(found, index);
}

/// The name of the zone with the given index, if there is such a zone.
pub fn zone_name_at(index: u8) -> (r: Option<&'static str>)
    ensures
        match r {
            Some(name) => index < ZONE_COUNT && name@ == zone_name(index as int),
            None => index >= ZONE_COUNT,
        },
{
    if index < ZONE_COUNT {
        Some(name_of(index))
    } else {
        None
    }
}

fn name_of(index: u8) -> (r: &'static str)
    requires
        index < ZONE_COUNT,
    ensures
        r@ == zone_name(index as int),
{
    if index == 0 {
        "kitchen"
    } else if index == 1 {
        "theatre"
    } else if index == 2 {
        "living"
    } else if index == 3 {
        "master"
    } else if index == 4 {
        "work"
    } else if index == 5 {
        "guest"
    } else if index == 6 {
        "rayden"
    } else {
        "rumpus"
    }
}

/// Looks a zone up by its name, which must be written exactly as in the table.
pub fn zone_index(name: &str) -> (r: Option<u8>)
    ensures
        r == zone_index_of(name@),
        r matches Some(i) ==> i < ZONE_COUNT && zone_name(i as int) == name@,
        r is None ==> forall|i: int| 0 <= i < ZONE_COUNT ==> zone_name(i) != name@,
{
    let mut i: u8 = 0;
    while i < ZONE_COUNT
        invariant
            i <= ZONE_COUNT,
            forall|k: int| 0 <= k < i ==> zone_name(k) != name@,
        decreases ZONE_COUNT - i,
    {
        if same_text(name_of(i), name) {
            proof {
                assert(is_zone(name@, i as int));
                let found = choose|k: int| is_zone(name@, k);
                lemma_zone_names_differ(found, i as int);
            }
            return Some(i);
        }
        i += 1;
    }
    None
}

/// The zone names in the order of their indices, separated by `", "`.
pub open spec fn zone_list(count: int) -> Seq<char>
    decreases count,
{
    if count <= 0 {
        Seq::empty()
    } else if count == 1 {
        zone_name(0)
    } else {
        zone_list(count - 1) + ", "@ + zone_name(count - 1)
    }
}

/// `part` stands somewhere in `whole`.
pub open spec fn occurs_in(part: Seq<char>, whole: Seq<char>) -> bool {
    exists|at: int|
        0 <= at && at + part.len() <= whole.len() && #[trigger] whole.subrange(
            at,
            at + part.len(),
        ) == part
}

/// What stands in a text stands in every text that holds that text.
pub proof fn lemma_occurs_within(part: Seq<char>, before: Seq<char>, whole: Seq<char>, after: Seq<char>)
    requires
        occurs_in(part, whole),
    ensures
        occurs_in(part, before + whole + after),
{
    let at = choose|at: int|
        0 <= at && at + part.len() <= whole.len() && #[trigger] whole.subrange(
            at,
            at + part.len(),
        ) == part;
    let all = before + whole + after;
    let there = before.len() + at;
    assert(all.subrange(there, there + part.len()) =~= whole.subrange(at, at + part.len()));
}

/// Every text stands in itself.
pub proof fn lemma_occurs_in_itself(part: Seq<char>)
    ensures
        occurs_in(part, part),
{
    assert(part.subrange(0int, 0int + part.len()) =~= part);
}

/// The list of the first `count` zones names each of them.
pub proof fn lemma_zone_listed(index: int, count: int)
    requires
        0 <= index < count,
    ensures
        occurs_in(zone_name(index), zone_list(count)),
    decreases count,
{
    let none = Seq::<char>::empty();
    if count == 1 {
        lemma_occurs_in_itself(zone_name(0));
    } else if index == count - 1 {
        lemma_occurs_in_itself(zone_name(index));
        lemma_occurs_within(zone_name(index), zone_list(count - 1) + ", "@, zone_name(index), none);
        assert(zone_list(count - 1) + ", "@ + zone_name(index) + none =~= zone_list(count));
    } else {
        lemma_zone_listed(index, count - 1);
        lemma_occurs_within(
            zone_name(index),
            none,
            zone_list(count - 1),
            ", "@ + zone_name(count - 1),
        );
        assert(none + zone_list(count - 1) + (", "@ + zone_name(count - 1)) =~= zone_list(count));
    }
}

/// The names of all zones, for a message that lists them.
pub fn zone_names_text() -> (r: String)
    ensures
        r@ == zone_list(ZONE_COUNT as int),
{
    let mut out = String::from_str(name_of(0));
    let mut i: u8 = 1;
    while i < ZONE_COUNT
        invariant
            1 <= i <= ZONE_COUNT,
            out@ == zone_list(i as int),
        decreases ZONE_COUNT - i,
    {
        out.append(", ");
        out.append(name_of(i));
        i += 1;
    }
    out
}

/// Whether a configuration was found and names an address.
pub open spec fn names_address(candidate: Option<Config>) -> bool {
    candidate matches Some(config) && config.izone_ip is Some
}

/// `i` is the first candidate that names an address.
pub open spec fn is_first_address(candidates: Seq<Option<Config>>, i: int) -> bool {
    &&& 0 <= i < candidates.len()
    &&& names_address(candidates[i])
    &&& forall|k: int| 0 <= k < i ==> !names_address(#[trigger] candidates[k])
}

/// Picks the controller's address from what the configuration files gave,
/// in the order in which they are searched: the first one that names an
/// address decides, and without any the default address is used.
pub fn load_config(candidates: &Vec<Option<Config>>) -> (r: String)
    ensures
        (exists|i: int|
            is_first_address(candidates@, i) && r@ == candidates@[i]->0.izone_ip->0@) || ((forall|
            i: int,
        |
            0 <= i < candidates.len() ==> !names_address(#[trigger] candidates@[i])) && r@
            == DEFAULT_IZONE_IP@),
{
    let mut i: usize = 0;
    while i < candidates.len()
        invariant
            i <= candidates.len(),
            forall|k: int| 0 <= k < i ==> !names_address(#[trigger] candidates@[k]),
        decreases candidates.len() - i,
    {
        match &candidates[i] {
            Some(config) => match &config.izone_ip {
                Some(address) => {
                    assert(is_first_address(candidates@, i as int));
                    return address.clone();
                },
                None => {},
            },
            None => {},
        }
        i += 1;
    }
    String::from_str(DEFAULT_IZONE_IP)
}

} // verus!

use izone::constants::{
    load_config, zone_index, zone_name_at, zone_names_text, Config, COMMAND_URL_SUFFIX,
    DEFAULT_IZONE_IP, MAX_SCHEDULES, QUERY_URL_SUFFIX, ZONE_COUNT,
};

#[test]
fn fixed_values() {
    assert_eq!(DEFAULT_IZONE_IP, "http://192.168.1.130");
    assert_eq!(QUERY_URL_SUFFIX, "/iZoneRequestV2");
    assert_eq!(COMMAND_URL_SUFFIX, "/iZoneCommandV2");
    assert_eq!(MAX_SCHEDULES, 8);
    assert_eq!(ZONE_COUNT, 8);
}

#[test]
fn zones_by_name() {
    assert_eq!(zone_index("kitchen"), Some(0));
    assert_eq!(zone_index("theatre"), Some(1));
    assert_eq!(zone_index("living"), Some(2));
    assert_eq!(zone_index("master"), Some(3));
    assert_eq!(zone_index("work"), Some(4));
    assert_eq!(zone_index("guest"), Some(5));
    assert_eq!(zone_index("rayden"), Some(6));
    assert_eq!(zone_index("rumpus"), Some(7));
}

#[test]
fn unknown_zone_names() {
    assert_eq!(zone_index("attic"), None);
    assert_eq!(zone_index(""), None);
    assert_eq!(zone_index("Kitchen"), None);
    assert_eq!(zone_index("kitchen "), None);
    assert_eq!(zone_index("kitche"), None);
    assert_eq!(zone_index("0"), None);
}

#[test]
fn zone_names_by_index() {
    assert_eq!(zone_name_at(0), Some("kitchen"));
    assert_eq!(zone_name_at(7), Some("rumpus"));
    assert_eq!(zone_name_at(8), None);
    assert_eq!(zone_name_at(255), None);
    for index in 0..ZONE_COUNT {
        assert_eq!(zone_index(zone_name_at(index).unwrap()), Some(index));
    }
}

#[test]
fn list_of_zone_names() {
    assert_eq!(
        zone_names_text(),
        "kitchen, theatre, living, master, work, guest, rayden, rumpus"
    );
}

fn found(address: &str) -> Option<Config> {
    Some(Config { izone_ip: Some(address.to_string()) })
}

#[test]
fn address_without_configuration() {
    assert_eq!(load_config(&vec![]), "http://192.168.1.130");
    assert_eq!(load_config(&vec![None, None, None]), "http://192.168.1.130");
    assert_eq!(
        load_config(&vec![Some(Config { izone_ip: None }), None]),
        "http://192.168.1.130"
    );
}

#[test]
fn first_configured_address_wins() {
    assert_eq!(load_config(&vec![found("http://10.0.0.1")]), "http://10.0.0.1");
    assert_eq!(
        load_config(&vec![found("http://10.0.0.1"), found("http://10.0.0.2")]),
        "http://10.0.0.1"
    );
    assert_eq!(
        load_config(&vec![None, found("http://10.0.0.2"), found("http://10.0.0.3")]),
        "http://10.0.0.2"
    );
    assert_eq!(
        load_config(&vec![Some(Config { izone_ip: None }), None, found("http://10.0.0.3")]),
        "http://10.0.0.3"
    );
    assert_eq!(load_config(&vec![found("")]), "");
}

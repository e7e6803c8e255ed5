use izone::json::{empty_json_object, DecodeError, Fault, Json, Member};

fn object(members: Vec<(&str, Json)>) -> Json {
    Json::Object(
        members
            .into_iter()
            .map(|(key, value)| Member { key: key.to_string(), value })
            .collect(),
    )
}

#[test]
fn members_by_key() {
    let value = object(vec![("A", Json::Int(1)), ("B", Json::Bool(true)), ("A", Json::Int(2))]);
    assert!(matches!(value.get("A"), Some(Json::Int(1))));
    assert!(matches!(value.get("B"), Some(Json::Bool(true))));
    assert!(value.get("C").is_none());
    assert!(value.get("a").is_none());
    assert!(value.get("").is_none());
}

#[test]
fn members_of_what_is_no_object() {
    assert!(Json::Null.get("A").is_none());
    assert!(Json::Int(1).get("A").is_none());
    assert!(Json::Array(vec![Json::Int(1)]).get("0").is_none());
    assert!(Json::Str("A".to_string()).get("A").is_none());
}

#[test]
fn kinds_of_values() {
    assert!(empty_json_object().is_object());
    assert!(object(vec![("A", Json::Null)]).is_object());
    assert!(!Json::Null.is_object());
    assert!(!Json::Array(vec![]).is_object());
    assert!(Json::Null.is_null());
    assert!(!Json::Int(0).is_null());
    assert!(!empty_json_object().is_null());
    assert!(matches!(empty_json_object(), Json::Object(members) if members.is_empty()));
}

#[test]
fn integers_within_bounds() {
    let value = object(vec![("A", Json::Int(7)), ("T", Json::Str("7".to_string()))]);
    assert_eq!(value.read_int("A", 0, 255, true), Ok(7));
    assert_eq!(value.read_int("A", 0, 7, true), Ok(7));
    assert_eq!(
        value.read_int("A", 0, 6, true),
        Err(DecodeError { field: "A", fault: Fault::OutOfRange })
    );
    assert_eq!(
        value.read_int("A", -3, 0, true),
        Err(DecodeError { field: "A", fault: Fault::OutOfRange })
    );
    assert_eq!(value.read_int("B", 0, 255, false), Ok(0));
    assert_eq!(
        value.read_int("B", 0, 255, true),
        Err(DecodeError { field: "B", fault: Fault::Missing })
    );
    assert_eq!(
        value.read_int("T", 0, 255, false),
        Err(DecodeError { field: "T", fault: Fault::WrongType })
    );
}

#[test]
fn integers_that_may_be_null() {
    let value = object(vec![("A", Json::Int(7)), ("N", Json::Null), ("T", Json::Bool(false))]);
    assert_eq!(value.read_nullable_int("A", 0, 255), Ok(Some(7)));
    assert_eq!(value.read_nullable_int("N", 0, 255), Ok(None));
    assert_eq!(value.read_nullable_int("B", 0, 255), Ok(None));
    assert_eq!(
        value.read_nullable_int("A", 0, 6),
        Err(DecodeError { field: "A", fault: Fault::OutOfRange })
    );
    assert_eq!(
        value.read_nullable_int("T", 0, 255),
        Err(DecodeError { field: "T", fault: Fault::WrongType })
    );
}

#[test]
fn flags() {
    let value = object(vec![
        ("On", Json::Int(1)),
        ("Off", Json::Int(0)),
        ("Two", Json::Int(2)),
        ("Big", Json::Int(128)),
        ("True", Json::Bool(true)),
    ]);
    assert_eq!(value.read_flag("On", true), Ok(true));
    assert_eq!(value.read_flag("Off", true), Ok(false));
    assert_eq!(
        value.read_flag("Two", true),
        Err(DecodeError { field: "Two", fault: Fault::InvalidBoolean })
    );
    assert_eq!(
        value.read_flag("Big", true),
        Err(DecodeError { field: "Big", fault: Fault::OutOfRange })
    );
    assert_eq!(
        value.read_flag("True", false),
        Err(DecodeError { field: "True", fault: Fault::WrongType })
    );
    assert_eq!(value.read_flag("None", false), Ok(false));
    assert_eq!(
        value.read_flag("None", true),
        Err(DecodeError { field: "None", fault: Fault::Missing })
    );
}

#[test]
fn texts() {
    let value = object(vec![
        ("T", Json::Str("OK".to_string())),
        ("E", Json::Str(String::new())),
        ("N", Json::Null),
        ("I", Json::Int(1)),
    ]);
    assert_eq!(value.read_text("T", true), Ok("OK".to_string()));
    assert_eq!(value.read_text("E", true), Ok(String::new()));
    assert_eq!(value.read_text("X", false), Ok(String::new()));
    assert_eq!(
        value.read_text("X", true),
        Err(DecodeError { field: "X", fault: Fault::Missing })
    );
    assert_eq!(
        value.read_text("N", false),
        Err(DecodeError { field: "N", fault: Fault::WrongType })
    );
    assert_eq!(value.read_nullable_text("T"), Ok(Some("OK".to_string())));
    assert_eq!(value.read_nullable_text("N"), Ok(None));
    assert_eq!(value.read_nullable_text("X"), Ok(None));
    assert_eq!(
        value.read_nullable_text("I"),
        Err(DecodeError { field: "I", fault: Fault::WrongType })
    );
}

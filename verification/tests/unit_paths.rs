use systemd_units::error::ErrorKind;
use systemd_units::unit_path::{service_to_unit_path, UnitReference};

const ROOT: &str = "/org/freedesktop/systemd1/unit/";

#[test]
fn special_characters_are_escaped() {
    assert_eq!(
        service_to_unit_path("a.b-c:d"),
        "/org/freedesktop/systemd1/unit/a_2eb_2dc_3ad"
    );
}

#[test]
fn each_special_character_has_its_own_code() {
    assert_eq!(service_to_unit_path("."), format!("{ROOT}_2e"));
    assert_eq!(service_to_unit_path("-"), format!("{ROOT}_2d"));
    assert_eq!(service_to_unit_path(":"), format!("{ROOT}_3a"));
}

#[test]
fn repeated_special_characters_are_all_escaped() {
    assert_eq!(service_to_unit_path("a..b--"), format!("{ROOT}a_2e_2eb_2d_2d"));
}

#[test]
fn plain_name_is_unchanged() {
    assert_eq!(service_to_unit_path("myservice"), format!("{ROOT}myservice"));
    assert_eq!(service_to_unit_path("My_Service_42"), format!("{ROOT}My_Service_42"));
}

#[test]
fn other_characters_are_left_alone() {
    assert_eq!(service_to_unit_path("a b@c/d"), format!("{ROOT}a b@c/d"));
    assert_eq!(service_to_unit_path("h\u{e9}llo"), format!("{ROOT}h\u{e9}llo"));
}

#[test]
fn empty_name_gives_the_root() {
    assert_eq!(service_to_unit_path(""), ROOT);
}

#[test]
fn escaped_name_is_escaped_no_further() {
    let once = service_to_unit_path("a.b-c:d");
    let name = &once[ROOT.len()..];
    assert_eq!(service_to_unit_path(name), once);
}

#[test]
fn names_without_codes_have_distinct_paths() {
    let names = ["a.b", "a-b", "a:b", "ab", "a_b", "a.b.", ".a.b", "a_2b", "a2eb"];
    for (i, first) in names.iter().enumerate() {
        for second in names.iter().skip(i + 1) {
            assert_ne!(service_to_unit_path(first), service_to_unit_path(second));
        }
    }
}

#[test]
fn name_that_holds_a_code_shares_its_path() {
    assert_eq!(service_to_unit_path("a_2eb"), service_to_unit_path("a.b"));
}

#[test]
fn service_name_gives_a_unit_reference() {
    let unit = match UnitReference::for_service("myservice.service") {
        Ok(unit) => unit,
        Err(error) => panic!("refused: {}", error.message),
    };
    assert_eq!(unit.path(), "/org/freedesktop/systemd1/unit/myservice_2eservice");
    assert_eq!(unit.into_path(), "/org/freedesktop/systemd1/unit/myservice_2eservice");
}

#[test]
fn name_with_single_slashes_gives_a_unit_reference() {
    let unit = match UnitReference::for_service("a/b-c") {
        Ok(unit) => unit,
        Err(error) => panic!("refused: {}", error.message),
    };
    assert_eq!(unit.path(), "/org/freedesktop/systemd1/unit/a/b_2dc");
}

fn refusal(name: &str) -> (ErrorKind, String) {
    match UnitReference::for_service(name) {
        Ok(unit) => panic!("accepted as {}", unit.path()),
        Err(error) => (error.kind, error.message),
    }
}

#[test]
fn name_with_a_space_is_refused() {
    assert_eq!(
        refusal("bad name"),
        (
            ErrorKind::PathEncoding,
            "Cannot convert unit name `bad name` to service path".to_string()
        )
    );
}

#[test]
fn empty_name_is_refused() {
    assert_eq!(
        refusal(""),
        (ErrorKind::PathEncoding, "Cannot convert unit name `` to service path".to_string())
    );
}

#[test]
fn name_with_slash_at_an_end_is_refused() {
    assert_eq!(refusal("/a").0, ErrorKind::PathEncoding);
    assert_eq!(refusal("a/").0, ErrorKind::PathEncoding);
}

#[test]
fn name_with_double_slash_is_refused() {
    assert_eq!(refusal("a//b").0, ErrorKind::PathEncoding);
}

#[test]
fn name_outside_ascii_is_refused() {
    assert_eq!(refusal("h\u{e9}llo").0, ErrorKind::PathEncoding);
    assert_eq!(refusal("a@b").0, ErrorKind::PathEncoding);
}

use pop_upgrade::codename::Codename;
use pop_upgrade::eol::{is_eol_on, ymd_to_utc, EolDate, EolStatus};

#[test]
fn eol_exceeded() {
    let disco = EolDate::from(Codename::Disco);
    assert_eq!(disco.status_from(ymd_to_utc(2020, 1, 18)), EolStatus::Exceeded);
    assert_eq!(disco.status_from(ymd_to_utc(2020, 2, 1)), EolStatus::Exceeded);
    assert_eq!(disco.status_from(ymd_to_utc(2021, 1, 1)), EolStatus::Exceeded);
}

#[test]
fn eol_imminent() {
    let disco = EolDate::from(Codename::Disco);
    assert_eq!(disco.status_from(ymd_to_utc(2019, 12, 30)), EolStatus::Imminent);
    assert_eq!(disco.status_from(ymd_to_utc(2020, 1, 17)), EolStatus::Imminent);
}

#[test]
fn eol_ok() {
    let disco = EolDate::from(Codename::Disco);
    assert_eq!(disco.status_from(ymd_to_utc(2019, 10, 30)), EolStatus::Supported);
    assert_eq!(disco.status_from(ymd_to_utc(2019, 12, 10)), EolStatus::Supported);
}

#[test]
fn groovy_window() {
    let groovy = EolDate::from(Codename::Groovy);
    assert_eq!(groovy.ymd, (2021, 7, 22));
    assert_eq!(groovy.status_from(ymd_to_utc(2021, 7, 15)), EolStatus::Imminent);
    assert_eq!(groovy.status_from(ymd_to_utc(2021, 7, 14)), EolStatus::Supported);
    assert!(is_eol_on(Codename::Groovy, ymd_to_utc(2021, 7, 22)));
    assert!(!is_eol_on(Codename::Noble, ymd_to_utc(2025, 1, 1)));
}

#[test]
fn eol_fetch() {
    let eol = EolDate::fetch("20.04.6 LTS (Focal Fossa)").unwrap();
    assert_eq!(eol.codename, Codename::Focal);
    assert_eq!(eol.ymd, (2030, 4, 23));
    assert!(EolDate::fetch("23.04").is_err());
    assert!(EolDate::fetch("").is_err());
}

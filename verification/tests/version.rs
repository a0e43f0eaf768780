use pop_upgrade::codename::Codename;
use pop_upgrade::version::{months_since, Version, VersionParseError};

#[test]
fn months_since_release() {
    assert_eq!(18, months_since(Version { major: 18, minor: 4, patch: 0 }, 19, 10));
    assert_eq!(3, months_since(Version { major: 19, minor: 10, patch: 0 }, 20, 1));
    assert_eq!(-3, months_since(Version { major: 18, minor: 4, patch: 0 }, 18, 1))
}

#[test]
pub fn lts_check() {
    assert!(Version { major: 18, minor: 4, patch: 0 }.is_lts());
    assert!(!Version { major: 18, minor: 10, patch: 0 }.is_lts());
    assert!(!Version { major: 19, minor: 4, patch: 0 }.is_lts());
    assert!(!Version { major: 19, minor: 10, patch: 0 }.is_lts());
    assert!(Version { major: 20, minor: 4, patch: 0 }.is_lts());
}

#[test]
pub fn lts_parse() {
    assert_eq!(
        Version { major: 18, minor: 4, patch: 1 },
        "18.04.1 LTS".parse::<Version>().unwrap()
    )
}

#[test]
pub fn lts_next() {
    assert_eq!(
        Version { major: 18, minor: 10, patch: 0 },
        Version { major: 18, minor: 4, patch: 1 }.next_release()
    )
}

#[test]
pub fn non_lts_parse() {
    assert_eq!(Version { major: 18, minor: 10, patch: 0 }, "18.10".parse::<Version>().unwrap())
}

#[test]
pub fn non_lts_next() {
    assert_eq!(
        Version { major: 19, minor: 4, patch: 0 },
        Version { major: 18, minor: 10, patch: 0 }.next_release()
    )
}

#[test]
fn parse_errors() {
    assert!(matches!(Version::parse(""), Err(VersionParseError::NoVersion)));
    assert!(matches!(Version::parse("   \t "), Err(VersionParseError::NoVersion)));
    assert!(matches!(Version::parse("20"), Err(VersionParseError::NoMinor)));
    match Version::parse("twenty.04") {
        Err(VersionParseError::VersionNaN(s)) => assert_eq!(s, "twenty"),
        other => panic!("unexpected {:?}", other),
    }
    match Version::parse("20.x4") {
        Err(VersionParseError::VersionNaN(s)) => assert_eq!(s, "x4"),
        other => panic!("unexpected {:?}", other),
    }
    match Version::parse("256.04") {
        Err(VersionParseError::VersionNaN(s)) => assert_eq!(s, "256"),
        other => panic!("unexpected {:?}", other),
    }
}

#[test]
fn parse_patch_and_sign() {
    assert_eq!(Version::parse("  22.04.3 LTS (Jammy)").unwrap(), Version { major: 22, minor: 4, patch: 3 });
    assert_eq!(Version::parse("+20.+10").unwrap(), Version { major: 20, minor: 10, patch: 0 });
    assert_eq!(Version::parse("20.04.x").unwrap(), Version { major: 20, minor: 4, patch: 0 });
    assert_eq!(Version::parse("20.04.7.9").unwrap(), Version { major: 20, minor: 4, patch: 7 });
}

#[test]
fn version_text() {
    assert_eq!(Version { major: 18, minor: 4, patch: 0 }.to_text(), "18.04");
    assert_eq!(Version { major: 20, minor: 10, patch: 0 }.to_text(), "20.10");
    assert_eq!(Version { major: 18, minor: 4, patch: 1 }.to_text(), "18.041");
    let v = Version { major: 24, minor: 4, patch: 0 };
    assert_eq!(Version::parse(&v.to_text()).unwrap(), v);
}

#[test]
fn codename_versions() {
    assert_eq!(Codename::from_version(Version { major: 22, minor: 4, patch: 2 }), Some(Codename::Jammy));
    assert_eq!(Codename::from_version(Version { major: 23, minor: 4, patch: 0 }), None);
    assert_eq!(Codename::Noble.version(), Version { major: 24, minor: 4, patch: 0 });
    assert_eq!("impish".parse::<Codename>().unwrap(), Codename::Impish);
    assert!("Impish".parse::<Codename>().is_err());
    assert_eq!(Codename::Focal.as_str(), "focal");
}

#[test]
fn codename_dates() {
    assert_eq!(Codename::Focal.eol_date(), (2030, 4, 23));
    assert_eq!(Codename::Groovy.eol_date(), (2021, 7, 22));
    assert_eq!(Codename::Disco.eol_date(), (2020, 1, 18));
    assert_eq!(Codename::Hirsute.eol_date(), (2022, 1, 22));
    assert_eq!(Codename::Jammy.release_timestamp(), 1_650_492_000);
    assert_eq!(Codename::Bionic.release_date(), (2018, 4, 26));
}

#[test]
fn months_since_wraps_years_above_i32() {
    assert_eq!(-222, months_since(Version { major: 18, minor: 4, patch: 0 }, u32::MAX, 10));
}

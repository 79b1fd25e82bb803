use ota_provision::version::Version;

fn parsed(text: &str) -> Version {
    Version::parse(text).unwrap()
}

#[test]
fn parse_reads_every_part() {
    let version = parsed("1.2.3-alpha.1+build.5");
    assert_eq!(version.major, 1);
    assert_eq!(version.minor, 2);
    assert_eq!(version.patch, 3);
    assert_eq!(version.pre, "alpha.1");
    assert_eq!(version.build, "build.5");
    assert!(version.is_prerelease());
}

#[test]
fn parse_of_release_has_empty_tags() {
    let version = parsed("10.20.30");
    assert_eq!(version, Version::release(10, 20, 30));
    assert!(!version.is_prerelease());
}

#[test]
fn parse_refuses_what_is_no_version() {
    assert_eq!(Version::parse(""), None);
    assert_eq!(Version::parse("1.2"), None);
    assert_eq!(Version::parse("1.2.03"), None);
    assert_eq!(Version::parse("1.2.x"), None);
    assert_eq!(Version::parse("1.2.3-"), None);
    assert_eq!(Version::parse(" 1.2.3"), None);
    assert_eq!(Version::parse("99999999999999999999.0.0"), None);
}

#[test]
fn numbers_are_compared_as_numbers() {
    assert!(parsed("1.2.0").is_newer_than(&parsed("1.1.9")));
    assert!(!parsed("1.1.9").is_newer_than(&parsed("1.2.0")));
    assert!(parsed("1.19.0").is_newer_than(&parsed("1.5.0")));
    assert!(parsed("2.0.0").is_newer_than(&parsed("1.99.99")));
    assert!(parsed("1.0.10").is_newer_than(&parsed("1.0.9")));
    assert!(!parsed("1.0.9").is_newer_than(&parsed("1.0.10")));
}

#[test]
fn major_decides_before_minor_and_patch() {
    assert!(parsed("2.0.0-alpha").is_newer_than(&parsed("1.9.9")));
    assert!(!parsed("1.9.9").is_newer_than(&parsed("2.0.0-alpha")));
}

#[test]
fn no_version_is_newer_than_itself() {
    assert!(!parsed("1.1.9").is_newer_than(&parsed("1.1.9")));
    assert!(!parsed("1.0.0-rc.1").is_newer_than(&parsed("1.0.0-rc.1")));
    assert!(!parsed("1.0.0+7").is_newer_than(&parsed("1.0.0+7")));
}

#[test]
fn release_is_newer_than_prerelease() {
    assert!(parsed("1.0.0").is_newer_than(&parsed("1.0.0-rc.1")));
    assert!(!parsed("1.0.0-rc.1").is_newer_than(&parsed("1.0.0")));
}

#[test]
fn prerelease_tags_follow_semver_order() {
    let ordered = [
        "1.0.0-alpha",
        "1.0.0-alpha.1",
        "1.0.0-alpha.beta",
        "1.0.0-beta",
        "1.0.0-beta.2",
        "1.0.0-beta.11",
        "1.0.0-rc.1",
        "1.0.0",
    ];
    for low in 0..ordered.len() {
        for high in 0..ordered.len() {
            let newer = parsed(ordered[high]).is_newer_than(&parsed(ordered[low]));
            assert_eq!(newer, high > low);
        }
    }
}

#[test]
fn build_metadata_decides_last() {
    assert!(parsed("1.0.0+10").is_newer_than(&parsed("1.0.0+2")));
    assert!(!parsed("1.0.0+2").is_newer_than(&parsed("1.0.0+10")));
    assert!(parsed("1.0.0+1").is_newer_than(&parsed("1.0.0")));
    assert!(parsed("1.0.1").is_newer_than(&parsed("1.0.0+99")));
    assert!(parsed("1.0.0").is_newer_than(&parsed("1.0.0-rc.1+99")));
}

#[test]
fn texts_that_are_no_tags_are_ordered_below_those_that_are() {
    let odd = Version {
        major: 1,
        minor: 0,
        patch: 0,
        pre: String::from("not a tag"),
        build: String::new(),
    };
    let tagged = parsed("1.0.0-alpha");
    assert!(tagged.is_newer_than(&odd));
    assert!(!odd.is_newer_than(&tagged));
}

#[test]
fn duplicate_of_version_is_equal() {
    let version = parsed("3.2.1-beta+x");
    assert_eq!(version.duplicate(), version);
}

#[test]
fn order_agrees_with_semver_on_parsed_versions() {
    let texts = [
        "0.0.0",
        "0.0.1",
        "0.1.0",
        "0.9.0",
        "0.10.0",
        "1.0.0-0",
        "1.0.0-1",
        "1.0.0-10",
        "1.0.0-2",
        "1.0.0-a",
        "1.0.0-a.1",
        "1.0.0-a.1.b",
        "1.0.0-a.b",
        "1.0.0-alpha+001",
        "1.0.0-alpha+1",
        "1.0.0-b",
        "1.0.0-rc.1",
        "1.0.0-rc.1+build",
        "1.0.0",
        "1.0.0+0",
        "1.0.0+00",
        "1.0.0+1",
        "1.0.0+1.a",
        "1.0.0+a",
        "1.0.1-rc.9",
        "1.0.1",
        "1.1.9",
        "1.2.0",
        "2.0.0",
        "18446744073709551615.0.0",
    ];
    for a in texts {
        for b in texts {
            let ours = parsed(a).is_newer_than(&parsed(b));
            let theirs = semver::Version::parse(a).unwrap() > semver::Version::parse(b).unwrap();
            assert_eq!(ours, theirs, "{} against {}", a, b);
        }
    }
}

#[test]
fn parsed_parts_agree_with_semver() {
    for text in ["1.2.3", "0.0.0-x.7.z.92", "7.8.9+meta.001", "3.2.1-pre.0+b-c.5"] {
        let ours = parsed(text);
        let theirs = semver::Version::parse(text).unwrap();
        assert_eq!(ours.major, theirs.major);
        assert_eq!(ours.minor, theirs.minor);
        assert_eq!(ours.patch, theirs.patch);
        assert_eq!(ours.pre, theirs.pre.as_str());
        assert_eq!(ours.build, theirs.build.as_str());
    }
}

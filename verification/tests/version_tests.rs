use node_launcher::version::{breaking_app_version, AppVersion};

fn release(major: u64, minor: u64, patch: u64) -> AppVersion {
    AppVersion::new(major, minor, patch, "", "").unwrap()
}

fn compat(v: &AppVersion) -> String {
    breaking_app_version(v).unwrap()
}

#[test]
fn major_release_collapses_minor_and_patch() {
    assert_eq!(compat(&release(3, 2, 0)), "3.x.x");
    assert_eq!(compat(&release(1, 0, 0)), "1.x.x");
    assert_eq!(compat(&release(10, 20, 30)), "10.x.x");
}

#[test]
fn zero_major_release_collapses_patch() {
    assert_eq!(compat(&release(0, 2, 2)), "0.2.x");
    assert_eq!(compat(&release(0, 10, 0)), "0.10.x");
    assert_eq!(compat(&release(0, 1, 99)), "0.1.x");
}

#[test]
fn zero_minor_release_stands_alone() {
    assert_eq!(compat(&release(0, 0, 5)), "0.0.5");
    assert_eq!(compat(&release(0, 0, 0)), "0.0.0");
    assert_eq!(compat(&release(0, 0, 123)), "0.0.123");
}

#[test]
fn pre_release_keeps_its_full_text() {
    let v = AppVersion::new(0, 2, 3, "alpha.2", "").unwrap();
    assert_eq!(compat(&v), "0.2.3-alpha.2");
    let v = AppVersion::new(3, 2, 0, "rc.1", "").unwrap();
    assert_eq!(compat(&v), "3.2.0-rc.1");
}

#[test]
fn pre_release_keeps_build_metadata() {
    let v = AppVersion::new(1, 0, 0, "rc.1", "b5").unwrap();
    assert_eq!(compat(&v), "1.0.0-rc.1+b5");
}

#[test]
fn build_metadata_alone_does_not_separate_releases() {
    let v = AppVersion::new(1, 4, 2, "", "b5").unwrap();
    assert_eq!(compat(&v), "1.x.x");
    assert_eq!(v.to_text(), "1.4.2+b5");
}

#[test]
fn largest_numbers_are_rendered_in_full() {
    assert_eq!(compat(&release(u64::MAX, 0, 0)), "18446744073709551615.x.x");
    assert_eq!(compat(&release(0, u64::MAX, 0)), "0.18446744073709551615.x");
    assert_eq!(compat(&release(0, 0, u64::MAX)), "0.0.18446744073709551615");
}

#[test]
fn same_version_gives_same_string() {
    let a = AppVersion::new(0, 2, 3, "alpha.2", "").unwrap();
    let b = AppVersion::new(0, 2, 3, "alpha.2", "").unwrap();
    assert_eq!(compat(&a), compat(&b));
    assert_eq!(compat(&a), compat(&a));
}

#[test]
fn different_pre_releases_do_not_share() {
    let a = AppVersion::new(0, 2, 3, "alpha.2", "").unwrap();
    let b = AppVersion::new(0, 2, 3, "alpha.3", "").unwrap();
    assert_ne!(compat(&a), compat(&b));
    assert_ne!(compat(&a), compat(&release(0, 2, 3)));
}

#[test]
fn tags_with_other_characters_are_refused() {
    assert!(AppVersion::new(1, 0, 0, "a/b", "").is_none());
    assert!(AppVersion::new(1, 0, 0, "", "b 5").is_none());
    assert!(AppVersion::new(1, 0, 0, "alpha_1", "").is_none());
    assert!(AppVersion::new(1, 0, 0, "alpha-1.x", "2024.01-z").is_some());
}

#[test]
fn new_keeps_the_parts() {
    let v = AppVersion::new(4, 5, 6, "beta", "77").unwrap();
    assert_eq!(v.major, 4);
    assert_eq!(v.minor, 5);
    assert_eq!(v.patch, 6);
    assert_eq!(v.pre, "beta");
    assert_eq!(v.build, "77");
}

#[test]
fn full_text_agrees_with_semver() {
    for text in ["3.2.0", "0.2.2", "0.0.5", "0.2.3-alpha.2", "1.0.0-rc.1+b5", "7.8.9+meta"] {
        let parsed = semver::Version::parse(text).unwrap();
        let v = AppVersion::new(
            parsed.major,
            parsed.minor,
            parsed.patch,
            parsed.pre.as_str(),
            parsed.build.as_str(),
        )
        .unwrap();
        assert_eq!(v.to_text(), parsed.to_string());
        assert_eq!(v.to_text(), text);
    }
}

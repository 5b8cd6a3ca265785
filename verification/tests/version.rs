use cargo_uv::version::semantic::{VersionParseError, VersionParts};
use cargo_uv::version::{BuildMetadata, Prerelease, Version};
use cargo_uv::{Action, Bumpable, Setable, VersionErrorKind};

fn version(text: &str) -> Version {
    Version::parse(text).unwrap()
}

#[test]
fn test_version_macro() {
    let basic = Version::new(1, 1, 0);
    assert_eq!(basic, version("1.1.0"));

    let mut basic_with_pre = basic.clone();
    basic_with_pre.pre = Prerelease::new("alpha").unwrap();
    assert_eq!(basic_with_pre, version("1.1.0-alpha"));
    let mut basic_with_pre_and_build = basic_with_pre.clone();
    basic_with_pre_and_build.build = BuildMetadata::new("test");
    assert_ne!(basic_with_pre, basic_with_pre_and_build);
    assert_eq!(basic_with_pre_and_build, version("1.1.0-alpha+test"));
}

#[test]
fn bump_patch_simple() {
    let mut version = Version::new(0, 1, 1);

    version.try_bump_patch().unwrap();
    assert_eq!(version, Version::new(0, 1, 2), "Bump 0.1.1 -> 0.1.2");
    version.try_bump_patch().unwrap();
    assert_eq!(version, Version::new(0, 1, 3), "Bump 0.1.2 -> 0.1.3");
}

#[test]
fn bump_patch_pre() {
    let mut v = version("0.1.1-alpha.2");

    assert_eq!(v.pre, Prerelease::new("alpha.2").unwrap());
    v.try_bump_patch().unwrap();
    assert_eq!(v, Version::new(0, 1, 1));
    assert!(v > version("0.1.1-alpha.2"));
}

#[test]
fn bump_minor_simple() {
    let mut version = Version::new(0, 1, 1);

    version.try_bump_minor(false).unwrap();
    assert_eq!(version, Version::new(0, 2, 0), "Bump 0.1.1 -> 0.2.0");
    version.try_bump_minor(false).unwrap();
    assert_eq!(version, Version::new(0, 3, 0), "Bump 0.2.0 -> 0.3.0");
}

#[test]
fn bump_minor_pre_force() {
    let mut v = version("0.1.1-alpha.2");

    assert_eq!(v.pre, Prerelease::new("alpha.2").unwrap());
    v.try_bump_minor(true).unwrap();
    assert_eq!(v, Version::new(0, 2, 0), "Bump 0.1.1-alpha.2 -> 0.2.0");
    assert!(v > version("0.1.1-alpha.2"));
}

#[test]
#[should_panic]
fn bump_minor_pre_no_force() {
    let mut v = version("0.1.1-alpha.2");

    assert_eq!(v.pre, Prerelease::new("alpha.2").unwrap());
    v.try_bump_minor(false).unwrap();
}

#[test]
fn bump_major_simple() {
    let mut version = Version::new(0, 1, 1);

    version.try_bump_major(false).unwrap();
    assert_eq!(version, Version::new(1, 0, 0), "Bump 0.1.1 -> 1.0.0");
    version.try_bump_major(false).unwrap();
    assert_eq!(version, Version::new(2, 0, 0), "Bump 1.0.0 -> 2.0.0");
}

#[test]
fn bump_major_pre() {
    let mut v = version("0.1.1-alpha.2");

    assert_eq!(v.pre, Prerelease::new("alpha.2").unwrap());
    v.try_bump_major(true).unwrap();
    assert_eq!(v, Version::new(1, 0, 0), "Bump 0.1.1-alpha.2 -> 1.0.0");
    assert!(v > version("0.1.1-alpha.2"));
}

#[test]
#[should_panic]
fn bump_major_pre_no_force() {
    let mut v = version("0.1.1-alpha.2");

    assert_eq!(v.pre, Prerelease::new("alpha.2").unwrap());
    v.try_bump_major(false).unwrap();
}

#[test]
fn minor_bump_of_a_prerelease_needs_force() {
    let mut v = version("0.1.1-alpha.2");
    let e = v.bump(Action::Minor, None, None, false).unwrap_err();
    assert_eq!(e.kind, VersionErrorKind::PrereleaseNotEmpty);
    assert_eq!(e.bump, Action::Minor);
    assert_eq!(e.msg, "Pre-release is not empty.");
    assert_eq!(e.old_version, version("0.1.1-alpha.2"));
    assert!(e.help.unwrap().contains("minor"));
    assert_eq!(v, version("0.1.1-alpha.2"));

    let bumped = v.bump(Action::Minor, None, None, true).unwrap();
    assert_eq!(bumped, version("0.2.0"));
    assert_eq!(v, version("0.2.0"));
}

#[test]
fn major_bump_error_names_major() {
    let mut v = version("0.1.1-alpha.2");
    let e = v.bump(Action::Major, None, None, false).unwrap_err();
    assert_eq!(e.kind, VersionErrorKind::PrereleaseNotEmpty);
    assert_eq!(e.bump, Action::Major);
    assert!(e.help.unwrap().contains("major"));
}

#[test]
fn pre_bump_needs_a_prerelease() {
    let mut v = version("1.0.0");
    let e = v.bump(Action::Pre, None, None, false).unwrap_err();
    assert_eq!(e.kind, VersionErrorKind::PrereleaseNotSet);
    assert_eq!(e.msg, "Prerelease not set.");
    // force does not help: there is nothing to increment
    let e = v.bump(Action::Pre, None, None, true).unwrap_err();
    assert_eq!(e.kind, VersionErrorKind::PrereleaseNotSet);
    assert_eq!(v, version("1.0.0"));
}

#[test]
fn pre_bump_increments_the_last_field() {
    let mut v = version("1.0.0-alpha.2");
    assert_eq!(v.bump(Action::Pre, None, None, false).unwrap(), version("1.0.0-alpha.3"));
    assert_eq!(v, version("1.0.0-alpha.3"));
    let mut v = version("1.0.0-alpha.1.9");
    assert_eq!(v.bump(Action::Pre, None, None, false).unwrap(), version("1.0.0-alpha.1.10"));
    let mut v = version("1.0.0-7");
    assert_eq!(v.try_bump_pre(false).unwrap(), version("1.0.0-8"));
}

#[test]
fn pre_bump_of_a_word_is_an_error_with_its_span() {
    let mut v = version("1.0.0-alpha.beta");
    let e = v.bump(Action::Pre, None, None, false).unwrap_err();
    assert_eq!(e.kind, VersionErrorKind::PrereleaseNotNumeric);
    assert_eq!(e.label, Some((6, 4)));
    assert_eq!(e.label_msg, "Invalid incrementable segment");
    assert_eq!(v, version("1.0.0-alpha.beta"));
    let mut v = version("1.0.0-rc");
    let e = v.try_bump_pre(false).unwrap_err();
    assert_eq!(e.label, Some((0, 2)));
}

#[test]
fn pre_bump_ignores_a_prerelease_override() {
    let mut v = version("1.0.0-alpha.2");
    let given = Prerelease::new("zzz").unwrap();
    assert_eq!(
        v.bump(Action::Pre, Some(given), Some(BuildMetadata::new("b1")), false).unwrap(),
        version("1.0.0-alpha.3+b1")
    );
}

#[test]
fn overrides_replace_prerelease_and_build() {
    let mut v = version("1.2.3");
    let bumped = v
        .bump(
            Action::Minor,
            Some(Prerelease::new("rc.1").unwrap()),
            Some(BuildMetadata::new("sha.5")),
            false,
        )
        .unwrap();
    assert_eq!(bumped, version("1.3.0-rc.1+sha.5"));
    assert_eq!(bumped.to_string(), "1.3.0-rc.1+sha.5");
}

#[test]
fn patch_bump_with_a_lower_prerelease_is_not_greater() {
    let mut v = version("1.0.0-beta");
    let e = v
        .bump(Action::Patch, Some(Prerelease::new("alpha").unwrap()), None, false)
        .unwrap_err();
    assert_eq!(e.kind, VersionErrorKind::NotGreater);
    assert_eq!(v, version("1.0.0-beta"));
    // forced, the same bump goes through
    let forced = v
        .bump(Action::Patch, Some(Prerelease::new("alpha").unwrap()), None, true)
        .unwrap();
    assert_eq!(forced, version("1.0.0-alpha"));
    // a higher prerelease is fine
    let mut v = version("1.0.0-beta");
    assert_eq!(
        v.bump(Action::Patch, Some(Prerelease::new("rc").unwrap()), None, false).unwrap(),
        version("1.0.0-rc")
    );
}

#[test]
fn actions_that_are_no_bump() {
    for action in [Action::SetVersion, Action::Print, Action::Tree] {
        let mut v = version("1.0.0");
        let e = v.bump(action, None, None, false).unwrap_err();
        assert_eq!(e.kind, VersionErrorKind::InvalidAction);
        assert!(!action.is_bump());
    }
    assert!(Action::Pre.is_bump());
    assert_eq!(Action::default(), Action::Print);
    assert_eq!(Action::SetVersion.to_string(), "set");
    assert_eq!(Action::Major.to_string(), "major");
}

#[test]
fn bump_at_the_limit() {
    let mut v = Version::new(1, u64::MAX, 0);
    assert!(!v.bump_fits(Action::Minor));
    assert!(v.bump_fits(Action::Major));
    let e = v.checked_bump(Action::Minor, None, None, false).unwrap_err();
    assert_eq!(e.kind, VersionErrorKind::Overflow);
    assert_eq!(v, Version::new(1, u64::MAX, 0));
    assert_eq!(
        v.checked_bump(Action::Major, None, None, false).unwrap(),
        Version::new(2, 0, 0)
    );
    let mut p = version("1.0.0-a.18446744073709551615");
    assert!(!p.bump_fits(Action::Pre));
    assert_eq!(
        p.checked_bump(Action::Pre, None, None, false).unwrap_err().kind,
        VersionErrorKind::Overflow
    );
}

#[test]
fn every_bump_goes_up() {
    let starts = ["0.0.0", "1.2.3", "1.0.0-alpha", "1.0.0-alpha.1", "9.9.9-0+build"];
    for start in starts {
        for action in [Action::Pre, Action::Patch, Action::Minor, Action::Major] {
            let old = version(start);
            let mut v = old.clone();
            if let Ok(new) = v.checked_bump(action, None, None, false) {
                assert!(old.precedes(&new), "{start} {action:?}");
                assert!(new > old);
                assert_eq!(v, new);
            } else {
                assert_eq!(v, old);
            }
        }
    }
}

#[test]
fn build_takes_no_part_in_precedence() {
    let a = version("1.0.0+a");
    let b = version("1.0.0+b");
    assert!(!a.precedes(&b));
    assert!(!b.precedes(&a));
    assert!(a != b);
    assert_eq!(a.partial_cmp(&b), None);
    assert!(version("1.0.0+zzz").precedes(&version("1.0.1+aaa")));
}

#[test]
fn version_precedence_chain() {
    let chain = [
        "1.0.0-alpha",
        "1.0.0-alpha.1",
        "1.0.0-alpha.beta",
        "1.0.0-beta",
        "1.0.0-beta.2",
        "1.0.0-beta.11",
        "1.0.0-rc.1",
        "1.0.0",
        "1.0.1",
        "1.1.0",
        "2.0.0",
    ];
    for i in 0..chain.len() {
        for j in 0..chain.len() {
            assert_eq!(version(chain[i]).precedes(&version(chain[j])), i < j);
            assert_eq!(version(chain[i]) < version(chain[j]), i < j);
            assert_eq!(version(chain[i]) == version(chain[j]), i == j);
        }
    }
}

#[test]
fn version_text_round_trip() {
    for text in ["0.0.0", "1.2.3", "1.0.0-alpha.1", "1.0.0+build.7", "10.20.30-rc.1+sha-5"] {
        assert_eq!(version(text).to_string(), text);
    }
    assert_eq!(Version::new(18446744073709551615, 0, 7).to_string(), "18446744073709551615.0.7");
}

#[test]
fn version_parse_errors() {
    assert!(matches!(Version::parse(""), Err(VersionParseError::Syntax(_))));
    assert!(matches!(Version::parse("1.0"), Err(VersionParseError::Syntax(_))));
    assert!(matches!(Version::parse("1.0.0-"), Err(VersionParseError::Syntax(_))));
    assert!(matches!(Version::parse("a.b.c"), Err(VersionParseError::Syntax(_))));
    let parts = VersionParts {
        major: 1,
        minor: 2,
        patch: 3,
        pre: "a..b".to_string(),
        build: String::new(),
    };
    assert!(Version::from_parts(&parts).is_err());
    let parts = VersionParts {
        major: 1,
        minor: 2,
        patch: 3,
        pre: "a.b".to_string(),
        build: "x".to_string(),
    };
    assert_eq!(Version::from_parts(&parts).unwrap(), version("1.2.3-a.b+x"));
}

#[test]
fn set_then_read() {
    let mut v = version("1.2.3-alpha+b");
    let new = version("4.5.6-rc.1+meta");
    assert_eq!(v.set_version(new.clone()).unwrap(), new);
    assert_eq!(v, new);
    let out = v.set_prerelease(Prerelease::new("beta").unwrap()).unwrap();
    assert_eq!(out, version("4.5.6-beta+meta"));
    assert_eq!(v, version("4.5.6-beta+meta"));
    assert_eq!(BuildMetadata::new("meta").as_str(), "meta");
    assert!(BuildMetadata::empty().is_empty());
}

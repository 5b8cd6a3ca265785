use cargo_uv::version::{Identifier, IdentifierError, Pre, PreBumpable, PreError, PreStatic, Prerelease};
use cargo_uv::Incrementable;

#[test]
fn display_prerelease() {
    let prerelease_str = "alpha.beta.1";
    let prerelease = Pre::<PreStatic>::new(prerelease_str).expect("set for test");
    let prerelease_2 = Pre::<PreStatic>::new("not.equal").expect("set for test");
    assert_eq!(&prerelease.to_string(), prerelease_str);
    assert_ne!(&prerelease_2.to_string(), prerelease_str);
}

#[test]
fn is_bumpable() {
    let bumpable =
        Pre::<PreBumpable>::from_identifiers(vec![Identifier::from_str("1").unwrap()]);
    let non_bumpable =
        Pre::<PreStatic>::from_identifiers(vec![Identifier::from_str("1").unwrap()]);

    assert!(bumpable.is_bumpable());
    assert!(!non_bumpable.is_bumpable())
}

#[test]
fn new() {
    let bumpable = Pre::<PreBumpable>::new("1").unwrap();
    let non_bumpable = Pre::<PreStatic>::new("1").unwrap();

    assert!(bumpable.is_bumpable());
    assert!(!bumpable.is_static());
    assert!(non_bumpable.is_static());
    assert!(!non_bumpable.is_bumpable());
}

#[test]
fn increment_last_field_by_1() {
    let mut bumpable = Pre::<PreBumpable>::new("1").unwrap();
    let bumped = Pre::<PreBumpable>::new("2").unwrap();

    bumpable.increment();
    assert_eq!(bumpable, bumped)
}

#[test]
fn increment_last_field_by_n() {
    let mut bumpable = Pre::<PreBumpable>::new("1").unwrap();
    let bumped = Pre::<PreBumpable>::new("5").unwrap();

    bumpable.increment_by(4);
    assert_eq!(bumpable, bumped)
}

#[test]
fn increment_n_field_by_m() {
    let mut bumpable = Pre::<PreBumpable>::new("1.1.1.1.1").unwrap();
    let bumped = Pre::<PreBumpable>::new("1.5.1.1.1").unwrap();

    bumpable.increment_field_by(1, 4).unwrap();
    assert_eq!(bumpable, bumped);
    assert_eq!(bumpable.to_string(), bumped.to_string());
}

#[test]
fn increment_n_field_by_1() {
    let mut bumpable = Pre::<PreBumpable>::new("1.1.1.1.1").unwrap();
    let bumped = Pre::<PreBumpable>::new("1.2.1.1.1").unwrap();

    bumpable.increment_field(1).unwrap();
    assert_eq!(bumpable, bumped);
    assert_eq!(bumpable.to_string(), bumped.to_string());
}

#[test]
fn moving_between_prerelease_type() {
    let pre_str = "1.1.1.1.1";
    let pre = Pre::<PreBumpable>::new(pre_str).unwrap();
    let expected: Prerelease = Prerelease::new(pre_str).unwrap();
    let prerelease: Prerelease = pre.clone().into();
    assert_eq!(expected, prerelease);
    assert_eq!(pre, Pre::try_from_prerelease(&expected).unwrap());
    assert_eq!(prerelease.to_string().as_str(), pre_str)
}

#[test]
fn prerelease_errors() {
    assert_eq!(
        Pre::<PreStatic>::new("").unwrap_err(),
        IdentifierError::EmptyIdent
    );
    assert_eq!(
        Pre::<PreStatic>::new("alpha..1").unwrap_err(),
        IdentifierError::EmptyIdent
    );
    assert_eq!(
        Pre::<PreStatic>::new("alpha.b_ta.@").unwrap_err(),
        IdentifierError::InvalidChar('_', 1)
    );
    assert_eq!(
        Pre::<PreStatic>::try_from_prerelease(&Prerelease::empty()).unwrap_err(),
        IdentifierError::EmptyIdent
    );
    let mut pre = Pre::<PreBumpable>::new("a.1").unwrap();
    assert_eq!(pre.increment_field(2), Err(PreError::NoField(2)));
    assert_eq!(pre.to_string(), "a.1");
    assert_eq!(pre.len(), 2);
    assert_eq!(pre.as_ref().len(), 2);
}

#[test]
fn empty_prerelease() {
    let none = Prerelease::new("").unwrap();
    assert!(none.is_empty());
    assert_eq!(none.len(), 0);
    assert_eq!(none, Prerelease::empty());
    assert_eq!(none.to_string(), "");
    let some = Prerelease::new("rc.1").unwrap();
    assert!(!some.is_empty());
    assert_eq!(some.len(), 2);
    assert_eq!(some.as_ref()[1], Identifier::from_str("1").unwrap());
    assert_eq!(some.to_string(), "rc.1");
    assert_eq!(
        Prerelease::from_identifiers(vec![
            Identifier::from_str("rc").unwrap(),
            Identifier::from_str("1").unwrap()
        ]),
        some
    );
}

#[test]
fn shorter_prerelease_comes_first() {
    let one = Prerelease::new("1").unwrap();
    let one_zero = Prerelease::new("1.0").unwrap();
    assert!(one.precedes(&one_zero));
    assert!(!one_zero.precedes(&one));
    assert!(!one.precedes(&one));
    // a version without prerelease comes after every version with one
    assert!(one.precedes(&Prerelease::empty()));
    assert!(!Prerelease::empty().precedes(&one));
    assert!(!Prerelease::empty().precedes(&Prerelease::empty()));
}

#[test]
fn prerelease_precedence_chain() {
    let chain = [
        "alpha",
        "alpha.1",
        "alpha.beta",
        "beta",
        "beta.2",
        "beta.11",
        "rc.1",
    ];
    for i in 0..chain.len() {
        for j in 0..chain.len() {
            let a = Prerelease::new(chain[i]).unwrap();
            let b = Prerelease::new(chain[j]).unwrap();
            assert_eq!(a.precedes(&b), i < j);
        }
    }
}

use cargo_uv::version::identifiers::{Alphanumeric, AsciiType};
use cargo_uv::version::{Identifier, IdentifierError, IdentifierKind};
use cargo_uv::Incrementable;

fn numeric(pre: u64) -> Identifier {
    Identifier::from_str(&pre.to_string()).unwrap()
}

fn alpha(pre: &str) -> Identifier {
    Identifier::from_str(pre).unwrap()
}

#[test]
pub fn ident_eq() {
    assert!(numeric(1) == numeric(1));
    assert!(numeric(1) != numeric(2));
    assert!(alpha("test") == alpha("test"));
    assert!(alpha("test1") != alpha("test2"));
    assert!(numeric(1) != alpha("test2"));
}

#[test]
pub fn ident_cmp() {
    assert!(numeric(2) > numeric(1));
    assert!(numeric(1) < numeric(2));
    assert!(alpha("alpha") < alpha("beta"));
    assert!(alpha("beta") < alpha("rc"));
    assert!(alpha("RC") < alpha("rc"));
    assert!(alpha("-rc") < alpha("rc"));
    assert!(numeric(2) < alpha("rc"));
    assert!(alpha("rc") > numeric(2));
}

#[test]
pub fn validate_input() {
    assert!(Identifier::validate_input("asnjhfksa").is_ok());
    assert!(Identifier::validate_input("@shdajkldsha").is_err());
    assert_eq!(
        Identifier::validate_input("@!shdajkldsha").unwrap_err(),
        IdentifierError::InvalidChar('@', 0)
    )
}

#[test]
pub fn from_str() {
    assert_eq!(Identifier::from_str("1").unwrap(), numeric(1));
    assert_eq!(Identifier::from_str("alpha").unwrap(), alpha("alpha"));
    assert_eq!(Identifier::from_str("1a").unwrap(), alpha("1a"));
    assert_eq!(
        Identifier::from_str("1a@").unwrap_err(),
        IdentifierError::InvalidChar('@', 2)
    );
    assert_eq!(Identifier::from_str("alpha").unwrap(), alpha("alpha"));
}

#[test]
fn identifier_kinds() {
    assert_eq!(numeric(7).kind(), IdentifierKind::Numeric);
    assert!(numeric(7).is_numeric());
    assert!(!numeric(7).is_alphanumeric());
    assert_eq!(numeric(7).as_numeric(), Some(7));
    assert_eq!(numeric(7).as_alphanumeric(), None);
    assert_eq!(alpha("x-1").kind(), IdentifierKind::Alphanumeric);
    assert_eq!(alpha("x-1").as_numeric(), None);
    assert_eq!(alpha("x-1").as_alphanumeric(), Some(&"x-1".to_string()));
    assert_eq!(alpha("x-1").as_str(), "x-1");
    assert!(IdentifierKind::Numeric.is_numeric());
    assert!(IdentifierKind::Alphanumeric.is_alphanumeric());
}

#[test]
fn identifier_errors() {
    assert_eq!(Identifier::from_str("").unwrap_err(), IdentifierError::EmptyIdent);
    assert_eq!(
        Identifier::from_str("a.b").unwrap_err(),
        IdentifierError::InvalidChar('.', 1)
    );
    assert_eq!(
        Identifier::from_str("18446744073709551616").unwrap_err(),
        IdentifierError::ParseIntError
    );
    assert_eq!(
        Identifier::from_str("18446744073709551615").unwrap().as_numeric(),
        Some(u64::MAX)
    );
}

#[test]
fn leading_zeros_keep_their_text() {
    let id = Identifier::from_str("007").unwrap();
    assert!(id.is_numeric());
    assert_eq!(id.as_numeric(), Some(7));
    assert_eq!(id.as_str(), "007");
    assert!(!(id < numeric(7)));
    assert!(!(id > numeric(7)));
    assert!(id != numeric(7));
}

#[test]
fn numeric_is_below_alphanumeric_whatever_the_text() {
    assert!(numeric(u64::MAX) < alpha("-"));
    assert!(numeric(0) < alpha("0a"));
    assert!(numeric(999) < alpha("A"));
    assert!(!(alpha("a") < numeric(999)));
}

#[test]
fn identifier_increment() {
    let mut id = numeric(9);
    id.increment();
    assert_eq!(id, numeric(10));
    id.increment_by(90);
    assert_eq!(id, numeric(100));
    let mut zero = Identifier::from_str("007").unwrap();
    zero.increment();
    assert_eq!(zero.as_str(), "8");
    let mut word = alpha("rc1");
    word.increment();
    assert_eq!(word, alpha("rc1"));
}

#[test]
fn ascii_classes() {
    assert_eq!(AsciiType::from_char('a', 0), Ok(AsciiType::LowerAscii('a')));
    assert_eq!(AsciiType::from_char('Z', 0), Ok(AsciiType::UpperAscii('Z')));
    assert_eq!(AsciiType::from_char('5', 0), Ok(AsciiType::Number('5')));
    assert_eq!(
        AsciiType::from_char('-', 3),
        Err(IdentifierError::InvalidChar('-', 3))
    );
    assert!(AsciiType::Number('5').is_number());
    assert_eq!(AsciiType::Number('5').as_number(), Some(&'5'));
    assert_eq!(AsciiType::Number('5').as_lower_ascii(), None);
    assert!(AsciiType::LowerAscii('x').is_lower_ascii());
    assert!(AsciiType::UpperAscii('X').is_upper_ascii());
    assert_eq!(AsciiType::UpperAscii('X').as_upper_ascii(), Some(&'X'));
    assert_eq!(AsciiType::UpperAscii('X').as_char(), 'X');
    let word = Alphanumeric::new("rc1").unwrap();
    assert_eq!(word.to_string(), "rc1");
    assert_eq!(word.as_ref().len(), 3);
    assert_eq!(
        Alphanumeric::new("r-c").unwrap_err(),
        IdentifierError::InvalidChar('-', 1)
    );
}

#[test]
fn parse_through_the_trait() {
    assert_eq!("12".parse::<Identifier>().unwrap(), numeric(12));
    assert_eq!("rc-1".parse::<Identifier>().unwrap(), alpha("rc-1"));
    assert_eq!("".parse::<Identifier>().unwrap_err(), IdentifierError::EmptyIdent);
    assert_eq!(
        "a b".parse::<Identifier>().unwrap_err(),
        IdentifierError::InvalidChar(' ', 1)
    );
}

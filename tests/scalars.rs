use plist_plus2::{Boolean, Data, Error, Integer, Null, PString, Real, Uid, Value};

#[test]
fn bool() {
    let mut p = Boolean::new(true);
    assert_eq!(p.as_bool(), true);
    p.set(false);
    assert_eq!(p.as_bool(), false);
}

const DATA1: [u8; 5] = [1, 2, 3, 4, 5];
const DATA2: [u8; 5] = [5, 4, 3, 2, 1];

#[test]
fn data() {
    let mut p = Data::new(&DATA1);
    assert_eq!(p.as_bytes(), DATA1);
    p.set(&DATA2);
    assert_eq!(p.as_bytes(), DATA2);
}

#[test]
fn data_lengths() {
    let p = Data::new(&DATA1);
    assert_eq!(p.len(), 5);
    assert!(!p.is_empty());
    assert_eq!(p.to_vec(), DATA1.to_vec());
    let e = Data::new(&[]);
    assert_eq!(e.len(), 0);
    assert!(e.is_empty());
}

const UINT1: u64 = 123412340987;
const UINT2: i64 = -98709781234;

#[test]
fn integer() {
    let mut p = Integer::new_unsigned(UINT1);
    assert_eq!(p.as_unsinged(), UINT1);
    p.set_signed(UINT2);
    assert_eq!(p.as_singed(), UINT2);
}

#[test]
fn signed_and_unsigned_share_bits() {
    let a: Value = Integer::new_signed(-1).into();
    let b: Value = Integer::new_unsigned(u64::MAX).into();
    assert!(a == b);
    assert_eq!(Integer::new_signed(-1).as_unsinged(), u64::MAX);
}

const REAL1: f64 = 3.1415926;
const REAL2: f64 = 1234.098765;

#[test]
fn real_number() {
    let mut p = Real::from_bits(REAL1.to_bits());
    assert_eq!(f64::from_bits(p.to_bits()), REAL1);
    p.set_bits(REAL2.to_bits());
    assert_eq!(f64::from_bits(p.to_bits()), REAL2);
}

#[test]
fn real_equality_follows_floats() {
    let nan: Value = Real::from_bits(f64::NAN.to_bits()).into();
    let nan2: Value = Real::from_bits(f64::NAN.to_bits()).into();
    assert!(nan != nan2);
    let zero: Value = Real::from_bits(0.0f64.to_bits()).into();
    let minus_zero: Value = Real::from_bits((-0.0f64).to_bits()).into();
    assert!(zero == minus_zero);
    let one: Value = Real::from_bits(1.0f64.to_bits()).into();
    assert!(one == Value::Real(Real::from_bits(1.0f64.to_bits())));
    assert!(one != zero);
}

const STRING1: &str = "this is a string";
const STRING2: &str = "this is a different string";

#[test]
fn string() {
    let mut p = PString::new(STRING1);
    assert_eq!(p.as_str(), STRING1);
    p.set(STRING2);
    assert_eq!(p.as_str(), STRING2);
}

#[test]
fn uid() {
    let mut p = Uid::new(7);
    assert_eq!(p.get(), 7);
    p.set(42);
    assert_eq!(p.get(), 42);
}

#[test]
fn kinds_are_told_apart() {
    let v: Value = Uid::new(3).into();
    assert!(v.as_uid().is_some());
    assert!(v.as_integer().is_none());
    assert!(!v.is_null());
    assert!(v.into_integer().is_none());
    let n: Value = Null::new().into();
    assert!(n.is_null());
    assert!(n == Value::Null(Null::new()));
    let i: Value = Integer::new_unsigned(3).into();
    assert!(i != Value::Uid(Uid::new(3)));
    assert_eq!(i.into_integer().unwrap().as_unsinged(), 3);
}

#[test]
fn replace_with_copies_content() {
    let mut target: Value = Integer::new_unsigned(1).into();
    let mut source: Value = Data::new(&[9, 8]).into();
    target.replace_with(&source);
    source.as_data_mut().unwrap().set(&[1]);
    assert_eq!(target.as_data().unwrap().as_bytes(), [9, 8]);
}

#[test]
fn error_codes() {
    assert_eq!(Error::from_code(0), None);
    assert_eq!(Error::from_code(-1), Some(Error::InvalidArg));
    assert_eq!(Error::from_code(-2), Some(Error::Format));
    assert_eq!(Error::from_code(-3), Some(Error::Parse));
    assert_eq!(Error::from_code(-4), Some(Error::NoMem));
    assert_eq!(Error::from_code(-5), Some(Error::IO));
    assert_eq!(Error::from_code(-255), Some(Error::Unknown));
    assert_eq!(Error::from_code(17), Some(Error::Unknown));
}

#[test]
fn error_messages() {
    assert_eq!(Error::IO.message(), "I/O error");
    assert_eq!(Error::Parse.message(), "Parsing of the input format failed");
    assert_eq!(Error::Unknown.message(), "Unknown error");
}

#[test]
fn defaults() {
    assert_eq!(Boolean::default().as_bool(), false);
    assert!(Data::default().is_empty());
    assert_eq!(Integer::default().as_unsinged(), 0);
    assert_eq!(f64::from_bits(Real::default().to_bits()), 0.0);
    assert_eq!(PString::default().as_str(), "");
    assert_eq!(Uid::default().get(), 0);
    assert!(Value::Null(Null::default()).is_null());
}

use rust_sc2::parse::{enum_from_str, ParseEnumError};
use std::str::FromStr;

#[derive(Debug, PartialEq)]
enum MyEnum {
    Variant0,
    Variant1,
    Variant2,
    Variant3,
}

impl FromStr for MyEnum {
    type Err = ParseEnumError;

    fn from_str(s: &str) -> Result<Self, Self::Err> {
        let names = ["Variant0", "Variant1", "Variant2", "Variant3"];
        let values = [0, -1001, -1000, 2002];
        match enum_from_str(s, &names, &values, true)? {
            0 => Ok(MyEnum::Variant0),
            1 => Ok(MyEnum::Variant1),
            2 => Ok(MyEnum::Variant2),
            _ => Ok(MyEnum::Variant3),
        }
    }
}

#[test]
fn check_enum_err() {
    assert_eq!("Variant4".parse::<MyEnum>(), Err(ParseEnumError));
    assert!("Variant4".parse::<MyEnum>().is_err());
    assert_eq!("4".parse::<MyEnum>(), Err(ParseEnumError));
}

#[test]
fn check_enum_ok() {
    assert_eq!("Variant1".parse::<MyEnum>(), Ok(MyEnum::Variant1));
    assert_eq!("Variant2".parse::<MyEnum>(), Ok(MyEnum::Variant2));
}

#[test]
fn check_enum_ok3() {
    assert_eq!("0".parse::<MyEnum>(), Ok(MyEnum::Variant0));
    assert_eq!("-1000".parse::<MyEnum>(), Ok(MyEnum::Variant2));
    assert_eq!("2002".parse::<MyEnum>(), Ok(MyEnum::Variant3));
}

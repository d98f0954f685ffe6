use std::rc::Rc;

use shio::state::State;
use shio::typemap::Key;
use shio::typemap::TypeMap;

struct Number;

impl Key for Number {
    fn token() -> u64 {
        100
    }
}

struct RcNumber;

impl Key for RcNumber {
    fn token() -> u64 {
        101
    }
}

#[derive(Debug, PartialEq)]
struct KeyType;

impl Key for KeyType {
    fn token() -> u64 {
        102
    }
}

#[derive(Clone, Debug, PartialEq)]
struct ValueType(u8);

#[test]
fn test_state_request() {
    let mut state: State<u64> = State::default();
    state.put(Number::token(), 100);

    assert_eq!(state.get(Number::token()), &100);
}

#[test]
fn test_state_request_non_sync() {
    let rc_num = Rc::new(320);

    let mut state: State<Rc<u64>> = State::default();
    state.put(RcNumber::token(), rc_num.clone());

    assert_eq!(state.get(RcNumber::token()), &rc_num);
}

#[test]
fn test_pair_key_to_value() {
    let mut map: TypeMap<ValueType> = TypeMap::new();
    map.put(KeyType::token(), ValueType(32));

    assert_eq!(map.get(KeyType::token()), &ValueType(32));
    assert!(map.has(KeyType::token()));
}

#[test]
fn put_overwrites_and_returns_the_prior_value() {
    let mut map: TypeMap<ValueType> = TypeMap::new();
    assert_eq!(map.put(KeyType::token(), ValueType(1)), None);
    assert_eq!(map.put(KeyType::token(), ValueType(2)), Some(ValueType(1)));
    assert_eq!(map.get(KeyType::token()), &ValueType(2));
    assert_eq!(map.try_get(7878), None);
    assert!(!map.has(7878));
}

#[test]
fn request_state_does_not_fall_back_to_shared() {
    let state: State<u64> = State::default();
    assert_eq!(state.try_get(Number::token()), None);
    assert_eq!(state.shared().try_get(Number::token()), None);
}

use counter_contract::contract::{
    handle, init, query, query_even_odd, try_decrease, try_increase, try_reset,
};
use counter_contract::msg::{ContractError, HandleMsg, InitMsg, QueryMsg};
use counter_contract::state::Storage;

#[test]
fn proper_initialization() {
    let mut storage = Storage::new();

    let msg = InitMsg { count: 17 };
    let res = init(&mut storage, "creator", msg);
    assert!(res.is_ok());

    // it worked, let's query the state
    let value = query(&storage, QueryMsg::QueryEvenOdd {}).unwrap();
    assert_eq!("Odd Number: 17", value);
}

#[test]
fn increase() {
    let mut storage = Storage::new();

    let msg = InitMsg { count: 17 };
    let _res = init(&mut storage, "creator", msg);

    // anyone may increase the counter
    let msg = HandleMsg::Increase { value: 2 };
    let _res = handle(&mut storage, "anyone", msg).unwrap();

    let value = query(&storage, QueryMsg::QueryEvenOdd {}).unwrap();
    assert_eq!("Odd Number: 19", value);
}

#[test]
fn decrease() {
    let mut storage = Storage::new();

    let msg = InitMsg { count: 17 };
    let _res = init(&mut storage, "creator", msg);

    // anyone may decrease the counter
    let msg = HandleMsg::Decrease { value: 1 };
    let _res = handle(&mut storage, "anyone", msg).unwrap();

    let value = query(&storage, QueryMsg::QueryEvenOdd {}).unwrap();
    assert_eq!("Even Number: 16", value);
}

#[test]
fn reset() {
    let mut storage = Storage::new();

    let msg = InitMsg { count: 17 };
    let _res = init(&mut storage, "creator", msg);

    let msg = HandleMsg::Reset { count: 5 };
    let res = handle(&mut storage, "anyone", msg);
    match res {
        Err(ContractError::Unauthorized) => {}
        _ => panic!("Must return unauthorized error"),
    }

    // only the original creator can reset the counter
    let msg = HandleMsg::Reset { count: 5 };
    let _res = handle(&mut storage, "creator", msg).unwrap();

    // should now be 5
    let value = query(&storage, QueryMsg::QueryEvenOdd {}).unwrap();
    assert_eq!("Odd Number: 5", value);
}

#[test]
fn query_even_count() {
    let mut storage = Storage::new();
    let _res = init(&mut storage, "creator", InitMsg { count: 16 });
    let value = query(&storage, QueryMsg::QueryEvenOdd {}).unwrap();
    assert_eq!("Even Number: 16", value);
}

#[test]
fn query_zero() {
    let mut storage = Storage::new();
    let _res = init(&mut storage, "creator", InitMsg { count: 0 });
    let value = query_even_odd(&storage).unwrap();
    assert_eq!("Even Number: 0", value);
}

#[test]
fn query_negative_odd() {
    let mut storage = Storage::new();
    let _res = init(&mut storage, "creator", InitMsg { count: -3 });
    let value = query_even_odd(&storage).unwrap();
    assert_eq!("Odd Number: -3", value);
}

#[test]
fn query_negative_even() {
    let mut storage = Storage::new();
    let _res = init(&mut storage, "creator", InitMsg { count: -214 });
    let value = query_even_odd(&storage).unwrap();
    assert_eq!("Even Number: -214", value);
}

#[test]
fn query_extreme_counts() {
    let mut storage = Storage::new();
    let _res = init(&mut storage, "creator", InitMsg { count: i32::MAX });
    let value = query_even_odd(&storage).unwrap();
    assert_eq!("Odd Number: 2147483647", value);

    let _res = try_reset(&mut storage, "creator", i32::MIN).unwrap();
    let value = query_even_odd(&storage).unwrap();
    assert_eq!("Even Number: -2147483648", value);
}

#[test]
fn query_multi_digit_rendering() {
    let mut storage = Storage::new();
    let _res = init(&mut storage, "creator", InitMsg { count: 1000 });
    let value = query_even_odd(&storage).unwrap();
    assert_eq!("Even Number: 1000", value);

    let _res = try_reset(&mut storage, "creator", 305).unwrap();
    let value = query_even_odd(&storage).unwrap();
    assert_eq!("Odd Number: 305", value);
}

#[test]
fn increase_then_decrease_exact() {
    let mut storage = Storage::new();
    let _res = init(&mut storage, "creator", InitMsg { count: 10 });

    let _res = try_increase(&mut storage, "anyone", 7).unwrap();
    let value = query_even_odd(&storage).unwrap();
    assert_eq!("Odd Number: 17", value);

    let _res = try_decrease(&mut storage, "anyone", 20).unwrap();
    let value = query_even_odd(&storage).unwrap();
    assert_eq!("Odd Number: -3", value);
}

#[test]
fn increase_wraps_on_overflow() {
    let mut storage = Storage::new();
    let _res = init(&mut storage, "creator", InitMsg { count: i32::MAX });
    let _res = try_increase(&mut storage, "anyone", 1).unwrap();
    let value = query_even_odd(&storage).unwrap();
    assert_eq!("Even Number: -2147483648", value);
}

#[test]
fn decrease_wraps_on_overflow() {
    let mut storage = Storage::new();
    let _res = init(&mut storage, "creator", InitMsg { count: i32::MIN });
    let _res = try_decrease(&mut storage, "anyone", 1).unwrap();
    let value = query_even_odd(&storage).unwrap();
    assert_eq!("Odd Number: 2147483647", value);
}

#[test]
fn uninitialized_contract_rejects_everything() {
    let mut storage = Storage::new();

    let res = query(&storage, QueryMsg::QueryEvenOdd {});
    assert!(matches!(res, Err(ContractError::NotInitialized)));

    let res = handle(&mut storage, "anyone", HandleMsg::Increase { value: 1 });
    assert!(matches!(res, Err(ContractError::NotInitialized)));

    let res = handle(&mut storage, "anyone", HandleMsg::Decrease { value: 1 });
    assert!(matches!(res, Err(ContractError::NotInitialized)));

    let res = handle(&mut storage, "creator", HandleMsg::Reset { count: 0 });
    assert!(matches!(res, Err(ContractError::NotInitialized)));
}

#[test]
fn failed_reset_leaves_count_unchanged() {
    let mut storage = Storage::new();
    let _res = init(&mut storage, "creator", InitMsg { count: 17 });

    let res = try_reset(&mut storage, "someone else", 5);
    assert!(matches!(res, Err(ContractError::Unauthorized)));

    let value = query_even_odd(&storage).unwrap();
    assert_eq!("Odd Number: 17", value);

    // the owner is also unchanged: the creator can still reset
    let res = try_reset(&mut storage, "creator", 4);
    assert!(res.is_ok());
    let value = query_even_odd(&storage).unwrap();
    assert_eq!("Even Number: 4", value);
}

#[test]
fn reset_keeps_owner_across_resets() {
    let mut storage = Storage::new();
    let _res = init(&mut storage, "creator", InitMsg { count: 1 });

    let _res = try_reset(&mut storage, "creator", 2).unwrap();
    let _res = try_reset(&mut storage, "creator", 3).unwrap();
    let res = try_reset(&mut storage, "anyone", 4);
    assert!(matches!(res, Err(ContractError::Unauthorized)));

    let value = query_even_odd(&storage).unwrap();
    assert_eq!("Odd Number: 3", value);
}

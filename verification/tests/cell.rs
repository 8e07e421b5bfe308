use dangerous_option::DangerousOption;

#[test]
fn success() {
    let mut val: DangerousOption<i32> = DangerousOption::new(42);
    assert_eq!(*val.deref(), 42);
    {
        let val2 = val.deref_mut();
        assert_eq!(*val2, 42);
        *val2 = 47;
    }

    let val2 = DangerousOption::take_unchecked(&mut val);
    assert_eq!(val2, 47);
    assert!(DangerousOption::try_ref(&val).is_none());
    DangerousOption::put(&mut val, val2);
    assert_eq!(DangerousOption::take_unchecked(&mut val), 47);
    assert!(DangerousOption::try_ref(&val).is_none());
    DangerousOption::put(&mut val, val2);
    assert_eq!(*DangerousOption::try_ref(&val).unwrap(), 47);
    {
        let val2 = DangerousOption::try_mut(&mut val).unwrap();
        assert_eq!(*val2, 47);
        *val2 = 42;
    }
    assert_eq!(*val.deref(), 42);
}

#[test]
#[should_panic(expected = "Dereferenced uninitialized DangerousOption")]
fn panic1() {
    let val: DangerousOption<i32> = DangerousOption::new_uninitialized();
    drop(*val.deref());
}

#[test]
#[should_panic(expected = "Attempt to take value from uninitialized DangerousOption")]
fn panic2() {
    let mut val: DangerousOption<i32> = DangerousOption::new_uninitialized();
    DangerousOption::take_unchecked(&mut val);
}

#[test]
#[should_panic(expected = "Dereferenced uninitialized DangerousOption")]
fn panic3() {
    let mut val: DangerousOption<i32> = DangerousOption::new_uninitialized();
    let val2 = val.deref_mut();
    *val2 = 42;
}

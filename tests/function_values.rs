use deferred_chain::function_value::{curry, generic_curry, receives_closure, returns_closure};

#[test]
fn receives_closure_calls_on_one() {
    let y = 2;
    assert_eq!(receives_closure(|x| x + y), 3);
    let y = 3;
    assert_eq!(receives_closure(|x| x + y), 4);
}

#[test]
fn returned_closure_adds_four() {
    let closure = returns_closure();
    assert_eq!(closure(1), 5);
    assert_eq!(receives_closure(closure), 5);
}

#[test]
fn curry_fixes_first_argument() {
    let add = |x: i32, y: i32| x + y;
    let closure = curry(add, 5);
    assert_eq!(receives_closure(closure), 6);
    let sub = |x: i32, y: i32| x - y;
    let closure = curry(sub, 10);
    for b in [-3, 0, 4, 100] {
        assert_eq!(closure(b), sub(10, b));
    }
}

#[test]
fn generic_curry_with_capture() {
    let two = 2;
    let add = |x: i32, y: i32| x + y + two;
    let closure = generic_curry(add, 4);
    assert_eq!(receives_closure(closure), 7);
}

#[test]
fn generic_curry_on_strings() {
    let concat = |s: &str, t: &str| format!("{}{}", s, t);
    let closure = generic_curry(concat, "Hello, ");
    assert_eq!(closure("world!"), "Hello, world!");
}

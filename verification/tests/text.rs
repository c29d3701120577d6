use instance_launcher::decimal::{append_decimal, decimal_string};
use instance_launcher::greet;
use instance_launcher::message::{
    path_failure_message, spawn_failure_message, spawned_message, unsupported_message,
};

#[test]
fn test_greet_function() {
    let result = greet("test");
    assert_eq!(result, "Hello, test! You've been greeted from Rust!");
}

#[test]
fn greeting_of_an_empty_name() {
    assert_eq!(greet(""), "Hello, ! You've been greeted from Rust!");
}

#[test]
fn decimal_of_single_digits() {
    let expected = vec!["0", "1", "2", "3", "4", "5", "6", "7", "8", "9"];
    for n in 0u32..10 {
        assert_eq!(decimal_string(n), expected[n as usize]);
    }
}

#[test]
fn decimal_of_longer_numbers() {
    assert_eq!(decimal_string(10), "10");
    assert_eq!(decimal_string(99), "99");
    assert_eq!(decimal_string(100), "100");
    assert_eq!(decimal_string(591), "591");
    assert_eq!(decimal_string(4821), "4821");
    assert_eq!(decimal_string(1_000_000), "1000000");
    assert_eq!(decimal_string(1_234_567_890), "1234567890");
    assert_eq!(decimal_string(u32::MAX), "4294967295");
}

#[test]
fn decimal_agrees_with_the_standard_formatting() {
    let mut n: u32 = 1;
    for _ in 0..200 {
        assert_eq!(decimal_string(n), format!("{}", n));
        n = n.wrapping_mul(1_664_525).wrapping_add(1_013_904_223);
    }
}

#[test]
fn decimal_is_appended_after_what_is_there() {
    let mut text = String::from("id=");
    append_decimal(&mut text, 0);
    assert_eq!(text, "id=0");
    append_decimal(&mut text, 305);
    assert_eq!(text, "id=0305");
}

#[test]
fn messages_have_their_exact_text() {
    assert_eq!(spawned_message(4821), "New process spawned with PID: 4821");
    assert_eq!(spawned_message(0), "New process spawned with PID: 0");
    assert_eq!(spawned_message(u32::MAX), "New process spawned with PID: 4294967295");
    assert_eq!(
        path_failure_message("permission denied"),
        "Failed to get current executable path: permission denied"
    );
    assert_eq!(
        spawn_failure_message("No such file or directory (os error 2)"),
        "Failed to spawn new process: No such file or directory (os error 2)"
    );
    assert_eq!(unsupported_message(), "Unsupported platform");
}

use api_supervisor::container::Container;
use api_supervisor::users::{Processor, Status, User};
use api_supervisor::util::{
    complex_function, constrained_generic, generic_function, simple_function, with_lifetime,
};

#[test]
fn simple_function_greets() {
    assert_eq!(simple_function("World"), "Hello, World");
    assert_eq!(simple_function(""), "Hello, ");
}

#[test]
fn complex_function_returns_fixed_result() {
    let r = complex_function(7, vec!["a".to_string(), "b".to_string()]);
    assert_eq!(r, Ok("result".to_string()));
    assert_eq!(complex_function(0, vec![]), Ok("result".to_string()));
}

#[test]
fn generic_function_renders_display() {
    assert_eq!(generic_function(42u32), "42");
    assert_eq!(generic_function("abc"), "abc");
}

#[test]
fn with_lifetime_returns_borrowed_input() {
    let s = String::from("borrowed");
    assert_eq!(with_lifetime(s.as_str()), "borrowed");
}

#[test]
fn constrained_generic_passes_value_through() {
    assert_eq!(constrained_generic(5u64), 5u64);
    assert_eq!(constrained_generic("x".to_string()), "x".to_string());
}

#[test]
fn user_construction_and_accessors() {
    let mut u = User::new("Alice".to_string(), 30);
    assert_eq!(u.id, 0);
    assert_eq!(u.get_name(), "Alice");
    u.set_age(31);
    assert_eq!(u.id, 0);
    assert_eq!(u.get_name(), "Alice");
}

#[test]
fn user_processing_and_validation() {
    let named = User::new("Alice".to_string(), 30);
    assert_eq!(named.process("report"), Ok("Alice: report".to_string()));
    assert!(named.validate());
    let unnamed = User::new(String::new(), 1);
    assert!(!unnamed.validate());
}

#[test]
fn container_holds_its_value() {
    let c = Container::new(5u32);
    assert_eq!(*c.get(), 5);
    let s = Container::new("held".to_string());
    assert_eq!(s.get(), "held");
}

#[test]
fn status_is_active_only_for_active() {
    assert!(Status::Active.is_active());
    assert!(!Status::Inactive.is_active());
    assert!(!Status::Pending("soon".to_string()).is_active());
    assert!(!Status::Error { code: 3, message: "bad".to_string() }.is_active());
}

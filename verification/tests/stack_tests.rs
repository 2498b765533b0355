// The stack and its bottom marker.
use simple_scala::stack::Stack;

// Test that the stack is initialized as we expect it.
#[test]
fn test_stack_initializes_properly() {
    let s = Stack::new();

    assert_eq!(s.len(), 1);
    assert_eq!(s.slots()[0], 0);
}

// Test that adding elements to the stack works as expected.
#[test]
fn test_stack_adding_elements() {
    let mut s = Stack::new();

    s.push(1);
    s.push(6);
    s.push(69);

    assert!(!s.is_empty());
    assert_eq!(s.len(), 4);
}

#[test]
fn test_stack_removing_elements() {
    let mut s = Stack::new();

    for ii in 1..9 {
        s.push(ii);
    }

    for _ in 1..8 {
        s.pop();
    }

    assert!(!s.is_empty());
    assert_eq!(s.len(), 2);
    assert_eq!(s.pop(), 1);
}

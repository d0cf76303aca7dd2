use stacks::array::Stack;
use stacks::StackError;

#[test]
fn array_fresh_stack_fails_with_empty_stack() {
    let mut s = Stack::create();
    assert_eq!(s.pop(), Err(StackError::EmptyStack));
    assert_eq!(s.top(), Err(StackError::EmptyStack));
    assert!(s.is_empty());
    assert_eq!(s.size(), 0);
    assert_eq!(s.enumerate(), Vec::<isize>::new());
}

#[test]
fn array_scenario_five_pushes() {
    let mut s = Stack::create();
    s.push(10);
    s.push(20);
    s.push(30);
    s.push(5);
    s.push(1);
    assert_eq!(s.top(), Ok(1));
    assert_eq!(s.size(), 5);
    let mut popped: Vec<isize> = Vec::new();
    while !s.is_empty() {
        popped.push(s.pop().unwrap());
    }
    assert_eq!(popped, vec![1, 5, 30, 20, 10]);
    assert_eq!(s.pop(), Err(StackError::EmptyStack));
}

#[test]
fn array_scenario_unsorted_pushes() {
    let mut s = Stack::create();
    s.push(10);
    s.push(30);
    s.push(20);
    s.push(5);
    s.push(1);
    assert_eq!(s.top(), Ok(1));
    assert_eq!(s.size(), 5);
    let mut popped: Vec<isize> = Vec::new();
    while !s.is_empty() {
        popped.push(s.pop().unwrap());
    }
    assert_eq!(popped, vec![1, 5, 20, 30, 10]);
}

#[test]
fn array_scenario_plain_buffer_values() {
    let mut s = Stack::create();
    s.push(20);
    s.push(30);
    s.push(40);
    s.push(5);
    s.push(1);
    assert_eq!(s.top(), Ok(1));
    assert_eq!(s.size(), 5);
    let mut popped: Vec<isize> = Vec::new();
    while !s.is_empty() {
        popped.push(s.pop().unwrap());
    }
    assert_eq!(popped, vec![1, 5, 40, 30, 20]);
}

#[test]
fn array_enumerate_top_to_bottom() {
    let mut s = Stack::create();
    s.push(10);
    s.push(20);
    s.push(30);
    s.push(5);
    s.push(1);
    assert_eq!(s.enumerate(), vec![1, 5, 30, 20, 10]);
    assert_eq!(s.size(), 5);
    assert_eq!(s.enumerate(), vec![1, 5, 30, 20, 10]);
}

#[test]
fn array_lifo_order() {
    let values: Vec<isize> = vec![-3, 0, 7, 7, 42, isize::MAX, isize::MIN];
    let mut s = Stack::create();
    for &v in &values {
        s.push(v);
    }
    for &v in values.iter().rev() {
        assert_eq!(s.pop(), Ok(v));
    }
    assert!(s.is_empty());
}

#[test]
fn array_push_then_pop_is_identity() {
    let mut s = Stack::create();
    s.push(8);
    s.push(9);
    let size_before = s.size();
    let top_before = s.top();
    s.push(42);
    assert_eq!(s.pop(), Ok(42));
    assert_eq!(s.size(), size_before);
    assert_eq!(s.top(), top_before);
}

#[test]
fn array_is_empty_iff_size_zero() {
    let mut s = Stack::create();
    assert_eq!(s.is_empty(), s.size() == 0);
    s.push(1);
    assert_eq!(s.is_empty(), s.size() == 0);
    s.push(2);
    assert_eq!(s.is_empty(), s.size() == 0);
    s.pop().unwrap();
    assert_eq!(s.is_empty(), s.size() == 0);
    s.pop().unwrap();
    assert_eq!(s.is_empty(), s.size() == 0);
    assert!(s.is_empty());
}

#[test]
fn array_size_counts_pushes_minus_pops() {
    let mut s = Stack::create();
    for v in 0..6 {
        s.push(v);
    }
    for _ in 0..4 {
        s.pop().unwrap();
    }
    assert_eq!(s.size(), 2);
}

use stack_experiments::stack_safe::FixedStack;
use std::cell::Cell;
use std::rc::Rc;

#[test]
fn test_safe_fixed_stack() {
    let mut stack = FixedStack::new(3);

    assert!(stack.is_empty());
    assert_eq!(stack.len(), 0);
    assert_eq!(stack.capacity(), 3);

    stack.push(1);
    stack.push(2);
    stack.push(3);

    assert_eq!(stack.len(), 3);
    assert!(!stack.is_empty());

    assert_eq!(stack.pop(), Some(3));
    assert_eq!(stack.pop(), Some(2));
    assert_eq!(stack.pop(), Some(1));
    assert_eq!(stack.pop(), None);
    assert!(stack.is_empty());
}

#[test]
fn safe_fresh_stack_is_empty() {
    for capacity in [1usize, 2, 7, 256] {
        let stack: FixedStack<u8> = FixedStack::new(capacity);
        assert_eq!(stack.len(), 0);
        assert!(stack.is_empty());
        assert_eq!(stack.capacity(), capacity);
    }
}

#[test]
fn safe_fills_to_capacity() {
    let mut stack = FixedStack::new(4);
    for v in 0..4 {
        stack.push(v);
    }
    assert_eq!(stack.len(), 4);
    assert_eq!(stack.len(), stack.capacity());
}

#[test]
fn safe_pop_on_empty_is_none() {
    let mut stack: FixedStack<String> = FixedStack::new(1);
    assert_eq!(stack.pop(), None);
    assert_eq!(stack.len(), 0);
    stack.push(String::from("a"));
    assert_eq!(stack.pop(), Some(String::from("a")));
    assert_eq!(stack.pop(), None);
    assert_eq!(stack.len(), 0);
}

#[test]
fn safe_interleaved_push_pop() {
    let mut stack = FixedStack::new(2);
    stack.push(10);
    stack.push(20);
    assert_eq!(stack.pop(), Some(20));
    stack.push(30);
    assert_eq!(stack.len(), 2);
    assert_eq!(stack.pop(), Some(30));
    assert_eq!(stack.pop(), Some(10));
    assert_eq!(stack.pop(), None);
}

struct Counted {
    live: Rc<Cell<i64>>,
}

impl Counted {
    fn new(live: &Rc<Cell<i64>>) -> Counted {
        live.set(live.get() + 1);
        Counted { live: live.clone() }
    }
}

impl Drop for Counted {
    fn drop(&mut self) {
        self.live.set(self.live.get() - 1);
    }
}

#[test]
fn safe_drop_destroys_each_element_once() {
    let live = Rc::new(Cell::new(0i64));
    let mut stack = FixedStack::new(5);
    for _ in 0..4 {
        stack.push(Counted::new(&live));
    }
    let popped = stack.pop();
    assert_eq!(live.get(), 4);
    drop(stack);
    assert_eq!(live.get(), 1);
    drop(popped);
    assert_eq!(live.get(), 0);
}

use syscall_dispatch::StackHelper;

#[test]
fn new_stack_is_empty_at_its_top() {
    let stack = StackHelper::new(0x8000);
    assert_eq!(stack.top(), 0x8000);
    assert!(stack.image().is_empty());
}

#[test]
fn write_moves_the_top_down_by_one() {
    let mut stack = StackHelper::new(10);
    stack.write(1);
    assert_eq!(stack.top(), 9);
    stack.write(2);
    assert_eq!(stack.top(), 8);
    assert_eq!(stack.image(), vec![2, 1]);
}

#[test]
fn write_bytes_places_the_bytes_in_ascending_order_below_the_top() {
    let mut stack = StackHelper::new(100);
    stack.write_bytes(&[1, 2, 3]);
    assert_eq!(stack.top(), 97);
    stack.write_bytes(&[]);
    assert_eq!(stack.top(), 97);
    stack.write_bytes(&[4, 5]);
    assert_eq!(stack.top(), 95);
    assert_eq!(stack.image(), vec![4, 5, 1, 2, 3]);
}

#[test]
fn stack_can_be_filled_down_to_address_zero() {
    let mut stack = StackHelper::new(3);
    stack.write_bytes(&[7, 8]);
    stack.write(9);
    assert_eq!(stack.top(), 0);
    assert_eq!(stack.image(), vec![9, 7, 8]);
}

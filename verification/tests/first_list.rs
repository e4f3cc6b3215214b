use linked_stack::first::List;

#[test]
fn first_basics() {
    let mut list = List::new();

    // An empty list has nothing to give.
    assert_eq!(list.pop(), None);

    list.push(1);
    list.push(2);
    list.push(3);

    assert_eq!(list.pop(), Some(3));
    assert_eq!(list.pop(), Some(2));

    // Pushing again goes on top of what is left.
    list.push(4);

    assert_eq!(list.pop(), Some(4));
    assert_eq!(list.pop(), Some(1));
    assert_eq!(list.pop(), None);
}

#[test]
fn first_pop_on_new_list_is_none() {
    let mut list = List::new();
    assert_eq!(list.pop(), None);
    assert_eq!(list.pop(), None);
}

#[test]
fn first_pops_come_in_reverse_order_of_pushes() {
    let mut list = List::new();
    for i in 0..1000 {
        list.push(i);
    }
    for i in (0..1000).rev() {
        assert_eq!(list.pop(), Some(i));
    }
    assert_eq!(list.pop(), None);
    assert_eq!(list.pop(), None);
    assert_eq!(list.pop(), None);
}

#[test]
fn first_pop_after_push_gives_the_pushed_element_back() {
    let mut list = List::new();
    list.push(7);
    list.push(8);
    list.push(-1);
    assert_eq!(list.pop(), Some(-1));
    // What was there before the push is untouched.
    assert_eq!(list.pop(), Some(8));
    assert_eq!(list.pop(), Some(7));
    assert_eq!(list.pop(), None);
}

#[test]
fn first_holds_extreme_and_repeated_values() {
    let mut list = List::new();
    list.push(i32::MIN);
    list.push(0);
    list.push(0);
    list.push(i32::MAX);
    assert_eq!(list.pop(), Some(i32::MAX));
    assert_eq!(list.pop(), Some(0));
    assert_eq!(list.pop(), Some(0));
    assert_eq!(list.pop(), Some(i32::MIN));
    assert_eq!(list.pop(), None);
}

#[test]
fn first_usable_again_after_running_empty() {
    let mut list = List::new();
    list.push(1);
    assert_eq!(list.pop(), Some(1));
    assert_eq!(list.pop(), None);
    list.push(2);
    list.push(3);
    assert_eq!(list.pop(), Some(3));
    assert_eq!(list.pop(), Some(2));
    assert_eq!(list.pop(), None);
}

#[test]
fn first_dropping_a_long_list_does_not_overflow_the_stack() {
    let mut list = List::new();
    for i in 0..100_000 {
        list.push(i);
    }
    drop(list);
}

#[test]
fn first_dropping_a_partly_popped_long_list() {
    let mut list = List::new();
    for i in 0..200_000 {
        list.push(i);
    }
    for i in (150_000..200_000).rev() {
        assert_eq!(list.pop(), Some(i));
    }
    drop(list);
}

use call::Queue;

#[test]
fn test_push_pop() {
    let mut queue = Queue::new();

    queue.push(1);
    queue.push(2);
    queue.push(3);

    loop {
        if queue.len() == 0 {
            break;
        }
        let item = queue.pop();
        println!("Popped item: {:?}", item);
    }
}

#[test]
fn a_new_queue_is_empty() {
    let mut queue: Queue<u32> = Queue::new();
    assert_eq!(queue.len(), 0);
    assert_eq!(queue.pop(), None);
}

#[test]
fn items_come_out_in_the_order_of_pushing() {
    let mut queue = Queue::new();
    queue.push(1);
    queue.push(2);
    queue.push(3);
    assert_eq!(queue.pop(), Some(1));
    assert_eq!(queue.pop(), Some(2));
    assert_eq!(queue.pop(), Some(3));
    assert_eq!(queue.pop(), None);
}

#[test]
fn len_counts_the_items() {
    let mut queue = Queue::new();
    assert_eq!(queue.len(), 0);
    queue.push("a");
    assert_eq!(queue.len(), 1);
    queue.push("b");
    assert_eq!(queue.len(), 2);
    queue.pop();
    assert_eq!(queue.len(), 1);
    queue.pop();
    assert_eq!(queue.len(), 0);
}

#[test]
fn pop_on_an_empty_queue_changes_nothing() {
    let mut queue = Queue::new();
    assert_eq!(queue.pop(), None);
    assert_eq!(queue.len(), 0);
    queue.push(5);
    assert_eq!(queue.pop(), Some(5));
    assert_eq!(queue.pop(), None);
    assert_eq!(queue.len(), 0);
}

#[test]
fn pushes_and_pops_may_alternate() {
    let mut queue = Queue::new();
    queue.push(1);
    queue.push(2);
    assert_eq!(queue.pop(), Some(1));
    queue.push(3);
    assert_eq!(queue.pop(), Some(2));
    assert_eq!(queue.pop(), Some(3));
    queue.push(4);
    assert_eq!(queue.len(), 1);
    assert_eq!(queue.pop(), Some(4));
}

#[test]
fn equal_items_are_kept_apart() {
    let mut queue = Queue::new();
    queue.push(7);
    queue.push(7);
    assert_eq!(queue.len(), 2);
    assert_eq!(queue.pop(), Some(7));
    assert_eq!(queue.len(), 1);
}

#[test]
fn a_queue_holds_items_that_cannot_be_copied() {
    let mut queue = Queue::new();
    queue.push(String::from("first"));
    queue.push(String::from("second"));
    assert_eq!(queue.pop().as_deref(), Some("first"));
    assert_eq!(queue.pop().as_deref(), Some("second"));
}

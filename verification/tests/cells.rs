use std::cell::Cell;
use std::cell::RefCell;

use lib::channel::Channel;

#[test]
fn cells() {
    let v = Cell::new(vec![1, 2, 3]);
    let mut v2 = v.take();

    // v is now empty
    assert_eq!(v2.len(), 3);

    v2.push(4);
    v.set(v2);

    assert_eq!(v.into_inner().len(), 4);
}

#[test]
fn refcells() {
    let v = RefCell::new(vec![1, 2, 3]);
    v.borrow_mut().push(4);

    assert_eq!(v.into_inner().len(), 4);
}

#[test]
fn channel_in_a_cell() {
    let c: RefCell<Channel<i32>> = RefCell::new(Channel::new());
    c.borrow_mut().send(1);
    c.borrow_mut().send(2);
    assert_eq!(c.borrow().len(), 2);
    assert_eq!(c.borrow_mut().receive(), Some(1));
    assert_eq!(c.into_inner().len(), 1);
}

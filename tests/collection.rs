use std::cell::Cell;
use std::rc::Rc;

use neovim_sys::Collection;

#[test]
fn round_trip_keeps_elements_length_and_capacity() {
    let mut v: Vec<u32> = Vec::with_capacity(10);
    v.push(3);
    v.push(1);
    v.push(4);
    let cap = v.capacity();

    let c = Collection::new(v);
    assert_eq!(c.len(), 3);
    assert_eq!(c.capacity(), cap);
    assert_eq!(c.as_slice(), &[3, 1, 4]);

    let back: Vec<u32> = c.into_vec();
    assert_eq!(back, vec![3, 1, 4]);
    assert_eq!(back.len(), 3);
    assert_eq!(back.capacity(), cap);
}

#[test]
fn round_trip_of_an_empty_vector() {
    let c: Collection<u8> = Collection::new(Vec::new());
    assert!(c.is_empty());
    assert_eq!(c.len(), 0);
    let back = Vec::from(c);
    assert!(back.is_empty());
}

#[test]
fn equality_ignores_capacity() {
    let mut roomy: Vec<i32> = Vec::with_capacity(16);
    roomy.push(5);
    roomy.push(6);
    let tight: Vec<i32> = vec![5, 6];
    let a = Collection::new(roomy);
    let b = Collection::new(tight);
    assert!(a.capacity() >= 16);
    assert_eq!(b.capacity(), 2);
    assert!(a == b);

    let c = Collection::new(vec![5, 7]);
    assert!(a != c);
    let d = Collection::new(vec![5]);
    assert!(a != d);
}

#[test]
fn clone_copies_into_a_tight_buffer() {
    let mut v: Vec<u64> = Vec::with_capacity(8);
    v.push(10);
    v.push(20);
    let c = Collection::new(v);
    let d = c.clone();
    assert_eq!(d.len(), 2);
    assert_eq!(d.capacity(), 2);
    assert!(c == d);
    drop(c);
    assert_eq!(d.as_slice(), &[10, 20]);
}

#[test]
fn iter_visits_live_elements_in_order() {
    let c = Collection::new(vec![1u8, 2, 3]);
    let seen: Vec<u8> = c.iter().copied().collect();
    assert_eq!(seen, vec![1, 2, 3]);
}

#[test]
fn as_mut_ptr_writes_in_place() {
    let mut c = Collection::new(vec![1i64, 2, 3]);
    {
        let s = c.as_mut_ptr();
        s[1] = 20;
    }
    assert_eq!(c.as_slice(), &[1, 20, 3]);
    assert_eq!(c.len(), 3);
}

#[test]
fn into_iter_yields_every_element_by_value() {
    let c = Collection::new(vec![7u16, 8, 9]);
    let all: Vec<u16> = c.into_iter().collect();
    assert_eq!(all, vec![7, 8, 9]);
}

struct Counted {
    drops: Rc<Cell<usize>>,
}

impl Drop for Counted {
    fn drop(&mut self) {
        self.drops.set(self.drops.get() + 1);
    }
}

#[test]
fn abandoned_iteration_drops_each_element_once() {
    let drops = Rc::new(Cell::new(0));
    let c = Collection::new(vec![
        Counted { drops: drops.clone() },
        Counted { drops: drops.clone() },
        Counted { drops: drops.clone() },
    ]);
    let mut it = c.into_iter();
    let first = it.next().unwrap();
    assert_eq!(drops.get(), 0);
    drop(it);
    assert_eq!(drops.get(), 2);
    drop(first);
    assert_eq!(drops.get(), 3);
}

#[test]
fn dropping_a_collection_drops_each_element_once() {
    let drops = Rc::new(Cell::new(0));
    let c = Collection::new(vec![Counted { drops: drops.clone() }, Counted { drops: drops.clone() }]);
    drop(c);
    assert_eq!(drops.get(), 2);
}

#[test]
fn from_vec_takes_the_buffer() {
    let c: Collection<char> = Collection::from(vec!['a', 'b']);
    assert_eq!(c.as_slice(), &['a', 'b']);
}

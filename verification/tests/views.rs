use pluralize::Plural;
use pluralize::Pluralize;

#[test]
fn bare_view_has_one_element() {
    let x: u64 = 42;
    let mut walk = x.pluralize();
    let mut seen: Vec<u64> = Vec::new();
    while let Some(i) = walk.next_index() {
        seen.push(*x.pget(i));
    }
    assert_eq!(seen, vec![42]);
}

#[test]
fn bare_view_mut_updates_in_place() {
    let mut x: u64 = 42;
    let mut walk = x.pluralize_mut();
    while let Some(i) = walk.next_index() {
        x.pset(i, 43);
    }
    let mut walk_again = x.pluralize();
    assert_eq!(*x.pget(walk_again.next_index().unwrap()), 43);
    assert_eq!(x, 43);
}

#[test]
fn sequence_view_yields_all_in_order() {
    let v: Vec<u64> = vec![9, 8, 7];
    let mut walk = v.pluralize();
    let mut seen: Vec<u64> = Vec::new();
    while let Some(i) = walk.next_index() {
        seen.push(*v.pget(i));
    }
    assert_eq!(seen, vec![9, 8, 7]);
}

#[test]
fn empty_sequence_view_yields_nothing() {
    let v: Vec<u64> = Vec::new();
    assert_eq!(v.plen(), 0);
    let mut walk = v.pluralize();
    assert!(walk.next_index().is_none());
}

#[test]
fn plural_single_views_like_a_bare_element() {
    let mut p: Plural<u64> = Plural::Single(42);
    assert_eq!(p.plen(), 1);
    assert!(!p.is_growable());
    assert_eq!(*p.pget(0), 42);
    p.pset(0, 43);
    assert_eq!(*p.pget(0), 43);
}

#[test]
fn plural_many_views_like_a_sequence() {
    let mut p: Plural<u64> = Plural::Many(vec![1, 2, 3]);
    assert_eq!(p.plen(), 3);
    assert!(p.is_growable());
    assert_eq!(*p.pget(1), 2);
    p.pset(1, 20);
    assert_eq!(*p.pget(1), 20);
}

#[test]
fn plural_grows_and_shrinks_only_when_many() {
    let mut p: Plural<u64> = Plural::Many(vec![1, 2]);
    assert!(p.grow(3));
    assert_eq!(p.plen(), 3);
    assert!(p.shrink(0));
    assert_eq!(p.plen(), 2);
    assert_eq!(*p.pget(0), 2);
    assert_eq!(*p.pget(1), 3);

    let mut b: Plural<u64> = Plural::Single(9);
    assert!(!b.grow(5));
    assert!(!b.shrink(0));
    assert_eq!(b.plen(), 1);
    assert_eq!(*b.pget(0), 9);
}

#[test]
fn boxed_element_views_like_a_bare_element() {
    let mut b: Box<u64> = Box::new(6);
    assert_eq!(b.plen(), 1);
    assert!(!b.is_growable());
    assert_eq!(*b.pget(0), 6);
    b.pset(0, 16);
    assert_eq!(*b, 16);
    assert!(!b.grow(1));
}

use niche_lang::list::List;
use niche_lang::list::List::{Cons, Nil};

#[test]
fn list_concat() {
    assert_eq!(Nil::<()>.concat(Nil), Nil);
    assert_eq!(Nil.concat(List::singleton(123)), List::singleton(123));
    assert_eq!(List::singleton(123).concat(Nil), List::singleton(123));

    assert_eq!(
        List::singleton(123).concat(List::singleton(456)),
        Cons(123, Box::new(Cons(456, Box::new(Nil))))
    );
    assert_eq!(
        List::singleton(123).concat(List::singleton(456)).concat(List::singleton(789)),
        Cons(123, Box::new(Cons(456, Box::new(Cons(789, Box::new(Nil))))))
    );
    // Different grouping from above.
    assert_eq!(
        List::singleton(123).concat(List::singleton(456).concat(List::singleton(789))),
        Cons(123, Box::new(Cons(456, Box::new(Cons(789, Box::new(Nil))))))
    );
}

#[test]
fn list_from_vec_keeps_order() {
    assert_eq!(List::from_vec(vec![1, 2, 3]), Cons(1, Box::new(Cons(2, Box::new(Cons(3, Box::new(Nil)))))));
    assert_eq!(List::<u8>::from_vec(vec![]), Nil);
}

#[test]
fn list_iter_head_first() {
    let l = List::from_vec(vec![7, 8, 9]);
    let items: Vec<i32> = l.iter().into_iter().copied().collect();
    assert_eq!(items, vec![7, 8, 9]);
    assert!(List::<i32>::Nil.iter().is_empty());
}

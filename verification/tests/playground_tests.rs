use rust_playground::cons_list::List;
use rust_playground::text::{foo, gen_static_str};
use rust_playground::widgets::{Button, Draw, Select};
use std::rc::Rc;

#[test]
fn it_works() {
    let result = 2 + 2;
    assert_eq!(result, 4);
}

#[test]
fn box_test() {
    let b = foo("world");
    println!("{}", b);

    let a = Box::new(3);
    let arr = [0; 1000];
    let arr1 = arr;

    println!("{:?}", arr.len());
    println!("{:?}", arr1.len());

    let arr2 = Box::new([0; 1000]);
    let arr3 = arr2;
    println!("{:?}", arr3.len());
    let _ = a;

    let first = Box::new(List::Nil);
    let second = Box::new(List::Cons(1, first));
    let _ = second;

    let elems: Vec<Box<dyn Draw>> = vec![Box::new(Button { id: 1 }), Box::new(Select { id: 2 })];
    for e in elems {
        println!("{}", e.draw());
    }

    let ss = gen_static_str();
    println!("static string: {}", ss);
}

#[test]
fn rc_test() {
    let a = Rc::new(String::from("hello, world"));
    println!("count after creating a = {}", Rc::strong_count(&a));

    let b = Rc::clone(&a);
    println!("count after creating b = {}", Rc::strong_count(&a));

    assert_eq!(2, Rc::strong_count(&a));
    assert_eq!(2, Rc::strong_count(&b));
    assert_eq!(Rc::strong_count(&a), Rc::strong_count(&b));

    {
        let c = Rc::clone(&a);
        println!("count after creating c = {}", Rc::strong_count(&a));
        let _ = c;
    }
    println!("count after c goes out of scope = {}", Rc::strong_count(&a));
}

#[test]
fn arc_test() {
    let s = String::from("hello world");
    let a = Box::new(s);
    let _ = a;
}

#[test]
fn foo_puts_hello_before_its_argument() {
    assert_eq!(foo("world"), "hello, world");
    assert_eq!(foo(""), "hello, ");
}

#[test]
fn gen_static_str_is_hello_world() {
    let s: &'static str = gen_static_str();
    assert_eq!(s, "hello world");
}

#[test]
fn widgets_draw_their_ids() {
    assert_eq!(Button { id: 1 }.draw(), "button id 1");
    assert_eq!(Select { id: 2 }.draw(), "select id 2");
    assert_eq!(Button { id: 0 }.draw(), "button id 0");
    assert_eq!(Select { id: 4294967295 }.draw(), "select id 4294967295");
}

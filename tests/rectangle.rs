use linked_lists::rectangle::Rectangle;

fn area_of(width: u32, height: u32) -> u32 {
    width * height
}

fn area(rect: &Rectangle) -> u32 {
    rect.width * rect.height
}

trait Area {
    fn area(&self) -> u32;
}

trait Hold {
    fn can_hold(&self, other: &Self) -> bool;
}

impl Area for Rectangle {
    fn area(&self) -> u32 {
        self.width * self.height
    }
}

impl Hold for Rectangle {
    fn can_hold(&self, other: &Self) -> bool {
        self.width > other.width && self.height > other.height
    }
}

#[test]
fn listing_5_8() {
    let w = 30;
    let h = 20;
    assert_eq!(w * h, area_of(w, h));
}

#[test]
fn main_listing_5_10() {
    let rect = Rectangle {
        width: 30,
        height: 50,
    };
    assert_eq!(1500, area(&rect));
    println!("rect = {:?}", rect);
    println!("rect = {:#?}", rect);
}

#[test]
fn second_attempt_listing_5_10() {
    let rect = Rectangle {
        width: 30,
        height: 50,
    };
    assert_eq!(1500, area(&rect));
    println!("rect = {:?}", rect);
    println!("rect = {:#?}", rect);
}

#[test]
fn main_listing_5_13() {
    let mut rect = Rectangle {
        width: 30,
        height: 50,
    };
    assert_eq!(1500, Area::area(&rect));
    assert_eq!(1500, rect.area());
    assert_eq!(1500, (&rect).area());
    rect.width = 300;
    assert_eq!(15000, (&rect).area());
}

#[test]
fn third_attempt_listing_5_13() {
    let mut rect = Rectangle {
        width: 30,
        height: 50,
    };
    assert_eq!(1500, Area::area(&rect));
    assert_eq!(1500, rect.area());
    assert_eq!(1500, (&rect).area());
    rect.width = 300;
    assert_eq!(15000, (&rect).area());
}

#[test]
fn main_listing_5_14() {
    let rect1 = Rectangle {
        width: 30,
        height: 50,
    };
    let rect2 = Rectangle {
        width: 10,
        height: 40,
    };
    let rect3 = Rectangle {
        width: 60,
        height: 45,
    };

    assert!(rect1.can_hold(&rect2));
    println!("Can rect1 hold rect2? {}", rect1.can_hold(&rect2));
    assert!(!rect1.can_hold(&rect3));
    println!("Can rect1 hold rect3? {}", rect1.can_hold(&rect3));
}

#[test]
fn third_attempt_listing_5_14() {
    let rect1 = Rectangle {
        width: 30,
        height: 50,
    };
    let rect2 = Rectangle {
        width: 10,
        height: 40,
    };
    let rect3 = Rectangle {
        width: 60,
        height: 45,
    };

    assert!(rect1.can_hold(&rect2));
    assert!(!rect1.can_hold(&rect3));
}

#[test]
fn constructor() {
    let r = Rectangle::new(30, 50);
    println!("{:?}", r);
    assert_eq!((r.width, r.height), (30, 50));
    let s = Rectangle::square(72);
    println!("{:?}", s);
    assert_eq!((s.width, s.height), (72, 72));
}

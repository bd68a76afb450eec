//! The implementations written by hand here are exactly what the generator's
//! contract requires it to emit for each declaration: a purely structural
//! duplicate that rebuilds the value component by component, never any
//! independently named method attached to the type.

use std::rc::Rc;

use clone_cell::cell::Cell;
use clone_cell::clone::PureClone;
use clone_cell::generate::{
    check_grant, expand_derive_pure_clone, FieldDecl, TypeDecl, VariantDecl,
};

struct Scalars {
    x: i32,
    y: f32,
}

impl PureClone for Scalars {
    fn pure_clone(&self) -> Self {
        Scalars {
            x: self.x.pure_clone(),
            y: self.y,
        }
    }
}

#[test]
fn pure_clone_struct() {
    let mut c = Cell::new(Scalars { x: 0, y: 0.0 });
    c.set(Scalars { x: 42, y: -42.0 });
    assert_eq!(c.get().x, 42);
    assert_eq!(c.get().y, -42.0);
}

struct Inner {
    data: i32,
    ptr: Rc<i32>,
}

struct Outer {
    f: Inner,
}

// An "inherent" duplicate-like method a user might attach to the type.  It is
// deliberately non-compliant (it forgets `data`); the capability path must
// never call it.
impl Inner {
    #[allow(dead_code)]
    fn clone(&self) -> Self {
        Inner {
            data: 0,
            ptr: self.ptr.pure_clone(),
        }
    }
}

impl PureClone for Inner {
    fn pure_clone(&self) -> Self {
        Inner {
            data: self.data.pure_clone(),
            ptr: self.ptr.pure_clone(),
        }
    }
}

impl PureClone for Outer {
    fn pure_clone(&self) -> Self {
        Outer {
            f: self.f.pure_clone(),
        }
    }
}

#[test]
fn inherent_clone_method() {
    let mut c: Cell<Option<Outer>> = Cell::new(None);
    c.set(Some(Outer {
        f: Inner {
            data: 42,
            ptr: Rc::new(0),
        },
    }));
    assert_eq!(c.get().unwrap().f.data, 42);
}

struct Wrap<T> {
    value: T,
}

struct WrapPair<T> {
    f: Wrap<T>,
}

impl<T: PureClone> Clone for Wrap<T> {
    fn clone(&self) -> Self {
        Wrap {
            value: self.value.pure_clone(),
        }
    }
}

impl<T: PureClone> PureClone for Wrap<T> {
    fn pure_clone(&self) -> Self {
        self.clone()
    }
}

impl<T: PureClone> Clone for WrapPair<T> {
    fn clone(&self) -> Self {
        WrapPair {
            f: self.f.pure_clone(),
        }
    }
}

impl<T: PureClone> PureClone for WrapPair<T> {
    fn pure_clone(&self) -> Self {
        self.clone()
    }
}

#[test]
fn with_type_params() {
    let f = Wrap { value: 42 };
    let b = WrapPair { f };
    assert_eq!(b.clone().f.value, 42);
}

struct Borrowing<'a, T> {
    a: &'a T,
}

impl<'a, T> Clone for Borrowing<'a, T> {
    fn clone(&self) -> Self {
        Borrowing {
            a: self.a.pure_clone(),
        }
    }
}

impl<'a, T> PureClone for Borrowing<'a, T> {
    fn pure_clone(&self) -> Self {
        self.clone()
    }
}

#[test]
fn with_lifetimes() {
    let i = 42;
    let f = Borrowing { a: &i };
    assert_eq!(f.clone().a, &i);
    assert_eq!(*f.clone().a, i);
}

#[derive(Debug, PartialEq)]
struct Unit;

#[derive(Debug, PartialEq)]
enum Shape<T> {
    _X,
    _Y(i32),
    Z { x: (usize,), y: Box<T>, z: Unit },
}

impl Clone for Unit {
    fn clone(&self) -> Self {
        Unit
    }
}

impl PureClone for Unit {
    fn pure_clone(&self) -> Self {
        self.clone()
    }
}

impl<T: PureClone> Clone for Shape<T> {
    fn clone(&self) -> Self {
        match self {
            Shape::_X => Shape::_X,
            Shape::_Y(a) => Shape::_Y(a.pure_clone()),
            Shape::Z { x, y, z } => Shape::Z {
                x: x.pure_clone(),
                y: y.pure_clone(),
                z: z.pure_clone(),
            },
        }
    }
}

impl<T: PureClone> PureClone for Shape<T> {
    fn pure_clone(&self) -> Self {
        self.clone()
    }
}

#[test]
fn variant() {
    let b = Shape::Z {
        x: (42,),
        y: Box::new('y'),
        z: Unit,
    };
    let b2 = b.clone();
    assert_eq!(b, b2);
}

#[test]
fn grant_refused_names_first_field() {
    let decl = TypeDecl::Product {
        name: String::from("Holder"),
        fields: vec![
            FieldDecl {
                name: String::from("count"),
                ty: 1,
            },
            FieldDecl {
                name: String::from("window"),
                ty: 7,
            },
            FieldDecl {
                name: String::from("other"),
                ty: 8,
            },
        ],
    };
    let granted = vec![1, 2, 3];
    let e = check_grant(&decl, &granted).unwrap_err();
    assert_eq!(e.field, "window");
    assert_eq!(e.ty, 7);
}

#[test]
fn grant_holds_when_all_fields_granted() {
    let decl = TypeDecl::Product {
        name: String::from("Holder"),
        fields: vec![
            FieldDecl {
                name: String::from("count"),
                ty: 1,
            },
            FieldDecl {
                name: String::from("label"),
                ty: 3,
            },
        ],
    };
    let granted = vec![1, 2, 3];
    assert_eq!(check_grant(&decl, &granted).is_ok(), true);
}

#[test]
fn grant_refused_in_second_variant() {
    let decl = TypeDecl::Sum {
        name: String::from("Choice"),
        variants: vec![
            VariantDecl {
                name: String::from("Left"),
                fields: vec![FieldDecl {
                    name: String::from("l"),
                    ty: 1,
                }],
            },
            VariantDecl {
                name: String::from("Right"),
                fields: vec![FieldDecl {
                    name: String::from("r"),
                    ty: 9,
                }],
            },
        ],
    };
    let granted = vec![1];
    let e = check_grant(&decl, &granted).unwrap_err();
    assert_eq!(e.field, "r");
    assert_eq!(e.ty, 9);
}

#[test]
fn expanded_plan_is_structural_in_declaration_order() {
    let decl = TypeDecl::Product {
        name: String::from("Holder"),
        fields: vec![
            FieldDecl {
                name: String::from("a"),
                ty: 5,
            },
            FieldDecl {
                name: String::from("b"),
                ty: 6,
            },
        ],
    };
    let impls = expand_derive_pure_clone(&decl);
    assert_eq!(impls.clone_steps, vec![vec![5, 6]]);
    assert_eq!(impls.obligations, vec![5, 6]);
}

#[test]
fn expanded_sum_plan_rebuilds_each_variant() {
    let decl = TypeDecl::Sum {
        name: String::from("Choice"),
        variants: vec![
            VariantDecl {
                name: String::from("Left"),
                fields: vec![
                    FieldDecl {
                        name: String::from("l0"),
                        ty: 1,
                    },
                    FieldDecl {
                        name: String::from("l1"),
                        ty: 2,
                    },
                ],
            },
            VariantDecl {
                name: String::from("Right"),
                fields: vec![],
            },
            VariantDecl {
                name: String::from("Mid"),
                fields: vec![FieldDecl {
                    name: String::from("m"),
                    ty: 3,
                }],
            },
        ],
    };
    let impls = expand_derive_pure_clone(&decl);
    assert_eq!(impls.clone_steps, vec![vec![1, 2], vec![], vec![3]]);
    assert_eq!(impls.obligations, vec![1, 2, 3]);
}

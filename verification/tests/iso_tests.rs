use isomorphic::iso::clone_of;
use isomorphic::iso::mut_ref_of;
use isomorphic::iso::ref_of;
use isomorphic::iso::round_trip;
use isomorphic::planar::Offset;
use isomorphic::planar::Point;
use isomorphic::wrap::Wrap;

#[test]
fn identity_ref_reads_back() {
    let v: i32 = 7;
    let r: &i32 = ref_of(&v);
    assert_eq!(*r, 7);
}

#[test]
fn identity_mut_writes_back() {
    let mut v: i32 = 7;
    let m: &mut i32 = mut_ref_of(&mut v);
    *m += 1;
    assert_eq!(v, 8);
}

#[test]
fn identity_value_copies() {
    let v: i32 = 7;
    let c: i32 = clone_of(&v);
    assert_eq!(c, 7);
    assert_eq!(v, 7);
}

#[test]
fn wrapper_ref_reads_field() {
    let w = Wrap(42i32);
    let r: &i32 = ref_of(&w);
    assert_eq!(*r, 42);
}

#[test]
fn wrapper_value_round_trip() {
    let w = Wrap(42i32);
    let v: i32 = clone_of(&w);
    let back: Wrap<i32> = clone_of(&v);
    assert_eq!(back, w);
}

#[test]
fn field_to_wrapper_value() {
    let n: u8 = 9;
    let w: Wrap<u8> = clone_of(&n);
    assert_eq!(w.0, 9);
}

#[test]
fn mutation_through_reborrow_is_observed() {
    let mut w = Wrap(41i32);
    let m: &mut i32 = mut_ref_of(&mut w);
    *m += 1;
    assert_eq!(w.0, 42);
}

#[test]
fn owned_conversion_leaves_source_untouched() {
    let w = Wrap(42i32);
    let v: i32 = clone_of(&w);
    assert_eq!(v, 42);
    assert_eq!(w.0, 42);
}

#[test]
fn symmetric_wrapper_round_trips() {
    let w = Wrap(1234i32);
    let back: Wrap<i32> = round_trip::<_, i32>(&w);
    assert_eq!(back, w);
    let n: i32 = 1234;
    let back_n: i32 = round_trip::<_, Wrap<i32>>(&n);
    assert_eq!(back_n, n);
}

#[test]
fn symmetric_pair_round_trips() {
    let p = Point { x: 3, y: -4 };
    let back: Point = round_trip::<_, Offset>(&p);
    assert_eq!(back, p);
    let o = Offset { dx: -1, dy: 9 };
    let back_o: Offset = round_trip::<_, Point>(&o);
    assert_eq!(back_o, o);
}

#[test]
fn renaming_pair_moves_each_field() {
    let p = Point { x: 3, y: -4 };
    let o: Offset = clone_of(&p);
    assert_eq!(o.dx, 3);
    assert_eq!(o.dy, -4);
    let p2: Point = clone_of(&o);
    assert_eq!(p2, p);
}

#[test]
fn wrapper_scenario_end_to_end() {
    let mut w = Wrap(42i32);
    let r: &i32 = ref_of(&w);
    assert_eq!(*r, 42);
    let before: i32 = clone_of(&w);
    assert_eq!(before, 42);
    let m: &mut i32 = mut_ref_of(&mut w);
    *m += 1;
    assert_eq!(w.0, 43);
    let after: i32 = clone_of(&w);
    assert_eq!(after, 43);
}

#[test]
fn one_declaration_many_instantiations() {
    let a = Wrap(5u8);
    let ra: &u8 = ref_of(&a);
    assert_eq!(*ra, 5);

    let b = Wrap(-6i64);
    let rb: &i64 = ref_of(&b);
    assert_eq!(*rb, -6);

    let c = Wrap(true);
    let rc: &bool = ref_of(&c);
    assert!(*rc);

    let d = Wrap(Wrap(11u16));
    let rd: &Wrap<u16> = ref_of(&d);
    assert_eq!(rd.0, 11);
}

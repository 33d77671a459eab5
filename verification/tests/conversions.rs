use map_box_from::convert::{into_sized, lift, MapBoxFrom, MapBoxInto};

#[derive(Debug, PartialEq)]
struct Meters(u32);

#[derive(Debug, PartialEq)]
struct Millimeters(u64);

impl From<Meters> for Millimeters {
    fn from(value: Meters) -> Millimeters {
        Millimeters(u64::from(value.0) * 1000)
    }
}

#[test]
fn map_box_from_matches_native_into() {
    let converted: Box<i64> = <i64 as MapBoxFrom<i32>>::map_box_from(Box::new(16i32));
    let native: i64 = i64::from(16i32);
    assert_eq!(*converted, native);
}

#[test]
fn map_box_into_forwards_to_map_box_from() {
    let via_into: Box<i64> = MapBoxInto::<i64>::map_box_into(Box::new(7i32));
    let via_from: Box<i64> = <i64 as MapBoxFrom<i32>>::map_box_from(Box::new(7i32));
    assert_eq!(*via_into, *via_from);
}

#[test]
fn map_box_into_method_call_resolves() {
    let boxed: Box<u8> = Box::new(200u8);
    let widened: Box<u16> = boxed.map_box_into();
    assert_eq!(*widened, 200u16);
}

#[test]
fn identity_round_trip_through_unsized_wrapper() {
    let int = 16_i32;
    let boxed_int: Box<[i32]> = lift(int);
    let boxed_int: Box<[i32]> = <[i32] as MapBoxFrom<[i32]>>::map_box_from(boxed_int);
    let unboxed_int: i32 = into_sized(boxed_int);
    assert_eq!(int, unboxed_int);
}

#[test]
fn lift_builds_a_one_element_slice() {
    let lifted: Box<[i32]> = lift(-3);
    assert_eq!(lifted.len(), 1);
    assert_eq!(lifted[0], -3);
}

#[test]
fn identity_conversion_keeps_every_element() {
    let values: Box<[i32]> = vec![1, 2, 3].into_boxed_slice();
    let converted: Box<[i32]> = <[i32] as MapBoxFrom<[i32]>>::map_box_from(values);
    assert_eq!(&*converted, &[1, 2, 3]);
}

#[test]
fn conversions_are_total() {
    // Both operations hand back the bare box: there is no Result or Option
    // wrapper to unwrap anywhere on the public surface.
    let forward: Box<i128> = <i128 as MapBoxFrom<i64>>::map_box_from(Box::new(-5i64));
    let backward: Box<i128> = MapBoxInto::<i128>::map_box_into(Box::new(-5i64));
    assert_eq!(*forward, -5i128);
    assert_eq!(*backward, -5i128);
}

#[test]
fn user_defined_native_conversion_is_reused() {
    let lifted: Box<Millimeters> = <Millimeters as MapBoxFrom<Meters>>::map_box_from(
        Box::new(Meters(5)),
    );
    assert_eq!(*lifted, Millimeters(5000));
}

#[test]
fn duality_also_covers_unsized_pairs() {
    let values: Box<[i32]> = lift(16);
    let forwarded: Box<[i32]> = MapBoxInto::<[i32]>::map_box_into(values);
    assert_eq!(into_sized(forwarded), 16);
}

#[test]
fn conversion_between_distinct_sized_types_uses_native_semantics() {
    let narrow: Box<u8> = Box::new(255u8);
    let wide: Box<u128> = <u128 as MapBoxFrom<u8>>::map_box_from(narrow);
    assert_eq!(*wide, 255u128);
}

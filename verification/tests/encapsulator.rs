use engine_bridge::encapsulator::{
    encapsulate, prevent_gc, unpack, unpack_this, update_data, Handle, MethodCall, TypeMismatch,
    TypeTag, DATA_KEY, ROOT_KEY,
};
use engine_bridge::utils::{Describe, ExceptionKind, ResultExt};

const TRACK: TypeTag = TypeTag(1);
const CLIP: TypeTag = TypeTag(2);

fn track() -> Handle<u32, i64, &'static str> {
    encapsulate(
        TRACK,
        17u32,
        vec![(String::from("key"), 17i64), (String::from("gain"), -3)],
        vec![
            (String::from("getKey"), "get_key"),
            (String::from("delete"), "delete"),
        ],
    )
}

#[test]
fn slot_names_are_fixed() {
    assert_eq!(DATA_KEY, "data");
    assert_eq!(ROOT_KEY, "root");
}

#[test]
fn encapsulate_installs_payload_properties_and_methods() {
    let handle = track();
    assert_eq!(handle.tag(), TRACK);
    assert_eq!(unpack(&handle, TRACK, |key| *key), Ok(17));
    assert_eq!(handle.properties().len(), 2);
    assert_eq!(handle.properties()[0], (String::from("key"), 17));
    assert_eq!(handle.properties()[1], (String::from("gain"), -3));
    assert_eq!(handle.methods().len(), 2);
    assert_eq!(handle.property("key"), Some(&17));
    assert_eq!(handle.property("gain"), Some(&-3));
    assert_eq!(handle.property("getKey"), None);
    assert_eq!(handle.method("getKey"), Some(&"get_key"));
    assert_eq!(handle.method("delete"), Some(&"delete"));
    assert_eq!(handle.method("key"), None);
    assert_eq!(handle.method("getkey"), None);
    assert!(!handle.is_anchored());
}

#[test]
fn bare_handle_has_no_properties_and_no_methods() {
    let handle: Handle<u8, u8, u8> = encapsulate(CLIP, 1, vec![], vec![]);
    assert_eq!(handle.property("data"), None);
    assert_eq!(handle.method(""), None);
    assert_eq!(unpack(&handle, CLIP, |data| *data), Ok(1));
}

#[test]
fn later_entry_of_a_name_hides_the_earlier() {
    let handle: Handle<u8, u8, u8> = encapsulate(
        CLIP,
        0,
        vec![(String::from("a"), 1), (String::from("b"), 2), (String::from("a"), 3)],
        vec![(String::from("m"), 4), (String::from("m"), 5)],
    );
    assert_eq!(handle.property("a"), Some(&3));
    assert_eq!(handle.property("b"), Some(&2));
    assert_eq!(handle.method("m"), Some(&5));
}

#[test]
fn unpack_refuses_a_payload_of_another_type() {
    let handle = track();
    let mut called = false;
    let out = unpack(&handle, CLIP, |_| {
        called = true;
    });
    assert_eq!(out, Err(TypeMismatch { expected: CLIP, found: TRACK }));
    assert!(!called);
}

#[test]
fn unpack_this_reads_the_receiver() {
    let handle = track();
    let call = MethodCall { this: &handle, arguments: vec![1i64, 2] };
    assert_eq!(unpack_this(&call, TRACK, |key| *key + 1), Ok(18));
    assert_eq!(
        unpack_this(&call, CLIP, |key| *key),
        Err(TypeMismatch { expected: CLIP, found: TRACK })
    );
    assert_eq!(call.arguments, vec![1, 2]);
}

#[test]
fn update_data_replaces_the_payload() {
    let mut handle = track();
    assert_eq!(update_data(&mut handle, TRACK, |key| *key * 2), Ok(()));
    assert_eq!(unpack(&handle, TRACK, |key| *key), Ok(34));
    assert_eq!(handle.property("key"), Some(&17));
    assert_eq!(handle.method("delete"), Some(&"delete"));
    assert_eq!(
        update_data(&mut handle, CLIP, |_| 0),
        Err(TypeMismatch { expected: CLIP, found: TRACK })
    );
    assert_eq!(unpack(&handle, TRACK, |key| *key), Ok(34));
}

#[test]
fn prevent_gc_anchors_the_handle() {
    let mut handle = track();
    assert!(!handle.is_anchored());
    prevent_gc(&mut handle);
    assert!(handle.is_anchored());
    prevent_gc(&mut handle);
    assert!(handle.is_anchored());
    assert_eq!(unpack(&handle, TRACK, |key| *key), Ok(17));
}

#[test]
fn mismatch_is_raised_as_a_type_error() {
    let mismatch = TypeMismatch { expected: CLIP, found: TRACK };
    let exception = mismatch.describe();
    assert_eq!(exception.kind, ExceptionKind::TypeError);
    assert_eq!(
        exception.message,
        "The object holds native data of another type than expected"
    );
    let handle = track();
    let thrown = unpack(&handle, CLIP, |key| *key).or_throw().unwrap_err();
    assert_eq!(thrown, exception);
}

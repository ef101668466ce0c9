//! Handles: host-visible objects that carry one native payload, a set of
//! properties and a fixed table of methods, and the checked ways back to the
//! payload.

use crate::utils::same_text;
use crate::utils::Describe;
use crate::utils::Exception;
use crate::utils::ExceptionKind;
use vstd::prelude::*;

verus! {

/// The name of the slot that holds the payload of a handle.
pub const DATA_KEY: &'static str = "data";

/// The name of the slot that holds the root anchor of a handle.
pub const ROOT_KEY: &'static str = "root";

/// What tells the type of a payload at run time.
#[derive(Clone, Copy, Debug, PartialEq, Eq, Structural)]
pub struct TypeTag(pub u64);

/// A handle held a payload of another type than its user expected.
#[derive(Clone, Copy, Debug, PartialEq, Eq, Structural)]
pub struct TypeMismatch {
    pub expected: TypeTag,
    pub found: TypeTag,
}

impl Describe for TypeMismatch {
    open spec fn text(&self) -> Seq<char> {
        "The object holds native data of another type than expected"@
    }

    open spec fn kind(&self) -> ExceptionKind {
        ExceptionKind::TypeError
    }

    fn describe(&self) -> (exception: Exception) {
        Exception {
            kind: ExceptionKind::TypeError,
            message: String::from_str(
                "The object holds native data of another type than expected",
            ),
        }
    }
}

/// The value that the last entry of the given name holds, as a later entry of a
/// name hides the earlier ones.
pub open spec fn lookup<V>(entries: Seq<(String, V)>, name: Seq<char>) -> Option<V>
    decreases entries.len(),
{
    if entries.len() == 0 {
        None
    } else if entries.last().0@ == name {
        Some(entries.last().1)
    } else {
        lookup(entries.drop_last(), name)
    }
}

/// A handle as its users see it.
pub struct HandleState<D, V, M> {
    /// The type of the payload.
    pub tag: TypeTag,
    /// The payload.
    pub data: D,
    /// The properties, in the order in which they were given.
    pub properties: Seq<(String, V)>,
    /// The methods, in the order in which they were given.
    pub methods: Seq<(String, M)>,
    /// The number of root anchors that keep the handle from being collected.
    pub anchors: nat,
}

/// A host-visible object with its native payload of type `D`, its properties of
/// type `V` and its methods of type `M`.
pub struct Handle<D, V, M> {
    tag: TypeTag,
    data: D,
    properties: Vec<(String, V)>,
    methods: Vec<(String, M)>,
    anchors: usize,
}

impl<D, V, M> View for Handle<D, V, M> {
    type V = HandleState<D, V, M>;

    closed spec fn view(&self) -> HandleState<D, V, M> {
        HandleState {
            tag: self.tag,
            data: self.data,
            properties: self.properties@,
            methods: self.methods@,
            anchors: self.anchors as nat,
        }
    }
}

fn find<'a, V>(entries: &'a Vec<(String, V)>, name: &str) -> (found: Option<&'a V>)
    ensures
        found == match lookup(entries@, name@) {
            Some(value) => Some(&value),
            None => None,
        },
{
    let mut i: usize = entries.len();
    assert(entries@.take(i as int) =~= entries@);
    while i > 0
        invariant
            i <= entries.len(),
            lookup(entries@, name@) == lookup(entries@.take(i as int), name@),
        decreases i,
    {
        i = i - 1;
        proof {
            let upto = entries@.take(i + 1);
            assert(upto.last() == entries@[i as int]);
            assert(upto.drop_last() =~= entries@.take(i as int));
        }
        if same_text(entries[i].0.as_str(), name) {
            return Some(&entries[i].1);
        }
    }
    proof {
        assert(entries@.take(0).len() == 0);
    }
    None
}

impl<D, V, M> Handle<D, V, M> {
    /// The value of the property of the given name; of several the last.
    pub fn property(&self, name: &str) -> (value: Option<&V>)
        ensures
            value == match lookup(self@.properties, name@) {
                Some(value) => Some(&value),
                None => None,
            },
    {
        find(&self.properties, name)
    }

    /// The method of the given name; of several the last.
    pub fn method(&self, name: &str) -> (method: Option<&M>)
        ensures
            method == match lookup(self@.methods, name@) {
                Some(method) => Some(&method),
                None => None,
            },
    {
        find(&self.methods, name)
    }

    /// The properties, in the order in which they were given.
    pub fn properties(&self) -> (properties: &Vec<(String, V)>)
        ensures
            properties@ == self@.properties,
    {
        &self.properties
    }

    /// The methods, in the order in which they were given.
    pub fn methods(&self) -> (methods: &Vec<(String, M)>)
        ensures
            methods@ == self@.methods,
    {
        &self.methods
    }

    /// The type of the payload.
    pub fn tag(&self) -> (tag: TypeTag)
        ensures
            tag == self@.tag,
    {
        self.tag
    }

    /// Whether a root anchor keeps the handle from being collected.
    pub fn is_anchored(&self) -> (anchored: bool)
        ensures
            anchored == (self@.anchors > 0),
    {
        self.anchors > 0
    }
}

/// Makes a handle that holds `data` as its payload and exposes the given
/// properties and methods.
pub fn encapsulate<D, V, M>(
    tag: TypeTag,
    data: D,
    properties: Vec<(String, V)>,
    methods: Vec<(String, M)>,
) -> (handle: Handle<D, V, M>)
    ensures
        handle@ == (HandleState {
            tag,
            data,
            properties: properties@,
            methods: methods@,
            anchors: 0,
        }),
{
    Handle { tag, data, properties, methods, anchors: 0 }
}

/// Places one more root anchor on the handle, so that it is not collected.
pub fn prevent_gc<D, V, M>(handle: &mut Handle<D, V, M>)
    requires
        old(handle)@.anchors < usize::MAX,
    ensures
        final(handle)@ == (HandleState { anchors: old(handle)@.anchors + 1, ..old(handle)@ }),
{
    handle.anchors = handle.anchors + 1;
}

/// Hands the payload of `handle` to `callback`, if it is of the expected type.
/// Where it is not, the callback is not called and the mismatch is reported.
pub fn unpack<D, V, M, R, F: FnOnce(&D) -> R>(
    handle: &Handle<D, V, M>,
    expected: TypeTag,
    callback: F,
) -> (out: Result<R, TypeMismatch>)
    requires
        handle@.tag == expected ==> callback.requires((&handle@.data,)),
    ensures
        handle@.tag == expected ==> (out matches Ok(value) && callback.ensures(
            (&handle@.data,),
            value,
        )),
        handle@.tag != expected ==> out == Err::<R, TypeMismatch>(
            TypeMismatch { expected, found: handle@.tag },
        ),
{
    if handle.tag == expected {
        Ok(callback(&handle.data))
    } else {
        Err(TypeMismatch { expected, found: handle.tag })
    }
}

/// Replaces the payload of `handle` by what `callback` makes of it, if it is of
/// the expected type. Where it is not, the handle stays as it is and the mismatch
/// is reported.
pub fn update_data<D, V, M, F: FnOnce(&D) -> D>(
    handle: &mut Handle<D, V, M>,
    expected: TypeTag,
    callback: F,
) -> (out: Result<(), TypeMismatch>)
    requires
        old(handle)@.tag == expected ==> callback.requires((&old(handle)@.data,)),
    ensures
        old(handle)@.tag == expected ==> out is Ok && callback.ensures(
            (&old(handle)@.data,),
            final(handle)@.data,
        ) && final(handle)@ == (HandleState { data: final(handle)@.data, ..old(handle)@ }),
        old(handle)@.tag != expected ==> out == Err::<(), TypeMismatch>(
            TypeMismatch { expected, found: old(handle)@.tag },
        ) && final(handle)@ == old(handle)@,
{
    if handle.tag == expected {
        let data = callback(&handle.data);
        handle.data = data;
        Ok(())
    } else {
        Err(TypeMismatch { expected, found: handle.tag })
    }
}

/// One call of a method: the handle that the method was called on, and the
/// arguments of the call.
pub struct MethodCall<'a, D, V, M> {
    pub this: &'a Handle<D, V, M>,
    pub arguments: Vec<V>,
}

/// As `unpack`, on the handle that the method was called on.
pub fn unpack_this<'a, D, V, M, R, F: FnOnce(&D) -> R>(
    call: &MethodCall<'a, D, V, M>,
    expected: TypeTag,
    callback: F,
) -> (out: Result<R, TypeMismatch>)
    requires
        call.this@.tag == expected ==> callback.requires((&call.this@.data,)),
    ensures
        call.this@.tag == expected ==> (out matches Ok(value) && callback.ensures(
            (&call.this@.data,),
            value,
        )),
        call.this@.tag != expected ==> out == Err::<R, TypeMismatch>(
            TypeMismatch { expected, found: call.this@.tag },
        ),
{
    unpack(call.this, expected, callback)
}

} // verus!

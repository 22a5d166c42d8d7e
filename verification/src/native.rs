use vstd::prelude::*;

verus! {

/// A runtime value as the embedded scripting engine tags it, snapshotted
/// into plain host data at the boundary. The engine owns its values and
/// exposes a kind tag with per-kind readouts; this type holds exactly what
/// the conversion logic reads: the kind, the payload, and for objects the
/// own properties in enumeration order.
pub enum NativeValue {
    /// Any kind the conversion does not recognize (undefined and
    /// null-like values, symbols, plain functions).
    Undefined,
    Boolean(bool),
    Int32(i32),
    /// A 64-bit float, carried as its IEEE 754 bit pattern; the bridge
    /// never performs float arithmetic.
    Double(u64),
    Text(String),
    /// Own properties in enumeration order; names are unique on values
    /// that came out of the engine.
    Object(Vec<(String, NativeValue)>),
}

/// The reserved property name marking an object as the runtime-side
/// handle of a managed future.
pub open spec fn future_marker() -> Seq<char> {
    "__esses_future_obj_id"@
}

/// The future id carried by a property list, if any: the first property
/// whose name is the reserved marker and whose value is a 32-bit integer.
/// An object carrying one is treated as a future handle rather than
/// converted structurally.
pub open spec fn spec_find_future_id(props: Seq<(String, NativeValue)>, from: int) -> Option<i32>
    decreases props.len() - from,
{
    if from < 0 || from >= props.len() {
        None
    } else if props[from].0@ == future_marker() && props[from].1 is Int32 {
        Some(props[from].1->Int32_0)
    } else {
        spec_find_future_id(props, from + 1)
    }
}

/// Property names are unique at every level, as own-property enumeration
/// of an engine object guarantees.
pub open spec fn native_wf(n: NativeValue) -> bool
    decreases n,
{
    match n {
        NativeValue::Object(props) => {
            &&& forall|i: int, j: int|
                0 <= i < j < props@.len() ==> (#[trigger] props@[i]).0@ != (#[trigger] props@[j]).0@
            &&& forall|i: int| 0 <= i < props@.len() ==> native_wf((#[trigger] props@[i]).1)
        },
        _ => true,
    }
}

/// The set of future ids announced anywhere inside a native value: the id
/// of a future-marked object, or every id announced by the property
/// values of a plain object.
pub open spec fn future_ids(n: NativeValue) -> Set<i32>
    decreases n, 1int, 0int,
{
    match n {
        NativeValue::Object(props) => match spec_find_future_id(props@, 0) {
            Some(id) => Set::empty().insert(id),
            None => future_ids_of_props(props@, props@.len() as int),
        },
        _ => Set::empty(),
    }
}

/// The future ids announced by the first `k` property values.
pub open spec fn future_ids_of_props(props: Seq<(String, NativeValue)>, k: int) -> Set<i32>
    decreases props, 0int, k,
{
    if k <= 0 || k > props.len() {
        Set::empty()
    } else {
        future_ids_of_props(props, k - 1) + future_ids(props[k - 1].1)
    }
}

} // verus!

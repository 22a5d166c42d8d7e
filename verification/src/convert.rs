use crate::bridge::{future_channel, PromiseBridge};
use crate::facade::{facade_wf, EsValueFacade};
use crate::native::{
    future_ids, future_ids_of_props, future_marker, native_wf, spec_find_future_id, NativeValue,
};
use vstd::prelude::*;

verus! {

/// `f` is the detached snapshot of the native value `n`: equal payloads
/// for the primitive kinds (strings by contents), a managed future
/// carrying the announced id for a future-marked object, and a child list
/// matching key for key and value for value for any other object.
pub open spec fn represents(f: EsValueFacade, n: NativeValue) -> bool
    decreases n,
{
    match n {
        NativeValue::Undefined => f is Undefined,
        NativeValue::Boolean(b) => f matches EsValueFacade::Boolean { b: fb } && fb == b,
        NativeValue::Int32(v) => f matches EsValueFacade::I32 { v: fv } && fv == v,
        NativeValue::Double(bits) => f matches EsValueFacade::F64 { bits: fbits } && fbits == bits,
        NativeValue::Text(s) => f matches EsValueFacade::Str { s: fs } && fs@ == s@,
        NativeValue::Object(props) => match spec_find_future_id(props@, 0) {
            Some(id) => f matches EsValueFacade::ManagedFuture { obj_id, .. } && obj_id == id,
            None => f matches EsValueFacade::Object { props: fprops } && fprops@.len()
                == props@.len() && forall|i: int|
                0 <= i < props@.len() ==> (fprops@[i].0@ == (#[trigger] props@[i]).0@
                    && represents(fprops@[i].1, props@[i].1)),
        },
    }
}

/// `n` is the native rebuild of the snapshot `f`: equal payloads for the
/// primitive kinds, a fresh object with the same keys and recursively
/// rebuilt children for an object, and the undefined value for a managed
/// future, which has no forward conversion.
pub open spec fn converts_to(f: EsValueFacade, n: NativeValue) -> bool
    decreases f,
{
    match f {
        EsValueFacade::Undefined => n is Undefined,
        EsValueFacade::Str { s } => n matches NativeValue::Text(t) && t@ == s@,
        EsValueFacade::I32 { v } => n matches NativeValue::Int32(w) && w == v,
        EsValueFacade::F64 { bits } => n matches NativeValue::Double(b2) && b2 == bits,
        EsValueFacade::Boolean { b } => n matches NativeValue::Boolean(b2) && b2 == b,
        EsValueFacade::ManagedFuture { .. } => n is Undefined,
        EsValueFacade::Object { props } => n matches NativeValue::Object(nprops) && nprops@.len()
            == props@.len() && forall|i: int|
            0 <= i < props@.len() ==> (nprops@[i].0@ == (#[trigger] props@[i]).0@ && converts_to(
                props@[i].1,
                nprops@[i].1,
            )),
    }
}

/// Scans a property list for the reserved future marker with an integer
/// value, in enumeration order.
fn find_future_id(props: &Vec<(String, NativeValue)>) -> (r: Option<i32>)
    ensures
        r == spec_find_future_id(props@, 0),
{
    let marker: String = "__esses_future_obj_id".to_owned();
    let n = props.len();
    let mut i: usize = 0;
    while i < n
        invariant
            marker@ == future_marker(),
            n == props@.len(),
            0 <= i <= n,
            spec_find_future_id(props@, 0) == spec_find_future_id(props@, i as int),
        decreases n - i,
    {
        if props[i].0 == marker {
            match &props[i].1 {
                NativeValue::Int32(v) => {
                    return Some(*v);
                },
                _ => {},
            }
        }
        proof {
            assert(spec_find_future_id(props@, i as int) == spec_find_future_id(
                props@,
                i as int + 1,
            ));
        }
        i = i + 1;
    }
    None
}

impl EsValueFacade {
    /// Snapshots a native value into a detached facade, inspecting the
    /// kind in the fixed priority order boolean, 32-bit integer, 64-bit
    /// float, string, object; anything unrecognized becomes `Undefined`.
    /// An object carrying the reserved future marker becomes a managed
    /// future: a fresh one-shot channel is allocated and its sending half
    /// registered in `bridge` under the announced id, so registration
    /// happens before any possible settlement. An id that already has a
    /// live registration keeps it (a consistency violation on the
    /// engine side); every id announced in the value ends up registered.
    /// Any other object is converted structurally, child by child.
    #[verifier::loop_isolation(false)]
    pub fn new_v(bridge: &mut PromiseBridge, rval: &NativeValue) -> (r: EsValueFacade)
        requires
            old(bridge).wf(),
        ensures
            final(bridge).wf(),
            represents(r, *rval),
            final(bridge).registered() == old(bridge).registered() + future_ids(*rval),
        decreases *rval,
    {
        match rval {
            NativeValue::Undefined => {
                proof {
                    assert(bridge.registered() =~= old(bridge).registered() + future_ids(*rval));
                }
                EsValueFacade::Undefined
            },
            NativeValue::Boolean(b) => {
                proof {
                    assert(bridge.registered() =~= old(bridge).registered() + future_ids(*rval));
                }
                EsValueFacade::Boolean { b: *b }
            },
            NativeValue::Int32(v) => {
                proof {
                    assert(bridge.registered() =~= old(bridge).registered() + future_ids(*rval));
                }
                EsValueFacade::I32 { v: *v }
            },
            NativeValue::Double(bits) => {
                proof {
                    assert(bridge.registered() =~= old(bridge).registered() + future_ids(*rval));
                }
                EsValueFacade::F64 { bits: *bits }
            },
            NativeValue::Text(s) => {
                proof {
                    assert(bridge.registered() =~= old(bridge).registered() + future_ids(*rval));
                }
                EsValueFacade::Str { s: s.clone() }
            },
            NativeValue::Object(props) => {
                match find_future_id(props) {
                    Some(obj_id) => {
                        let (tx, rx) = future_channel();
                        let _ = bridge.register(obj_id, tx);
                        proof {
                            assert(bridge.registered() =~= old(bridge).registered() + future_ids(
                                *rval,
                            ));
                        }
                        EsValueFacade::ManagedFuture { obj_id, receiver: rx }
                    },
                    None => {
                        let mut out: Vec<(String, EsValueFacade)> = Vec::new();
                        let n = props.len();
                        let mut i: usize = 0;
                        while i < n
                            invariant
                                bridge.wf(),
                                0 <= i <= n,
                                out@.len() == i,
                                forall|j: int|
                                    0 <= j < i ==> (out@[j].0@ == (#[trigger] props@[j]).0@
                                        && represents(out@[j].1, props@[j].1)),
                                bridge.registered() == old(bridge).registered()
                                    + future_ids_of_props(props@, i as int),
                            decreases n - i,
                        {
                            let child = EsValueFacade::new_v(bridge, &props[i].1);
                            let key = props[i].0.clone();
                            out.push((key, child));
                            proof {
                                assert(bridge.registered() =~= old(bridge).registered()
                                    + future_ids_of_props(props@, i as int + 1));
                            }
                            i = i + 1;
                        }
                        proof {
                            assert(bridge.registered() =~= old(bridge).registered() + future_ids(
                                *rval,
                            ));
                        }
                        EsValueFacade::Object { props: out }
                    },
                }
            },
        }
    }

    /// Snapshots a native value handed over by reference at the boundary;
    /// the conversion itself is `new_v`.
    pub fn new(bridge: &mut PromiseBridge, rval: &NativeValue) -> (r: EsValueFacade)
        requires
            old(bridge).wf(),
        ensures
            final(bridge).wf(),
            represents(r, *rval),
            final(bridge).registered() == old(bridge).registered() + future_ids(*rval),
    {
        Self::new_v(bridge, rval)
    }

    /// Rebuilds a native value from this snapshot: the inverse conversion
    /// for the primitive kinds, a fresh native object with each converted
    /// child set under its original key for an object. A managed future
    /// has no forward conversion and becomes the undefined value.
    #[verifier::loop_isolation(false)]
    pub fn to_es_value(&self) -> (r: NativeValue)
        ensures
            converts_to(*self, r),
        decreases *self,
    {
        match self {
            EsValueFacade::Undefined => NativeValue::Undefined,
            EsValueFacade::Boolean { b } => NativeValue::Boolean(*b),
            EsValueFacade::I32 { v } => NativeValue::Int32(*v),
            EsValueFacade::F64 { bits } => NativeValue::Double(*bits),
            EsValueFacade::Str { s } => NativeValue::Text(s.clone()),
            EsValueFacade::ManagedFuture { .. } => NativeValue::Undefined,
            EsValueFacade::Object { props } => {
                let mut out: Vec<(String, NativeValue)> = Vec::new();
                let n = props.len();
                let mut i: usize = 0;
                while i < n
                    invariant
                        0 <= i <= n,
                        out@.len() == i,
                        forall|j: int|
                            0 <= j < i ==> (out@[j].0@ == (#[trigger] props@[j]).0@ && converts_to(
                                props@[j].1,
                                out@[j].1,
                            )),
                    decreases n - i,
                {
                    let child = props[i].1.to_es_value();
                    let key = props[i].0.clone();
                    out.push((key, child));
                    i = i + 1;
                }
                NativeValue::Object(out)
            },
        }
    }
}

/// Variant-and-payload equality of two primitive snapshots, strings
/// compared by contents.
pub open spec fn primitive_eq(f: EsValueFacade, g: EsValueFacade) -> bool {
    match f {
        EsValueFacade::Undefined => g is Undefined,
        EsValueFacade::Str { s } => g matches EsValueFacade::Str { s: t } && t@ == s@,
        EsValueFacade::I32 { v } => g matches EsValueFacade::I32 { v: w } && w == v,
        EsValueFacade::F64 { bits } => g matches EsValueFacade::F64 { bits: b2 } && b2 == bits,
        EsValueFacade::Boolean { b } => g matches EsValueFacade::Boolean { b: b2 } && b2 == b,
        _ => false,
    }
}

/// Law: every primitive snapshot survives the round trip. Rebuilding a
/// string, 32-bit integer, 64-bit float, boolean or undefined snapshot
/// into a native value and snapshotting that native value again yields an
/// equal snapshot.
pub proof fn lemma_primitive_round_trip(f: EsValueFacade, n: NativeValue, g: EsValueFacade)
    requires
        f is Str || f is I32 || f is F64 || f is Boolean || f is Undefined,
        converts_to(f, n),
        represents(g, n),
    ensures
        primitive_eq(f, g),
{
}

/// Deep variant-and-payload equality of two snapshots, strings compared
/// by contents and objects compared key for key and child for child.
pub open spec fn facade_like(f: EsValueFacade, g: EsValueFacade) -> bool
    decreases f,
{
    match f {
        EsValueFacade::Object { props } => g matches EsValueFacade::Object { props: gprops }
            && gprops@.len() == props@.len() && forall|i: int|
            0 <= i < props@.len() ==> (gprops@[i].0@ == (#[trigger] props@[i]).0@ && facade_like(
                props@[i].1,
                gprops@[i].1,
            )),
        _ => primitive_eq(f, g),
    }
}

/// The snapshot has a faithful native image: it holds no managed future
/// (which has no forward conversion), and none of its objects carries a
/// property that the reverse conversion would mistake for the reserved
/// future marker.
pub open spec fn snapshot_round_trippable(f: EsValueFacade) -> bool
    decreases f,
{
    match f {
        EsValueFacade::ManagedFuture { .. } => false,
        EsValueFacade::Object { props } => {
            &&& forall|i: int|
                0 <= i < props@.len() ==> !((#[trigger] props@[i]).0@ == future_marker()
                    && props@[i].1 is I32)
            &&& forall|i: int|
                0 <= i < props@.len() ==> snapshot_round_trippable((#[trigger] props@[i]).1)
        },
        _ => true,
    }
}

/// A property list with no marker-named integer property announces no
/// future id.
proof fn lemma_no_marker_no_future(s: Seq<(String, NativeValue)>, k: int)
    requires
        forall|i: int|
            k <= i < s.len() ==> !((#[trigger] s[i]).0@ == future_marker() && s[i].1 is Int32),
    ensures
        spec_find_future_id(s, k) is None,
    decreases s.len() - k,
{
    if 0 <= k && k < s.len() {
        lemma_no_marker_no_future(s, k + 1);
    }
}

/// Law: a snapshot without managed futures survives the round trip at
/// every depth. Rebuilding it into a native value and snapshotting that
/// native value again yields a deep-equal snapshot: same variant, equal
/// payloads, and for objects the same keys with deep-equal children,
/// nested objects included.
pub proof fn lemma_round_trip(f: EsValueFacade, n: NativeValue, g: EsValueFacade)
    requires
        snapshot_round_trippable(f),
        converts_to(f, n),
        represents(g, n),
    ensures
        facade_like(f, g),
    decreases f,
{
    match f {
        EsValueFacade::Object { props } => {
            let nprops = n->Object_0;
            assert forall|i: int|
                0 <= i < nprops@.len() implies !((#[trigger] nprops@[i]).0@ == future_marker()
                && nprops@[i].1 is Int32) by {
                assert(nprops@[i].0@ == (#[trigger] props@[i]).0@ && converts_to(
                    props@[i].1,
                    nprops@[i].1,
                ));
            }
            lemma_no_marker_no_future(nprops@, 0);
            let gprops = g.obj_props();
            assert forall|i: int|
                0 <= i < props@.len() implies (gprops[i].0@ == (#[trigger] props@[i]).0@
                && facade_like(props@[i].1, gprops[i].1)) by {
                assert(nprops@[i].0@ == props@[i].0@ && converts_to(props@[i].1, nprops@[i].1));
                assert(gprops[i].0@ == nprops@[i].0@ && represents(gprops[i].1, nprops@[i].1));
                lemma_round_trip(props@[i].1, nprops@[i].1, gprops[i].1);
            }
        },
        _ => {},
    }
}

/// Law: the unique-keys invariant carries over from the engine: the
/// snapshot of a well-formed native value has unique object keys at every
/// depth.
pub proof fn lemma_represents_well_formed(f: EsValueFacade, n: NativeValue)
    requires
        native_wf(n),
        represents(f, n),
    ensures
        facade_wf(f),
    decreases n,
{
    match n {
        NativeValue::Object(props) => {
            if spec_find_future_id(props@, 0) is None {
                let fprops = f.obj_props();
                assert(fprops.len() == props@.len());
                assert forall|i: int, j: int| 0 <= i < j < fprops.len() implies (
                #[trigger] fprops[i]).0@ != (#[trigger] fprops[j]).0@ by {
                    assert(fprops[i].0@ == (#[trigger] props@[i]).0@ && represents(
                        fprops[i].1,
                        props@[i].1,
                    ));
                    assert(fprops[j].0@ == (#[trigger] props@[j]).0@);
                }
                assert forall|i: int| 0 <= i < fprops.len() implies facade_wf(
                    (#[trigger] fprops[i]).1,
                ) by {
                    assert(fprops[i].0@ == (#[trigger] props@[i]).0@ && represents(
                        fprops[i].1,
                        props@[i].1,
                    ));
                    lemma_represents_well_formed(fprops[i].1, props@[i].1);
                }
            }
        },
        _ => {},
    }
}

} // verus!

use crate::bridge::{future_recv_timeout, BridgeError, FutureReceiver, PromiseBridge, RecvOutcome, WaitError};
use vstd::prelude::*;

verus! {

/// A detached, thread-transferable snapshot of a runtime value. Exactly
/// one variant is active. Once constructed the value holds no reference
/// into runtime-managed memory: strings and nested objects are deep
/// copies, and a managed future is represented by its correlation id plus
/// the receiving half of its one-shot delivery channel.
pub enum EsValueFacade {
    Undefined,
    Str { s: String },
    I32 { v: i32 },
    /// A 64-bit float, carried as its IEEE 754 bit pattern; the bridge
    /// itself never performs float arithmetic.
    F64 { bits: u64 },
    Boolean { b: bool },
    /// Keyed children in insertion order; keys are unique when the source
    /// object was well formed.
    Object { props: Vec<(String, EsValueFacade)> },
    /// A pending scripted computation: correlation id and the endpoint a
    /// host thread can block on until the computation settles.
    ManagedFuture { obj_id: i32, receiver: FutureReceiver },
}

impl EsValueFacade {
    pub open spec fn str_value(&self) -> String
        recommends
            self is Str,
    {
        match *self {
            EsValueFacade::Str { s } => s,
            _ => vstd::pervasive::arbitrary(),
        }
    }

    pub open spec fn i32_value(&self) -> i32
        recommends
            self is I32,
    {
        match *self {
            EsValueFacade::I32 { v } => v,
            _ => vstd::pervasive::arbitrary(),
        }
    }

    pub open spec fn f64_bits(&self) -> u64
        recommends
            self is F64,
    {
        match *self {
            EsValueFacade::F64 { bits } => bits,
            _ => vstd::pervasive::arbitrary(),
        }
    }

    pub open spec fn bool_value(&self) -> bool
        recommends
            self is Boolean,
    {
        match *self {
            EsValueFacade::Boolean { b } => b,
            _ => vstd::pervasive::arbitrary(),
        }
    }

    pub open spec fn obj_props(&self) -> Seq<(String, EsValueFacade)>
        recommends
            self is Object,
    {
        match *self {
            EsValueFacade::Object { props } => props@,
            _ => vstd::pervasive::arbitrary(),
        }
    }

    pub open spec fn managed_id(&self) -> i32
        recommends
            self is ManagedFuture,
    {
        match *self {
            EsValueFacade::ManagedFuture { obj_id, .. } => obj_id,
            _ => vstd::pervasive::arbitrary(),
        }
    }

    /// The inactive-kind snapshot: produced for every runtime value kind
    /// the conversion does not recognize.
    pub fn undefined() -> (r: Self)
        ensures
            r is Undefined,
    {
        EsValueFacade::Undefined
    }

    /// A 64-bit float snapshot, from its IEEE 754 bit pattern.
    pub fn new_f64(bits: u64) -> (r: Self)
        ensures
            r == (EsValueFacade::F64 { bits }),
    {
        EsValueFacade::F64 { bits }
    }

    /// An object snapshot from a pre-built property list; never touches
    /// the runtime and is infallible.
    pub fn new_obj(props: Vec<(String, EsValueFacade)>) -> (r: Self)
        ensures
            r == (EsValueFacade::Object { props }),
    {
        EsValueFacade::Object { props }
    }

    pub fn new_i32(num: i32) -> (r: Self)
        ensures
            r == (EsValueFacade::I32 { v: num }),
    {
        EsValueFacade::I32 { v: num }
    }

    pub fn new_str(s: String) -> (r: Self)
        ensures
            r == (EsValueFacade::Str { s }),
    {
        EsValueFacade::Str { s }
    }

    pub fn new_bool(b: bool) -> (r: Self)
        ensures
            r == (EsValueFacade::Boolean { b }),
    {
        EsValueFacade::Boolean { b }
    }

    /// The string payload. Asking for a different kind than the active
    /// one is a caller defect, excluded by contract rather than coerced.
    pub fn get_string(&self) -> (r: &String)
        requires
            self is Str,
        ensures
            *r == self.str_value(),
    {
        match self {
            EsValueFacade::Str { s } => s,
            _ => vstd::pervasive::unreached(),
        }
    }

    pub fn get_i32(&self) -> (r: &i32)
        requires
            self is I32,
        ensures
            *r == self.i32_value(),
    {
        match self {
            EsValueFacade::I32 { v } => v,
            _ => vstd::pervasive::unreached(),
        }
    }

    /// The float payload, as its IEEE 754 bit pattern.
    pub fn get_f64(&self) -> (r: u64)
        requires
            self is F64,
        ensures
            r == self.f64_bits(),
    {
        match self {
            EsValueFacade::F64 { bits } => *bits,
            _ => vstd::pervasive::unreached(),
        }
    }

    pub fn get_boolean(&self) -> (r: bool)
        requires
            self is Boolean,
        ensures
            r == self.bool_value(),
    {
        match self {
            EsValueFacade::Boolean { b } => *b,
            _ => vstd::pervasive::unreached(),
        }
    }

    pub fn get_managed_object_id(&self) -> (r: i32)
        requires
            self is ManagedFuture,
        ensures
            r == self.managed_id(),
    {
        match self {
            EsValueFacade::ManagedFuture { obj_id, .. } => *obj_id,
            _ => vstd::pervasive::unreached(),
        }
    }

    pub fn get_object(&self) -> (r: &Vec<(String, EsValueFacade)>)
        requires
            self is Object,
        ensures
            r@ == self.obj_props(),
    {
        match self {
            EsValueFacade::Object { props } => props,
            _ => vstd::pervasive::unreached(),
        }
    }

    pub fn is_string(&self) -> (r: bool)
        ensures
            r == (self is Str),
    {
        match self {
            EsValueFacade::Str { .. } => true,
            _ => false,
        }
    }

    pub fn is_i32(&self) -> (r: bool)
        ensures
            r == (self is I32),
    {
        match self {
            EsValueFacade::I32 { .. } => true,
            _ => false,
        }
    }

    pub fn is_f64(&self) -> (r: bool)
        ensures
            r == (self is F64),
    {
        match self {
            EsValueFacade::F64 { .. } => true,
            _ => false,
        }
    }

    pub fn is_boolean(&self) -> (r: bool)
        ensures
            r == (self is Boolean),
    {
        match self {
            EsValueFacade::Boolean { .. } => true,
            _ => false,
        }
    }

    pub fn is_managed_object(&self) -> (r: bool)
        ensures
            r == (self is ManagedFuture),
    {
        match self {
            EsValueFacade::ManagedFuture { .. } => true,
            _ => false,
        }
    }

    pub fn is_object(&self) -> (r: bool)
        ensures
            r == (self is Object),
    {
        match self {
            EsValueFacade::Object { .. } => true,
            _ => false,
        }
    }

    /// Delivers the settlement of the scripted future with id
    /// `man_obj_id` through the bridge that registered it; the entry is
    /// consumed exactly once, at delivery. Settling an id that is not
    /// registered reports the broken 1:1 correlation as a consistency
    /// violation instead of failing loudly.
    pub fn resolve_future(
        bridge: &mut PromiseBridge,
        man_obj_id: i32,
        res: Result<EsValueFacade, EsValueFacade>,
    ) -> (r: Result<(), BridgeError>)
        requires
            old(bridge).wf(),
        ensures
            final(bridge).wf(),
            old(bridge).registered().contains(man_obj_id) ==> (final(bridge).registered()
                == old(bridge).registered().remove(man_obj_id)
                && (r is Ok || r matches Err(BridgeError::Disconnected))),
            !old(bridge).registered().contains(man_obj_id) ==> (r matches Err(
                BridgeError::ConsistencyViolation,
            ) && final(bridge).registered() == old(bridge).registered()),
    {
        bridge.settle(man_obj_id, res)
    }

    /// A managed future is the snapshot of a scripted promise.
    pub fn is_promise(&self) -> (r: bool)
        ensures
            r == (self is ManagedFuture),
    {
        self.is_managed_object()
    }

    /// Blocks the calling host thread until the scripted computation
    /// behind this managed future settles, or the deadline elapses.
    ///
    /// Calling this on a snapshot that is not a managed future is a
    /// foreseeable caller mistake, answered immediately with a rejected
    /// settlement carrying a descriptive message rather than by failing
    /// loudly. A timeout leaves the registration intact, so waiting can
    /// be retried.
    pub fn get_promise_result_blocking(&self, timeout_ms: u64) -> (r: Result<
        Result<EsValueFacade, EsValueFacade>,
        WaitError,
    >)
        ensures
            !(self is ManagedFuture) ==> (r matches Ok(Err(EsValueFacade::Str { s }))
                && s@ == "esvf was not a Promise"@),
            r is Err ==> self is ManagedFuture,
    {
        match self {
            EsValueFacade::ManagedFuture { receiver, .. } => {
                match future_recv_timeout(receiver, timeout_ms) {
                    RecvOutcome::Received(res) => Ok(res),
                    RecvOutcome::TimedOut => Err(WaitError::Timeout),
                    RecvOutcome::Disconnected => Err(WaitError::Disconnected),
                }
            },
            _ => Ok(Err(EsValueFacade::Str { s: "esvf was not a Promise".to_owned() })),
        }
    }
}

/// Object keys are unique at every depth: the well-formedness that
/// snapshots of engine-built objects enjoy.
pub open spec fn facade_wf(f: EsValueFacade) -> bool
    decreases f,
{
    match f {
        EsValueFacade::Object { props } => {
            &&& forall|i: int, j: int|
                0 <= i < j < props@.len() ==> (#[trigger] props@[i]).0@ != (#[trigger] props@[j]).0@
            &&& forall|i: int| 0 <= i < props@.len() ==> facade_wf((#[trigger] props@[i]).1)
        },
        _ => true,
    }
}

} // verus!

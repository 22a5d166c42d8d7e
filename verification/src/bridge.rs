use crate::facade::EsValueFacade;
use vstd::prelude::*;

verus! {

/// Sending half of the one-shot delivery channel for one managed future.
/// Opaque to verification: the channel payload mentions the facade type
/// itself, so the std channel type cannot be declared directly.
#[verifier::external_body]
pub struct FutureSender {
    tx: std::sync::mpsc::Sender<Result<EsValueFacade, EsValueFacade>>,
}

/// Receiving half of the one-shot delivery channel for one managed future;
/// held inside the facade so a host thread can block on the settlement.
#[verifier::external_body]
pub struct FutureReceiver {
    rx: std::sync::mpsc::Receiver<Result<EsValueFacade, EsValueFacade>>,
}

/// Relies on `std::sync::mpsc::channel`: returns the two connected halves
/// of a fresh asynchronous channel.
#[verifier::external_body]
pub(crate) fn future_channel() -> (pair: (FutureSender, FutureReceiver)) {
    let (tx, rx) = std::sync::mpsc::channel();
    (FutureSender { tx }, FutureReceiver { rx })
}

/// Relies on `std::sync::mpsc::Sender::send`: the value is delivered to
/// the receiving half unless the receiver was already dropped. The sender
/// is consumed, which keeps the delivery one-shot.
#[verifier::external_body]
pub(crate) fn future_send(
    sender: FutureSender,
    res: Result<EsValueFacade, EsValueFacade>,
) -> (delivered: bool) {
    sender.tx.send(res).is_ok()
}

/// One outcome of waiting on a delivery channel.
pub enum RecvOutcome {
    /// The sending half delivered this settlement.
    Received(Result<EsValueFacade, EsValueFacade>),
    /// The deadline elapsed with nothing delivered.
    TimedOut,
    /// The sending half was dropped without delivering.
    Disconnected,
}

/// Relies on `std::sync::mpsc::Receiver::recv_timeout` with a deadline in
/// milliseconds: blocks the calling thread until the sending half delivers
/// a value, the deadline elapses, or the sending half is dropped.
#[verifier::external_body]
pub(crate) fn future_recv_timeout(receiver: &FutureReceiver, timeout_ms: u64) -> (out: RecvOutcome) {
    match receiver.rx.recv_timeout(std::time::Duration::from_millis(timeout_ms)) {
        Ok(res) => RecvOutcome::Received(res),
        Err(std::sync::mpsc::RecvTimeoutError::Timeout) => RecvOutcome::TimedOut,
        Err(std::sync::mpsc::RecvTimeoutError::Disconnected) => RecvOutcome::Disconnected,
    }
}

/// Failure of a bridge bookkeeping operation.
pub enum BridgeError {
    /// The 1:1 correlation invariant would be broken: settlement of an id
    /// that was never registered or was already settled, or a registration
    /// that would overwrite a live one.
    ConsistencyViolation,
    /// The waiting half was dropped before the settlement was delivered.
    Disconnected,
}

/// Failure of a blocking wait; kept apart from a failed computation, whose
/// failure travels as the rejected branch of the settlement itself.
pub enum WaitError {
    /// The deadline elapsed; the registration stays intact.
    Timeout,
    /// The delivery channel was torn down without a settlement.
    Disconnected,
}

/// Correlation table from future id to the pending delivery endpoint of
/// that future, owned by (and confined to) one worker context. Each id has
/// at most one live endpoint, and the entry is consumed exactly once, at
/// delivery.
pub struct PromiseBridge {
    entries: Vec<(i32, FutureSender)>,
}

impl PromiseBridge {
    /// The set of future ids with a live delivery registration.
    pub closed spec fn registered(&self) -> Set<i32> {
        Set::new(
            |id: i32|
                exists|i: int| 0 <= i < self.entries@.len() && (#[trigger] self.entries@[i]).0 == id,
        )
    }

    /// No future id has more than one live registration.
    pub closed spec fn wf(&self) -> bool {
        forall|i: int, j: int|
            0 <= i < j < self.entries@.len() ==> (#[trigger] self.entries@[i]).0 != (
            #[trigger] self.entries@[j]).0
    }

    pub fn new() -> (b: PromiseBridge)
        ensures
            b.wf(),
            b.registered() == Set::<i32>::empty(),
    {
        let b = PromiseBridge { entries: Vec::new() };
        proof {
            assert(b.registered() =~= Set::<i32>::empty());
        }
        b
    }

    pub fn is_registered(&self, id: i32) -> (r: bool)
        ensures
            r == self.registered().contains(id),
    {
        let mut i: usize = 0;
        while i < self.entries.len()
            invariant
                0 <= i <= self.entries@.len(),
                forall|j: int| 0 <= j < i ==> (#[trigger] self.entries@[j]).0 != id,
            decreases self.entries@.len() - i,
        {
            if self.entries[i].0 == id {
                return true;
            }
            i = i + 1;
        }
        false
    }

    /// Records the delivery endpoint for a future id. Registering an id
    /// that already has a live endpoint is a consistency violation; the
    /// existing endpoint is kept and the new one is dropped.
    pub fn register(&mut self, id: i32, tx: FutureSender) -> (r: Result<(), BridgeError>)
        requires
            old(self).wf(),
        ensures
            final(self).wf(),
            r is Ok <==> !old(self).registered().contains(id),
            final(self).registered() == old(self).registered().insert(id),
            r is Err ==> (r matches Err(BridgeError::ConsistencyViolation)
                && final(self).registered() == old(self).registered()),
    {
        if self.is_registered(id) {
            proof {
                assert(self.registered() =~= self.registered().insert(id));
            }
            Err(BridgeError::ConsistencyViolation)
        } else {
            self.entries.push((id, tx));
            proof {
                let pre = old(self).entries@;
                let post = self.entries@;
                let rpre = old(self).registered();
                let rpost = self.registered();
                assert forall|x: i32| rpost.contains(x) implies rpre.insert(id).contains(x) by {
                    let i = choose|i: int| 0 <= i < post.len() && post[i].0 == x;
                    if i < pre.len() {
                        assert(pre[i].0 == x);
                    }
                }
                assert forall|x: i32| rpre.insert(id).contains(x) implies rpost.contains(x) by {
                    if x == id {
                        assert(post[post.len() - 1].0 == x);
                    } else {
                        let i = choose|i: int| 0 <= i < pre.len() && pre[i].0 == x;
                        assert(post[i].0 == x);
                    }
                }
                assert(self.registered() =~= old(self).registered().insert(id));
            }
            Ok(())
        }
    }

    /// Looks up and removes the endpoint registered for `man_obj_id`, then
    /// delivers `res` through it. Settling an id with no live registration
    /// is a consistency violation and changes nothing; a settled entry is
    /// consumed even when the waiting half is already gone.
    pub fn settle(&mut self, man_obj_id: i32, res: Result<EsValueFacade, EsValueFacade>) -> (r:
        Result<(), BridgeError>)
        requires
            old(self).wf(),
        ensures
            final(self).wf(),
            old(self).registered().contains(man_obj_id) ==> (final(self).registered()
                == old(self).registered().remove(man_obj_id)
                && (r is Ok || r matches Err(BridgeError::Disconnected))),
            !old(self).registered().contains(man_obj_id) ==> (r matches Err(
                BridgeError::ConsistencyViolation,
            ) && final(self).registered() == old(self).registered()),
    {
        let n = self.entries.len();
        let mut i: usize = 0;
        while i < n
            invariant
                old(self).wf(),
                self.entries@ == old(self).entries@,
                n == self.entries@.len(),
                0 <= i <= n,
                forall|j: int| 0 <= j < i ==> (#[trigger] self.entries@[j]).0 != man_obj_id,
            decreases n - i,
        {
            if self.entries[i].0 == man_obj_id {
                proof {
                    assert(self.entries@[i as int].0 == man_obj_id);
                }
                let entry = self.entries.remove(i);
                proof {
                    let pre = old(self).entries@;
                    let post = self.entries@;
                    assert(post == pre.remove(i as int));
                    pre.remove_ensures(i as int);
                    assert(pre[i as int].0 == man_obj_id);
                    assert forall|a: int, b: int| 0 <= a < b < post.len() implies (
                    #[trigger] post[a]).0 != (#[trigger] post[b]).0 by {
                        let a2: int = if a < i { a } else { a + 1 };
                        let b2: int = if b < i { b } else { b + 1 };
                        assert(post[a] == pre[a2]);
                        assert(post[b] == pre[b2]);
                    }
                    let rpre = old(self).registered();
                    let rpost = self.registered();
                    assert forall|x: i32| rpost.contains(x) implies rpre.remove(man_obj_id).contains(
                        x,
                    ) by {
                        let k = choose|k: int| 0 <= k < post.len() && post[k].0 == x;
                        let k2: int = if k < i { k } else { k + 1 };
                        assert(post[k] == pre[k2]);
                        assert(pre[k2].0 == x);
                        assert(k2 != i);
                        assert(x != man_obj_id);
                        assert(rpre.contains(x));
                    }
                    assert forall|x: i32| rpre.remove(man_obj_id).contains(x) implies rpost.contains(
                        x,
                    ) by {
                        let k = choose|k: int| 0 <= k < pre.len() && pre[k].0 == x;
                        if k < i {
                            assert(post[k] == pre[k]);
                            assert(post[k].0 == x);
                        } else {
                            assert(post[k - 1] == pre[k]);
                            assert(post[k - 1].0 == x);
                        }
                    }
                    assert(self.registered() =~= old(self).registered().remove(man_obj_id));
                }
                let delivered = future_send(entry.1, res);
                return if delivered {
                    Ok(())
                } else {
                    Err(BridgeError::Disconnected)
                };
            }
            i = i + 1;
        }
        proof {
            assert(!self.registered().contains(man_obj_id));
        }
        Err(BridgeError::ConsistencyViolation)
    }
}

/// Law: a settlement consumes the registration. Once an id has been
/// removed from the registered set, it is no longer registered, so a second
/// settlement of the same id reports a consistency violation (by the
/// contract of `settle`) and delivers nothing.
pub proof fn lemma_exactly_once_settlement(ids: Set<i32>, id: i32)
    requires
        ids.contains(id),
    ensures
        !ids.remove(id).contains(id),
{
}

} // verus!

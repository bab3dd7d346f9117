//! The transports of a node, each under its protocol.

use vstd::prelude::*;

use crate::protocol::Protocol;

verus! {

/// The place of the transport for `protocol`, if there is one.
pub open spec fn slot<T>(entries: Seq<(Protocol, T)>, protocol: Protocol) -> Option<int> {
    if exists|i: int| 0 <= i < entries.len() && (#[trigger] entries[i]).0 == protocol {
        Some(choose|i: int| 0 <= i < entries.len() && (#[trigger] entries[i]).0 == protocol)
    } else {
        None
    }
}

/// Whether putting `transport` under `protocol` leads from `pre` to `post` and hands
/// back `res`.
pub open spec fn inserted<T>(
    pre: Seq<(Protocol, T)>,
    protocol: Protocol,
    transport: T,
    post: Seq<(Protocol, T)>,
    res: Option<T>,
) -> bool {
    match slot(pre, protocol) {
        Some(i) => {
            &&& post == pre.update(i, (protocol, transport))
            &&& res == Some(pre[i].1)
        },
        None => {
            &&& post == pre.push((protocol, transport))
            &&& res is None
        },
    }
}

/// A place that is found holds a transport for the protocol; where none is found,
/// there is no such transport.
pub proof fn law_slot_finds<T>(entries: Seq<(Protocol, T)>, protocol: Protocol)
    ensures
        match slot(entries, protocol) {
            Some(i) => 0 <= i < entries.len() && entries[i].0 == protocol,
            None => forall|i: int| 0 <= i < entries.len() ==> (#[trigger] entries[i]).0 != protocol,
        },
{
}

/// What is put under a protocol is found there: after an insert the transport for
/// the protocol is the new one. The old one is handed back, if there was one, and
/// gives way to it; otherwise the new one comes last. All other entries stay where
/// they are.
pub proof fn law_insert_is_found<T>(
    pre: Seq<(Protocol, T)>,
    protocol: Protocol,
    transport: T,
    post: Seq<(Protocol, T)>,
    res: Option<T>,
)
    requires
        inserted(pre, protocol, transport, post, res),
        forall|i: int, j: int|
            0 <= i < j < pre.len() ==> (#[trigger] pre[i]).0 != (#[trigger] pre[j]).0,
    ensures
        ({
            let i = slot(post, protocol)->Some_0;
            &&& slot(post, protocol) is Some
            &&& 0 <= i < post.len()
            &&& post[i] == (protocol, transport)
            &&& post.len() == pre.len() + (if res is Some { 0int } else { 1 })
            &&& res is Some ==> pre[i] == (protocol, res->Some_0)
            &&& res is None ==> i == pre.len()
            &&& forall|j: int| 0 <= j < pre.len() && j != i ==> #[trigger] post[j] == pre[j]
            &&& res is None ==> forall|j: int|
                0 <= j < pre.len() ==> (#[trigger] pre[j]).0 != protocol
        }),
{
    let k = match slot(pre, protocol) {
        Some(i) => i,
        None => pre.len() as int,
    };
    assert(post[k].0 == protocol);
    let i = slot(post, protocol)->Some_0;
    assert(post[i].0 == protocol);
    if i != k {
        assert(pre[i].0 == post[i].0);
        if i < k {
            assert(pre[i].0 != pre[k].0 || k == pre.len());
        }
    }
}

/// Transports, each under its protocol, in the order in which they are walked.
pub struct TransportMap<T> {
    entries: Vec<(Protocol, T)>,
}

impl<T> View for TransportMap<T> {
    type V = Seq<(Protocol, T)>;

    closed spec fn view(&self) -> Seq<(Protocol, T)> {
        self.entries@
    }
}

impl<T> TransportMap<T> {
    /// No protocol has two transports, and the transports can be counted.
    pub open spec fn wf(self) -> bool {
        &&& self@.len() <= usize::MAX
        &&& forall|i: int, j: int|
            0 <= i < j < self@.len() ==> (#[trigger] self@[i]).0 != (#[trigger] self@[j]).0
    }

    /// No transports at all.
    pub fn new() -> (res: Self)
        ensures
            res.wf(),
            res@ == Seq::<(Protocol, T)>::empty(),
    {
        TransportMap { entries: Vec::new() }
    }

    /// The number of transports.
    pub fn len(&self) -> (res: usize)
        ensures
            res == self@.len(),
    {
        self.entries.len()
    }

    /// The place of the transport for `protocol`, if there is one.
    fn position(&self, protocol: Protocol) -> (res: Option<usize>)
        requires
            self.wf(),
        ensures
            match res {
                Some(i) => slot(self@, protocol) == Some(i as int) && i < self@.len()
                    && self@[i as int].0 == protocol,
                None => slot(self@, protocol) is None,
            },
    {
        let mut i: usize = 0;
        while i < self.entries.len()
            invariant
                self.wf(),
                i <= self@.len(),
                forall|j: int| 0 <= j < i ==> (#[trigger] self@[j]).0 != protocol,
            decreases self.entries.len() - i,
        {
            if self.entries[i].0 == protocol {
                assert(self@[i as int].0 == protocol);
                return Some(i);
            }
            i += 1;
        }
        None
    }

    /// Puts `transport` under `protocol`, and returns the transport that was there
    /// before.
    pub fn insert(&mut self, protocol: Protocol, transport: T) -> (res: Option<T>)
        requires
            old(self).wf(),
        ensures
            final(self).wf(),
            inserted(old(self)@, protocol, transport, final(self)@, res),
    {
        match self.position(protocol) {
            Some(i) => {
                let mut transport = transport;
                core::mem::swap(&mut self.entries[i].1, &mut transport);
                Some(transport)
            },
            None => {
                self.entries.push((protocol, transport));
                assert(self.entries.len() == self@.len());
                None
            },
        }
    }

    /// The transport for `protocol`, if there is one.
    pub fn get_mut(&mut self, protocol: Protocol) -> (res: Option<&mut T>)
        requires
            old(self).wf(),
        ensures
            final(self).wf(),
            match slot(old(self)@, protocol) {
                Some(i) => {
                    &&& res is Some
                    &&& *res->Some_0 == old(self)@[i].1
                    &&& final(self)@ == old(self)@.update(i, (protocol, *final(res->Some_0)))
                },
                None => {
                    &&& res is None
                    &&& *final(self) == *old(self)
                },
            },
    {
        match self.position(protocol) {
            Some(i) => Some(self.at_mut(i)),
            None => None,
        }
    }

    /// The transport at a place of the walk.
    pub fn at_mut(&mut self, index: usize) -> (res: &mut T)
        requires
            index < old(self)@.len(),
        ensures
            *res == old(self)@[index as int].1,
            final(self)@ == old(self)@.update(
                index as int,
                (old(self)@[index as int].0, *final(res)),
            ),
            old(self).wf() ==> final(self).wf(),
    {
        &mut self.entries[index].1
    }
}

} // verus!

//! The pool of audio graph resources: the nodes and the mono and stereo
//! port buffers, each held in a `basedrop::Shared` cell so that a schedule
//! for the real-time thread can be rebuilt by copying pointers.
//!
//! The pool is generic over the node type `N` and the two buffer types `M`
//! and `S`; new buffers are made with `Default`.

use vstd::prelude::*;
use basedrop::{Handle, Shared};
use atomic_refcell::AtomicRefCell;

verus! {

/// `basedrop::Shared`, a reference-counted pointer freed by a collector;
/// opaque here.
#[verifier::external_type_specification]
#[verifier::external_body]
#[verifier::reject_recursive_types(T)]
pub struct ExShared<T>(Shared<T>);

/// `atomic_refcell::AtomicRefCell`, a thread-safe cell with run-time borrow
/// checks; opaque here.
#[verifier::external_type_specification]
#[verifier::external_body]
#[verifier::reject_recursive_types(T)]
pub struct ExAtomicRefCell<T: ?Sized>(AtomicRefCell<T>);

/// `basedrop::Handle`, a handle to a collector; opaque here.
#[verifier::external_type_specification]
#[verifier::external_body]
pub struct ExHandle(Handle);

/// Calls `basedrop::Shared::new`, which allocates a reference-counted cell
/// for `data` that the collector behind `handle` frees. The claim: the
/// pointer it returns differs from each pointer in `live`. Each of those holds
/// a reference count on its allocation, which therefore is not freed, and
/// `Shared::new` makes a new heap allocation (`Node::alloc` boxes it), whose
/// address no live allocation has. What the cell holds is not stated.
#[verifier::external_body]
fn shared_new<T: Send + 'static>(handle: &Handle, data: T, live: &Vec<Shared<T>>) -> (r: Shared<T>)
    ensures
        forall|i: int| 0 <= i < live@.len() ==> live@[i] != r,
{
    Shared::new(handle, data)
}

/// Calls `atomic_refcell::AtomicRefCell::new`, which wraps `value` in an
/// unborrowed cell. The cell's contents are opaque here, so nothing is
/// claimed of the result.
#[verifier::external_body]
fn atomic_ref_cell_new<T>(value: T) -> AtomicRefCell<T> {
    AtomicRefCell::new(value)
}

/// `Shared::clone` (basedrop) makes a second pointer to the same allocation
/// and raises its reference count: the clone equals the original.
pub assume_specification<T>[ <Shared<T> as Clone>::clone ](this: &Shared<T>) -> (r: Shared<T>)
    ensures
        r == *this,
;

/// `Handle::clone` (basedrop) makes a second handle to the same collector:
/// the clone equals the original.
pub assume_specification[ <Handle as Clone>::clone ](this: &Handle) -> (r: Handle)
    ensures
        r == *this,
;

/// `grown` is `before` with `n` entries appended.
pub open spec fn appended<T>(before: Seq<T>, grown: Seq<T>, n: nat) -> bool {
    &&& grown.len() == before.len() + n
    &&& grown.take(before.len() as int) == before
}

/// `before` with its last `n` entries removed.
pub open spec fn truncated<T>(before: Seq<T>, n: nat) -> Seq<T> {
    before.take(before.len() - n)
}

/// The entries of `grown` past the first `before.len()` each differ from
/// every other entry of `grown`: they are new cells, aliased nowhere else.
pub open spec fn fresh_tail<T>(before: Seq<T>, grown: Seq<T>) -> bool {
    forall|i: int, j: int|
        before.len() <= i < grown.len() && 0 <= j < grown.len() && i != j ==> #[trigger] grown[i]
            != #[trigger] grown[j]
}

/// Whether `n` buffers can be removed from `buffers`: the range of the last
/// `n` indexes is neither empty nor reaches before the first buffer.
pub open spec fn can_remove_buffers<T>(buffers: Seq<T>, n: nat) -> bool {
    0 < n <= buffers.len()
}

/// Appends `n` new buffers, each made with `Default` and placed in a shared
/// cell of `handle`'s collector.
fn push_new_buffers<B: Default + Send + 'static>(
    buffers: &mut Vec<Shared<AtomicRefCell<B>>>,
    handle: &Handle,
    n: usize,
)
    ensures
        appended(old(buffers)@, final(buffers)@, n as nat),
        fresh_tail(old(buffers)@, final(buffers)@),
{
    let ghost before = buffers@;
    assert(before.take(before.len() as int) =~= before);
    for _i in 0..n
        invariant
            appended(before, buffers@, _i as nat),
            fresh_tail(before, buffers@),
    {
        let buffer = atomic_ref_cell_new(B::default());
        let shared = shared_new(handle, buffer, buffers);
        let ghost prev = buffers@;
        buffers.push(shared);
        assert(buffers@.take(before.len() as int) =~= before);
        assert forall|i: int, j: int|
            before.len() <= i < buffers@.len() && 0 <= j < buffers@.len() && i != j implies #[trigger] buffers@[i]
                != #[trigger] buffers@[j] by {
            if i == prev.len() {
                assert(prev[j] != shared);
            } else if j == prev.len() {
                assert(prev[i] != shared);
            } else {
                assert(prev[i] != prev[j]);
            }
        }
    }
}

/// Removes the last `n` buffers, or fails and changes nothing where that
/// range is empty or longer than the buffers.
fn pop_buffers<B>(buffers: &mut Vec<Shared<AtomicRefCell<B>>>, n: usize) -> (r: Result<(), ()>)
    ensures
        r is Ok <==> can_remove_buffers(old(buffers)@, n as nat),
        r is Ok ==> final(buffers)@ == truncated(old(buffers)@, n as nat),
        r is Err ==> final(buffers)@ == old(buffers)@,
{
    if 0 < n && n <= buffers.len() {
        let ghost before = buffers@;
        for i in 0..n
            invariant
                n <= before.len(),
                buffers@ == before.take(before.len() - i),
        {
            let _ = buffers.pop();
            assert(buffers@ =~= before.take(before.len() - (i + 1)));
        }
        Ok(())
    } else {
        Err(())
    }
}

/// The nodes and port buffers of an audio graph.
#[verifier::reject_recursive_types(N)]
#[verifier::reject_recursive_types(M)]
#[verifier::reject_recursive_types(S)]
pub struct GraphResourcePool<N, M, S> {
    nodes: Vec<Shared<AtomicRefCell<N>>>,
    mono_audio_buffers: Vec<Shared<AtomicRefCell<M>>>,
    stereo_audio_buffers: Vec<Shared<AtomicRefCell<S>>>,
    coll_handle: Handle,
}

/// What a pool holds: its three lists of shared cells, in order, and the
/// handle of the collector that frees them.
#[verifier::reject_recursive_types(N)]
#[verifier::reject_recursive_types(M)]
#[verifier::reject_recursive_types(S)]
pub struct PoolView<N, M, S> {
    pub nodes: Seq<Shared<AtomicRefCell<N>>>,
    pub mono_audio_buffers: Seq<Shared<AtomicRefCell<M>>>,
    pub stereo_audio_buffers: Seq<Shared<AtomicRefCell<S>>>,
    pub coll_handle: Handle,
}

impl<N, M, S> View for GraphResourcePool<N, M, S> {
    type V = PoolView<N, M, S>;

    closed spec fn view(&self) -> PoolView<N, M, S> {
        PoolView {
            nodes: self.nodes@,
            mono_audio_buffers: self.mono_audio_buffers@,
            stereo_audio_buffers: self.stereo_audio_buffers@,
            coll_handle: self.coll_handle,
        }
    }
}

impl<N, M, S> GraphResourcePool<N, M, S> {
    /// The nodes, in order. Only to be used by the non-rt thread.
    pub fn nodes(&self) -> (r: &Vec<Shared<AtomicRefCell<N>>>)
        ensures
            r@ == self@.nodes,
    {
        &self.nodes
    }

    /// The mono port buffers, in order.
    pub fn mono_audio_buffers(&self) -> (r: &Vec<Shared<AtomicRefCell<M>>>)
        ensures
            r@ == self@.mono_audio_buffers,
    {
        &self.mono_audio_buffers
    }

    /// The stereo port buffers, in order.
    pub fn stereo_audio_buffers(&self) -> (r: &Vec<Shared<AtomicRefCell<S>>>)
        ensures
            r@ == self@.stereo_audio_buffers,
    {
        &self.stereo_audio_buffers
    }
}

impl<N: Send + 'static, M: Default + Send + 'static, S: Default + Send + 'static> GraphResourcePool<N, M, S> {
    /// An empty pool whose cells are freed by the collector behind
    /// `coll_handle`. Only to be used by the non-rt thread.
    pub fn new(coll_handle: Handle) -> (pool: Self)
        ensures
            pool@.nodes == Seq::<Shared<AtomicRefCell<N>>>::empty(),
            pool@.mono_audio_buffers == Seq::<Shared<AtomicRefCell<M>>>::empty(),
            pool@.stereo_audio_buffers == Seq::<Shared<AtomicRefCell<S>>>::empty(),
            pool@.coll_handle == coll_handle,
    {
        GraphResourcePool {
            nodes: Vec::new(),
            mono_audio_buffers: Vec::new(),
            stereo_audio_buffers: Vec::new(),
            coll_handle: coll_handle,
        }
    }

    /// Adds a node at the end of the pool. Only to be used by the non-rt
    /// thread.
    pub fn add_node(&mut self, new_node: N)
        ensures
            appended(old(self)@.nodes, final(self)@.nodes, 1),
            fresh_tail(old(self)@.nodes, final(self)@.nodes),
            final(self)@.mono_audio_buffers == old(self)@.mono_audio_buffers,
            final(self)@.stereo_audio_buffers == old(self)@.stereo_audio_buffers,
            final(self)@.coll_handle == old(self)@.coll_handle,
    {
        let cell = atomic_ref_cell_new(new_node);
        let shared = shared_new(&self.coll_handle, cell, &self.nodes);
        self.nodes.push(shared);
        assert(self.nodes@.take(old(self)@.nodes.len() as int) =~= old(self)@.nodes);
        assert forall|i: int, j: int|
            old(self)@.nodes.len() <= i < self.nodes@.len() && 0 <= j < self.nodes@.len() && i != j implies #[trigger] self.nodes@[i]
                != #[trigger] self.nodes@[j] by {
            assert(old(self)@.nodes[j] != shared);
        }
    }

    /// Removes the node at `node_index`, shifting the later ones down; fails
    /// and changes nothing where there is no such node. Only to be used by
    /// the non-rt thread.
    pub fn remove_node(&mut self, node_index: usize) -> (r: Result<(), ()>)
        ensures
            r is Ok <==> node_index < old(self)@.nodes.len(),
            r is Ok ==> final(self)@.nodes == old(self)@.nodes.remove(node_index as int),
            r is Err ==> final(self)@.nodes == old(self)@.nodes,
            final(self)@.mono_audio_buffers == old(self)@.mono_audio_buffers,
            final(self)@.stereo_audio_buffers == old(self)@.stereo_audio_buffers,
            final(self)@.coll_handle == old(self)@.coll_handle,
    {
        if node_index < self.nodes.len() {
            self.nodes.remove(node_index);
            Ok(())
        } else {
            Err(())
        }
    }

    /// Replaces the node at `node_index` with a new one; fails and changes
    /// nothing where there is no such node. Only to be used by the non-rt
    /// thread.
    pub fn replace_node(&mut self, node_index: usize, new_node: N) -> (r: Result<(), ()>)
        ensures
            r is Ok <==> node_index < old(self)@.nodes.len(),
            r is Ok ==> final(self)@.nodes.len() == old(self)@.nodes.len(),
            r is Ok ==> forall|i: int|
                0 <= i < old(self)@.nodes.len() && i != node_index ==> #[trigger] final(self)@.nodes[i]
                    == old(self)@.nodes[i],
            r is Ok ==> !old(self)@.nodes.contains(final(self)@.nodes[node_index as int]),
            r is Err ==> final(self)@.nodes == old(self)@.nodes,
            final(self)@.mono_audio_buffers == old(self)@.mono_audio_buffers,
            final(self)@.stereo_audio_buffers == old(self)@.stereo_audio_buffers,
            final(self)@.coll_handle == old(self)@.coll_handle,
    {
        if node_index < self.nodes.len() {
            let cell = atomic_ref_cell_new(new_node);
            let shared = shared_new(&self.coll_handle, cell, &self.nodes);
            self.nodes.set(node_index, shared);
            Ok(())
        } else {
            Err(())
        }
    }

    /// Adds `n_new_port_buffers` new mono port buffers at the end. Only to be
    /// used by the non-rt thread.
    pub fn add_mono_audio_port_buffers(&mut self, n_new_port_buffers: usize)
        ensures
            appended(old(self)@.mono_audio_buffers, final(self)@.mono_audio_buffers, n_new_port_buffers as nat),
            fresh_tail(old(self)@.mono_audio_buffers, final(self)@.mono_audio_buffers),
            final(self)@.nodes == old(self)@.nodes,
            final(self)@.stereo_audio_buffers == old(self)@.stereo_audio_buffers,
            final(self)@.coll_handle == old(self)@.coll_handle,
    {
        push_new_buffers(&mut self.mono_audio_buffers, &self.coll_handle, n_new_port_buffers);
    }

    /// Adds `n_new_port_buffers` new stereo port buffers at the end. Only to
    /// be used by the non-rt thread.
    pub fn add_stereo_audio_port_buffers(&mut self, n_new_port_buffers: usize)
        ensures
            appended(old(self)@.stereo_audio_buffers, final(self)@.stereo_audio_buffers, n_new_port_buffers as nat),
            fresh_tail(old(self)@.stereo_audio_buffers, final(self)@.stereo_audio_buffers),
            final(self)@.nodes == old(self)@.nodes,
            final(self)@.mono_audio_buffers == old(self)@.mono_audio_buffers,
            final(self)@.coll_handle == old(self)@.coll_handle,
    {
        push_new_buffers(&mut self.stereo_audio_buffers, &self.coll_handle, n_new_port_buffers);
    }

    /// Removes the last `n_to_remove` mono buffers. Returns an error, and
    /// changes nothing, where that range is empty or holds an index out of
    /// range. Only to be used by the non-rt thread.
    pub fn remove_mono_audio_buffers(&mut self, n_to_remove: usize) -> (r: Result<(), ()>)
        ensures
            r is Ok <==> can_remove_buffers(old(self)@.mono_audio_buffers, n_to_remove as nat),
            r is Ok ==> final(self)@.mono_audio_buffers == truncated(old(self)@.mono_audio_buffers, n_to_remove as nat),
            r is Err ==> final(self)@.mono_audio_buffers == old(self)@.mono_audio_buffers,
            final(self)@.nodes == old(self)@.nodes,
            final(self)@.stereo_audio_buffers == old(self)@.stereo_audio_buffers,
            final(self)@.coll_handle == old(self)@.coll_handle,
    {
        pop_buffers(&mut self.mono_audio_buffers, n_to_remove)
    }

    /// Removes the last `n_to_remove` stereo buffers. Returns an error, and
    /// changes nothing, where that range is empty or holds an index out of
    /// range. Only to be used by the non-rt thread.
    pub fn remove_stereo_audio_buffers(&mut self, n_to_remove: usize) -> (r: Result<(), ()>)
        ensures
            r is Ok <==> can_remove_buffers(old(self)@.stereo_audio_buffers, n_to_remove as nat),
            r is Ok ==> final(self)@.stereo_audio_buffers == truncated(old(self)@.stereo_audio_buffers, n_to_remove as nat),
            r is Err ==> final(self)@.stereo_audio_buffers == old(self)@.stereo_audio_buffers,
            final(self)@.nodes == old(self)@.nodes,
            final(self)@.mono_audio_buffers == old(self)@.mono_audio_buffers,
            final(self)@.coll_handle == old(self)@.coll_handle,
    {
        pop_buffers(&mut self.stereo_audio_buffers, n_to_remove)
    }
}

/// A copy of the pool that shares every node and buffer with it: only the
/// pointers are copied, so that a new schedule can be built cheaply.
impl<N, M, S> Clone for GraphResourcePool<N, M, S> {
    fn clone(&self) -> (pool: Self)
        ensures
            pool@ == self@,
    {
        GraphResourcePool {
            nodes: self.nodes.clone(),
            mono_audio_buffers: self.mono_audio_buffers.clone(),
            stereo_audio_buffers: self.stereo_audio_buffers.clone(),
            coll_handle: self.coll_handle.clone(),
        }
    }
}

/// Removing as many buffers as were just added gives back the buffers as
/// they were before, and succeeds whenever at least one was added.
pub proof fn lemma_remove_undoes_add_buffers<T>(before: Seq<T>, grown: Seq<T>, n: nat)
    requires
        appended(before, grown, n),
    ensures
        n > 0 ==> can_remove_buffers(grown, n),
        truncated(grown, n) == before,
{
}

/// Removing the node just added gives back the nodes as they were before.
pub proof fn lemma_remove_undoes_add_node<T>(before: Seq<T>, grown: Seq<T>)
    requires
        appended(before, grown, 1),
    ensures
        before.len() < grown.len(),
        grown.remove(before.len() as int) == before,
{
    assert(grown.remove(before.len() as int) =~= before);
}

/// Removing a node keeps the nodes before it in place and moves each later
/// node one index down.
pub proof fn lemma_remove_node_shifts_later_nodes<T>(nodes: Seq<T>, index: int)
    requires
        0 <= index < nodes.len(),
    ensures
        nodes.remove(index).len() == nodes.len() - 1,
        forall|i: int| 0 <= i < index ==> #[trigger] nodes.remove(index)[i] == nodes[i],
        forall|i: int| index <= i < nodes.len() - 1 ==> #[trigger] nodes.remove(index)[i] == nodes[i + 1],
{
}

} // verus!

use vstd::prelude::*;

verus! {

/// A spawned worker: its OS process id and the capability that kills it.
pub struct WorkerHandle<C> {
    pub pid: u32,
    pub kill: C,
}

/// One row of the OS process table: a process and its recorded parent.
#[derive(Debug, Clone, Copy)]
pub struct ProcessEntry {
    pub pid: u32,
    pub parent: Option<u32>,
}

/// What a supervisor is, abstractly: the worker it holds, if any, and whether
/// shutdown has been requested.
pub struct SupervisorView<C> {
    pub worker: Option<WorkerHandle<C>>,
    pub shutdown: bool,
}

/// Owner of the one worker handle and of the shutdown flag.
///
/// Meant to sit behind one lock shared by the spawn path, the exit hook and
/// the polling loop; every method is brief and none of them blocks.
pub struct Supervisor<C> {
    worker: Option<WorkerHandle<C>>,
    shutdown: bool,
}

impl<C> View for Supervisor<C> {
    type V = SupervisorView<C>;

    closed spec fn view(&self) -> SupervisorView<C> {
        SupervisorView { worker: self.worker, shutdown: self.shutdown }
    }
}

/// The supervisor after its handle has been taken for termination.
pub open spec fn taken<C>(v: SupervisorView<C>) -> SupervisorView<C> {
    SupervisorView { worker: None, shutdown: v.shutdown }
}

/// The supervisor after shutdown has been requested: the flag is raised and
/// the handle taken.
pub open spec fn shut_down<C>(v: SupervisorView<C>) -> SupervisorView<C> {
    SupervisorView { worker: None, shutdown: true }
}

/// The pids, in table order, of the processes whose recorded parent is `worker`.
pub open spec fn children_in(worker: u32, table: Seq<ProcessEntry>) -> Seq<u32>
    decreases table.len(),
{
    if table.len() == 0 {
        Seq::empty()
    } else {
        let e = table.last();
        children_in(worker, table.drop_last()) + if e.parent == Some(worker) {
            seq![e.pid]
        } else {
            Seq::empty()
        }
    }
}

impl<C> Supervisor<C> {
    /// A supervisor with no worker and no shutdown requested.
    pub fn new() -> (r: Supervisor<C>)
        ensures
            r@.worker.is_none(),
            !r@.shutdown,
    {
        Supervisor { worker: None, shutdown: false }
    }

    /// Records a freshly spawned worker. Returns the handle it displaces, which
    /// the caller is to terminate, so that at most one handle is ever held.
    pub fn install(&mut self, handle: WorkerHandle<C>) -> (r: Option<WorkerHandle<C>>)
        ensures
            r == old(self)@.worker,
            final(self)@ == (SupervisorView { worker: Some(handle), shutdown: old(self)@.shutdown }),
    {
        let previous = self.worker.take();
        self.worker = Some(handle);
        previous
    }

    /// The pid of the held worker, if any.
    pub fn worker_pid(&self) -> (r: Option<u32>)
        ensures
            r == match self@.worker {
                Some(h) => Some(h.pid),
                None => None::<u32>,
            },
    {
        match &self.worker {
            Some(h) => Some(h.pid),
            None => None,
        }
    }

    /// Whether shutdown has been requested.
    pub fn shutdown_requested(&self) -> (r: bool)
        ensures
            r == self@.shutdown,
    {
        self.shutdown
    }

    /// Takes the handle for termination. Absent stays absent; a second call
    /// finds nothing, so a tree is never killed twice.
    pub fn take_for_termination(&mut self) -> (r: Option<WorkerHandle<C>>)
        ensures
            r == old(self)@.worker,
            final(self)@ == taken(old(self)@),
    {
        self.worker.take()
    }

    /// Raises the shutdown flag, then takes the handle so that the caller can
    /// terminate the worker tree outside the lock.
    pub fn request_shutdown(&mut self) -> (r: Option<WorkerHandle<C>>)
        ensures
            r == old(self)@.worker,
            final(self)@ == shut_down(old(self)@),
    {
        self.shutdown = true;
        self.worker.take()
    }
}

/// The direct children of `worker` in a process table, in table order.
pub fn descendants_of(worker: u32, table: &Vec<ProcessEntry>) -> (r: Vec<u32>)
    ensures
        r@ == children_in(worker, table@),
{
    let mut out: Vec<u32> = Vec::new();
    let mut i: usize = 0;
    while i < table.len()
        invariant
            i <= table@.len(),
            out@ == children_in(worker, table@.subrange(0, i as int)),
        decreases table@.len() - i,
    {
        let e = table[i];
        assert(table@.subrange(0, i as int + 1).drop_last() =~= table@.subrange(0, i as int));
        if e.parent == Some(worker) {
            out.push(e.pid);
        }
        i = i + 1;
    }
    assert(table@.subrange(0, table@.len() as int) =~= table@);
    out
}

/// Terminating a tree whose handle is absent changes nothing and kills nothing.
pub proof fn lemma_terminate_absent_is_noop<C>(v: SupervisorView<C>)
    requires
        v.worker.is_none(),
    ensures
        taken(v) == v,
{
}

/// Terminating twice kills at most once: the second call finds no handle and
/// leaves the supervisor as the first left it. The same holds of shutdown.
pub proof fn lemma_second_termination_is_noop<C>(v: SupervisorView<C>)
    ensures
        taken(v).worker.is_none(),
        taken(taken(v)) == taken(v),
        shut_down(v).worker.is_none(),
        shut_down(shut_down(v)) == shut_down(v),
{
}

/// A process appears among the children exactly when the table records
/// `worker` as its parent.
pub proof fn lemma_children_are_exact(worker: u32, table: Seq<ProcessEntry>, p: u32)
    ensures
        children_in(worker, table).contains(p) <==> exists|i: int|
            0 <= i < table.len() && #[trigger] table[i].pid == p && table[i].parent == Some(worker),
    decreases table.len(),
{
    if table.len() > 0 {
        let rest = table.drop_last();
        lemma_children_are_exact(worker, rest, p);
        let e = table.last();
        let tail: Seq<u32> = if e.parent == Some(worker) { seq![e.pid] } else { Seq::empty() };
        let c = children_in(worker, table);
        assert(c == children_in(worker, rest) + tail);
        if c.contains(p) {
            let k = choose|k: int| 0 <= k < c.len() && c[k] == p;
            if k < children_in(worker, rest).len() {
                assert(children_in(worker, rest)[k] == p);
                let i = choose|i: int|
                    0 <= i < rest.len() && #[trigger] rest[i].pid == p && rest[i].parent == Some(
                        worker,
                    );
                assert(table[i] == rest[i]);
            } else {
                assert(table[table.len() - 1].pid == p);
            }
        }
        if exists|i: int|
            0 <= i < table.len() && #[trigger] table[i].pid == p && table[i].parent == Some(worker)
        {
            let i = choose|i: int|
                0 <= i < table.len() && #[trigger] table[i].pid == p && table[i].parent == Some(
                    worker,
                );
            if i < rest.len() {
                assert(rest[i] == table[i]);
                let k = choose|k: int| 0 <= k < children_in(worker, rest).len() && children_in(worker, rest)[k] == p;
                assert(c[k] == p);
            } else {
                assert(c[c.len() - 1] == p);
            }
        }
    }
}

} // verus!

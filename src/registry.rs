use vstd::prelude::*;

verus! {

/// The three independently stoppable classes of long-lived work.
#[derive(PartialEq, Eq, Structural, Clone, Copy, Debug)]
pub enum StreamCategory {
    Logs,
    Shell,
    Metrics,
}

/// The cancellation handles of every running stream, by category. A second
/// start in a category adds a handle; none is ever overwritten.
pub struct TaskRegistry<H> {
    logs: Vec<H>,
    shell: Vec<H>,
    metrics: Vec<H>,
}

/// The abstract registry: the handles of each category, in start order.
pub ghost struct RegistryModel<H> {
    pub logs: Seq<H>,
    pub shell: Seq<H>,
    pub metrics: Seq<H>,
}

/// The handles of one category.
pub open spec fn slot<H>(m: RegistryModel<H>, c: StreamCategory) -> Seq<H> {
    match c {
        StreamCategory::Logs => m.logs,
        StreamCategory::Shell => m.shell,
        StreamCategory::Metrics => m.metrics,
    }
}

/// The registry after replacing the handles of one category.
pub open spec fn with_slot<H>(m: RegistryModel<H>, c: StreamCategory, s: Seq<H>) -> RegistryModel<H> {
    match c {
        StreamCategory::Logs => RegistryModel { logs: s, ..m },
        StreamCategory::Shell => RegistryModel { shell: s, ..m },
        StreamCategory::Metrics => RegistryModel { metrics: s, ..m },
    }
}

/// The registry after a stream of category `c` started with handle `h`.
pub open spec fn started<H>(m: RegistryModel<H>, c: StreamCategory, h: H) -> RegistryModel<H> {
    with_slot(m, c, slot(m, c).push(h))
}

/// The registry after every stream of category `c` was signalled.
pub open spec fn stopped<H>(m: RegistryModel<H>, c: StreamCategory) -> RegistryModel<H> {
    with_slot(m, c, seq![])
}

impl<H> View for TaskRegistry<H> {
    type V = RegistryModel<H>;

    closed spec fn view(&self) -> RegistryModel<H> {
        RegistryModel { logs: self.logs@, shell: self.shell@, metrics: self.metrics@ }
    }
}

impl<H> TaskRegistry<H> {
    /// A registry with no streams.
    pub fn new() -> (r: TaskRegistry<H>)
        ensures
            r@.logs.len() == 0,
            r@.shell.len() == 0,
            r@.metrics.len() == 0,
    {
        TaskRegistry { logs: Vec::new(), shell: Vec::new(), metrics: Vec::new() }
    }

    /// Tracks the cancellation handle of a stream that was just started.
    pub fn start(&mut self, c: StreamCategory, h: H)
        ensures
            final(self)@ == started(old(self)@, c, h),
    {
        match c {
            StreamCategory::Logs => self.logs.push(h),
            StreamCategory::Shell => self.shell.push(h),
            StreamCategory::Metrics => self.metrics.push(h),
        }
    }

    /// Hands back every handle of category `c`, in start order, for the
    /// caller to signal, and forgets them; other categories are untouched.
    pub fn stop(&mut self, c: StreamCategory) -> (r: Vec<H>)
        ensures
            r@ == slot(old(self)@, c),
            final(self)@ == stopped(old(self)@, c),
    {
        let mut empty: Vec<H> = Vec::new();
        match c {
            StreamCategory::Logs => std::mem::swap(&mut self.logs, &mut empty),
            StreamCategory::Shell => std::mem::swap(&mut self.shell, &mut empty),
            StreamCategory::Metrics => std::mem::swap(&mut self.metrics, &mut empty),
        }
        empty
    }

    /// Stops every metrics stream; logs and shell streams keep running.
    pub fn stop_all_metrics(&mut self) -> (r: Vec<H>)
        ensures
            r@ == old(self)@.metrics,
            final(self)@ == stopped(old(self)@, StreamCategory::Metrics),
    {
        self.stop(StreamCategory::Metrics)
    }

    /// Stops every log tail; metrics and shell streams keep running.
    pub fn stop_all_logs(&mut self) -> (r: Vec<H>)
        ensures
            r@ == old(self)@.logs,
            final(self)@ == stopped(old(self)@, StreamCategory::Logs),
    {
        self.stop(StreamCategory::Logs)
    }

    /// The handles of the running shell sessions, which input is sent to.
    pub fn shell_handles(&self) -> (r: &Vec<H>)
        ensures
            r@ == self@.shell,
    {
        &self.shell
    }

    /// The number of tracked streams of category `c`.
    pub fn count(&self, c: StreamCategory) -> (r: usize)
        ensures
            r == slot(self@, c).len(),
    {
        match c {
            StreamCategory::Logs => self.logs.len(),
            StreamCategory::Shell => self.shell.len(),
            StreamCategory::Metrics => self.metrics.len(),
        }
    }
}

/// Two streams started in one category are both signalled when that category
/// is stopped, and afterwards none of that category is tracked; the other
/// categories keep their handles.
pub proof fn law_stop_reaches_every_stream<H>(m: RegistryModel<H>, c: StreamCategory, h1: H, h2: H)
    ensures
        slot(started(started(m, c, h1), c, h2), c).contains(h1),
        slot(started(started(m, c, h1), c, h2), c).contains(h2),
        slot(stopped(started(started(m, c, h1), c, h2), c), c).len() == 0,
        forall|d: StreamCategory| d != c ==>
            slot(stopped(started(started(m, c, h1), c, h2), c), d) == #[trigger] slot(m, d),
{
    let s = slot(started(started(m, c, h1), c, h2), c);
    assert(s[s.len() - 2] == h1);
    assert(s[s.len() - 1] == h2);
}

} // verus!

//! Round-robin process scheduler with priorities.
//!
//! Installing a picked process on the CPU belongs to the platform layer;
//! here live the process records, the per-priority ready queues, and the
//! decisions that move processes between states.

use vstd::prelude::*;
use crate::process::context::Context;

verus! {

/// Number of priority levels.
pub const PRIORITY_LEVELS: usize = 256;

/// The time slice a freshly scheduled process receives.
pub const TIME_SLICE: usize = 10;

/// A process id.
#[derive(Clone, Copy, Debug, PartialEq, Eq, Structural)]
pub struct Pid(usize);

impl Pid {
    /// Spec view of the raw id.
    pub closed spec fn spec_id(self) -> usize {
        self.0
    }

    /// Wrap a raw id.
    pub fn new(id: usize) -> (r: Self)
        ensures
            r.spec_id() == id,
    {
        Pid(id)
    }

    /// The raw id.
    pub fn as_usize(&self) -> (r: usize)
        ensures
            r == self.spec_id(),
    {
        self.0
    }
}

/// Process states.
#[derive(Clone, Copy, Debug, PartialEq, Eq, Structural)]
pub enum ProcessState {
    /// Ready to run
    Ready,
    /// Currently running
    Running,
    /// Blocked
    Blocked,
    /// Terminated
    Terminated,
}

/// A process priority; higher values run first.
#[derive(Clone, Copy, Debug, PartialEq, Eq, PartialOrd, Ord, Structural)]
pub struct Priority(u8);

impl Priority {
    /// Spec view of the priority value.
    pub closed spec fn spec_level(self) -> u8 {
        self.0
    }

    /// The idle priority, the lowest.
    pub fn idle() -> (r: Self)
        ensures
            r.spec_level() == 0,
    {
        Priority(0)
    }

    /// Low priority.
    pub fn low() -> (r: Self)
        ensures
            r.spec_level() == 64,
    {
        Priority(64)
    }

    /// Normal priority.
    pub fn normal() -> (r: Self)
        ensures
            r.spec_level() == 128,
    {
        Priority(128)
    }

    /// High priority.
    pub fn high() -> (r: Self)
        ensures
            r.spec_level() == 192,
    {
        Priority(192)
    }

    /// Real-time priority, the highest.
    pub fn realtime() -> (r: Self)
        ensures
            r.spec_level() == 255,
    {
        Priority(255)
    }

    /// A priority from its raw level.
    pub fn new(priority: u8) -> (r: Self)
        ensures
            r.spec_level() == priority,
    {
        Priority(priority)
    }

    /// The raw level.
    pub fn level(&self) -> (r: u8)
        ensures
            r == self.spec_level(),
    {
        self.0
    }
}

/// A process control block.
#[derive(Debug)]
pub struct Process {
    /// Process id
    pub pid: Pid,
    /// Process state
    pub state: ProcessState,
    /// Priority
    pub priority: Priority,
    /// Saved context; the stack pointer records the stack top as an
    /// offset from the stack base
    pub context: Context,
    /// The process stack
    pub stack: Vec<u8>,
    /// Time slice remaining
    pub time_slice: usize,
}

impl Process {
    /// A ready process entering at `entry` on a fresh zeroed stack of
    /// `stack_size` bytes. The context records the stack top as the
    /// offset `stack_size` from the base; mapping it to a machine address
    /// happens where the context is installed.
    pub fn new(pid: Pid, entry: usize, stack_size: usize, priority: Priority) -> (r: Self)
        ensures
            r.pid == pid,
            r.state == ProcessState::Ready,
            r.priority == priority,
            r.context.ra == entry,
            r.context.sp == stack_size,
            r.stack@.len() == stack_size,
            r.time_slice == TIME_SLICE,
    {
        let mut stack: Vec<u8> = Vec::new();
        let mut i: usize = 0;
        while i < stack_size
            invariant
                i <= stack_size,
                stack@.len() == i,
            decreases stack_size - i,
        {
            stack.push(0);
            i = i + 1;
        }
        Process {
            pid,
            state: ProcessState::Ready,
            priority,
            context: Context::new_process(entry, stack_size),
            stack,
            time_slice: TIME_SLICE,
        }
    }
}

/// The round-robin scheduler.
#[derive(Debug)]
pub struct Scheduler {
    /// All processes, in creation order
    processes: Vec<Process>,
    /// Ready process ids, one queue per priority, back is newest
    ready_queues: Vec<Vec<Pid>>,
    /// The currently running process, if any
    current: Option<Pid>,
    /// Next process id to assign
    next_pid: usize,
}

impl Scheduler {
    /// The processes as a sequence.
    pub closed spec fn spec_processes(&self) -> Seq<Process> {
        self.processes@
    }

    /// The ready queue of one priority level.
    pub closed spec fn spec_queue(&self, level: int) -> Seq<Pid> {
        self.ready_queues@[level]@
    }

    /// Spec view of the running process.
    pub closed spec fn spec_current(&self) -> Option<Pid> {
        self.current
    }

    /// Spec view of the next process id.
    pub closed spec fn spec_next_pid(&self) -> usize {
        self.next_pid
    }

    /// Scheduler well-formedness: one queue per priority level.
    pub closed spec fn wf(&self) -> bool {
        self.ready_queues@.len() == PRIORITY_LEVELS as int
    }

    /// An empty scheduler with nothing running.
    pub fn new() -> (r: Self)
        ensures
            r.wf(),
            r.spec_processes().len() == 0,
            r.spec_current() is None,
            r.spec_next_pid() == 1,
    {
        let mut ready_queues: Vec<Vec<Pid>> = Vec::new();
        let mut i: usize = 0;
        while i < PRIORITY_LEVELS
            invariant
                i <= PRIORITY_LEVELS,
                ready_queues@.len() == i,
            decreases PRIORITY_LEVELS - i,
        {
            ready_queues.push(Vec::new());
            i = i + 1;
        }
        Scheduler { processes: Vec::new(), ready_queues, current: None, next_pid: 1 }
    }

    /// Spawn a new ready process and queue it at its priority.
    pub fn spawn(&mut self, entry: usize, stack_size: usize, priority: Priority) -> (r: Pid)
        requires
            old(self).wf(),
            old(self).spec_next_pid() < usize::MAX,
        ensures
            final(self).wf(),
            r.spec_id() == old(self).spec_next_pid(),
            final(self).spec_next_pid() == old(self).spec_next_pid() + 1,
            final(self).spec_processes().len() == old(self).spec_processes().len() + 1,
            final(self).spec_processes().last().pid == r,
            final(self).spec_processes().last().state == ProcessState::Ready,
            final(self).spec_processes().last().priority == priority,
            final(self).spec_current() == old(self).spec_current(),
    {
        let pid = Pid::new(self.next_pid);
        self.next_pid = self.next_pid + 1;
        let process = Process::new(pid, entry, stack_size, priority);
        self.processes.push(process);
        let level = priority.level() as usize;
        self.ready_queues[level].push(pid);
        pid
    }

    /// Take the next ready process, preferring the highest priority.
    fn next_process(&mut self) -> (r: Option<Pid>)
        requires
            old(self).wf(),
        ensures
            final(self).wf(),
            final(self).spec_processes() == old(self).spec_processes(),
            final(self).spec_current() == old(self).spec_current(),
            final(self).spec_next_pid() == old(self).spec_next_pid(),
            (forall|level: int|
                0 <= level < PRIORITY_LEVELS as int ==> #[trigger] old(self).spec_queue(
                    level,
                ).len() == 0) ==> r is None && *final(self) == *old(self),
    {
        let mut level: usize = PRIORITY_LEVELS;
        while level > 0
            invariant
                level <= PRIORITY_LEVELS,
                self.wf(),
                *self == *old(self),
            decreases level,
        {
            level = level - 1;
            if self.ready_queues[level].len() > 0 {
                proof {
                    assert(old(self).spec_queue(level as int).len() > 0);
                }
                let pid = self.ready_queues[level][0];
                let rest = self.ready_queues[level].split_off(1);
                self.ready_queues[level] = rest;
                return Some(pid);
            }
        }
        None
    }

    /// Index of the process with a pid.
    fn find_process(&self, pid: Pid) -> (r: Option<usize>)
        ensures
            r matches Some(i) ==> i < self.spec_processes().len() && self.spec_processes()[
                i as int
            ].pid == pid,
    {
        let n = self.processes.len();
        let mut i: usize = 0;
        while i < n
            invariant
                i <= n,
                n == self.spec_processes().len(),
            decreases n - i,
        {
            let found = match (self.processes[i].pid, pid) {
                (Pid(a), Pid(b)) => a == b,
            };
            if found {
                proof {
                    assert(self.spec_processes()[i as int].pid.spec_id() == pid.spec_id());
                }
                return Some(i);
            }
            i = i + 1;
        }
        None
    }

    /// Schedule: pick the next ready process and make it the running
    /// one. The outgoing process, if still marked running, returns to
    /// ready and requeues; the incoming one is marked running with a
    /// fresh time slice. Installing it on the CPU belongs to the
    /// platform layer.
    pub fn schedule(&mut self)
        requires
            old(self).wf(),
        ensures
            final(self).wf(),
            final(self).spec_processes().len() == old(self).spec_processes().len(),
            final(self).spec_next_pid() == old(self).spec_next_pid(),
            (forall|level: int|
                0 <= level < PRIORITY_LEVELS as int ==> #[trigger] old(self).spec_queue(
                    level,
                ).len() == 0) ==> *final(self) == *old(self),
    {
        let next_pid = match self.next_process() {
            Some(pid) => pid,
            None => {
                return ;
            },
        };
        let same = match (self.current, Some(next_pid)) {
            (Some(Pid(a)), Some(Pid(b))) => a == b,
            _ => false,
        };
        if same {
            return ;
        }
        let ghost pre = *self;
        match self.current {
            Some(current_pid) => {
                match self.find_process(current_pid) {
                    Some(i) => {
                        let is_running = match self.processes[i].state {
                            ProcessState::Running => true,
                            _ => false,
                        };
                        if is_running {
                            self.processes[i].state = ProcessState::Ready;
                            let level = self.processes[i].priority.level() as usize;
                            self.ready_queues[level].push(current_pid);
                        }
                    },
                    None => {},
                }
            },
            None => {},
        }
        match self.find_process(next_pid) {
            Some(i) => {
                self.processes[i].state = ProcessState::Running;
                self.processes[i].time_slice = TIME_SLICE;
            },
            None => {},
        }
        self.current = Some(next_pid);
    }

    /// Yield the processor: reschedule.
    pub fn yield_now(&mut self)
        requires
            old(self).wf(),
        ensures
            final(self).wf(),
            final(self).spec_processes().len() == old(self).spec_processes().len(),
            final(self).spec_next_pid() == old(self).spec_next_pid(),
    {
        self.schedule();
    }

    /// Block the running process and schedule another.
    pub fn block(&mut self)
        requires
            old(self).wf(),
        ensures
            final(self).wf(),
            final(self).spec_processes().len() == old(self).spec_processes().len(),
            final(self).spec_next_pid() == old(self).spec_next_pid(),
    {
        match self.current {
            Some(pid) => {
                match self.find_process(pid) {
                    Some(i) => {
                        self.processes[i].state = ProcessState::Blocked;
                    },
                    None => {},
                }
                self.current = None;
                self.schedule();
            },
            None => {},
        }
    }

    /// Unblock a process: a blocked process returns to ready and
    /// requeues at its priority.
    pub fn unblock(&mut self, pid: Pid)
        requires
            old(self).wf(),
        ensures
            final(self).wf(),
            final(self).spec_processes().len() == old(self).spec_processes().len(),
            final(self).spec_next_pid() == old(self).spec_next_pid(),
            final(self).spec_current() == old(self).spec_current(),
    {
        match self.find_process(pid) {
            Some(i) => {
                let is_blocked = match self.processes[i].state {
                    ProcessState::Blocked => true,
                    _ => false,
                };
                if is_blocked {
                    self.processes[i].state = ProcessState::Ready;
                    let level = self.processes[i].priority.level() as usize;
                    self.ready_queues[level].push(pid);
                }
            },
            None => {},
        }
    }
}

} // verus!

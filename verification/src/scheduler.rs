//! Deterministic scheduler: process records, run queues per priority,
//! and the pick of the next process to run.
//!
//! The context switch itself — saving and restoring registers — belongs
//! to the platform layer; here lives the scheduling decision.

use vstd::prelude::*;

verus! {

/// Number of priority levels.
pub const PRIORITY_LEVELS: usize = 128;

/// Process states.
#[derive(Clone, Copy, Debug, PartialEq, Eq, Structural)]
pub enum ProcessState {
    /// Ready to run
    Ready,
    /// Currently running
    Running,
    /// Blocked on I/O
    Blocked,
    /// Sleeping
    Sleeping,
    /// Terminated
    Terminated,
}

/// A process priority; lower values run first.
#[derive(Clone, Copy, Debug, PartialEq, Eq, PartialOrd, Ord, Structural)]
pub struct Priority(u8);

impl Priority {
    /// Spec view of the priority value.
    pub closed spec fn spec_level(self) -> u8 {
        self.0
    }

    /// Real-time priority, the highest.
    pub fn realtime() -> (r: Self)
        ensures
            r.spec_level() == 0,
    {
        Priority(0)
    }

    /// Interactive priority.
    pub fn interactive() -> (r: Self)
        ensures
            r.spec_level() == 32,
    {
        Priority(32)
    }

    /// Normal priority.
    pub fn normal() -> (r: Self)
        ensures
            r.spec_level() == 64,
    {
        Priority(64)
    }

    /// Idle priority, the lowest.
    pub fn idle() -> (r: Self)
        ensures
            r.spec_level() == 127,
    {
        Priority(127)
    }

    /// A priority from a raw level, clamped to the valid range.
    pub fn new(level: u8) -> (r: Self)
        ensures
            r.spec_level() == (if level < 128 {
                level
            } else {
                127u8
            }),
    {
        if level < 128 {
            Priority(level)
        } else {
            Priority(127)
        }
    }

    /// The raw level.
    pub fn level(&self) -> (r: u8)
        ensures
            r == self.spec_level(),
    {
        self.0
    }
}

/// Saved CPU state of a process.
#[derive(Clone, Copy, Debug, PartialEq, Eq)]
pub struct ProcessContext {
    /// Program counter
    pub pc: usize,
    /// Stack pointer
    pub sp: usize,
    /// General purpose registers
    pub regs: [usize; 32],
}

/// A process control block.
#[derive(Clone, Copy, Debug, PartialEq, Eq)]
pub struct Process {
    /// Process id
    pub pid: u32,
    /// Process state
    pub state: ProcessState,
    /// Priority
    pub priority: Priority,
    /// CPU time used, in microseconds
    pub cpu_time: u64,
    /// Saved CPU state
    pub context: ProcessContext,
}

/// Scheduler statistics.
#[derive(Clone, Copy, Debug, PartialEq, Eq, Structural)]
pub struct SchedulerStats {
    /// Processes ever created
    pub total_processes: usize,
    /// Processes currently marked running
    pub running_processes: usize,
    /// Context switches performed
    pub context_switches: u32,
}

/// How many processes of a sequence are marked running.
pub open spec fn count_running(procs: Seq<Process>) -> int
    decreases procs.len(),
{
    if procs.len() == 0 {
        0
    } else {
        count_running(procs.drop_last()) + if procs.last().state == ProcessState::Running {
            1int
        } else {
            0int
        }
    }
}

/// The scheduler: every process, one ready queue per priority level, and
/// the switch counter.
#[derive(Debug)]
pub struct Scheduler {
    /// All processes, in creation order
    processes: Vec<Process>,
    /// Ready process ids, one queue per priority level, highest first
    run_queues: Vec<Vec<u32>>,
    /// Next process id to assign
    next_pid: u32,
    /// Context switches performed
    context_switches: u32,
}

impl Scheduler {
    /// The processes as a sequence.
    pub closed spec fn spec_processes(&self) -> Seq<Process> {
        self.processes@
    }

    /// Spec view of the next process id.
    pub closed spec fn spec_next_pid(&self) -> u32 {
        self.next_pid
    }

    /// Spec view of the switch counter.
    pub closed spec fn spec_context_switches(&self) -> u32 {
        self.context_switches
    }

    /// The ready queue of one priority level.
    pub closed spec fn spec_queue(&self, level: int) -> Seq<u32> {
        self.run_queues@[level]@
    }

    /// Scheduler well-formedness: one queue per priority level.
    pub closed spec fn wf(&self) -> bool {
        self.run_queues@.len() == PRIORITY_LEVELS as int
    }

    /// An empty scheduler.
    pub fn new() -> (r: Self)
        ensures
            r.wf(),
            r.spec_processes().len() == 0,
            r.spec_next_pid() == 1,
            r.spec_context_switches() == 0,
            forall|level: int|
                0 <= level < PRIORITY_LEVELS as int ==> #[trigger] r.spec_queue(level).len() == 0,
    {
        let mut run_queues: Vec<Vec<u32>> = Vec::new();
        let mut i: usize = 0;
        while i < PRIORITY_LEVELS
            invariant
                i <= PRIORITY_LEVELS,
                run_queues@.len() == i,
                forall|k: int| 0 <= k < i ==> (#[trigger] run_queues@[k])@.len() == 0,
            decreases PRIORITY_LEVELS - i,
        {
            run_queues.push(Vec::new());
            i = i + 1;
        }
        Scheduler { processes: Vec::new(), run_queues, next_pid: 1, context_switches: 0 }
    }

    /// Create a ready process at a priority and queue it.
    pub fn create_process(&mut self, priority: Priority) -> (r: u32)
        requires
            old(self).wf(),
            old(self).spec_next_pid() < u32::MAX,
            priority.spec_level() < PRIORITY_LEVELS,
        ensures
            final(self).wf(),
            r == old(self).spec_next_pid(),
            final(self).spec_next_pid() == old(self).spec_next_pid() + 1,
            final(self).spec_processes().len() == old(self).spec_processes().len() + 1,
            final(self).spec_processes().last().pid == r,
            final(self).spec_processes().last().state == ProcessState::Ready,
            final(self).spec_processes().last().priority == priority,
            final(self).spec_context_switches() == old(self).spec_context_switches(),
    {
        let pid = self.next_pid;
        self.next_pid = self.next_pid + 1;
        let process = Process {
            pid,
            state: ProcessState::Ready,
            priority,
            cpu_time: 0,
            context: ProcessContext { pc: 0, sp: 0, regs: [0; 32] },
        };
        self.processes.push(process);
        let level = priority.level() as usize;
        proof {
            assert(level < PRIORITY_LEVELS);
        }
        self.run_queues[level].push(pid);
        pid
    }

    /// Pick the next process to run: the front of the highest-priority
    /// (lowest level) non-empty queue, or nothing when all are empty.
    pub fn schedule(&mut self) -> (r: Option<u32>)
        requires
            old(self).wf(),
        ensures
            final(self).wf(),
            final(self).spec_processes() == old(self).spec_processes(),
            final(self).spec_next_pid() == old(self).spec_next_pid(),
            match r {
                Some(pid) => exists|level: int|
                    0 <= level < PRIORITY_LEVELS as int && #[trigger] old(self).spec_queue(
                        level,
                    ).len() > 0 && pid == old(self).spec_queue(level)[0] && final(self).spec_queue(
                        level,
                    ) == old(self).spec_queue(level).skip(1),
                None => forall|level: int|
                    0 <= level < PRIORITY_LEVELS as int ==> #[trigger] old(self).spec_queue(
                        level,
                    ).len() == 0,
            },
    {
        let mut level: usize = 0;
        while level < PRIORITY_LEVELS
            invariant
                level <= PRIORITY_LEVELS,
                self.wf(),
                *self == *old(self),
                forall|k: int| 0 <= k < level ==> #[trigger] self.spec_queue(k).len() == 0,
            decreases PRIORITY_LEVELS - level,
        {
            if self.run_queues[level].len() > 0 {
                let pid = self.run_queues[level][0];
                let rest = self.run_queues[level].split_off(1);
                self.run_queues[level] = rest;
                proof {
                    assert(old(self).spec_queue(level as int)[0] == pid);
                    assert(self.spec_queue(level as int) =~= old(self).spec_queue(
                        level as int,
                    ).skip(1));
                }
                return Some(pid);
            }
            level = level + 1;
        }
        None
    }

    /// Scheduler counters: total processes, how many are marked running,
    /// and context switches performed.
    pub fn get_stats(&self) -> (r: SchedulerStats)
        ensures
            r.total_processes == self.spec_processes().len(),
            r.running_processes == count_running(self.spec_processes()),
            r.context_switches == self.spec_context_switches(),
    {
        let n = self.processes.len();
        let mut running: usize = 0;
        let mut i: usize = 0;
        while i < n
            invariant
                i <= n,
                n == self.spec_processes().len(),
                running <= i,
                running == count_running(self.spec_processes().subrange(0, i as int)),
            decreases n - i,
        {
            proof {
                assert(self.spec_processes().subrange(0, i + 1).drop_last() =~= self.spec_processes().subrange(0, i as int));
                assert(self.spec_processes().subrange(0, i + 1).last() == self.spec_processes()[i as int]);
            }
            let is_running = match self.processes[i].state {
                ProcessState::Running => true,
                _ => false,
            };
            if is_running {
                running = running + 1;
            }
            i = i + 1;
        }
        proof {
            assert(self.spec_processes().subrange(0, n as int) =~= self.spec_processes());
        }
        SchedulerStats {
            total_processes: n,
            running_processes: running,
            context_switches: self.context_switches,
        }
    }
}

} // verus!

//! Process-scoped debugging state shared by the CPU, the bus and the picture
//! unit: enabled flags, the instruction-log ring, and the PC breakpoint.

use vstd::prelude::*;

verus! {

use crate::cpu::BreakpointType;

/// Granularity of single stepping.
#[derive(Clone, Copy, Debug, PartialEq, Eq, Structural)]
pub enum StepMode {
    /// Stop after one CPU instruction.
    Instruction,
    /// Stop after one whole frame.
    Frame,
}

/// Independently toggleable debugging switches.
#[derive(Clone, Copy, Debug, PartialEq, Eq, Structural)]
pub enum DebugFlag {
    /// Log each CPU instruction before it executes.
    Cpu,
    /// Build the pattern-table view alongside each frame.
    Ppu,
    /// Route all bus accesses to a flat 64 KiB array for single-instruction
    /// testing.
    Json,
    /// Stop after one instruction or one frame.
    Step(StepMode),
}

/// Most entries the instruction-log ring holds before it drains.
pub const LOG_CAPACITY: usize = 1000;

/// Shared debugging state. The log never exceeds `LOG_CAPACITY` entries: on
/// overflow the oldest half is dropped.
pub struct DebugContext {
    enabled_flags: Vec<DebugFlag>,
    cpu_instruction_log: Vec<String>,
    pc_breakpoint: Option<u16>,
    cpu_debug_read: bool,
}


/// Membership in a sequence extended by one element.
proof fn lemma_push_contains<A>(s: Seq<A>, x: A)
    ensures
        forall|y: A| #[trigger] s.push(x).contains(y) == (s.contains(y) || y == x),
{
    assert forall|y: A| #[trigger] s.push(x).contains(y) == (s.contains(y) || y == x) by {
        if s.push(x).contains(y) {
            let k = choose|k: int| 0 <= k < s.push(x).len() && s.push(x)[k] == y;
            if k < s.len() {
                assert(s[k] == y);
            }
        }
        if s.contains(y) {
            let k = choose|k: int| 0 <= k < s.len() && s[k] == y;
            assert(s.push(x)[k] == y);
        }
        if y == x {
            assert(s.push(x)[s.len() as int] == y);
        }
    }
}

/// Membership in a prefix one element longer.
proof fn lemma_take_succ_contains<A>(s: Seq<A>, i: int)
    requires
        0 <= i < s.len(),
    ensures
        forall|y: A| #[trigger] s.take(i + 1).contains(y) == (s.take(i).contains(y) || y == s[i]),
{
    assert(s.take(i + 1) =~= s.take(i).push(s[i]));
    lemma_push_contains(s.take(i), s[i]);
}

impl DebugContext {
    /// The enabled flags, in the order they were set.
    pub closed spec fn flags(self) -> Seq<DebugFlag> {
        self.enabled_flags@
    }

    /// Whether `flag` is currently enabled.
    pub open spec fn flag_on(self, flag: DebugFlag) -> bool {
        self.flags().contains(flag)
    }

    /// The logged instruction lines, oldest first.
    pub closed spec fn log(self) -> Seq<String> {
        self.cpu_instruction_log@
    }

    /// The PC breakpoint, if one is set.
    pub closed spec fn breakpoint(self) -> Option<u16> {
        self.pc_breakpoint
    }

    /// Whether bus reads are currently routed without side effects, for
    /// disassembly logging.
    pub closed spec fn debug_read(self) -> bool {
        self.cpu_debug_read
    }

    /// The log ring never exceeds its capacity.
    pub open spec fn wf(self) -> bool {
        self.log().len() <= LOG_CAPACITY
    }

    /// Whether `bp` matches the set breakpoint.
    pub open spec fn spec_hit(self, bp: BreakpointType) -> bool {
        match bp {
            BreakpointType::Pc(pc) => self.breakpoint() == Some(pc),
            _ => false,
        }
    }

    /// A context with no flags, an empty log, and no breakpoint.
    pub fn new() -> (r: DebugContext)
        ensures
            r.flags() == Seq::<DebugFlag>::empty(),
            r.log() == Seq::<String>::empty(),
            r.breakpoint() is None,
            !r.debug_read(),
    {
        DebugContext {
            enabled_flags: Vec::new(),
            cpu_instruction_log: Vec::new(),
            pc_breakpoint: None,
            cpu_debug_read: false,
        }
    }

    /// Whether bus reads are currently in the side-effect-free mode.
    pub fn cpu_debug_read(&self) -> (r: bool)
        ensures
            r == self.debug_read(),
    {
        self.cpu_debug_read
    }

    /// Switch the side-effect-free read mode on or off.
    pub fn set_cpu_debug_read(&mut self, value: bool)
        ensures
            final(self).debug_read() == value,
            final(self).flags() == old(self).flags(),
            final(self).log() == old(self).log(),
            final(self).breakpoint() == old(self).breakpoint(),
    {
        self.cpu_debug_read = value;
    }

    /// Whether `flag` is enabled.
    pub fn flag_enabled(&self, flag: &DebugFlag) -> (r: bool)
        ensures
            r == self.flag_on(*flag),
    {
        let n = self.enabled_flags.len();
        let mut i: usize = 0;
        while i < n
            invariant
                i <= n,
                n == self.flags().len(),
                forall|j: int| 0 <= j < i ==> self.flags()[j] != *flag,
            decreases n - i,
        {
            if self.enabled_flags[i] == *flag {
                return true;
            }
            i = i + 1;
        }
        false
    }

    /// Replace the whole flag set.
    pub fn set_debug_flags(&mut self, flags: Vec<DebugFlag>)
        ensures
            final(self).flags() == flags@,
            final(self).log() == old(self).log(),
            final(self).breakpoint() == old(self).breakpoint(),
            final(self).debug_read() == old(self).debug_read(),
    {
        self.enabled_flags = flags;
    }

    /// Enable `flag` if it is not already enabled.
    pub fn set_debug_flag(&mut self, flag: DebugFlag)
        ensures
            final(self).flag_on(flag),
            forall|g: DebugFlag| #[trigger]
                final(self).flag_on(g) == (old(self).flag_on(g) || g == flag),
            final(self).log() == old(self).log(),
            final(self).breakpoint() == old(self).breakpoint(),
            final(self).debug_read() == old(self).debug_read(),
    {
        if !self.flag_enabled(&flag) {
            proof {
                lemma_push_contains(old(self).flags(), flag);
            }
            self.enabled_flags.push(flag);
        }
    }

    /// Disable every occurrence of `flag`.
    pub fn clear_debug_flag(&mut self, flag: &DebugFlag)
        ensures
            !final(self).flag_on(*flag),
            forall|g: DebugFlag| #[trigger]
                final(self).flag_on(g) == (old(self).flag_on(g) && g != *flag),
            final(self).log() == old(self).log(),
            final(self).breakpoint() == old(self).breakpoint(),
            final(self).debug_read() == old(self).debug_read(),
    {
        let n = self.enabled_flags.len();
        let mut kept: Vec<DebugFlag> = Vec::new();
        let mut i: usize = 0;
        while i < n
            invariant
                i <= n,
                n == self.flags().len(),
                forall|g: DebugFlag| #[trigger]
                    kept@.contains(g) == (self.flags().take(i as int).contains(g) && g != *flag),
            decreases n - i,
        {
            let g = self.enabled_flags[i];
            proof {
                lemma_take_succ_contains(self.flags(), i as int);
                if g != *flag {
                    lemma_push_contains(kept@, g);
                }
            }
            if !(g == *flag) {
                kept.push(g);
            }
            i = i + 1;
        }
        proof {
            assert(self.flags().take(n as int) =~= self.flags());
        }
        self.enabled_flags = kept;
    }

    /// Enable `flag` if it is disabled, disable it if it is enabled.
    pub fn toggle_debug_flag(&mut self, flag: DebugFlag)
        ensures
            final(self).flag_on(flag) == !old(self).flag_on(flag),
            forall|g: DebugFlag|
                g != flag ==> #[trigger] final(self).flag_on(g) == old(self).flag_on(g),
            final(self).log() == old(self).log(),
            final(self).breakpoint() == old(self).breakpoint(),
            final(self).debug_read() == old(self).debug_read(),
    {
        if self.flag_enabled(&flag) {
            self.clear_debug_flag(&flag);
        } else {
            self.set_debug_flag(flag);
        }
    }

    /// Append one line to the instruction log; when the ring is full, the
    /// oldest half is dropped first.
    pub fn log_instr(&mut self, log: String)
        requires
            old(self).wf(),
        ensures
            final(self).wf(),
            old(self).log().len() < LOG_CAPACITY ==> final(self).log() == old(self).log().push(
                log,
            ),
            old(self).log().len() == LOG_CAPACITY ==> final(self).log() == old(self).log().push(
                log,
            ).subrange(500, LOG_CAPACITY + 1),
            final(self).flags() == old(self).flags(),
            final(self).breakpoint() == old(self).breakpoint(),
            final(self).debug_read() == old(self).debug_read(),
    {
        self.cpu_instruction_log.push(log);
        if self.cpu_instruction_log.len() > LOG_CAPACITY {
            let ghost pushed = self.cpu_instruction_log@;
            let mut k: usize = 0;
            while k < 500
                invariant
                    k <= 500,
                    pushed.len() == LOG_CAPACITY + 1,
                    self.cpu_instruction_log@ =~= pushed.subrange(k as int, LOG_CAPACITY + 1),
                    self.enabled_flags@ == old(self).flags(),
                    self.pc_breakpoint == old(self).breakpoint(),
                    self.cpu_debug_read == old(self).debug_read(),
                decreases 500 - k,
            {
                self.cpu_instruction_log.remove(0);
                proof {
                    assert(self.cpu_instruction_log@ =~= pushed.subrange(
                        k + 1,
                        LOG_CAPACITY + 1,
                    ));
                }
                k = k + 1;
            }
        }
    }

    /// The most recent logged line, or the empty string if none exists.
    pub fn last_instruction(&self) -> (r: String)
        ensures
            self.log().len() == 0 ==> r@ == Seq::<char>::empty(),
            self.log().len() > 0 ==> r@ == self.log().last()@,
    {
        if self.cpu_instruction_log.len() == 0 {
            String::new()
        } else {
            self.cpu_instruction_log[self.cpu_instruction_log.len() - 1].clone()
        }
    }

    /// Set or clear the PC breakpoint.
    pub fn set_breakpoint(&mut self, breakpoint: Option<u16>)
        ensures
            final(self).breakpoint() == breakpoint,
            final(self).flags() == old(self).flags(),
            final(self).log() == old(self).log(),
            final(self).debug_read() == old(self).debug_read(),
    {
        self.pc_breakpoint = breakpoint;
    }

    /// Whether `bp` matches the set breakpoint.
    pub fn hit_breakpoint(&self, bp: BreakpointType) -> (r: bool)
        ensures
            r == self.spec_hit(bp),
    {
        match bp {
            BreakpointType::Pc(pc) => {
                match self.pc_breakpoint {
                    None => false,
                    Some(target) => pc == target,
                }
            },
            _ => false,
        }
    }
}

} // verus!

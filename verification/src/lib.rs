//! Protection and trap-dispatch core of a small x86-64 kernel.
//!
//! The crate holds the decisions of the kernel as plain data: which
//! descriptors make up the segment table, which vectors of the trap table are
//! bound and on which stack they run, which controller has to be acknowledged
//! after a hardware interrupt, and in which order the pieces are activated.
//! Privileged instructions and port accesses are left to the caller.

use vstd::prelude::*;

pub mod controllers;
pub mod gdt;
pub mod interrupts;
pub mod memory;
pub mod vga_buffer;

verus! {

/// Port of the emulator's exit device.
pub const EXIT_PORT: u16 = 0xf4;

/// The codes with which a test run ends. The emulator turns a code `x` into
/// the exit status `(x << 1) | 1`, so neither of them can be taken for a
/// status of the emulator itself.
#[derive(Debug, Clone, Copy, PartialEq, Eq, Structural)]
pub enum QemuExitCode {
    Success,
    Failed,
}

impl QemuExitCode {
    /// The value that is written to the exit device.
    pub open spec fn value(self) -> u32 {
        match self {
            QemuExitCode::Success => 0x10,
            QemuExitCode::Failed => 0x11,
        }
    }

    /// The value that is written to the exit device.
    pub fn code(self) -> (code: u32)
        ensures
            code == self.value(),
    {
        match self {
            QemuExitCode::Success => 0x10,
            QemuExitCode::Failed => 0x11,
        }
    }
}

/// A write of `value` to the I/O port `port`.
#[derive(Debug, Clone, Copy, PartialEq, Eq, Structural)]
pub struct PortWrite {
    pub port: u16,
    pub value: u32,
}

/// The port write that ends the emulator with `exit_code`.
pub fn exit_qemu(exit_code: QemuExitCode) -> (write: PortWrite)
    ensures
        write == (PortWrite { port: EXIT_PORT, value: exit_code.value() }),
{
    PortWrite { port: EXIT_PORT, value: exit_code.code() }
}

/// Something that the test runner can run.
pub trait Testable {
    fn run(&self) -> ();
}

/// Runs every test in turn and hands back the port write that ends the run.
/// A test that fails does not come back, so the run ends with success.
pub fn test_runner(tests: &[&dyn Testable]) -> (exit: PortWrite)
    ensures
        exit == (PortWrite { port: EXIT_PORT, value: QemuExitCode::Success.value() }),
{
    let mut i: usize = 0;
    while i < tests.len()
        invariant
            i <= tests@.len(),
        decreases tests@.len() - i,
    {
        tests[i].run();
        i += 1;
    }
    exit_qemu(QemuExitCode::Success)
}

/// The steps that bring the kernel's trap handling into force.
#[derive(Debug, Clone, Copy, PartialEq, Eq, Structural)]
pub enum InitStep {
    /// Build and load the segment table, reload the code segment and load
    /// the task register.
    SegmentTable,
    /// Build and load the trap table.
    TrapTable,
    /// Move the interrupt controllers off the exception vectors.
    Controllers,
    /// Let the processor take interrupts.
    EnableInterrupts,
}

impl InitStep {
    /// Place of the step in the order of initialization.
    pub open spec fn position(self) -> nat {
        match self {
            InitStep::SegmentTable => 0,
            InitStep::TrapTable => 1,
            InitStep::Controllers => 2,
            InitStep::EnableInterrupts => 3,
        }
    }

    /// Place of the step in the order of initialization.
    pub fn index(self) -> (index: u8)
        ensures
            index == self.position(),
    {
        match self {
            InitStep::SegmentTable => 0,
            InitStep::TrapTable => 1,
            InitStep::Controllers => 2,
            InitStep::EnableInterrupts => 3,
        }
    }
}

/// The order of initialization. Each step rests on the one before it: the
/// double-fault entry of the trap table names a stack of the task state that
/// the segment table brings, the controllers deliver into the trap table, and
/// interrupts may only come once all of that stands.
pub open spec fn init_order() -> Seq<InitStep> {
    seq![
        InitStep::SegmentTable,
        InitStep::TrapTable,
        InitStep::Controllers,
        InitStep::EnableInterrupts,
    ]
}

/// A step was offered out of turn.
#[derive(Debug, Clone, Copy, PartialEq, Eq, Structural)]
pub struct OutOfOrder {
    /// The step that was offered.
    pub offered: InitStep,
    /// The step whose turn it is, or none where initialization is over.
    pub expected: Option<InitStep>,
}

/// Keeps the order of initialization: it takes the steps one by one and
/// refuses any that comes out of turn.
#[derive(Debug, Clone, Copy, PartialEq, Eq, Structural)]
pub struct Sequencer {
    completed: u8,
}

impl Sequencer {
    /// Number of steps taken so far.
    pub closed spec fn completed(&self) -> nat {
        self.completed as nat
    }

    /// No more steps have been taken than there are.
    pub open spec fn wf(&self) -> bool {
        self.completed() <= init_order().len()
    }

    /// Whether `step` has been taken.
    pub open spec fn done(&self, step: InitStep) -> bool {
        step.position() < self.completed()
    }

    /// The step whose turn it is.
    pub open spec fn expected(&self) -> Option<InitStep> {
        if self.completed() < init_order().len() {
            Some(init_order()[self.completed() as int])
        } else {
            None
        }
    }

    /// The sequencer before the first step.
    pub closed spec fn fresh() -> Sequencer {
        Sequencer { completed: 0 }
    }

    /// The sequencer after one more step.
    pub closed spec fn advanced(&self) -> Sequencer {
        Sequencer { completed: (self.completed + 1) as u8 }
    }

    /// A sequencer before the first step.
    pub fn new() -> (sequencer: Sequencer)
        ensures
            sequencer.wf(),
            sequencer == Sequencer::fresh(),
            sequencer.completed() == 0,
    {
        Sequencer { completed: 0 }
    }

    /// The step whose turn it is, or none where initialization is over.
    pub fn next_step(&self) -> (step: Option<InitStep>)
        requires
            self.wf(),
        ensures
            step == self.expected(),
    {
        if self.completed == 0 {
            Some(InitStep::SegmentTable)
        } else if self.completed == 1 {
            Some(InitStep::TrapTable)
        } else if self.completed == 2 {
            Some(InitStep::Controllers)
        } else if self.completed == 3 {
            Some(InitStep::EnableInterrupts)
        } else {
            None
        }
    }

    /// Records that `step` has been taken, where it is the step whose turn
    /// it is. Any other step is refused and nothing changes.
    pub fn complete(&mut self, step: InitStep) -> (taken: Result<(), OutOfOrder>)
        requires
            old(self).wf(),
        ensures
            final(self).wf(),
            old(self).expected() == Some(step) ==> taken is Ok && *final(self) == old(
                self,
            ).advanced() && final(self).completed() == old(self).completed() + 1,
            old(self).expected() != Some(step) ==> taken == Err::<(), OutOfOrder>(
                OutOfOrder { offered: step, expected: old(self).expected() },
            ) && *final(self) == *old(self),
    {
        let expected = self.next_step();
        if self.completed < 4 && step.index() == self.completed {
            self.completed += 1;
            Ok(())
        } else {
            Err(OutOfOrder { offered: step, expected })
        }
    }

    /// Whether `step` has been taken.
    pub fn is_done(&self, step: InitStep) -> (done: bool)
        ensures
            done == self.done(step),
    {
        step.index() < self.completed
    }

    /// Whether the processor has been allowed to take interrupts.
    pub fn interrupts_enabled(&self) -> (enabled: bool)
        ensures
            enabled == self.done(InitStep::EnableInterrupts),
    {
        self.is_done(InitStep::EnableInterrupts)
    }
}

/// The sequencer after the steps of `steps` have been offered to it in turn,
/// or none where one of them was refused.
pub open spec fn after(steps: Seq<InitStep>) -> Option<Sequencer>
    decreases steps.len(),
{
    if steps.len() == 0 {
        Some(Sequencer::fresh())
    } else {
        match after(steps.drop_last()) {
            Some(sequencer) => if sequencer.expected() == Some(steps.last()) {
                Some(sequencer.advanced())
            } else {
                None
            },
            None => None,
        }
    }
}

/// Plans the initialization: the steps in the one order in which the
/// sequencer takes them.
pub fn init() -> (plan: Vec<InitStep>)
    ensures
        plan@ == init_order(),
{
    let mut plan: Vec<InitStep> = Vec::new();
    plan.push(InitStep::SegmentTable);
    plan.push(InitStep::TrapTable);
    plan.push(InitStep::Controllers);
    plan.push(InitStep::EnableInterrupts);
    assert(plan@ =~= init_order());
    plan
}

/// A step is taken only after every step before it: in particular interrupts
/// are never enabled before the trap table is loaded.
pub proof fn lemma_steps_in_order(sequencer: Sequencer, earlier: InitStep, later: InitStep)
    requires
        sequencer.wf(),
        earlier.position() <= later.position(),
        sequencer.done(later),
    ensures
        sequencer.done(earlier),
        sequencer.done(InitStep::EnableInterrupts) ==> sequencer.done(InitStep::TrapTable),
{
}

/// Whatever steps are offered to a fresh sequencer, it takes them all only
/// where they are the first steps of the order of initialization.
pub proof fn lemma_only_the_order_is_taken(steps: Seq<InitStep>)
    ensures
        after(steps) is Some <==> steps.len() <= init_order().len() && steps == init_order().take(
            steps.len() as int,
        ),
        after(steps) is Some ==> after(steps).unwrap().wf() && after(steps).unwrap().completed()
            == steps.len(),
    decreases steps.len(),
{
    if steps.len() > 0 {
        let front = steps.drop_last();
        lemma_only_the_order_is_taken(front);
        if after(steps) is Some {
            assert(steps =~= init_order().take(steps.len() as int));
        }
        if steps.len() <= init_order().len() && steps == init_order().take(steps.len() as int) {
            assert(front =~= init_order().take(front.len() as int));
        }
    } else {
        assert(steps =~= init_order().take(0));
    }
}

} // verus!

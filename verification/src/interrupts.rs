//! Trap dispatch table and its handlers.

use crate::controllers::ControllerPair;
use crate::gdt::{TaskState, DOUBLE_FAULT_IST_INDEX, IST_SLOTS};
use vstd::prelude::*;

verus! {

/// First vector of the primary interrupt controller.
///
/// ```text
///                      ____________                          ____________
///  Real Time Clock --> 0            |   Timer -------------> 0            |
///  ACPI -------------> 1            |   Keyboard-----------> 1            |      _____
///  Available --------> 2 Secondary  |----------------------> 2 Primary    |     |     |
///  Available --------> 3 Interrupt  |   Serial Port 2 -----> 3 Interrupt  |---> | CPU |
///  Mouse ------------> 4 Controller |   Serial Port 1 -----> 4 Controller |     |_____|
///  Co-Processor -----> 5            |   Parallel Port 2/3 -> 5            |
///  Primary ATA ------> 6            |   Floppy disk -------> 6            |
///  Secondary ATA ----> 7____________|   Parallel Port 1----> 7____________|
/// ```
///
/// Out of reset the controllers deliver on vectors that the processor uses
/// for its own exceptions, so they are moved to the sixteen vectors from 32.
pub const PIC_1_OFFSET: u8 = 32;

/// First vector of the secondary interrupt controller.
pub const PIC_2_OFFSET: u8 = PIC_1_OFFSET + 8;

/// Number of vectors that the processor keeps for its own exceptions.
pub const EXCEPTION_VECTORS: u8 = 32;

/// Number of vectors of the trap table.
pub const VECTORS: usize = 256;

/// Vector of the breakpoint exception.
pub const BREAKPOINT_VECTOR: u8 = 3;

/// Vector of the double fault.
pub const DOUBLE_FAULT_VECTOR: u8 = 8;

/// The hardware interrupts that the kernel serves.
#[derive(Debug, Clone, Copy, PartialEq, Eq, Structural)]
pub enum InterruptIndex {
    Timer,
}

impl InterruptIndex {
    /// The vector on which the interrupt is delivered.
    pub open spec fn vector(self) -> u8 {
        match self {
            InterruptIndex::Timer => PIC_1_OFFSET,
        }
    }

    /// The vector as a byte.
    pub fn as_u8(self) -> (vector: u8)
        ensures
            vector == self.vector(),
    {
        match self {
            InterruptIndex::Timer => PIC_1_OFFSET,
        }
    }

    /// The vector as an index into the trap table.
    pub fn as_usize(self) -> (index: usize)
        ensures
            index == self.vector(),
            index < VECTORS,
    {
        self.as_u8() as usize
    }
}

/// The entry points that the kernel has for traps.
#[derive(Debug, Clone, Copy, PartialEq, Eq, Structural)]
pub enum Handler {
    /// Reports the breakpoint and goes on.
    Breakpoint,
    /// Reports the double fault and halts.
    DoubleFault,
    /// Serves the timer interrupt.
    Timer,
}

impl Handler {
    /// The vector that the handler is written for.
    pub open spec fn vector(self) -> u8 {
        match self {
            Handler::Breakpoint => BREAKPOINT_VECTOR,
            Handler::DoubleFault => DOUBLE_FAULT_VECTOR,
            Handler::Timer => InterruptIndex::Timer.vector(),
        }
    }

    /// The interrupt that the handler acknowledges before it returns: its
    /// own, where it serves a hardware interrupt, and none otherwise.
    pub open spec fn acknowledges(self) -> Option<u8> {
        match self {
            Handler::Breakpoint => None,
            Handler::DoubleFault => None,
            Handler::Timer => Some(InterruptIndex::Timer.vector()),
        }
    }

    /// The vector that the handler is written for.
    pub fn bound_vector(self) -> (vector: u8)
        ensures
            vector == self.vector(),
    {
        match self {
            Handler::Breakpoint => BREAKPOINT_VECTOR,
            Handler::DoubleFault => DOUBLE_FAULT_VECTOR,
            Handler::Timer => InterruptIndex::Timer.as_u8(),
        }
    }
}

/// One slot of the trap table.
#[derive(Debug, Clone, Copy, PartialEq, Eq, Structural)]
pub enum Entry {
    /// No handler: a trap on this vector cannot be served.
    Unbound,
    /// A handler, and the slot of the interrupt stack table whose stack the
    /// processor switches to before it calls the handler, if any.
    Bound { handler: Handler, stack_index: Option<u16> },
}

/// Why an entry cannot be bound.
#[derive(Debug, Clone, Copy, PartialEq, Eq, Structural)]
pub enum TrapTableError {
    /// The interrupt stack table has no slot of that index.
    NoSuchStack,
    /// The slot holds no stack.
    StackNotReserved,
}

/// The table as the kernel builds it: breakpoint and timer on the current
/// stack, the double fault on the stack of its own, everything else unbound.
pub open spec fn kernel_entries() -> Seq<Entry> {
    Seq::new(
        VECTORS as nat,
        |vector: int|
            if vector == BREAKPOINT_VECTOR {
                Entry::Bound { handler: Handler::Breakpoint, stack_index: None }
            } else if vector == DOUBLE_FAULT_VECTOR {
                Entry::Bound {
                    handler: Handler::DoubleFault,
                    stack_index: Some(DOUBLE_FAULT_IST_INDEX),
                }
            } else if vector == InterruptIndex::Timer.vector() {
                Entry::Bound { handler: Handler::Timer, stack_index: None }
            } else {
                Entry::Unbound
            },
    )
}

/// The trap dispatch table: one entry for each of the 256 vectors.
#[derive(Debug)]
pub struct TrapTable {
    entries: Vec<Entry>,
}

impl View for TrapTable {
    type V = Seq<Entry>;

    closed spec fn view(&self) -> Seq<Entry> {
        self.entries@
    }
}

impl TrapTable {
    /// The table has an entry for every vector, a handler stands only on the
    /// vector that it is written for, and a stack index names a slot of the
    /// interrupt stack table.
    pub open spec fn wf(&self) -> bool {
        &&& self@.len() == VECTORS
        &&& forall|vector: int|
            0 <= vector < VECTORS ==> match #[trigger] self@[vector] {
                Entry::Unbound => true,
                Entry::Bound { handler, stack_index } => {
                    &&& handler.vector() == vector
                    &&& stack_index is Some ==> stack_index.unwrap() < IST_SLOTS
                },
            }
    }

    /// Every stack that an entry asks for is reserved in `task_state`.
    pub open spec fn stacks_reserved(&self, task_state: &TaskState) -> bool {
        forall|vector: int|
            0 <= vector < self@.len() ==> match #[trigger] self@[vector] {
                Entry::Unbound => true,
                Entry::Bound { handler, stack_index } => stack_index is Some
                    ==> task_state.reserved(stack_index.unwrap()),
            }
    }

    /// A table with no entry bound.
    pub fn new() -> (table: TrapTable)
        ensures
            table.wf(),
            table@ == Seq::new(VECTORS as nat, |vector: int| Entry::Unbound),
    {
        let mut entries: Vec<Entry> = Vec::new();
        let mut vector: usize = 0;
        while vector < VECTORS
            invariant
                vector <= VECTORS,
                entries@.len() == vector,
                forall|k: int| 0 <= k < vector ==> entries@[k] == Entry::Unbound,
            decreases VECTORS - vector,
        {
            entries.push(Entry::Unbound);
            vector += 1;
        }
        assert(entries@ =~= Seq::new(VECTORS as nat, |vector: int| Entry::Unbound));
        TrapTable { entries }
    }

    /// Binds `handler` to its vector, to run on the stack that is current
    /// when the trap comes.
    pub fn set_handler(&mut self, handler: Handler)
        requires
            old(self).wf(),
        ensures
            final(self).wf(),
            final(self)@ == old(self)@.update(
                handler.vector() as int,
                Entry::Bound { handler, stack_index: None },
            ),
    {
        let vector = handler.bound_vector();
        self.entries.set(vector as usize, Entry::Bound { handler, stack_index: None });
    }

    /// Binds `handler` to its vector, to run on the stack in slot
    /// `stack_index` of the interrupt stack table. The slot has to be
    /// reserved in `task_state`; otherwise the table stays as it is.
    pub fn set_handler_on_stack(
        &mut self,
        handler: Handler,
        stack_index: u16,
        task_state: &TaskState,
    ) -> (bound: Result<(), TrapTableError>)
        requires
            old(self).wf(),
        ensures
            final(self).wf(),
            stack_index >= IST_SLOTS ==> bound == Err::<(), TrapTableError>(
                TrapTableError::NoSuchStack,
            ),
            stack_index < IST_SLOTS && !task_state.reserved(stack_index) ==> bound == Err::<
                (),
                TrapTableError,
            >(TrapTableError::StackNotReserved),
            task_state.reserved(stack_index) ==> bound is Ok,
            bound is Ok ==> final(self)@ == old(self)@.update(
                handler.vector() as int,
                Entry::Bound { handler, stack_index: Some(stack_index) },
            ),
            bound is Err ==> final(self)@ == old(self)@,
            old(self).stacks_reserved(task_state) ==> final(self).stacks_reserved(task_state),
    {
        if stack_index as usize >= IST_SLOTS {
            return Err(TrapTableError::NoSuchStack);
        }
        if !task_state.is_reserved(stack_index) {
            return Err(TrapTableError::StackNotReserved);
        }
        let vector = handler.bound_vector();
        self.entries.set(
            vector as usize,
            Entry::Bound { handler, stack_index: Some(stack_index) },
        );
        Ok(())
    }

    /// The entry of `vector`.
    pub fn entry(&self, vector: u8) -> (entry: Entry)
        requires
            self.wf(),
        ensures
            entry == self@[vector as int],
    {
        self.entries[vector as usize]
    }

    /// Whether `vector` has a handler.
    pub fn is_bound(&self, vector: u8) -> (bound: bool)
        requires
            self.wf(),
        ensures
            bound == (self@[vector as int] != Entry::Unbound),
    {
        match self.entries[vector as usize] {
            Entry::Unbound => false,
            Entry::Bound { .. } => true,
        }
    }
}

/// What `init_idt` returns for a task state: the kernel's table where the
/// double-fault stack is reserved, and a refusal where it is not.
pub open spec fn init_idt_result(
    task_state: &TaskState,
    table: Result<TrapTable, TrapTableError>,
) -> bool {
    if task_state.reserved(DOUBLE_FAULT_IST_INDEX) {
        &&& table is Ok
        &&& table.unwrap().wf()
        &&& table.unwrap()@ == kernel_entries()
        &&& table.unwrap().stacks_reserved(task_state)
    } else {
        table matches Err(TrapTableError::StackNotReserved)
    }
}

/// Builds the kernel's trap table. The double fault is bound to the stack in
/// slot `DOUBLE_FAULT_IST_INDEX`, which `task_state` has to hold: without it
/// the table is refused.
pub fn init_idt(task_state: &TaskState) -> (table: Result<TrapTable, TrapTableError>)
    ensures
        init_idt_result(task_state, table),
{
    let mut idt = TrapTable::new();
    idt.set_handler(Handler::Breakpoint);
    match idt.set_handler_on_stack(Handler::DoubleFault, DOUBLE_FAULT_IST_INDEX, task_state) {
        Ok(_) => {},
        Err(error) => {
            return Err(error);
        },
    }
    idt.set_handler(Handler::Timer);
    assert(idt@ =~= kernel_entries());
    Ok(idt)
}

/// What the processor saves when it delivers a trap.
#[derive(Debug, Clone, Copy, PartialEq, Eq, Structural)]
pub struct StackFrame {
    pub instruction_pointer: u64,
    pub code_segment: u64,
    pub cpu_flags: u64,
    pub stack_pointer: u64,
    pub stack_segment: u64,
}

/// What a handler has to show on the diagnostic output.
#[derive(Debug, Clone, Copy, PartialEq, Eq, Structural)]
pub enum Output {
    /// A breakpoint was hit: the saved machine state.
    Breakpoint(StackFrame),
    /// A double fault was raised: the error code and the saved machine state.
    DoubleFault(u64, StackFrame),
    /// The timer ticked: one dot.
    Tick,
}

/// How the kernel goes on after a handler.
#[derive(Debug, Clone, Copy, PartialEq, Eq, Structural)]
pub enum Disposition {
    /// Back to the interrupted code.
    Resume,
    /// No way back: the processor is halted for good.
    Halt,
}

/// What a handler decides: what to show, which interrupt to acknowledge
/// before it returns, and how to go on.
#[derive(Debug, Clone, Copy, PartialEq, Eq, Structural)]
pub struct Response {
    pub output: Output,
    pub acknowledge: Option<u8>,
    pub disposition: Disposition,
}

/// The response of `handler` to a trap with the given saved state and error
/// code.
pub open spec fn response_of(handler: Handler, stack_frame: StackFrame, error_code: u64) -> Response {
    match handler {
        Handler::Breakpoint => Response {
            output: Output::Breakpoint(stack_frame),
            acknowledge: handler.acknowledges(),
            disposition: Disposition::Resume,
        },
        Handler::DoubleFault => Response {
            output: Output::DoubleFault(error_code, stack_frame),
            acknowledge: handler.acknowledges(),
            disposition: Disposition::Halt,
        },
        Handler::Timer => Response {
            output: Output::Tick,
            acknowledge: handler.acknowledges(),
            disposition: Disposition::Resume,
        },
    }
}

/// What happens when a trap arrives on `vector` of a table with the given
/// entries: the response of the bound handler, or none where the vector is
/// unbound and the processor is left to itself.
pub open spec fn dispatched(
    entries: Seq<Entry>,
    vector: u8,
    stack_frame: StackFrame,
    error_code: u64,
) -> Option<Response> {
    match entries[vector as int] {
        Entry::Unbound => None,
        Entry::Bound { handler, stack_index } => Some(response_of(handler, stack_frame, error_code)),
    }
}

/// The breakpoint handler: shows the saved state and returns to the code
/// behind the breakpoint.
pub fn breakpoint_handler(stack_frame: &StackFrame) -> (response: Response)
    ensures
        response == response_of(Handler::Breakpoint, *stack_frame, 0),
        response.disposition == Disposition::Resume,
{
    Response {
        output: Output::Breakpoint(*stack_frame),
        acknowledge: None,
        disposition: Disposition::Resume,
    }
}

/// The double-fault handler: shows the error code and the saved state, and
/// never returns to the code that faulted.
pub fn double_fault_handler(stack_frame: &StackFrame, error_code: u64) -> (response: Response)
    ensures
        response == response_of(Handler::DoubleFault, *stack_frame, error_code),
        response.disposition == Disposition::Halt,
{
    Response {
        output: Output::DoubleFault(error_code, *stack_frame),
        acknowledge: None,
        disposition: Disposition::Halt,
    }
}

/// The timer handler: shows a dot and acknowledges the timer interrupt.
pub fn timer_interrupt_handler(stack_frame: &StackFrame) -> (response: Response)
    ensures
        response == response_of(Handler::Timer, *stack_frame, 0),
        response.acknowledge == Some(InterruptIndex::Timer.vector()),
{
    Response {
        output: Output::Tick,
        acknowledge: Some(InterruptIndex::Timer.as_u8()),
        disposition: Disposition::Resume,
    }
}

/// Routes a trap on `vector` to its handler. `error_code` is what the
/// processor pushed for the trap, and is read by the double-fault handler
/// only.
pub fn dispatch(table: &TrapTable, vector: u8, stack_frame: &StackFrame, error_code: u64) -> (response:
    Option<Response>)
    requires
        table.wf(),
    ensures
        response == dispatched(table@, vector, *stack_frame, error_code),
{
    match table.entry(vector) {
        Entry::Unbound => None,
        Entry::Bound { handler, stack_index: _ } => Some(
            match handler {
                Handler::Breakpoint => breakpoint_handler(stack_frame),
                Handler::DoubleFault => double_fault_handler(stack_frame, error_code),
                Handler::Timer => timer_interrupt_handler(stack_frame),
            },
        ),
    }
}

/// The vectors that are acknowledged while the traps on `vectors` are served
/// one after the other.
pub open spec fn acknowledged(entries: Seq<Entry>, vectors: Seq<u8>) -> Seq<u8>
    decreases vectors.len(),
{
    if vectors.len() == 0 {
        seq![]
    } else {
        let served = acknowledged(entries, vectors.drop_last());
        match entries[vectors.last() as int] {
            Entry::Unbound => served,
            Entry::Bound { handler, stack_index } => match handler.acknowledges() {
                Some(vector) => served.push(vector),
                None => served,
            },
        }
    }
}

/// A breakpoint on the kernel's table is reported and the interrupted code
/// goes on.
pub proof fn lemma_breakpoint_resumes(table: TrapTable, stack_frame: StackFrame, error_code: u64)
    requires
        table@ == kernel_entries(),
    ensures
        dispatched(table@, BREAKPOINT_VECTOR, stack_frame, error_code) == Some(
            Response {
                output: Output::Breakpoint(stack_frame),
                acknowledge: None,
                disposition: Disposition::Resume,
            },
        ),
{
}

/// A double fault on a table that `init_idt` built is served on a stack of
/// its own, which the task state holds, and ends in a halt with the error
/// code reported. No other entry of the table uses that stack.
pub proof fn lemma_double_fault_isolated(
    task_state: TaskState,
    table: TrapTable,
    stack_frame: StackFrame,
    error_code: u64,
)
    requires
        init_idt_result(&task_state, Ok(table)),
    ensures
        table@[DOUBLE_FAULT_VECTOR as int] == (Entry::Bound {
            handler: Handler::DoubleFault,
            stack_index: Some(DOUBLE_FAULT_IST_INDEX),
        }),
        task_state.reserved(DOUBLE_FAULT_IST_INDEX),
        forall|vector: int|
            0 <= vector < VECTORS && vector != DOUBLE_FAULT_VECTOR ==> !(#[trigger] table@[vector]
                matches Entry::Bound { stack_index: Some(_), .. }),
        dispatched(table@, DOUBLE_FAULT_VECTOR, stack_frame, error_code) == Some(
            Response {
                output: Output::DoubleFault(error_code, stack_frame),
                acknowledge: None,
                disposition: Disposition::Halt,
            },
        ),
{
}

/// A hardware interrupt that the table serves is acknowledged once, under the
/// vector on which it came; an exception is not acknowledged at all.
pub proof fn lemma_acknowledged_once(
    table: TrapTable,
    pair: ControllerPair,
    vector: u8,
    stack_frame: StackFrame,
    error_code: u64,
)
    requires
        table.wf(),
        pair.wf(),
        table@[vector as int] != Entry::Unbound,
    ensures
        dispatched(table@, vector, stack_frame, error_code) is Some,
        vector >= EXCEPTION_VECTORS ==> dispatched(
            table@,
            vector,
            stack_frame,
            error_code,
        ).unwrap().acknowledge == Some(vector),
        vector < EXCEPTION_VECTORS ==> dispatched(
            table@,
            vector,
            stack_frame,
            error_code,
        ).unwrap().acknowledge is None,
        pair.handles(vector) ==> dispatched(
            table@,
            vector,
            stack_frame,
            error_code,
        ).unwrap().acknowledge == Some(vector),
{
}

/// While hardware interrupts that the table serves come in one after the
/// other, the acknowledgments are those interrupts, each once and in the
/// order in which they came.
pub proof fn lemma_one_acknowledgment_per_delivery(table: TrapTable, vectors: Seq<u8>)
    requires
        table.wf(),
        forall|i: int|
            0 <= i < vectors.len() ==> (#[trigger] vectors[i]) >= EXCEPTION_VECTORS
                && table@[vectors[i] as int] != Entry::Unbound,
    ensures
        acknowledged(table@, vectors) == vectors,
    decreases vectors.len(),
{
    if vectors.len() > 0 {
        lemma_one_acknowledgment_per_delivery(table, vectors.drop_last());
        assert(vectors.drop_last().push(vectors.last()) =~= vectors);
    }
}

/// Building the table is a function of the task state alone: two tables that
/// `init_idt` may return for the same task state agree on every entry.
pub proof fn lemma_construction_deterministic(
    task_state: TaskState,
    first: Result<TrapTable, TrapTableError>,
    second: Result<TrapTable, TrapTableError>,
)
    requires
        init_idt_result(&task_state, first),
        init_idt_result(&task_state, second),
    ensures
        first is Ok <==> second is Ok,
        first is Ok ==> first.unwrap()@ == second.unwrap()@,
        first is Err ==> first.unwrap_err() == second.unwrap_err(),
{
}

} // verus!

//! Segment table and task state: the execution context that the processor
//! needs before it can deliver a fault on a stack of its own.

use vstd::prelude::*;
use x86_64::structures::gdt::GlobalDescriptorTable;
use x86_64::structures::tss::TaskStateSegment;
use x86_64::VirtAddr;

verus! {

/// Slot of the interrupt stack table that holds the double-fault stack.
pub const DOUBLE_FAULT_IST_INDEX: u16 = 0;

/// Size of the double-fault stack in bytes: five pages. A handler that
/// reports the fault and halts should be given no less than four.
pub const STACK_SIZE: usize = 4096 * 5;

/// Number of slots in the interrupt stack table.
pub const IST_SLOTS: usize = 7;

/// Alignment that the processor asks of a stack top.
pub const STACK_ALIGNMENT: u64 = 16;

/// Bit pattern of the flat 64-bit kernel code segment.
pub const KERNEL_CODE_SEGMENT: u64 = 0x00af_9b00_0000_ffff;

/// Bits of the low word of a system descriptor that do not belong to the base
/// address: the limit, the type, the privilege level and the flags.
pub const TASK_SEGMENT_MASK: u64 = 0x00ff_ff00_0000_ffff;

/// What those bits hold in the descriptor of an available 64-bit task state
/// segment: present, type 9, privilege level 0, limit 0x67.
pub const TASK_SEGMENT_BITS: u64 = 0x0000_8900_0000_0067;

/// The canonical form of a virtual address: the address itself where bits 47
/// to 63 are all equal, the address with bit 47 copied upwards where only bit
/// 47 of them is set, and none otherwise.
pub open spec fn canonical_form(addr: u64) -> Option<u64> {
    let top = addr >> 47;
    if top == 0 || top == 0x1ffff {
        Some(addr)
    } else if top == 1 {
        Some(addr | 0xffff_0000_0000_0000)
    } else {
        None
    }
}

/// Calls `VirtAddr::try_new` and hands back the address that it accepted. The
/// contract restates that function: an address is kept where its upper bits
/// are a sign extension of bit 47, is sign-extended where only bit 47 of them
/// is set, and is refused otherwise.
#[verifier::external_body]
fn canonical_address(addr: u64) -> (canonical: Option<u64>)
    ensures
        canonical == canonical_form(addr),
{
    match VirtAddr::try_new(addr) {
        Ok(accepted) => Some(accepted.as_u64()),
        Err(_) => None,
    }
}

/// Why a stack cannot serve as an interrupt stack.
#[derive(Debug, Clone, Copy, PartialEq, Eq, Structural)]
pub enum StackError {
    /// The start of the stack, or its top, is no canonical address.
    NotCanonical,
    /// The stack would reach beyond the end of the address space.
    Overflow,
    /// The top of the stack is not aligned to sixteen bytes.
    Misaligned,
}

/// Top of the double-fault stack that starts at `stack_start`: the canonical
/// form of the address `STACK_SIZE` bytes above the canonical start.
pub open spec fn stack_top_of(stack_start: u64) -> Result<u64, StackError> {
    match canonical_form(stack_start) {
        None => Err(StackError::NotCanonical),
        Some(start) => if start + STACK_SIZE > u64::MAX {
            Err(StackError::Overflow)
        } else {
            match canonical_form((start + STACK_SIZE) as u64) {
                None => Err(StackError::NotCanonical),
                Some(top) => if top % STACK_ALIGNMENT != 0 {
                    Err(StackError::Misaligned)
                } else {
                    Ok(top)
                },
            }
        },
    }
}

/// Computes the top of the double-fault stack from its lowest address. The
/// stack grows downwards, so the top is where it starts to be used.
///
/// No guard page is asked for below the stack: a handler that overruns it
/// writes into whatever lies there, and nothing notices.
pub fn double_fault_stack_top(stack_start: u64) -> (top: Result<u64, StackError>)
    ensures
        top == stack_top_of(stack_start),
{
    let start: u64 = match canonical_address(stack_start) {
        Some(start) => start,
        None => {
            return Err(StackError::NotCanonical);
        },
    };
    if start > u64::MAX - (STACK_SIZE as u64) {
        return Err(StackError::Overflow);
    }
    let top: u64 = match canonical_address(start + (STACK_SIZE as u64)) {
        Some(top) => top,
        None => {
            return Err(StackError::NotCanonical);
        },
    };
    if top % STACK_ALIGNMENT != 0 {
        return Err(StackError::Misaligned);
    }
    Ok(top)
}

/// The task state block as far as the kernel fills it: the tops of the
/// interrupt stacks, slot by slot. A slot that holds zero is not reserved.
#[derive(Debug, Clone, Copy)]
pub struct TaskState {
    interrupt_stack_table: [u64; 7],
}

impl View for TaskState {
    type V = Seq<u64>;

    closed spec fn view(&self) -> Seq<u64> {
        self.interrupt_stack_table@
    }
}

impl TaskState {
    /// Every reserved slot holds a canonical, aligned stack top.
    pub open spec fn wf(&self) -> bool {
        &&& self@.len() == IST_SLOTS
        &&& forall|slot: int|
            0 <= slot < IST_SLOTS && self@[slot] != 0 ==> {
                &&& canonical_form(#[trigger] self@[slot]) == Some(self@[slot])
                &&& self@[slot] % STACK_ALIGNMENT == 0
            }
    }

    /// Whether slot `index` holds a stack.
    pub open spec fn reserved(&self, index: u16) -> bool {
        index < IST_SLOTS && self@[index as int] != 0
    }

    /// A task state with no interrupt stack.
    pub fn new() -> (state: TaskState)
        ensures
            state.wf(),
            state@ == Seq::new(IST_SLOTS as nat, |slot: int| 0u64),
    {
        let state = TaskState { interrupt_stack_table: [0, 0, 0, 0, 0, 0, 0] };
        assert(state@ =~= Seq::new(IST_SLOTS as nat, |slot: int| 0u64));
        state
    }

    /// A task state whose double-fault slot holds the top of the stack that
    /// starts at `stack_start` and is `STACK_SIZE` bytes long.
    pub fn with_double_fault_stack(stack_start: u64) -> (state: Result<TaskState, StackError>)
        ensures
            match stack_top_of(stack_start) {
                Ok(top) => state is Ok && state.unwrap().wf() && state.unwrap()@ == Seq::new(
                    IST_SLOTS as nat,
                    |slot: int| 0u64,
                ).update(DOUBLE_FAULT_IST_INDEX as int, top),
                Err(error) => state == Err::<TaskState, StackError>(error),
            },
    {
        match double_fault_stack_top(stack_start) {
            Ok(top) => {
                let mut state = TaskState::new();
                state.interrupt_stack_table[DOUBLE_FAULT_IST_INDEX as usize] = top;
                proof {
                    let start = canonical_form(stack_start).unwrap();
                    lemma_canonical_idempotent((start + STACK_SIZE) as u64);
                    assert(state@ =~= Seq::new(IST_SLOTS as nat, |slot: int| 0u64).update(
                        DOUBLE_FAULT_IST_INDEX as int,
                        top,
                    ));
                }
                Ok(state)
            },
            Err(error) => Err(error),
        }
    }

    /// The stack top in slot `index`, or `None` where the slot is not
    /// reserved or does not exist.
    pub fn stack_top(&self, index: u16) -> (top: Option<u64>)
        ensures
            top == if self.reserved(index) {
                Some(self@[index as int])
            } else {
                None
            },
    {
        if (index as usize) < IST_SLOTS && self.interrupt_stack_table[index as usize] != 0 {
            Some(self.interrupt_stack_table[index as usize])
        } else {
            None
        }
    }

    /// Whether slot `index` holds a stack.
    pub fn is_reserved(&self, index: u16) -> (reserved: bool)
        ensures
            reserved == self.reserved(index),
    {
        (index as usize) < IST_SLOTS && self.interrupt_stack_table[index as usize] != 0
    }
}

/// The canonical form of an address is its own canonical form.
proof fn lemma_canonical_idempotent(addr: u64)
    ensures
        canonical_form(addr) is Some ==> canonical_form(canonical_form(addr).unwrap())
            == canonical_form(addr),
{
    assert((addr >> 47) == 1 ==> ((addr | 0xffff_0000_0000_0000) >> 47) == 0x1ffff)
        by (bit_vector);
}

/// The task state segment in the layout that the processor reads. The segment
/// table only takes its address.
#[verifier::external_type_specification]
#[verifier::external_body]
pub struct ExTaskStateSegment(TaskStateSegment);

/// The processor's descriptor table: up to eight words, the first of them the
/// null descriptor. What it holds is named by `gdt_entries`.
#[verifier::external_type_specification]
#[verifier::external_body]
pub struct ExGlobalDescriptorTable(GlobalDescriptorTable);

/// Number of words that a descriptor table can hold.
pub const TABLE_CAPACITY: usize = 8;

/// The words of a descriptor table, in the order of their indices.
pub uninterp spec fn gdt_entries(table: &GlobalDescriptorTable) -> Seq<u64>;

/// A segment descriptor: one word for a code or data segment, two for a
/// system segment such as a task state segment.
#[derive(Debug, Clone, Copy, PartialEq, Eq, Structural)]
pub enum Descriptor {
    UserSegment(u64),
    SystemSegment(u64, u64),
}

impl Descriptor {
    /// The words that the descriptor takes up in the table.
    pub open spec fn words(self) -> Seq<u64> {
        match self {
            Descriptor::UserSegment(value) => seq![value],
            Descriptor::SystemSegment(low, high) => seq![low, high],
        }
    }

    /// The first word, which holds the type and the privilege level.
    pub open spec fn low(self) -> u64 {
        match self {
            Descriptor::UserSegment(value) => value,
            Descriptor::SystemSegment(low, _) => low,
        }
    }

    /// The descriptor privilege level, bits 45 and 46 of the first word.
    pub open spec fn privilege_level(self) -> u16 {
        ((self.low() >> 45) & 3) as u16
    }

    /// The descriptor of an available 64-bit task state segment of privilege
    /// level 0, wherever that segment lies.
    pub open spec fn is_task_state(self) -> bool {
        match self {
            Descriptor::UserSegment(_) => false,
            Descriptor::SystemSegment(low, high) => low & TASK_SEGMENT_MASK == TASK_SEGMENT_BITS
                && high >> 32 == 0,
        }
    }

    /// Whether this is the descriptor of a task state segment.
    pub fn describes_task_state(self) -> (yes: bool)
        ensures
            yes == self.is_task_state(),
    {
        match self {
            Descriptor::UserSegment(_) => false,
            Descriptor::SystemSegment(low, high) => low & TASK_SEGMENT_MASK == TASK_SEGMENT_BITS
                && high >> 32 == 0,
        }
    }
}

/// The selector for the table entry at `index` with the requested privilege
/// level `level`.
pub open spec fn selector(index: u16, level: u16) -> u16 {
    (index << 3) | level
}

/// Calls `Descriptor::kernel_code_segment` and copies the descriptor out. The
/// contract gives its bit pattern, which `x86_64` holds as the flags
/// `KERNEL_CODE64`.
#[verifier::external_body]
fn kernel_code_segment() -> (descriptor: Descriptor)
    ensures
        descriptor == Descriptor::UserSegment(KERNEL_CODE_SEGMENT),
{
    match x86_64::structures::gdt::Descriptor::kernel_code_segment() {
        x86_64::structures::gdt::Descriptor::UserSegment(value) => Descriptor::UserSegment(value),
        x86_64::structures::gdt::Descriptor::SystemSegment(low, high) => Descriptor::SystemSegment(
            low,
            high,
        ),
    }
}

/// Calls `Descriptor::tss_segment` and copies the descriptor out. The base
/// address in it is the address of `tss`, of which the contract says nothing;
/// it gives the bits that are the same for every address: a present system
/// segment of type 9 and privilege level 0 with limit 0x67, and an upper half
/// of the second word that is zero.
#[verifier::external_body]
fn tss_segment(tss: &'static TaskStateSegment) -> (descriptor: Descriptor)
    ensures
        descriptor.is_task_state(),
{
    match x86_64::structures::gdt::Descriptor::tss_segment(tss) {
        x86_64::structures::gdt::Descriptor::UserSegment(value) => Descriptor::UserSegment(value),
        x86_64::structures::gdt::Descriptor::SystemSegment(low, high) => Descriptor::SystemSegment(
            low,
            high,
        ),
    }
}

/// Calls `GlobalDescriptorTable::new`: a table that holds the null descriptor
/// and nothing else.
#[verifier::external_body]
fn empty_table() -> (table: GlobalDescriptorTable)
    ensures
        gdt_entries(&table) == seq![0u64],
{
    GlobalDescriptorTable::new()
}

/// Calls `GlobalDescriptorTable::add_entry`, which appends the words of the
/// descriptor and returns the selector of the first of them, with the
/// descriptor's privilege level as requested level. It panics where the words
/// do not fit, which the precondition leaves out.
#[verifier::external_body]
fn add_entry(table: &mut GlobalDescriptorTable, entry: Descriptor) -> (index: u16)
    requires
        gdt_entries(old(table)).len() + entry.words().len() <= TABLE_CAPACITY,
    ensures
        gdt_entries(final(table)) == gdt_entries(old(table)) + entry.words(),
        index == selector(gdt_entries(old(table)).len() as u16, entry.privilege_level()),
{
    table.add_entry(match entry {
        Descriptor::UserSegment(value) => x86_64::structures::gdt::Descriptor::UserSegment(value),
        Descriptor::SystemSegment(low, high) => x86_64::structures::gdt::Descriptor::SystemSegment(
            low,
            high,
        ),
    }).0
}

/// Calls `GlobalDescriptorTable::as_raw_slice` and copies the words out.
#[verifier::external_body]
fn table_words(table: &GlobalDescriptorTable) -> (words: Vec<u64>)
    ensures
        words@ == gdt_entries(table),
{
    table.as_raw_slice().to_vec()
}

/// The selectors that the processor's registers are loaded with.
#[derive(Debug, Clone, Copy, PartialEq, Eq, Structural)]
pub struct Selectors {
    pub code_selector: u16,
    pub tss_selector: u16,
}

/// Why a segment table cannot be built.
#[derive(Debug, Clone, Copy, PartialEq, Eq, Structural)]
pub enum SegmentError {
    /// The descriptor offered for the task state is not one of a task state
    /// segment.
    NotTaskState,
}

/// The kernel's segment table: the null descriptor, one flat code segment and
/// one task state segment, with the selectors of the latter two.
#[derive(Debug)]
pub struct SegmentTable {
    table: GlobalDescriptorTable,
    selectors: Selectors,
}

impl SegmentTable {
    /// The words of the table.
    pub closed spec fn entries(&self) -> Seq<u64> {
        gdt_entries(&self.table)
    }

    /// The selectors of the code segment and of the task state segment.
    pub closed spec fn selectors(&self) -> Selectors {
        self.selectors
    }

    /// The table holds exactly one code segment and one task state segment
    /// behind the null descriptor, and the selectors point at them.
    pub open spec fn wf(&self) -> bool {
        &&& self.entries().len() == 4
        &&& self.entries()[0] == 0
        &&& self.entries()[1] == KERNEL_CODE_SEGMENT
        &&& Descriptor::SystemSegment(self.entries()[2], self.entries()[3]).is_task_state()
        &&& self.selectors() == Selectors { code_selector: 8, tss_selector: 16 }
    }

    /// Appends the code segment and the task state segment to an empty table.
    fn assemble(task_state: Descriptor) -> (table: SegmentTable)
        requires
            task_state.is_task_state(),
        ensures
            table.wf(),
            table.entries() == seq![0u64, KERNEL_CODE_SEGMENT] + task_state.words(),
    {
        let mut table = empty_table();
        let code = kernel_code_segment();
        let code_selector = add_entry(&mut table, code);
        let tss_selector = add_entry(&mut table, task_state);
        proof {
            lemma_kernel_selectors(task_state);
            assert(gdt_entries(&table) =~= seq![0u64, KERNEL_CODE_SEGMENT] + task_state.words());
        }
        SegmentTable { table, selectors: Selectors { code_selector, tss_selector } }
    }

    /// Builds the table around the descriptor of the task state segment, and
    /// refuses a descriptor of anything else.
    pub fn new(task_state: Descriptor) -> (table: Result<SegmentTable, SegmentError>)
        ensures
            task_state.is_task_state() ==> table is Ok && table.unwrap().wf()
                && table.unwrap().entries() == seq![0u64, KERNEL_CODE_SEGMENT] + task_state.words(),
            !task_state.is_task_state() ==> table matches Err(SegmentError::NotTaskState),
    {
        if task_state.describes_task_state() {
            Ok(SegmentTable::assemble(task_state))
        } else {
            Err(SegmentError::NotTaskState)
        }
    }

    /// Builds the table for the task state segment `tss`, which has to stay
    /// where it is for as long as the table is in use.
    pub fn for_task_state(tss: &'static TaskStateSegment) -> (table: SegmentTable)
        ensures
            table.wf(),
    {
        SegmentTable::assemble(tss_segment(tss))
    }

    /// The selectors of the code segment and of the task state segment.
    pub fn selector_pair(&self) -> (selectors: Selectors)
        ensures
            selectors == self.selectors(),
    {
        self.selectors
    }

    /// The words of the table, for the caller to compare or print.
    pub fn raw_entries(&self) -> (words: Vec<u64>)
        ensures
            words@ == self.entries(),
    {
        table_words(&self.table)
    }

    /// The table in the form in which the processor loads it.
    pub fn descriptor_table(&self) -> (table: &GlobalDescriptorTable)
        ensures
            gdt_entries(table) == self.entries(),
    {
        &self.table
    }
}

/// The selectors of the second and third word of a table are 8 and 16 for
/// descriptors of privilege level 0.
proof fn lemma_kernel_selectors(task_state: Descriptor)
    requires
        task_state.is_task_state(),
    ensures
        selector(1, Descriptor::UserSegment(KERNEL_CODE_SEGMENT).privilege_level()) == 8,
        selector(2, task_state.privilege_level()) == 16,
{
    let low = task_state.low();
    assert(((KERNEL_CODE_SEGMENT >> 45) & 3) as u16 == 0) by (bit_vector);
    assert(low & TASK_SEGMENT_MASK == TASK_SEGMENT_BITS ==> ((low >> 45) & 3) as u16 == 0)
        by (bit_vector);
    assert(((1u16 << 3) | 0u16) == 8) by (bit_vector);
    assert(((2u16 << 3) | 0u16) == 16) by (bit_vector);
}

/// One step of bringing the segment table into force.
#[derive(Debug, Clone, Copy, PartialEq, Eq, Structural)]
pub enum Activation {
    /// Load the table into the descriptor-table register.
    LoadTable,
    /// Reload the code-segment register with the selector.
    ReloadCodeSegment(u16),
    /// Load the task register with the selector.
    LoadTaskRegister(u16),
}

/// The steps that bring `table` into force, in the order in which they have
/// to be taken: the table first, then the code segment, then the task
/// register.
pub open spec fn activation_steps(table: &SegmentTable) -> Seq<Activation> {
    seq![
        Activation::LoadTable,
        Activation::ReloadCodeSegment(table.selectors().code_selector),
        Activation::LoadTaskRegister(table.selectors().tss_selector),
    ]
}

/// Plans the activation of the segment table. Each step is a privileged
/// instruction that the caller carries out.
pub fn init(table: &SegmentTable) -> (steps: Vec<Activation>)
    ensures
        steps@ == activation_steps(table),
{
    let selectors = table.selector_pair();
    let mut steps: Vec<Activation> = Vec::new();
    steps.push(Activation::LoadTable);
    steps.push(Activation::ReloadCodeSegment(selectors.code_selector));
    steps.push(Activation::LoadTaskRegister(selectors.tss_selector));
    assert(steps@ =~= activation_steps(table));
    steps
}

} // verus!

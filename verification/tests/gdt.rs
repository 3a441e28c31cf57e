use astra_os::gdt::{
    double_fault_stack_top, init, Activation, Descriptor, SegmentError, SegmentTable, Selectors,
    StackError, TaskState, DOUBLE_FAULT_IST_INDEX, KERNEL_CODE_SEGMENT, STACK_SIZE,
};
use x86_64::structures::tss::TaskStateSegment;

fn leaked_tss() -> &'static TaskStateSegment {
    Box::leak(Box::new(TaskStateSegment::new()))
}

#[test]
fn stack_top_is_five_pages_above_the_start() {
    assert_eq!(STACK_SIZE, 20480);
    assert_eq!(double_fault_stack_top(0x20_0000), Ok(0x20_5000));
    assert_eq!(double_fault_stack_top(0), Ok(0x5000));
    assert_eq!(double_fault_stack_top(0xffff_8000_0000_0010), Ok(0xffff_8000_0000_5010));
}

#[test]
fn stack_top_must_be_aligned() {
    assert_eq!(double_fault_stack_top(0x20_0008), Err(StackError::Misaligned));
    assert_eq!(double_fault_stack_top(0x20_0001), Err(StackError::Misaligned));
    assert_eq!(double_fault_stack_top(0x20_0010), Ok(0x20_5010));
}

#[test]
fn stack_outside_the_canonical_halves_is_refused() {
    assert_eq!(double_fault_stack_top(0x0001_0000_0000_0000), Err(StackError::NotCanonical));
    assert_eq!(double_fault_stack_top(0x8000_0000_0000_0000), Err(StackError::NotCanonical));
    assert_eq!(double_fault_stack_top(0xfffe_8000_0000_0000), Err(StackError::NotCanonical));
}

#[test]
fn stack_that_runs_off_the_address_space_is_refused() {
    assert_eq!(double_fault_stack_top(0xffff_ffff_ffff_f000), Err(StackError::Overflow));
    assert_eq!(double_fault_stack_top(u64::MAX), Err(StackError::Overflow));
    assert_eq!(double_fault_stack_top(0xffff_ffff_ffff_aff0), Ok(0xffff_ffff_ffff_fff0));
}

#[test]
fn address_with_only_bit_47_set_is_sign_extended() {
    // The start lies in the lower half, the top is the first address above it.
    assert_eq!(double_fault_stack_top(0x0000_7fff_ffff_b000), Ok(0xffff_8000_0000_0000));
    // The start itself has bit 47 set and nothing above it.
    assert_eq!(double_fault_stack_top(0x0000_8000_0000_0000), Ok(0xffff_8000_0000_5000));
}

#[test]
fn fresh_task_state_reserves_nothing() {
    let state = TaskState::new();
    for index in 0..8 {
        assert_eq!(state.stack_top(index), None);
        assert!(!state.is_reserved(index));
    }
}

#[test]
fn double_fault_stack_goes_to_slot_zero() {
    assert_eq!(DOUBLE_FAULT_IST_INDEX, 0);
    let state = TaskState::with_double_fault_stack(0x20_0000).expect("a good stack");
    assert_eq!(state.stack_top(DOUBLE_FAULT_IST_INDEX), Some(0x20_5000));
    assert!(state.is_reserved(DOUBLE_FAULT_IST_INDEX));
    for index in 1..7 {
        assert_eq!(state.stack_top(index), None);
    }
    assert_eq!(state.stack_top(7), None);
    assert_eq!(state.stack_top(u16::MAX), None);
}

#[test]
fn task_state_refuses_a_bad_stack() {
    assert_eq!(
        TaskState::with_double_fault_stack(0x20_0004).err(),
        Some(StackError::Misaligned)
    );
    assert_eq!(
        TaskState::with_double_fault_stack(0x4000_0000_0000_0000).err(),
        Some(StackError::NotCanonical)
    );
    assert_eq!(
        TaskState::with_double_fault_stack(0xffff_ffff_ffff_ff00).err(),
        Some(StackError::Overflow)
    );
}

#[test]
fn segment_table_holds_null_code_and_task_state() {
    let low: u64 = 0x1200_8934_5678_0067;
    let high: u64 = 0x0000_0000_9abc_def0;
    let table = SegmentTable::new(Descriptor::SystemSegment(low, high)).expect("a task state");
    assert_eq!(table.raw_entries(), vec![0, 0x00af_9b00_0000_ffff, low, high]);
    assert_eq!(table.selector_pair(), Selectors { code_selector: 8, tss_selector: 16 });
    assert_eq!(table.descriptor_table().as_raw_slice(), &[0, KERNEL_CODE_SEGMENT, low, high]);
}

#[test]
fn segment_table_refuses_other_descriptors() {
    let refused = |descriptor: Descriptor| {
        assert_eq!(SegmentTable::new(descriptor).err(), Some(SegmentError::NotTaskState));
    };
    refused(Descriptor::UserSegment(KERNEL_CODE_SEGMENT));
    refused(Descriptor::UserSegment(0x0000_8900_0000_0067));
    // Not present.
    refused(Descriptor::SystemSegment(0x0000_0900_0000_0067, 0));
    // Type 11: a busy task state segment.
    refused(Descriptor::SystemSegment(0x0000_8b00_0000_0067, 0));
    // Privilege level 3.
    refused(Descriptor::SystemSegment(0x0000_e900_0000_0067, 0));
    // Limit too short.
    refused(Descriptor::SystemSegment(0x0000_8900_0000_0066, 0));
    // Upper half of the second word in use.
    refused(Descriptor::SystemSegment(0x0000_8900_0000_0067, 0x1_0000_0000));
}

#[test]
fn task_state_descriptor_is_recognised() {
    assert!(Descriptor::SystemSegment(0x0000_8900_0000_0067, 0).describes_task_state());
    assert!(Descriptor::SystemSegment(0xff00_89ff_ffff_0067, 0xffff_ffff).describes_task_state());
    assert!(!Descriptor::SystemSegment(0, 0).describes_task_state());
    assert!(!Descriptor::UserSegment(0x0000_8900_0000_0067).describes_task_state());
}

#[test]
fn segment_table_for_a_task_state_segment_points_at_it() {
    let tss = leaked_tss();
    let printed = format!("{:p}", tss);
    let address = u64::from_str_radix(printed.trim_start_matches("0x"), 16).expect("an address");
    let table = SegmentTable::for_task_state(tss);
    let entries = table.raw_entries();
    assert_eq!(entries.len(), 4);
    assert_eq!(entries[0], 0);
    assert_eq!(entries[1], 0x00af_9b00_0000_ffff);
    assert!(Descriptor::SystemSegment(entries[2], entries[3]).describes_task_state());
    let base = ((entries[2] >> 16) & 0xff_ffff) | ((entries[2] >> 56) << 24) | (entries[3] << 32);
    assert_eq!(base, address);
    assert_eq!(table.selector_pair(), Selectors { code_selector: 8, tss_selector: 16 });
}

#[test]
fn activation_loads_table_then_code_segment_then_task_register() {
    let table = SegmentTable::for_task_state(leaked_tss());
    assert_eq!(
        init(&table),
        vec![
            Activation::LoadTable,
            Activation::ReloadCodeSegment(8),
            Activation::LoadTaskRegister(16),
        ]
    );
}

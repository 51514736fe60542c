use hadron_boot::boot::{BootImage, BootSequence, BootState, PrivilegedLoad};
use hadron_boot::cores::Core;
use hadron_boot::error::BootError;
use hadron_boot::framebuffer::select_framebuffer;
use hadron_boot::gdt::{DescriptorTablePointer, SegmentSelectors};
use hadron_boot::selector::SegmentSelector;
use hadron_boot::tss::{TaskStateSegment, DOUBLE_FAULT_IST_INDEX, STACK_SIZE};

const KERNEL_CODE: u64 = 0x0020_9800_0000_0000;

#[test]
fn blank_task_state_segment() {
    let tss = TaskStateSegment::new();
    assert_eq!(tss.privilege_stack_table, [0; 3]);
    assert_eq!(tss.interrupt_stack_table, [0; 7]);
    assert_eq!(tss.iomap_base, 104);
}

#[test]
fn double_fault_stack_top_is_start_plus_size() {
    assert_eq!(STACK_SIZE, 20480);
    assert_eq!(DOUBLE_FAULT_IST_INDEX, 0);
    let tss = TaskStateSegment::with_double_fault_stack(0x1000);
    assert_eq!(tss.interrupt_stack_table, [0x6000, 0, 0, 0, 0, 0, 0]);
    assert_eq!(tss.privilege_stack_table, [0; 3]);
    assert_eq!(tss.iomap_base, 104);
    let high = TaskStateSegment::with_double_fault_stack(0xffff_8000_0000_0000);
    assert_eq!(high.interrupt_stack_table[0], 0xffff_8000_0000_5000);
    let last = TaskStateSegment::with_double_fault_stack(u64::MAX - 20480);
    assert_eq!(last.interrupt_stack_table[0], u64::MAX);
    let first = TaskStateSegment::with_double_fault_stack(0);
    assert_eq!(first.interrupt_stack_table[0], 20480);
}

#[test]
fn built_image() {
    let image = BootImage::build(0x20_0000, 0xffff_8000_1234_5678);
    assert_eq!(image.tss.interrupt_stack_table, [0x20_5000, 0, 0, 0, 0, 0, 0]);
    assert_eq!(image.tss_base, 0xffff_8000_1234_5678);
    assert_eq!(
        image.table.as_raw_slice(),
        &[0, KERNEL_CODE, 0x1200_8934_5678_0067, 0x0000_0000_ffff_8000]
    );
    assert_eq!(
        image.selectors,
        SegmentSelectors {
            code_segment_selector: SegmentSelector(0x08),
            tss_segment_selector: SegmentSelector(0x10),
        }
    );
}

#[test]
fn activation_plan_is_table_then_code_segment_then_task_register() {
    let image = BootImage::build(0x20_0000, 0x30_0000);
    let plan = image.activation_plan(0x40_0000);
    assert_eq!(
        plan,
        [
            PrivilegedLoad::TableRegister(DescriptorTablePointer { limit: 31, base: 0x40_0000 }),
            PrivilegedLoad::CodeSegmentRegister(SegmentSelector(0x08)),
            PrivilegedLoad::TaskRegister(SegmentSelector(0x10)),
        ]
    );
}

#[test]
fn sequence_starts_unconstructed() {
    let sequence = BootSequence::new();
    assert_eq!(sequence.state(), BootState::Unconstructed);
    assert!(sequence.image().is_none());
}

#[test]
fn nothing_is_loaded_before_construction() {
    let mut sequence = BootSequence::new();
    assert_eq!(sequence.activate(0x40_0000), None);
    assert_eq!(sequence.state(), BootState::Unconstructed);
    assert!(sequence.image().is_none());
}

#[test]
fn construction_happens_once() {
    let mut sequence = BootSequence::new();
    assert!(sequence.construct(0x20_0000, 0x30_0000));
    assert_eq!(sequence.state(), BootState::Constructed);
    let first: Vec<u64> = sequence.image().unwrap().table.as_raw_slice().to_vec();

    assert!(!sequence.construct(0x50_0000, 0x60_0000));
    assert_eq!(sequence.state(), BootState::Constructed);
    let image = sequence.image().unwrap();
    assert_eq!(image.table.as_raw_slice(), &first[..]);
    assert_eq!(image.tss_base, 0x30_0000);
    assert_eq!(image.tss.interrupt_stack_table[0], 0x20_5000);
}

#[test]
fn sequence_runs_forward_and_loads_once() {
    let mut sequence = BootSequence::new();
    assert!(sequence.construct(0x20_0000, 0x30_0000));
    let plan = sequence.activate(0x40_0000);
    assert_eq!(
        plan,
        Some([
            PrivilegedLoad::TableRegister(DescriptorTablePointer { limit: 31, base: 0x40_0000 }),
            PrivilegedLoad::CodeSegmentRegister(SegmentSelector(0x08)),
            PrivilegedLoad::TaskRegister(SegmentSelector(0x10)),
        ])
    );
    assert_eq!(sequence.state(), BootState::Loaded);

    assert_eq!(sequence.activate(0x40_0000), None);
    assert_eq!(sequence.state(), BootState::Loaded);
    assert!(!sequence.construct(0x50_0000, 0x60_0000));
    assert_eq!(sequence.state(), BootState::Loaded);
    assert_eq!(sequence.image().unwrap().tss_base, 0x30_0000);
}

#[test]
fn display_is_the_first_one_offered() {
    assert_eq!(select_framebuffer(Some(1)), Ok(0));
    assert_eq!(select_framebuffer(Some(3)), Ok(0));
    assert_eq!(select_framebuffer(Some(u64::MAX)), Ok(0));
}

#[test]
fn no_display_is_missing_boot_data() {
    assert_eq!(select_framebuffer(None), Err(BootError::MissingBootData));
    assert_eq!(select_framebuffer(Some(0)), Err(BootError::MissingBootData));
}

#[test]
fn default_core_is_number_zero() {
    assert_eq!(Core::default().id(), 0);
}

use gsr_jit::compiler::{AllocationError, AssemblyBuf};
use gsr_jit::JitMemory;

#[test]
fn fresh_region_is_trap_filled() {
    let m = JitMemory::new_with_page_size(2, 16).expect("small region should allocate");
    assert_eq!(m.page_size(), 16);
    assert_eq!(m.number_of_pages(), 2);
    assert_eq!(m.allocated_size(), 32);
    for i in 0..32 {
        assert_eq!(m.get(i), Some(&0xCC));
    }
    assert_eq!(m.get(32), None);
}

#[test]
fn zero_page_size_fails() {
    assert!(JitMemory::new_with_page_size(1, 0).is_none());
}

#[test]
fn oversized_region_fails() {
    assert!(JitMemory::new_with_page_size(usize::MAX, 2).is_none());
}

#[test]
fn zero_pages_gives_empty_region() {
    let m = JitMemory::new_with_page_size(0, 16).expect("empty region should allocate");
    assert_eq!(m.allocated_size(), 0);
    assert_eq!(m.get(0), None);
}

#[test]
fn required_pages_is_the_ceiling() {
    assert_eq!(JitMemory::required_pages(0, 16), 0);
    assert_eq!(JitMemory::required_pages(1, 16), 1);
    assert_eq!(JitMemory::required_pages(16, 16), 1);
    assert_eq!(JitMemory::required_pages(17, 16), 2);
    assert_eq!(JitMemory::required_pages(32, 16), 2);
}

#[test]
fn load_copies_at_offset_zero_and_keeps_trap_tail() {
    let mut m = JitMemory::new_with_page_size(1, 16).expect("region should allocate");
    let buf = AssemblyBuf {
        instructions: vec![1, 2, 3],
    };
    assert_eq!(m.load_assembly(&buf), Ok(()));
    assert_eq!(m.get(0), Some(&1));
    assert_eq!(m.get(1), Some(&2));
    assert_eq!(m.get(2), Some(&3));
    assert_eq!(m.get(3), Some(&0xCC));
    assert_eq!(m.get(15), Some(&0xCC));
}

#[test]
fn oversized_load_fails_and_leaves_region_untouched() {
    let mut m = JitMemory::new_with_page_size(1, 4).expect("region should allocate");
    let buf = AssemblyBuf {
        instructions: vec![1, 2, 3, 4, 5],
    };
    assert_eq!(
        m.load_assembly(&buf),
        Err(AllocationError::InstructionBufTooLarge)
    );
    for i in 0..4 {
        assert_eq!(m.get(i), Some(&0xCC));
    }
}

#[test]
fn exact_fit_load_succeeds() {
    let mut m = JitMemory::new_with_page_size(1, 4).expect("region should allocate");
    let buf = AssemblyBuf {
        instructions: vec![9, 8, 7, 6],
    };
    assert_eq!(m.load_assembly(&buf), Ok(()));
    assert_eq!(m.get(3), Some(&6));
}

#[test]
fn from_assembly_buf_sizes_to_the_buffer() {
    let buf = AssemblyBuf {
        instructions: vec![0x55, 0x5D, 0xC3],
    };
    let m = JitMemory::from_assembly_buf(&buf).expect("allocation at OS page size should work");
    assert!(m.page_size() > 0);
    assert_eq!(m.allocated_size(), m.page_size() * m.number_of_pages());
    assert!(m.allocated_size() >= 3);
    assert_eq!(m.number_of_pages(), 1);
    assert_eq!(m.get(0), Some(&0x55));
    assert_eq!(m.get(1), Some(&0x5D));
    assert_eq!(m.get(2), Some(&0xC3));
    assert_eq!(m.get(3), Some(&0xCC));
}

#[test]
fn set_byte_is_bounds_checked() {
    let mut m = JitMemory::new_with_page_size(1, 8).expect("region should allocate");
    assert!(m.set_byte(5, 0xAB));
    assert_eq!(m.get(5), Some(&0xAB));
    assert!(!m.set_byte(8, 0xAB));
    assert_eq!(m.get(7), Some(&0xCC));
}

#[test]
fn get_mut_writes_through_and_checks_bounds() {
    let mut m = JitMemory::new_with_page_size(1, 8).expect("region should allocate");
    {
        let b = m.get_mut(2).expect("index in range");
        *b = 0x7F;
    }
    assert_eq!(m.get(2), Some(&0x7F));
    assert!(m.get_mut(8).is_none());
    assert_eq!(m.get(7), Some(&0xCC));
}

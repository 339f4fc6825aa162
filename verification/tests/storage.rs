use chip8::storage::{allocate_memory, Zeroable};

#[test]
fn allocated_bytes_are_zero() {
    let memory = allocate_memory::<u8>(4096);
    assert_eq!(memory.len(), 4096);
    assert!(memory.iter().all(|byte| *byte == 0));
}

#[test]
fn allocated_words_are_zero() {
    let stack = allocate_memory::<u16>(16);
    assert_eq!(stack, vec![0u16; 16]);
}

#[test]
fn allocating_nothing_gives_nothing() {
    assert_eq!(allocate_memory::<u8>(0), Vec::<u8>::new());
    assert_eq!(allocate_memory::<u16>(0).len(), 0);
}

#[test]
fn allocating_one_cell() {
    assert_eq!(allocate_memory::<u8>(1), vec![0u8]);
}

#[test]
fn the_zero_of_a_cell_type_is_zero() {
    assert_eq!(<u8 as Zeroable>::zeroed(), 0u8);
    assert_eq!(<u16 as Zeroable>::zeroed(), 0u16);
}

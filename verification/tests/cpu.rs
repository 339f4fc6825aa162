use chip8::cpu::MainCPU;
use chip8::display::Display;
use chip8::storage::allocate_memory;

#[test]
fn check_allocated_memory() {
    // arrange
    let memory_expected: usize = 4096;
    let memory_size = 4096;

    // act
    let memory_allocated = allocate_memory::<u8>(memory_size);

    // assert
    assert_eq!(memory_allocated.len(), memory_expected);
}

#[test]
fn should_initialize_cpu() {
    let instantiate_cpu = MainCPU::new();

    assert_eq!(instantiate_cpu.memory().len(), 4096);
    assert_eq!(instantiate_cpu.stack().capacity(), 16);
    assert_eq!(instantiate_cpu.registers().len(), 16);

    // registers
    assert_eq!(instantiate_cpu.program_counter(), 0x200);
    assert_eq!(instantiate_cpu.index(), 0x000);
    assert_eq!(instantiate_cpu.stack_pointer(), 0x000);
}

#[test]
fn should_load_into_memory() {
    let mut cpu = MainCPU::new();

    // sample instruction
    let instruction: [u8; 2] = [0x10, 0x00];

    // load to memory a piece of memory
    cpu.load_program(&instruction).unwrap();

    // operation code must be the merge
    // in between two pieces of memory in u8
    let operation_code = cpu.fetch_operation().unwrap();

    // op code must be 0x1000, which later we can decode and execute
    assert_eq!(operation_code, 0x1000)
}

#[test]
fn fetch_decode_execute_jump() {
    let mut cpu = MainCPU::new();
    let mut display = Display::new();

    // sample instruction
    let instruction: [u8; 2] = [0x10, 0x00];

    // load to memory a piece of memory
    cpu.load_program(&instruction).unwrap();

    // operation code must be the merge
    // in between two pieces of memory in u8
    let operation_code = cpu.fetch_operation().unwrap();

    // decoding the operation (and executing it)
    cpu.decode_operation(&mut display).unwrap();

    // op code must be 0x1000
    assert_eq!(operation_code, 0x1000)
}

#[test]
fn fetch_decode_execute_call() {
    let mut cpu = MainCPU::new();
    let mut display = Display::new();

    // sample instruction
    let instruction: [u8; 2] = [0x20, 0x00];

    // load to memory a piece of memory
    cpu.load_program(&instruction).unwrap();

    // operation code must be the merge
    // in between two pieces of memory in u8
    let operation_code = cpu.fetch_operation().unwrap();

    // decoding the operation (and executing it)
    cpu.decode_operation(&mut display).unwrap();

    // op code must be 0x2000
    assert_eq!(operation_code, 0x2000)
}

#[test]
fn evaluate_loop() {
    let mut cpu = MainCPU::new();
    let mut display = Display::new();

    // jump + call routine
    let instruction: [u8; 4] = [0x10, 0x00, 0x20, 0x00];

    // load into memory
    cpu.load_program(&instruction).unwrap();

    // one step of the loop, to avoid calling operations by hand
    cpu.emulate(&mut display);
}

#[test]
fn should_merge_two_bytes() {
    // arrange
    let first: u8 = 0xAA;
    let second: u8 = 0xFF;

    let instantiate_cpu = MainCPU::new();

    let result = instantiate_cpu.merge_opcode(first, second);

    assert_eq!(result, 0xAAFF);
}

#[test]
fn should_return_operation_code() {
    let mut instantiate_cpu = MainCPU::new();

    let operation_code = instantiate_cpu.fetch_operation().unwrap();

    assert_eq!(operation_code, 0x0000)
}

#[test]
fn modify_allocated_memory() {
    // arrange
    let expected_value: u8 = 0x22;
    let memory_size = 4096;

    // act
    let mut memory_allocated = allocate_memory::<u8>(memory_size);

    memory_allocated[2] = expected_value;

    // assert
    assert_eq!(memory_allocated[0], 0x000);
    assert_eq!(memory_allocated[2], expected_value);
}

use game_patterns::bytecode::{literal_bits, Effect, Instruction, VmError, VM};

/// A host with fixed stats: health 5, agility 8, wisdom 12. It performs every
/// request, notes the calls that change the world, and pushes the replies.
fn run(vm: &mut VM, calls: &mut Vec<String>) -> Result<(), VmError> {
    let mut request = vm.interpret()?;
    loop {
        let effect = match request {
            Some(effect) => effect,
            None => return Ok(()),
        };
        let reply = match effect {
            Effect::SetHealth { wizard, amount } => {
                calls.push(format!(
                    "set_health({}, {})",
                    f32::from_bits(wizard),
                    f32::from_bits(amount)
                ));
                None
            }
            Effect::SetAgility { wizard, amount } => {
                calls.push(format!(
                    "set_agility({}, {})",
                    f32::from_bits(wizard),
                    f32::from_bits(amount)
                ));
                None
            }
            Effect::SetWisdom { wizard, amount } => {
                calls.push(format!(
                    "set_wisdom({}, {})",
                    f32::from_bits(wizard),
                    f32::from_bits(amount)
                ));
                None
            }
            Effect::PlaySound { id } => {
                calls.push(format!("play_sound({})", f32::from_bits(id)));
                None
            }
            Effect::SpawnParticles { id } => {
                calls.push(format!("spawn_particles({})", f32::from_bits(id)));
                None
            }
            Effect::GetHealth { .. } => Some(5.0f32),
            Effect::GetAgility { .. } => Some(8.0f32),
            Effect::GetWisdom { .. } => Some(12.0f32),
            Effect::Add { a, b } => Some(f32::from_bits(a) + f32::from_bits(b)),
            Effect::Divide { a, b } => Some(f32::from_bits(a) / f32::from_bits(b)),
        };
        assert_eq!(effect.expects_reply(), reply.is_some());
        request = match reply {
            Some(value) => vm.resume(value.to_bits())?,
            None => vm.proceed()?,
        };
    }
}

fn floats(vm: &VM) -> Vec<f32> {
    vm.stack.iter().map(|bits| f32::from_bits(*bits)).collect()
}

#[test]
fn bytecode() {
    let mut bytecode: Vec<u8> = Vec::new();
    // set_health(0, get_health(0) + (get_agility(0) + get_wisdom(0)) / 2);
    bytecode.push(1); // Literal                       []
    bytecode.push(0); // Wizard index                  [0]
    bytecode.push(1); // Literal
    bytecode.push(0); // Wizard index                  [0, 0]
    bytecode.push(7); // Get health                    [0, 5]
    bytecode.push(1); // Literal
    bytecode.push(0); // Wizard index                  [0, 5, 0]
    bytecode.push(8); // Get Agility                   [0, 5, 8]
    bytecode.push(1); // Literal
    bytecode.push(0); // Wizard index                  [0, 5, 8, 0]
    bytecode.push(9); // Get Wisdom                    [0, 5, 8, 12]
    bytecode.push(10); // Add Agility and wisdom        [0, 5, 20]
    bytecode.push(1); // Literal
    bytecode.push(2); // Divisor                       [0, 5, 20, 2]
    bytecode.push(11); // Divide                        [0, 5, 10]
    bytecode.push(10); // Add average to current health [0, 15]
    bytecode.push(2); // Set Health                    []
    let mut vm = VM::new(bytecode);
    let mut calls = Vec::new();
    run(&mut vm, &mut calls).unwrap();

    bytecode = Vec::new();
    bytecode.push(1); // Literal
    bytecode.push(0); // Index
    bytecode.push(7); // GetHealth
    vm = VM::new(bytecode);
    run(&mut vm, &mut calls).unwrap();
    assert!(
        f32::from_bits(vm.stack[0]).round() as i32 == 5,
        "Should be get_health value"
    );
}

#[test]
fn end_to_end_sets_health_to_fifteen() {
    let program = vec![1, 0, 1, 0, 7, 1, 0, 8, 1, 0, 9, 10, 1, 2, 11, 10, 2];
    let mut vm = VM::new(program);
    let mut calls = Vec::new();
    assert_eq!(run(&mut vm, &mut calls), Ok(()));
    assert_eq!(calls, vec!["set_health(0, 15)".to_string()]);
    assert!(vm.stack.is_empty());
    assert_eq!(vm.position, 17);
}

#[test]
fn isolated_get_leaves_health_on_stack() {
    let mut vm = VM::new(vec![1, 0, 7]);
    let mut calls = Vec::new();
    assert_eq!(run(&mut vm, &mut calls), Ok(()));
    assert_eq!(floats(&vm), vec![5.0]);
    assert!(calls.is_empty());
}

#[test]
fn decode_accepts_exactly_one_to_eleven() {
    let all = [
        Instruction::Literal,
        Instruction::SetHealth,
        Instruction::SetAgility,
        Instruction::SetWisdom,
        Instruction::PlaySound,
        Instruction::SpawnParticles,
        Instruction::GetHealth,
        Instruction::GetAgility,
        Instruction::GetWisdom,
        Instruction::Add,
        Instruction::Divide,
    ];
    for byte in 0..=255u8 {
        let decoded = Instruction::from_u8(byte);
        if (1..=11).contains(&byte) {
            assert_eq!(decoded, Some(all[byte as usize - 1]));
            assert_eq!(decoded.unwrap().to_u8(), byte);
        } else {
            assert_eq!(decoded, None);
        }
    }
}

#[test]
fn decode_is_a_function_of_the_byte() {
    for byte in 0..=255u8 {
        assert_eq!(Instruction::from_u8(byte), Instruction::from_u8(byte));
    }
}

#[test]
fn literal_bits_widens_exactly() {
    assert_eq!(literal_bits(0), 0);
    assert_eq!(literal_bits(1), 0x3f80_0000);
    assert_eq!(literal_bits(2), 0x4000_0000);
    assert_eq!(literal_bits(3), 0x4040_0000);
    assert_eq!(literal_bits(255), 0x437f_0000);
    for byte in 0..=255u8 {
        assert_eq!(literal_bits(byte), (byte as f32).to_bits());
    }
}

#[test]
fn literal_round_trip() {
    for v in 0..=255u8 {
        let mut vm = VM::new(vec![1, v]);
        assert_eq!(vm.interpret(), Ok(None));
        assert_eq!(floats(&vm), vec![v as f32]);
        assert_eq!(vm.position, 2);
        assert!(!vm.literal);
    }
}

#[test]
fn literal_operand_is_not_decoded() {
    // 200 is no opcode, but as an operand it is pushed as it stands.
    let mut vm = VM::new(vec![1, 200, 1, 0]);
    assert_eq!(vm.interpret(), Ok(None));
    assert_eq!(floats(&vm), vec![200.0, 0.0]);
}

#[test]
fn add_and_divide() {
    for (a, b) in [(0u8, 0u8), (1, 2), (7, 0), (255, 255), (20, 2), (1, 3)] {
        let mut vm = VM::new(vec![1, a, 1, b, 10]);
        let mut calls = Vec::new();
        assert_eq!(run(&mut vm, &mut calls), Ok(()));
        assert_eq!(floats(&vm), vec![a as f32 + b as f32]);

        let mut vm = VM::new(vec![1, a, 1, b, 11]);
        assert_eq!(run(&mut vm, &mut calls), Ok(()));
        let quotient = floats(&vm);
        assert_eq!(quotient.len(), 1);
        if a == 0 && b == 0 {
            assert!(quotient[0].is_nan());
        } else {
            assert_eq!(quotient[0], a as f32 / b as f32);
        }
    }
    let mut vm = VM::new(vec![1, 7, 1, 0, 11]);
    let mut calls = Vec::new();
    assert_eq!(run(&mut vm, &mut calls), Ok(()));
    assert_eq!(floats(&vm), vec![f32::INFINITY]);
    let mut vm = VM::new(vec![1, 20, 1, 2, 11]);
    assert_eq!(run(&mut vm, &mut calls), Ok(()));
    assert_eq!(floats(&vm), vec![10.0]);
}

#[test]
fn binary_request_keeps_operand_order() {
    let mut vm = VM::new(vec![1, 6, 1, 3, 11]);
    assert_eq!(
        vm.interpret(),
        Ok(Some(Effect::Divide { a: 6.0f32.to_bits(), b: 3.0f32.to_bits() }))
    );
    assert!(vm.stack.is_empty());
    assert_eq!(vm.position, 5);
    vm.push(2.0f32.to_bits());
    assert_eq!(vm.proceed(), Ok(None));
    assert_eq!(floats(&vm), vec![2.0]);
}

#[test]
fn resume_pushes_the_reply_and_goes_on() {
    let mut vm = VM::new(vec![1, 0, 7, 1, 4, 10, 5]);
    assert_eq!(vm.interpret(), Ok(Some(Effect::GetHealth { wizard: 0 })));
    assert_eq!(
        vm.resume(5.0f32.to_bits()),
        Ok(Some(Effect::Add { a: 5.0f32.to_bits(), b: 4.0f32.to_bits() }))
    );
    assert_eq!(vm.resume(9.0f32.to_bits()), Ok(Some(Effect::PlaySound { id: 9.0f32.to_bits() })));
    assert_eq!(vm.proceed(), Ok(None));
    assert!(vm.stack.is_empty());
}

#[test]
fn setters_pop_amount_before_wizard() {
    let mut vm = VM::new(vec![1, 3, 1, 40, 2, 1, 4, 1, 50, 3, 1, 5, 1, 60, 4]);
    let mut calls = Vec::new();
    assert_eq!(run(&mut vm, &mut calls), Ok(()));
    assert_eq!(
        calls,
        vec![
            "set_health(3, 40)".to_string(),
            "set_agility(4, 50)".to_string(),
            "set_wisdom(5, 60)".to_string(),
        ]
    );
    assert!(vm.stack.is_empty());
}

#[test]
fn sound_and_particles_take_one_operand() {
    let mut vm = VM::new(vec![1, 9, 1, 7, 5, 6]);
    let mut calls = Vec::new();
    assert_eq!(run(&mut vm, &mut calls), Ok(()));
    assert_eq!(calls, vec!["play_sound(7)".to_string(), "spawn_particles(9)".to_string()]);
    assert!(vm.stack.is_empty());
}

#[test]
fn underflow_on_empty_stack() {
    for byte in 2..=11u8 {
        let opcode = Instruction::from_u8(byte).unwrap();
        let mut vm = VM::new(vec![byte, 1, 1]);
        assert_eq!(vm.interpret(), Err(VmError::StackUnderflow { opcode }));
        assert!(vm.stack.is_empty());
        assert_eq!(vm.position, 0);
    }
}

#[test]
fn underflow_after_one_operand_keeps_it_popped() {
    let mut vm = VM::new(vec![1, 5, 10, 1, 1]);
    assert_eq!(vm.interpret(), Err(VmError::StackUnderflow { opcode: Instruction::Add }));
    assert!(vm.stack.is_empty());
    assert_eq!(vm.position, 2);
}

#[test]
fn pop_reports_the_opcode() {
    let mut vm = VM::new(Vec::new());
    assert_eq!(
        vm.pop(Instruction::Divide),
        Err(VmError::StackUnderflow { opcode: Instruction::Divide })
    );
    vm.push(7);
    vm.push(9);
    assert_eq!(vm.pop(Instruction::Add), Ok(9));
    assert_eq!(vm.stack, vec![7]);
}

#[test]
fn invalid_opcode_carries_byte_and_position() {
    let mut vm = VM::new(vec![0]);
    assert_eq!(vm.interpret(), Err(VmError::InvalidOpcode { byte: 0, position: 0 }));
    let mut vm = VM::new(vec![1, 4, 12, 1, 1]);
    assert_eq!(vm.interpret(), Err(VmError::InvalidOpcode { byte: 12, position: 2 }));
    // What was pushed before the fault is still there.
    assert_eq!(floats(&vm), vec![4.0]);
    assert_eq!(vm.position, 2);
    let mut vm = VM::new(vec![255]);
    assert_eq!(vm.interpret_instruction(255), Err(VmError::InvalidOpcode { byte: 255, position: 0 }));
}

#[test]
fn step_scans_one_byte() {
    let mut vm = VM::new(vec![1, 8, 7]);
    assert_eq!(vm.step(), Ok(None));
    assert!(vm.literal);
    assert!(vm.stack.is_empty());
    assert_eq!(vm.step(), Ok(None));
    assert!(!vm.literal);
    assert_eq!(floats(&vm), vec![8.0]);
    assert_eq!(vm.step(), Ok(Some(Effect::GetHealth { wizard: 8.0f32.to_bits() })));
    assert_eq!(vm.position, 3);
    assert_eq!(vm.step(), Ok(None));
    assert_eq!(vm.position, 3);
}

#[test]
fn interpret_replays_on_the_stack_as_it_is() {
    let mut vm = VM::new(vec![1, 3]);
    assert_eq!(vm.interpret(), Ok(None));
    assert_eq!(floats(&vm), vec![3.0]);
    assert_eq!(vm.interpret(), Ok(None));
    assert_eq!(floats(&vm), vec![3.0, 3.0]);
    assert_eq!(vm.bytecode, vec![1, 3]);

    let mut vm = VM::new(vec![1, 1, 1, 2]);
    assert_eq!(vm.interpret(), Ok(None));
    assert_eq!(vm.interpret(), Ok(None));
    assert_eq!(floats(&vm), vec![1.0, 2.0, 1.0, 2.0]);
    assert_eq!(vm.position, 4);
}

#[test]
fn proceed_goes_on_where_the_machine_stands() {
    let mut vm = VM::new(vec![1, 1, 1, 2]);
    assert_eq!(vm.interpret(), Ok(None));
    // At the end of the program there is nothing to go on with.
    assert_eq!(vm.proceed(), Ok(None));
    assert_eq!(floats(&vm), vec![1.0, 2.0]);
    vm.rewind();
    assert_eq!((vm.position, vm.literal), (0, false));
    assert_eq!(vm.proceed(), Ok(None));
    assert_eq!(floats(&vm), vec![1.0, 2.0, 1.0, 2.0]);

    // A request without a reply: `proceed` takes up the rest of the program.
    let mut vm = VM::new(vec![1, 7, 5, 1, 9]);
    assert_eq!(vm.interpret(), Ok(Some(Effect::PlaySound { id: 7.0f32.to_bits() })));
    assert_eq!(vm.position, 3);
    assert_eq!(vm.proceed(), Ok(None));
    assert_eq!(floats(&vm), vec![9.0]);
}

#[test]
fn interpret_restarts_in_the_middle_of_a_program() {
    // Stopped by a request, and in literal mode after a trailing `Literal`:
    // either way `interpret` starts over at the first byte, in decode mode.
    let mut vm = VM::new(vec![1, 4, 7, 1]);
    assert_eq!(vm.interpret(), Ok(Some(Effect::GetHealth { wizard: 4.0f32.to_bits() })));
    assert_eq!(vm.interpret(), Ok(Some(Effect::GetHealth { wizard: 4.0f32.to_bits() })));
    assert!(vm.stack.is_empty());
    assert_eq!(vm.resume(5.0f32.to_bits()), Ok(None));
    assert!(vm.literal);
    assert_eq!(vm.interpret(), Ok(Some(Effect::GetHealth { wizard: 4.0f32.to_bits() })));
    assert_eq!(floats(&vm), vec![5.0]);
}

#[test]
fn empty_program_and_trailing_literal() {
    let mut vm = VM::new(Vec::new());
    assert_eq!(vm.interpret(), Ok(None));
    assert!(vm.stack.is_empty());
    let mut vm = VM::new(vec![1]);
    assert_eq!(vm.interpret(), Ok(None));
    assert!(vm.stack.is_empty());
    assert_eq!(vm.position, 1);
}

use randomx::helpers::reciprocal;
use randomx::ConfigurationError;
use randomx::vm::{
    branch_targets, decode, dst, imm32, mod_, opcode, scratchpad_address, src, Instruction,
    ScratchpadLevel, VMEnvironment,
};

#[test]
pub fn test_vm_environment_from_configuration() {
    let config = [
        14955972954624606980,
        1160178653978888361,
        7804042326029050762,
        18106730710792880309,
        13963013834657230551,
        14182137327961841000,
        12343878495449872070,
        7430133026238860952,
        7984991304302844783,
        9016528251757111484,
        4740653391750521392,
        12036502532476750352,
        7396202974033214510,
        5473894568723909973,
        13992127780735554655,
        11551971154970399794,
    ];
    let vm_env: VMEnvironment = VMEnvironment::from_configuration(config);

    let hexa_exp_a0_lo: [u8; 8] = [0x41, 0x8e, 0x4a, 0x29, 0x7e, 0xbf, 0xc3, 0x04];
    let hexa_exp_a0_hi: [u8; 8] = [0x40, 0x19, 0xc8, 0x56, 0xc2, 0x67, 0x08, 0xa9];
    let hexa_exp_a1_lo: [u8; 8] = [0x40, 0xcd, 0x87, 0x25, 0xdf, 0x13, 0x23, 0x8a];
    let hexa_exp_a1_hi: [u8; 8] = [0x41, 0xe8, 0x07, 0xa5, 0xdc, 0x77, 0x40, 0xb5];
    let hexa_exp_a2_lo: [u8; 8] = [0x41, 0x76, 0x97, 0x1a, 0x78, 0x9b, 0xee, 0xd7];
    let hexa_exp_a2_hi: [u8; 8] = [0x41, 0x71, 0x12, 0xc2, 0x74, 0xf9, 0x1d, 0x68];
    let hexa_exp_a3_lo: [u8; 8] = [0x41, 0x4e, 0x44, 0x17, 0x47, 0xdf, 0x76, 0xc6];
    let hexa_exp_a3_hi: [u8; 8] = [0x40, 0xbd, 0x22, 0x9e, 0xee, 0xdd, 0x8e, 0x98];
    let hexa_exp_emask0: [u8; 8] = [0x3c, 0x00, 0x00, 0x00, 0x00, 0x1e, 0x14, 0x5f];
    let hexa_exp_emask1: [u8; 8] = [0x3a, 0x00, 0x00, 0x00, 0x00, 0x11, 0xd4, 0x32];
    assert_eq!(vm_env.a_registers[0][1].to_be_bytes(), hexa_exp_a0_lo);
    assert_eq!(vm_env.a_registers[0][0].to_be_bytes(), hexa_exp_a0_hi);
    assert_eq!(vm_env.a_registers[1][1].to_be_bytes(), hexa_exp_a1_lo);
    assert_eq!(vm_env.a_registers[1][0].to_be_bytes(), hexa_exp_a1_hi);
    assert_eq!(vm_env.a_registers[2][1].to_be_bytes(), hexa_exp_a2_lo);
    assert_eq!(vm_env.a_registers[2][0].to_be_bytes(), hexa_exp_a2_hi);
    assert_eq!(vm_env.a_registers[3][1].to_be_bytes(), hexa_exp_a3_lo);
    assert_eq!(vm_env.a_registers[3][0].to_be_bytes(), hexa_exp_a3_hi);

    assert_eq!(vm_env.configuration.emask[0].to_be_bytes(), hexa_exp_emask0);
    assert_eq!(vm_env.configuration.emask[1].to_be_bytes(), hexa_exp_emask1);
}

fn word(op: u8, dst: u8, src: u8, mod_: u8, imm: u32) -> u64 {
    (op as u64) | ((dst as u64) << 8) | ((src as u64) << 16) | ((mod_ as u64) << 24) | ((imm as u64) << 32)
}

fn env_with(words: &[u64]) -> VMEnvironment {
    let mut env = VMEnvironment::default();
    let mut program = vec![0u64; 256];
    program[..words.len()].copy_from_slice(words);
    VMEnvironment::load_program(&mut env, &program);
    env
}

#[test]
fn instruction_fields() {
    let w: u64 = 0x1234_5678_9abc_def0;
    assert_eq!(opcode(w), 0xf0);
    assert_eq!(dst(w), 0xde);
    assert_eq!(src(w), 0xbc);
    assert_eq!(mod_(w), 0x9a);
    assert_eq!(imm32(w), 0x1234_5678);
}

#[test]
fn decode_frequencies() {
    let mut counts = std::collections::HashMap::new();
    for op in 0..=255u64 {
        *counts.entry(format!("{:?}", decode(op))).or_insert(0) += 1;
    }
    assert_eq!(counts["CBRANCH"], 25);
    assert_eq!(counts["ISTORE"], 16);
    assert_eq!(counts["FMUL_R"], 32);
    assert_eq!(counts["CFROUND"], 1);
    assert_eq!(counts["IADD_RS"], 16);
    assert!(!counts.contains_key("NOP"));
    assert_eq!(counts.values().sum::<i32>(), 256);
    assert_eq!(counts.len(), 29);
    assert_eq!(decode(0), Instruction::IADD_RS);
    assert_eq!(decode(213), Instruction::FSQRT_R);
    assert_eq!(decode(214), Instruction::CBRANCH);
    assert_eq!(decode(238), Instruction::CBRANCH);
    assert_eq!(decode(239), Instruction::CFROUND);
    assert_eq!(decode(0xffff_ffff_ffff_ff00 | 255), Instruction::ISTORE);
}

#[test]
fn scratchpad_addresses_stay_in_their_window() {
    for addr in [0u64, 7, 8, 16383, 16384, 262143, 2097151, u64::MAX, 0xdead_beef] {
        let a1 = scratchpad_address(ScratchpadLevel::L1, addr);
        let a2 = scratchpad_address(ScratchpadLevel::L2, addr);
        let a3 = scratchpad_address(ScratchpadLevel::L3, addr);
        assert!(a1 + 8 <= 16384 && a1 % 8 == 0);
        assert!(a2 + 8 <= 262144 && a2 % 8 == 0);
        assert!(a3 + 8 <= 2097152 && a3 % 8 == 0);
    }
    assert_eq!(scratchpad_address(ScratchpadLevel::L1, 16384 + 23), 16);
    assert_eq!(scratchpad_address(ScratchpadLevel::L3, u64::MAX), 2097152 - 8);
}

#[test]
fn configuration_read_registers() {
    let mut config = [0u64; 16];
    config[12] = 0b1010;
    let env = VMEnvironment::from_configuration(config);
    assert_eq!(env.configuration.read_reg0, 0);
    assert_eq!(env.configuration.read_reg1, 3);
    assert_eq!(env.configuration.read_reg2, 4);
    assert_eq!(env.configuration.read_reg3, 7);
    assert_eq!(env.scratchpad.len(), 2097152);
    assert_eq!(env.ic, 2048);
    config[8] = 0xffff_ffff_0000_0040;
    config[10] = 0x1_0000_0080;
    config[13] = 524288 + 5;
    let env = VMEnvironment::from_configuration(config);
    assert_eq!(env.ma, 0x40);
    assert_eq!(env.mx, 0x80);
    assert_eq!(env.dataset_offset, 5 * 64);
    assert_eq!(env.sp_addr0, env.mx);
    assert_eq!(env.sp_addr1, env.ma);
}

#[test]
fn integer_register_instructions() {
    // IADD_RS r1 += r2 << 2 ; ISUB_R r3 -= -1 ; IMUL_RCP r4 *= rcp(3) ; INEG_R r5 ; ISWAP_R r6, r7
    let words = [
        word(0, 1, 2, 0b1000, 0),
        word(23, 3, 3, 0, 0xffff_ffff),
        word(76, 4, 0, 0, 3),
        word(84, 5, 0, 0, 0),
        word(116, 6, 7, 0, 0),
    ];
    let mut env = env_with(&words);
    env.r_registers = [0, 10, 3, 41, 7, 1, 100, 200];
    let targets = branch_targets(&env.program_buffer);
    let mut pc = 0;
    while pc < words.len() {
        pc = env.execute_integer_instruction(pc, targets[pc]);
    }
    assert_eq!(env.r_registers[1], 10 + (3 << 2));
    assert_eq!(env.r_registers[3], 42);
    assert_eq!(env.r_registers[4], 7u64.wrapping_mul(reciprocal(3)));
    assert_eq!(env.r_registers[5], u64::MAX);
    assert_eq!(env.r_registers[6], 200);
    assert_eq!(env.r_registers[7], 100);
}

#[test]
fn store_then_load() {
    // ISTORE [r0 + 8] (L1) <- r1 ; IXOR_M r2 ^= [r0 + 8] (L1)
    let words = [word(240, 0, 1, 1, 8), word(101, 2, 0, 1, 8)];
    let mut env = env_with(&words);
    env.r_registers = [16384, 0x0102_0304_0506_0708, 0xff, 0, 0, 0, 0, 0];
    env.execute_integer_instruction(0, 0);
    assert_eq!(env.scratchpad[8..16], 0x0102_0304_0506_0708u64.to_le_bytes());
    env.execute_integer_instruction(1, 0);
    assert_eq!(env.r_registers[2], 0x0102_0304_0506_0708 ^ 0xff);
}

#[test]
fn cfround_and_float_noop() {
    // CFROUND from r1 rotated right by 1 ; FADD_R changes no integer state
    let words = [word(239, 0, 1, 0, 1), word(124, 0, 1, 0, 0)];
    let mut env = env_with(&words);
    env.r_registers[1] = 0b110;
    assert_eq!(env.execute_integer_instruction(0, 0), 1);
    assert_eq!(env.fprc, 3);
    let before = env.r_registers;
    assert_eq!(env.execute_integer_instruction(1, 0), 2);
    assert_eq!(env.r_registers, before);
}

#[test]
fn cbranch_jumps_back_while_condition_bits_clear() {
    // IXOR_R r1 ^= r2 ; IADD_RS r3 += r4 ; CBRANCH r1 (cond 0)
    let words = [word(86, 1, 2, 0, 0), word(0, 3, 4, 0, 0), word(214, 1, 0, 0, 0)];
    let mut env = env_with(&words);
    let targets = branch_targets(&env.program_buffer);
    // the branch on r1 jumps to just after the IXOR_R that last wrote r1
    assert_eq!(targets[2], 1);
    // the constant added is 1 << 8 with bit 7 cleared; r1 + 256 has condition bits 8-15 set
    env.r_registers[1] = 0;
    let next = env.execute_integer_instruction(2, targets[2]);
    assert_eq!(env.r_registers[1], 256);
    assert_eq!(next, 3);
    // with r1 = 0xff00 the sum clears bits 8-15: the branch is taken
    env.r_registers[1] = 0xff00;
    let next = env.execute_integer_instruction(2, targets[2]);
    assert_eq!(env.r_registers[1], 0x1_0000);
    assert_eq!(next, 1);
}

#[test]
fn branch_targets_reset_after_branch() {
    let words = [word(214, 0, 0, 0, 0), word(214, 1, 0, 0, 0), word(0, 1, 2, 0, 0), word(214, 1, 0, 0, 0)];
    let env = env_with(&words);
    let targets = branch_targets(&env.program_buffer);
    assert_eq!(targets[0], 0);
    assert_eq!(targets[1], 1);
    assert_eq!(targets[3], 3);
    assert!(targets.iter().enumerate().all(|(i, t)| *t <= i));
}

#[test]
fn configuration_word_count() {
    assert!(matches!(VMEnvironment::from_words(&vec![0u64; 15]), Err(ConfigurationError::WrongWordCount)));
    assert!(matches!(VMEnvironment::from_words(&vec![0u64; 17]), Err(ConfigurationError::WrongWordCount)));
    let mut words = vec![0u64; 16];
    words[0] = 14955972954624606980;
    words[14] = 13992127780735554655;
    let env = VMEnvironment::from_words(&words).unwrap();
    assert_eq!(env.a_registers[0][1].to_be_bytes(), [0x41, 0x8e, 0x4a, 0x29, 0x7e, 0xbf, 0xc3, 0x04]);
    assert_eq!(env.configuration.emask[0].to_be_bytes(), [0x3c, 0, 0, 0, 0, 0x1e, 0x14, 0x5f]);
}

#[test]
fn iteration_bookkeeping() {
    let mut config = [0u64; 16];
    config[8] = 0x1000;
    config[10] = 0x2040;
    // read registers 1, 3, 4 and 6
    config[12] = 0b0011;
    let mut env = VMEnvironment::from_configuration(config);
    env.r_registers = [0, 0x10_0000_0000_0040, 0, 0x80, 0x100, 0, 0x3, 0];
    env.scratchpad[0x2088] = 0x5a;
    env.begin_iteration();
    // mix = r1 ^ r3; the first address takes its low bits, the second its high half
    assert_eq!(env.sp_addr0, 0x2080);
    assert_eq!(env.sp_addr1, 0x10_1000);
    assert_eq!(env.r_registers[1], 0x10_0000_0000_0040 ^ 0x5a);
    assert_eq!(env.r_registers[0], 0);
    assert_eq!(env.dataset_read_address(), 0x1000);
    env.e_registers[0] = [1, 2];
    env.f_registers[0] = [4, 8];
    let line = [1u64, 2, 3, 4, 5, 6, 7, 8];
    env.finish_iteration(&line);
    // mx moves by r4 ^ r6 and is aligned; then ma and mx swap
    assert_eq!(env.ma, 0x2140);
    assert_eq!(env.mx, 0x1000);
    let r1 = 0x10_0000_0000_0040u64 ^ 0x5a ^ 2;
    assert_eq!(env.r_registers[1], r1);
    assert_eq!(env.scratchpad[0x10_1008..0x10_1010], r1.to_le_bytes());
    assert_eq!(env.f_registers[0], [5, 10]);
    assert_eq!(env.scratchpad[0x2080..0x2088], 10u64.to_le_bytes());
    assert_eq!(env.scratchpad[0x2088..0x2090], 5u64.to_le_bytes());
    assert_eq!(env.ic, 2047);
    assert_eq!((env.sp_addr0, env.sp_addr1), (0, 0));
}

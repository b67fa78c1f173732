use randomx::superscalar::{
    execute_instruction, ExecutionPort, SuperscalarInstruction, SuperscalarInstructionType,
    SuperscalarProgram,
};
use randomx::BlakeGenerator;
use SuperscalarInstructionType::{
    IADD_C7, IADD_C8, IADD_C9, IADD_RS, IMULH_R, IMUL_R, IMUL_RCP, IROR_C, ISMULH_R, ISUB_R,
    IXOR_C7, IXOR_C8, IXOR_C9, IXOR_R,
};

fn generate(seed: &[u8], nonce: i32) -> SuperscalarProgram {
    let mut gen = BlakeGenerator::from_seed(seed.to_vec(), nonce);
    SuperscalarProgram::generate(&mut gen)
}

#[test]
fn multiplication_kinds() {
    let muls = [IMUL_R, IMULH_R, ISMULH_R, IMUL_RCP];
    let others = [ISUB_R, IXOR_R, IADD_RS, IROR_C, IADD_C7, IXOR_C7, IADD_C8, IXOR_C8, IADD_C9, IXOR_C9];
    assert!(muls.iter().all(|k| k.is_multiplication()));
    assert!(others.iter().all(|k| !k.is_multiplication()));
    assert_eq!(IMUL_RCP.latency(), 4);
    assert_eq!(IMUL_RCP.code_size(), 14);
    assert_eq!(IMUL_R.port(), ExecutionPort::P1);
    assert_eq!(IADD_RS.port(), ExecutionPort::P01);
    assert_eq!(IROR_C.port(), ExecutionPort::P05);
    assert_eq!(ISUB_R.port(), ExecutionPort::P015);
}

#[test]
fn generated_program_bounds() {
    for nonce in 0..8 {
        let p = generate(b"test key 000", nonce);
        assert_eq!(p.size as usize, p.program_buffer.len());
        assert!(p.size <= 512);
        assert!(p.size > 0);
        assert!(p.cpu_latency >= 170 || p.decode_cycles == 170);
        assert!(p.cpu_latency < 178);
        let muls = p.program_buffer.iter().filter(|i| i.kind.is_multiplication()).count();
        assert_eq!(p.mul_count as usize, muls);
        let code: u32 = p.program_buffer.iter().map(|i| i.kind.code_size()).sum();
        assert_eq!(p.code_size, code);
        assert_eq!(p.cpu_latency, *p.cpu_latencies.iter().max().unwrap());
        assert!(p.program_buffer.iter().all(|i| i.dst < 8 && i.src < 8));
        assert!((p.addr_reg as usize) < 8);
        assert_eq!(p.asic_latencies[p.addr_reg as usize], *p.asic_latencies.iter().max().unwrap());
    }
}

#[test]
fn generation_is_deterministic() {
    let a = generate(b"test key 000", 7);
    let b = generate(b"test key 000", 7);
    assert_eq!(a.program_buffer, b.program_buffer);
    assert_eq!(a.size, b.size);
    assert_eq!(a.cpu_latency, b.cpu_latency);
    assert_eq!(a.asic_latency, b.asic_latency);
    assert_eq!(a.mul_count, b.mul_count);
    assert_eq!(a.decode_cycles, b.decode_cycles);
    assert_eq!(a.macro_ops, b.macro_ops);
    assert_eq!(a.cpu_latencies, b.cpu_latencies);
    let c = generate(b"test key 001", 7);
    assert_ne!(a.program_buffer, c.program_buffer);
}

#[test]
fn multiplications_never_repeat_a_register_pair_back_to_back() {
    let p = generate(b"another seed", 3);
    for pair in p.program_buffer.windows(2) {
        if pair[0].kind.is_multiplication() && pair[1].kind.is_multiplication() {
            assert!(pair[0].dst != pair[1].dst || pair[0].src != pair[1].src);
        }
    }
    for i in &p.program_buffer {
        if i.kind == SuperscalarInstructionType::IMUL_RCP {
            assert!(i.imm32 % 2 == 1 && i.imm32 != 1);
        }
        if i.kind == SuperscalarInstructionType::IROR_C {
            assert!(i.imm32 >= 1 && i.imm32 <= 63);
        }
    }
}

#[test]
fn replay_is_idempotent() {
    let p = generate(b"test key 000", 1);
    let input: [u64; 8] = [1, 2, 3, 4, 5, 6, 7, 8];
    let mut r1 = input;
    let mut r2 = input;
    p.execute(&mut r1);
    p.execute(&mut r2);
    assert_eq!(r1, r2);
    assert_ne!(r1, input);
}

#[test]
fn replay_instruction_semantics() {
    let ins = |kind, dst, src, imm32, shift| SuperscalarInstruction { kind, dst, src, imm32, shift };
    let mut r: [u64; 8] = [5, 3, u64::MAX, 0x8000_0000_0000_0001, 2, 0, 0, 0];
    execute_instruction(&mut r, ins(ISUB_R, 0, 1, 0, 0));
    assert_eq!(r[0], 2);
    execute_instruction(&mut r, ins(IADD_RS, 0, 1, 0, 3));
    assert_eq!(r[0], 2 + (3 << 3));
    execute_instruction(&mut r, ins(IROR_C, 3, 3, 1, 0));
    assert_eq!(r[3], 0xc000_0000_0000_0000);
    execute_instruction(&mut r, ins(IADD_C7, 4, 4, 0xffff_fffe, 0));
    assert_eq!(r[4], 0);
    execute_instruction(&mut r, ins(IMULH_R, 2, 2, 0, 0));
    assert_eq!(r[2], u64::MAX - 1);
    let mut s: [u64; 8] = [u64::MAX, 2, 0, 0, 0, 0, 0, 0];
    execute_instruction(&mut s, ins(ISMULH_R, 0, 1, 0, 0));
    assert_eq!(s[0], u64::MAX);
    execute_instruction(&mut s, ins(IXOR_C9, 1, 1, 0x8000_0000, 0));
    assert_eq!(s[1], 0xffff_ffff_8000_0002);
}

//! The VM: instruction encoding, the opcode table, the program configuration,
//! the scratchpad and the integer, control and store instructions.
use crate::helpers::{
    f64_from_u64, float_mask, float_mask_of, mul_high, mulh, reciprocal, reciprocal_of,
    rotate_left, rotate_right, rotl, rotr, sign_extend, sign_extend_imm, signed_mul_high,
    small_positive_float, smulh, wrap64,
};
use crate::ConfigurationError;
use crate::parameters::{
    RANDOMX_CACHE_LINE_SIZE, RANDOMX_DATASET_EXTRA_ITEMS, RANDOMX_DATASET_EXTRA_SIZE, RANDOMX_PROGRAM_ITERATIONS,
    RANDOMX_JUMP_OFFSET, RANDOMX_PROGRAM_SIZE, RANDOMX_SCRATCHPAD_L1, RANDOMX_SCRATCHPAD_L2, RANDOMX_SCRATCHPAD_L3,
    RANDOMX_FREQ_CBRANCH, RANDOMX_FREQ_CFROUND, RANDOMX_FREQ_FADD_M, RANDOMX_FREQ_FADD_R,
    RANDOMX_FREQ_FDIV_M, RANDOMX_FREQ_FMUL_R, RANDOMX_FREQ_FSCAL_R, RANDOMX_FREQ_FSQRT_R,
    RANDOMX_FREQ_FSUB_M, RANDOMX_FREQ_FSUB_R, RANDOMX_FREQ_FSWAP_R, RANDOMX_FREQ_IADD_M,
    RANDOMX_FREQ_IADD_RS, RANDOMX_FREQ_IMULH_M, RANDOMX_FREQ_IMULH_R, RANDOMX_FREQ_IMUL_M,
    RANDOMX_FREQ_IMUL_R, RANDOMX_FREQ_IMUL_RCP, RANDOMX_FREQ_INEG_R, RANDOMX_FREQ_IROL_R,
    RANDOMX_FREQ_IROR_R, RANDOMX_FREQ_ISMULH_M, RANDOMX_FREQ_ISMULH_R, RANDOMX_FREQ_ISTORE,
    RANDOMX_FREQ_ISUB_M, RANDOMX_FREQ_ISUB_R, RANDOMX_FREQ_ISWAP_R, RANDOMX_FREQ_IXOR_M,
    RANDOMX_FREQ_IXOR_R, RANDOMX_FREQ_NOP,
};
use vstd::arithmetic::power2::pow2;
use vstd::prelude::*;

verus! {

/// Each instruction word is 64 bits long
/// 63         32       24      16       8         0
/// ------------------------------------------------
/// |  imm32    |    mod |   src |   dst |  opcode |
/// ------------------------------------------------
pub type EncodedInstruction = u64;

/// A Dataset address.
pub type Address = u32;

/// > A 32-bit immediate value that can be used as the source operand and is
/// > used to calculate addresses for memory operations. The immediate value is
/// > sign-extended to 64 bits unless specified otherwise.
pub fn imm32(i: EncodedInstruction) -> (r: u32)
    ensures
        r as int == i as int / 0x1_0000_0000,
{
    assert((i >> 32u64) as u32 == i / 0x1_0000_0000) by (bit_vector);
    (i >> 32) as u32
}

/// The `mod` field: bits 24-31.
pub fn mod_(i: EncodedInstruction) -> (r: u8)
    ensures
        r as int == i as int / 0x100_0000 % 256,
{
    assert((i >> 24u64) as u8 == i / 0x100_0000 % 256) by (bit_vector);
    (i >> 24) as u8
}

/// The `src` field: bits 16-23.
pub fn src(i: EncodedInstruction) -> (r: u8)
    ensures
        r as int == i as int / 0x1_0000 % 256,
{
    assert((i >> 16u64) as u8 == i / 0x1_0000 % 256) by (bit_vector);
    (i >> 16) as u8
}

/// The `dst` field: bits 8-15.
pub fn dst(i: EncodedInstruction) -> (r: u8)
    ensures
        r as int == i as int / 0x100 % 256,
{
    assert((i >> 8u64) as u8 == i / 0x100 % 256) by (bit_vector);
    (i >> 8) as u8
}

/// Return the opcode of the instruction
/// > There are 256 opcodes, which are distributed between 29 distinct
/// > instructions. Each instruction can be encoded using multiple opcodes (the
/// > number of opcodes specifies the frequency of the instruction in a random
/// > program).
pub fn opcode(i: EncodedInstruction) -> (r: u8)
    ensures
        r as int == i as int % 256,
{
    assert(i as u8 == i % 256) by (bit_vector);
    i as u8
}

/// The instructions of the VM, in the order in which they own the opcode space.
#[allow(non_camel_case_types)]
#[derive(Clone, Copy, Debug, PartialEq, Eq, Structural)]
pub enum Instruction {
    // Integer instruction
    IADD_RS,
    IADD_M,
    ISUB_R,
    ISUB_M,
    IMUL_R,
    IMUL_M,
    IMULH_R,
    IMULH_M,
    ISMULH_R,
    ISMULH_M,
    IMUL_RCP,
    INEG_R,
    IXOR_R,
    IXOR_M,
    IROR_R,
    IROL_R,
    ISWAP_R,
    // Float instruction
    FSWAP_R,
    FADD_R,
    FADD_M,
    FSUB_R,
    FSUB_M,
    FSCAL_R,
    FMUL_R,
    FDIV_M,
    FSQRT_R,
    // Control instruction
    CBRANCH,
    CFROUND,
    // Store instruction
    ISTORE,
    NOP,
}

/// The number of instruction kinds.
pub const INSTRUCTION_KINDS: u64 = 30;

/// The kind at position `i` of the opcode table.
pub open spec fn kind_at(i: int) -> Instruction {
    if i == 0 { Instruction::IADD_RS }
    else if i == 1 { Instruction::IADD_M }
    else if i == 2 { Instruction::ISUB_R }
    else if i == 3 { Instruction::ISUB_M }
    else if i == 4 { Instruction::IMUL_R }
    else if i == 5 { Instruction::IMUL_M }
    else if i == 6 { Instruction::IMULH_R }
    else if i == 7 { Instruction::IMULH_M }
    else if i == 8 { Instruction::ISMULH_R }
    else if i == 9 { Instruction::ISMULH_M }
    else if i == 10 { Instruction::IMUL_RCP }
    else if i == 11 { Instruction::INEG_R }
    else if i == 12 { Instruction::IXOR_R }
    else if i == 13 { Instruction::IXOR_M }
    else if i == 14 { Instruction::IROR_R }
    else if i == 15 { Instruction::IROL_R }
    else if i == 16 { Instruction::ISWAP_R }
    else if i == 17 { Instruction::FSWAP_R }
    else if i == 18 { Instruction::FADD_R }
    else if i == 19 { Instruction::FADD_M }
    else if i == 20 { Instruction::FSUB_R }
    else if i == 21 { Instruction::FSUB_M }
    else if i == 22 { Instruction::FSCAL_R }
    else if i == 23 { Instruction::FMUL_R }
    else if i == 24 { Instruction::FDIV_M }
    else if i == 25 { Instruction::FSQRT_R }
    else if i == 26 { Instruction::CBRANCH }
    else if i == 27 { Instruction::CFROUND }
    else if i == 28 { Instruction::ISTORE }
    else { Instruction::NOP }
}

/// The position of a kind in the opcode table.
pub open spec fn kind_index(k: Instruction) -> int {
    match k {
        Instruction::IADD_RS => 0,
        Instruction::IADD_M => 1,
        Instruction::ISUB_R => 2,
        Instruction::ISUB_M => 3,
        Instruction::IMUL_R => 4,
        Instruction::IMUL_M => 5,
        Instruction::IMULH_R => 6,
        Instruction::IMULH_M => 7,
        Instruction::ISMULH_R => 8,
        Instruction::ISMULH_M => 9,
        Instruction::IMUL_RCP => 10,
        Instruction::INEG_R => 11,
        Instruction::IXOR_R => 12,
        Instruction::IXOR_M => 13,
        Instruction::IROR_R => 14,
        Instruction::IROL_R => 15,
        Instruction::ISWAP_R => 16,
        Instruction::FSWAP_R => 17,
        Instruction::FADD_R => 18,
        Instruction::FADD_M => 19,
        Instruction::FSUB_R => 20,
        Instruction::FSUB_M => 21,
        Instruction::FSCAL_R => 22,
        Instruction::FMUL_R => 23,
        Instruction::FDIV_M => 24,
        Instruction::FSQRT_R => 25,
        Instruction::CBRANCH => 26,
        Instruction::CFROUND => 27,
        Instruction::ISTORE => 28,
        Instruction::NOP => 29,
    }
}

/// How many of the 256 opcodes encode a kind (its frequency in a random program).
pub open spec fn frequency(k: Instruction) -> int {
    match k {
        Instruction::IADD_RS => RANDOMX_FREQ_IADD_RS as int,
        Instruction::IADD_M => RANDOMX_FREQ_IADD_M as int,
        Instruction::ISUB_R => RANDOMX_FREQ_ISUB_R as int,
        Instruction::ISUB_M => RANDOMX_FREQ_ISUB_M as int,
        Instruction::IMUL_R => RANDOMX_FREQ_IMUL_R as int,
        Instruction::IMUL_M => RANDOMX_FREQ_IMUL_M as int,
        Instruction::IMULH_R => RANDOMX_FREQ_IMULH_R as int,
        Instruction::IMULH_M => RANDOMX_FREQ_IMULH_M as int,
        Instruction::ISMULH_R => RANDOMX_FREQ_ISMULH_R as int,
        Instruction::ISMULH_M => RANDOMX_FREQ_ISMULH_M as int,
        Instruction::IMUL_RCP => RANDOMX_FREQ_IMUL_RCP as int,
        Instruction::INEG_R => RANDOMX_FREQ_INEG_R as int,
        Instruction::IXOR_R => RANDOMX_FREQ_IXOR_R as int,
        Instruction::IXOR_M => RANDOMX_FREQ_IXOR_M as int,
        Instruction::IROR_R => RANDOMX_FREQ_IROR_R as int,
        Instruction::IROL_R => RANDOMX_FREQ_IROL_R as int,
        Instruction::ISWAP_R => RANDOMX_FREQ_ISWAP_R as int,
        Instruction::FSWAP_R => RANDOMX_FREQ_FSWAP_R as int,
        Instruction::FADD_R => RANDOMX_FREQ_FADD_R as int,
        Instruction::FADD_M => RANDOMX_FREQ_FADD_M as int,
        Instruction::FSUB_R => RANDOMX_FREQ_FSUB_R as int,
        Instruction::FSUB_M => RANDOMX_FREQ_FSUB_M as int,
        Instruction::FSCAL_R => RANDOMX_FREQ_FSCAL_R as int,
        Instruction::FMUL_R => RANDOMX_FREQ_FMUL_R as int,
        Instruction::FDIV_M => RANDOMX_FREQ_FDIV_M as int,
        Instruction::FSQRT_R => RANDOMX_FREQ_FSQRT_R as int,
        Instruction::CBRANCH => RANDOMX_FREQ_CBRANCH as int,
        Instruction::CFROUND => RANDOMX_FREQ_CFROUND as int,
        Instruction::ISTORE => RANDOMX_FREQ_ISTORE as int,
        Instruction::NOP => RANDOMX_FREQ_NOP as int,
    }
}

/// The number of opcodes owned by the first `i` kinds of the table.
pub open spec fn opcodes_before(i: int) -> int
    decreases i,
{
    if i <= 0 {
        0
    } else {
        opcodes_before(i - 1) + frequency(kind_at(i - 1))
    }
}

/// The first opcode that encodes kind `k`.
pub open spec fn first_opcode(k: Instruction) -> int {
    opcodes_before(kind_index(k))
}

/// Kind `k` is encoded by opcode `op`: the kinds own consecutive runs of
/// opcodes, in table order, each run as long as the kind's frequency.
pub open spec fn encodes(k: Instruction, op: int) -> bool {
    first_opcode(k) <= op < first_opcode(k) + frequency(k)
}

/// Where each run of the opcode table starts: the cumulative sums of the
/// frequencies, in table order.
pub proof fn lemma_opcode_table()
    ensures
        forall|i: int| 0 <= i < 30 ==> kind_index(#[trigger] kind_at(i)) == i,
        opcodes_before(1) == 16,
        opcodes_before(2) == 23,
        opcodes_before(3) == 39,
        opcodes_before(4) == 46,
        opcodes_before(5) == 62,
        opcodes_before(6) == 66,
        opcodes_before(7) == 70,
        opcodes_before(8) == 71,
        opcodes_before(9) == 75,
        opcodes_before(10) == 76,
        opcodes_before(11) == 84,
        opcodes_before(12) == 86,
        opcodes_before(13) == 101,
        opcodes_before(14) == 106,
        opcodes_before(15) == 114,
        opcodes_before(16) == 116,
        opcodes_before(17) == 120,
        opcodes_before(18) == 124,
        opcodes_before(19) == 140,
        opcodes_before(20) == 145,
        opcodes_before(21) == 161,
        opcodes_before(22) == 166,
        opcodes_before(23) == 172,
        opcodes_before(24) == 204,
        opcodes_before(25) == 208,
        opcodes_before(26) == 214,
        opcodes_before(27) == 239,
        opcodes_before(28) == 240,
        opcodes_before(29) == 256,
        opcodes_before(30) == 256,
{
    reveal_with_fuel(opcodes_before, 31);
}

/// Decode the instruction kind of an instruction word from its opcode byte.
/// Every word decodes: the runs of the opcode table cover all 256 opcodes.
pub fn decode(word: EncodedInstruction) -> (r: Instruction)
    ensures
        encodes(r, word as int % 256),
        r == instruction_of(word),
{
    let op = opcode(word);
    proof {
        lemma_opcode_table();
        lemma_decode_partition(op as int, kind_at(0), kind_at(0));
    }
    let r = decode_opcode(op);
    proof {
        lemma_decode_partition(op as int, r, instruction_of(word));
    }
    r
}

/// The kind of an instruction word: the one its opcode encodes.
pub open spec fn instruction_of(word: u64) -> Instruction {
    choose|k: Instruction| #[trigger] encodes(k, word as int % 256)
}

fn decode_opcode(op: u8) -> (r: Instruction)
    ensures
        encodes(r, op as int),
{
    proof {
        lemma_opcode_table();
    }
    if op < 16 { Instruction::IADD_RS }
    else if op < 23 { Instruction::IADD_M }
    else if op < 39 { Instruction::ISUB_R }
    else if op < 46 { Instruction::ISUB_M }
    else if op < 62 { Instruction::IMUL_R }
    else if op < 66 { Instruction::IMUL_M }
    else if op < 70 { Instruction::IMULH_R }
    else if op < 71 { Instruction::IMULH_M }
    else if op < 75 { Instruction::ISMULH_R }
    else if op < 76 { Instruction::ISMULH_M }
    else if op < 84 { Instruction::IMUL_RCP }
    else if op < 86 { Instruction::INEG_R }
    else if op < 101 { Instruction::IXOR_R }
    else if op < 106 { Instruction::IXOR_M }
    else if op < 114 { Instruction::IROR_R }
    else if op < 116 { Instruction::IROL_R }
    else if op < 120 { Instruction::ISWAP_R }
    else if op < 124 { Instruction::FSWAP_R }
    else if op < 140 { Instruction::FADD_R }
    else if op < 145 { Instruction::FADD_M }
    else if op < 161 { Instruction::FSUB_R }
    else if op < 166 { Instruction::FSUB_M }
    else if op < 172 { Instruction::FSCAL_R }
    else if op < 204 { Instruction::FMUL_R }
    else if op < 208 { Instruction::FDIV_M }
    else if op < 214 { Instruction::FSQRT_R }
    else if op < 239 { Instruction::CBRANCH }
    else if op < 240 { Instruction::CFROUND }
    else { Instruction::ISTORE }
}

/// Every opcode encodes exactly one kind, and the number of opcodes that
/// encode a kind is its frequency (25 of the 256 for `CBRANCH`), so that the
/// frequencies add up to the whole opcode space.
pub proof fn lemma_decode_partition(op: int, a: Instruction, b: Instruction)
    requires
        0 <= op < 256,
    ensures
        exists|k: Instruction| encodes(k, op),
        encodes(a, op) && encodes(b, op) ==> a == b,
        Set::new(|o: int| 0 <= o < 256 && encodes(a, o)).len() == frequency(a),
        opcodes_before(INSTRUCTION_KINDS as int) == 256,
        frequency(Instruction::CBRANCH) == 25,
{
    lemma_opcode_table();
    let k = kind_at(if op < 16 { 0 } else if op < 23 { 1 } else if op < 39 { 2 } else if op < 46 {
        3
    } else if op < 62 { 4 } else if op < 66 { 5 } else if op < 70 { 6 } else if op < 71 { 7 }
    else if op < 75 { 8 } else if op < 76 { 9 } else if op < 84 { 10 } else if op < 86 { 11 }
    else if op < 101 { 12 } else if op < 106 { 13 } else if op < 114 { 14 } else if op < 116 {
        15
    } else if op < 120 { 16 } else if op < 124 { 17 } else if op < 140 { 18 } else if op < 145 {
        19
    } else if op < 161 { 20 } else if op < 166 { 21 } else if op < 172 { 22 } else if op < 204 {
        23
    } else if op < 208 { 24 } else if op < 214 { 25 } else if op < 239 { 26 } else if op < 240 {
        27
    } else { 28 });
    assert(encodes(k, op));
    let lo = first_opcode(a);
    let hi = first_opcode(a) + frequency(a);
    assert(0 <= lo && hi <= 256);
    assert(Set::new(|o: int| 0 <= o < 256 && encodes(a, o)) =~= vstd::set_lib::set_int_range(lo, hi));
    vstd::set_lib::lemma_int_range(lo, hi);
}

/// The per-program configuration: the E register masks and, for each of the
/// four register pairs, which of its two registers addresses the Dataset.
pub struct ProgramConfiguration {
    pub emask: [u64; 2],
    pub read_reg0: u32,
    pub read_reg1: u32,
    pub read_reg2: u32,
    pub read_reg3: u32,
}

/// The register of pair `k` (registers `2k` and `2k + 1`) that bit `k` of the
/// selector word picks.
pub open spec fn read_reg_of(selector: u64, k: int) -> int {
    2 * k + (selector as int / pow2(k as nat) as int) % 2
}

impl ProgramConfiguration {
    /// Each selector names one of the two registers of its pair.
    pub open spec fn wf(&self) -> bool {
        &&& self.read_reg0 == 0 || self.read_reg0 == 1
        &&& self.read_reg1 == 2 || self.read_reg1 == 3
        &&& self.read_reg2 == 4 || self.read_reg2 == 5
        &&& self.read_reg3 == 6 || self.read_reg3 == 7
    }
}

/// The state of one VM: registers, configuration, Dataset pointers and the
/// scratchpad. Float registers hold the bit patterns of their doubles, as
/// `[hi, lo]` pairs.
pub struct VMEnvironment {
    pub program_buffer: Vec<EncodedInstruction>,
    // the integer registers r0-r7
    pub r_registers: [u64; 8],
    pub f_registers: [[u64; 2]; 4],
    pub e_registers: [[u64; 2]; 4],
    pub a_registers: [[u64; 2]; 4],
    pub configuration: ProgramConfiguration,
    /// Contains the memory address of the next Dataset read
    pub ma: Address,
    /// Contains the memory address of the next Dataset prefetch
    pub mx: Address,
    pub dataset_offset: u64,
    /// The float rounding mode, `0..4`
    pub fprc: u8,
    /// Iterations left to run
    pub ic: u32,
    pub sp_addr0: u32,
    pub sp_addr1: u32,
    pub scratchpad: Vec<u8>,
}

impl VMEnvironment {
    /// Well-formed: a valid configuration, a rounding mode in `0..4`, a
    /// scratchpad of the L3 size and at most one program.
    pub open spec fn wf(&self) -> bool {
        &&& self.configuration.wf()
        &&& self.fprc < 4
        &&& self.scratchpad@.len() == RANDOMX_SCRATCHPAD_L3
        &&& self.program_buffer@.len() <= RANDOMX_PROGRAM_SIZE
        &&& self.dataset_offset <= RANDOMX_DATASET_EXTRA_SIZE
    }

    /// Nothing has run: integer, F and E registers are zero, the rounding
    /// mode is the default, all iterations are left, no program is loaded,
    /// the scratchpad addresses start from `mx` and `ma` and the scratchpad
    /// is zero.
    pub open spec fn is_fresh(&self) -> bool {
        &&& self.wf()
        &&& forall|i: int| 0 <= i < 8 ==> self.r_registers[i] == 0
        &&& forall|i: int, j: int| 0 <= i < 4 && 0 <= j < 2 ==> self.f_registers[i][j] == 0
        &&& forall|i: int, j: int| 0 <= i < 4 && 0 <= j < 2 ==> self.e_registers[i][j] == 0
        &&& self.fprc == 0
        &&& self.ic == RANDOMX_PROGRAM_ITERATIONS
        &&& self.program_buffer@.len() == 0
        &&& self.sp_addr0 == self.mx
        &&& self.sp_addr1 == self.ma
        &&& forall|i: int| 0 <= i < self.scratchpad@.len() ==> self.scratchpad@[i] == 0
    }

    /// The environment a configuration builds: fresh, with words 0-7 giving
    /// the A registers (`lo` then `hi` of each pair), word 8 `ma`, word 10
    /// `mx`, the low four bits of word 12 the Dataset read registers, word 13
    /// the Dataset offset and words 14-15 the E masks.
    pub open spec fn is_configured_by(&self, config: Seq<u64>) -> bool {
        &&& config.len() == 16
        &&& self.is_fresh()
        &&& forall|i: int| 0 <= i < 4 ==> self.a_registers[i][1] as int == small_positive_float(config[2 * i])
        &&& forall|i: int| 0 <= i < 4 ==> self.a_registers[i][0] as int == small_positive_float(config[2 * i + 1])
        &&& self.ma as int == config[8] as int % 0x1_0000_0000
        &&& self.mx as int == config[10] as int % 0x1_0000_0000
        &&& self.configuration.read_reg0 as int == read_reg_of(config[12], 0)
        &&& self.configuration.read_reg1 as int == read_reg_of(config[12], 1)
        &&& self.configuration.read_reg2 as int == read_reg_of(config[12], 2)
        &&& self.configuration.read_reg3 as int == read_reg_of(config[12], 3)
        &&& self.dataset_offset as int == (config[13] as int % (RANDOMX_DATASET_EXTRA_ITEMS + 1))
            * RANDOMX_CACHE_LINE_SIZE
        &&& self.configuration.emask[0] as int == float_mask_of(config[14])
        &&& self.configuration.emask[1] as int == float_mask_of(config[15])
    }

    /// Build an environment from configuration words, of which there must be
    /// exactly 16.
    pub fn from_words(words: &Vec<u64>) -> (r: Result<Self, ConfigurationError>)
        ensures
            words@.len() == 16 <==> r is Ok,
            r matches Ok(env) ==> env.is_configured_by(words@),
            r matches Err(e) ==> e == ConfigurationError::WrongWordCount,
    {
        if words.len() != 16 {
            return Err(ConfigurationError::WrongWordCount);
        }
        let mut config = [0u64; 16];
        let mut i: usize = 0;
        while i < 16
            invariant
                words@.len() == 16,
                i <= 16,
                forall|j: int| 0 <= j < i ==> config@[j] == words@[j],
            decreases 16 - i,
        {
            config[i] = words[i];
            i = i + 1;
        }
        assert(config@ =~= words@);
        Ok(Self::from_configuration(config))
    }

    /// Load a program of `RANDOMX_PROGRAM_SIZE` instruction words into the
    /// program buffer of the environment.
    pub fn load_program(env: &mut Self, program: &Vec<EncodedInstruction>)
        requires
            old(env).wf(),
            program@.len() == RANDOMX_PROGRAM_SIZE,
        ensures
            final(env).wf(),
            final(env).program_buffer@ == program@,
            final(env).r_registers == old(env).r_registers,
            final(env).configuration == old(env).configuration,
            final(env).scratchpad@ == old(env).scratchpad@,
            final(env).ic == old(env).ic,
    {
        env.program_buffer = program.clone();
        proof {
            assert(env.program_buffer@ =~= program@);
        }
    }

    /// Build a virtual machine environment from the 16 configuration words:
    /// words 0-7 give the A registers (`lo` then `hi` of each pair), word 8
    /// `ma`, word 10 `mx`, the low four bits of word 12 the Dataset read
    /// registers, word 13 the Dataset offset and words 14-15 the E masks.
    pub fn from_configuration(config: [u64; 16]) -> (r: Self)
        ensures
            r.is_configured_by(config@),
    {
        let a0_l = f64_from_u64(config[0]);
        let a0_h = f64_from_u64(config[1]);
        let a1_l = f64_from_u64(config[2]);
        let a1_h = f64_from_u64(config[3]);
        let a2_l = f64_from_u64(config[4]);
        let a2_h = f64_from_u64(config[5]);
        let a3_l = f64_from_u64(config[6]);
        let a3_h = f64_from_u64(config[7]);
        let ma: u32 = config[8] as u32;
        let mx: u32 = config[10] as u32;
        let sel: u64 = config[12];
        proof {
            let c8 = config[8];
            let c10 = config[10];
            assert(c8 as u32 == c8 % 0x1_0000_0000) by (bit_vector);
            assert(c10 as u32 == c10 % 0x1_0000_0000) by (bit_vector);
            assert((sel & 1) as u32 == sel % 2) by (bit_vector);
            assert(((sel >> 1) & 1) as u32 == (sel / 2) % 2) by (bit_vector);
            assert(((sel >> 2) & 1) as u32 == (sel / 4) % 2) by (bit_vector);
            assert(((sel >> 3) & 1) as u32 == (sel / 8) % 2) by (bit_vector);
            vstd::arithmetic::power2::lemma2_to64();
            assert(sel as int / pow2(0) as int == sel as int);
        }
        let read_reg0: u32 = (sel & 1) as u32;
        let read_reg1: u32 = 2 + ((sel >> 1) & 1) as u32;
        let read_reg2: u32 = 4 + ((sel >> 2) & 1) as u32;
        let read_reg3: u32 = 6 + ((sel >> 3) & 1) as u32;
        let dataset_offset: u64 = (config[13] % (RANDOMX_DATASET_EXTRA_ITEMS + 1))
            * RANDOMX_CACHE_LINE_SIZE;
        let configuration = ProgramConfiguration {
            emask: [float_mask(config[14]), float_mask(config[15])],
            read_reg0,
            read_reg1,
            read_reg2,
            read_reg3,
        };
        let program_buffer: Vec<EncodedInstruction> = Vec::new();
        let scratchpad: Vec<u8> = vec![0u8; RANDOMX_SCRATCHPAD_L3 as usize];
        VMEnvironment {
            program_buffer,
            r_registers: [0; 8],
            f_registers: [[0; 2]; 4],
            e_registers: [[0; 2]; 4],
            a_registers: [[a0_h, a0_l], [a1_h, a1_l], [a2_h, a2_l], [a3_h, a3_l]],
            configuration,
            ma,
            mx,
            dataset_offset,
            fprc: 0,
            ic: RANDOMX_PROGRAM_ITERATIONS,
            sp_addr0: mx,
            sp_addr1: ma,
            scratchpad,
        }
    }
}

impl Default for VMEnvironment {
    /// A fresh environment whose configuration words are all zero.
    fn default() -> (r: VMEnvironment)
        ensures
            r.is_fresh(),
            r.ma == 0 && r.mx == 0 && r.dataset_offset == 0,
            r.configuration.read_reg0 == 0 && r.configuration.read_reg1 == 2,
            r.configuration.read_reg2 == 4 && r.configuration.read_reg3 == 6,
            r.configuration.emask[0] == 0 && r.configuration.emask[1] == 0,
            forall|i: int, j: int| 0 <= i < 4 && 0 <= j < 2 ==> r.a_registers[i][j] == 0,
    {
        let configuration = ProgramConfiguration {
            emask: [0; 2],
            read_reg0: 0,
            read_reg1: 2,
            read_reg2: 4,
            read_reg3: 6,
        };
        let scratchpad: Vec<u8> = vec![0u8; RANDOMX_SCRATCHPAD_L3 as usize];
        VMEnvironment {
            program_buffer: Vec::new(),
            r_registers: [0; 8],
            f_registers: [[0; 2]; 4],
            e_registers: [[0; 2]; 4],
            a_registers: [[0; 2]; 4],
            configuration,
            ma: 0,
            mx: 0,
            dataset_offset: 0,
            fprc: 0,
            ic: RANDOMX_PROGRAM_ITERATIONS,
            sp_addr0: 0,
            sp_addr1: 0,
            scratchpad,
        }
    }
}

/// The three windows of the scratchpad.
#[derive(Clone, Copy, Debug, PartialEq, Eq, Structural)]
pub enum ScratchpadLevel {
    L1,
    L2,
    L3,
}

/// The size in bytes of a scratchpad window.
pub open spec fn level_size(level: ScratchpadLevel) -> int {
    match level {
        ScratchpadLevel::L1 => RANDOMX_SCRATCHPAD_L1 as int,
        ScratchpadLevel::L2 => RANDOMX_SCRATCHPAD_L2 as int,
        ScratchpadLevel::L3 => RANDOMX_SCRATCHPAD_L3 as int,
    }
}

/// An address masked into a window: reduced modulo the window's size and
/// aligned down to a whole 8-byte word.
pub open spec fn masked_address(level: ScratchpadLevel, addr: u64) -> int {
    addr as int % level_size(level) / 8 * 8
}

/// Every masked address lies in its window, and a whole word at it fits in
/// the window (hence in the scratchpad, whose size is the largest window's).
pub proof fn lemma_address_containment(level: ScratchpadLevel, addr: u64)
    ensures
        0 <= masked_address(level, addr),
        masked_address(level, addr) < level_size(level),
        masked_address(level, addr) + 8 <= level_size(level),
        level_size(level) <= RANDOMX_SCRATCHPAD_L3,
{
}

/// Mask an address into a scratchpad window.
pub fn scratchpad_address(level: ScratchpadLevel, addr: u64) -> (r: usize)
    ensures
        r as int == masked_address(level, addr),
        r + 8 <= level_size(level),
{
    match level {
        ScratchpadLevel::L1 => {
            assert(addr & 0x3ff8 == addr % 0x4000 / 8 * 8) by (bit_vector);
            (addr & (RANDOMX_SCRATCHPAD_L1 - 8)) as usize
        },
        ScratchpadLevel::L2 => {
            assert(addr & 0x3fff8 == addr % 0x40000 / 8 * 8) by (bit_vector);
            (addr & (RANDOMX_SCRATCHPAD_L2 - 8)) as usize
        },
        ScratchpadLevel::L3 => {
            assert(addr & 0x1ffff8 == addr % 0x200000 / 8 * 8) by (bit_vector);
            (addr & (RANDOMX_SCRATCHPAD_L3 - 8)) as usize
        },
    }
}

/// The little-endian word of the eight bytes of `s` at `i`.
pub open spec fn le_u64_at(s: Seq<u8>, i: int) -> int {
    s[i] + s[i + 1] * 0x100 + s[i + 2] * 0x1_0000 + s[i + 3] * 0x100_0000 + s[i + 4]
        * 0x1_0000_0000 + s[i + 5] * 0x100_0000_0000 + s[i + 6] * 0x1_0000_0000_0000 + s[i + 7]
        * 0x100_0000_0000_0000
}

/// Byte `k` (`0..8`) of the little-endian encoding of a word.
pub open spec fn le_byte(v: u64, k: int) -> u8 {
    (v as int / pow2(8 * k as nat) as int % 256) as u8
}

/// Read the little-endian word at `addr`.
pub fn read_u64(scratchpad: &Vec<u8>, addr: usize) -> (r: u64)
    requires
        addr + 8 <= scratchpad@.len(),
    ensures
        r as int == le_u64_at(scratchpad@, addr as int),
{
    let n = scratchpad.len();
    let b0 = scratchpad[addr] as u64;
    let b1 = scratchpad[addr + 1] as u64;
    let b2 = scratchpad[addr + 2] as u64;
    let b3 = scratchpad[addr + 3] as u64;
    let b4 = scratchpad[addr + 4] as u64;
    let b5 = scratchpad[addr + 5] as u64;
    let b6 = scratchpad[addr + 6] as u64;
    let b7 = scratchpad[addr + 7] as u64;
    b0 + b1 * 0x100 + b2 * 0x1_0000 + b3 * 0x100_0000 + b4 * 0x1_0000_0000 + b5 * 0x100_0000_0000
        + b6 * 0x1_0000_0000_0000 + b7 * 0x100_0000_0000_0000
}

/// The scratchpad after the little-endian word `v` is written at `addr`.
pub open spec fn store_u64(s: Seq<u8>, addr: int, v: u64) -> Seq<u8> {
    Seq::new(s.len(), |j: int| if addr <= j < addr + 8 { le_byte(v, j - addr) } else { s[j] })
}

/// A word written to the scratchpad reads back unchanged, and the bytes
/// outside it are untouched.
pub proof fn lemma_store_then_load(sp: Seq<u8>, addr: int, v: u64)
    requires
        0 <= addr,
        addr + 8 <= sp.len(),
    ensures
        le_u64_at(store_u64(sp, addr, v), addr) == v,
        forall|j: int| 0 <= j < sp.len() && !(addr <= j < addr + 8) ==> store_u64(sp, addr, v)[j] == sp[j],
{
    vstd::arithmetic::power2::lemma2_to64();
    vstd::arithmetic::power2::lemma2_to64_rest();
    let s = store_u64(sp, addr, v);
    assert(v == (v & 0xff) + ((v >> 8) & 0xff) * 0x100 + ((v >> 16) & 0xff) * 0x1_0000 + ((v >> 24)
        & 0xff) * 0x100_0000 + ((v >> 32) & 0xff) * 0x1_0000_0000 + ((v >> 40) & 0xff)
        * 0x100_0000_0000 + ((v >> 48) & 0xff) * 0x1_0000_0000_0000 + (v >> 56)
        * 0x100_0000_0000_0000) by (bit_vector);
    assert((v & 0xff) == v / 0x1 % 256) by (bit_vector);
    assert(((v >> 8) & 0xff) == v / 0x100 % 256) by (bit_vector);
    assert(((v >> 16) & 0xff) == v / 0x1_0000 % 256) by (bit_vector);
    assert(((v >> 24) & 0xff) == v / 0x100_0000 % 256) by (bit_vector);
    assert(((v >> 32) & 0xff) == v / 0x1_0000_0000 % 256) by (bit_vector);
    assert(((v >> 40) & 0xff) == v / 0x100_0000_0000 % 256) by (bit_vector);
    assert(((v >> 48) & 0xff) == v / 0x1_0000_0000_0000 % 256) by (bit_vector);
    assert((v >> 56) == v / 0x100_0000_0000_0000 % 256) by (bit_vector);
    assert(s[addr] == le_byte(v, 0));
    assert(s[addr + 1] == le_byte(v, 1));
    assert(s[addr + 2] == le_byte(v, 2));
    assert(s[addr + 3] == le_byte(v, 3));
    assert(s[addr + 4] == le_byte(v, 4));
    assert(s[addr + 5] == le_byte(v, 5));
    assert(s[addr + 6] == le_byte(v, 6));
    assert(s[addr + 7] == le_byte(v, 7));
}

/// Write the little-endian word `v` at `addr`.
pub fn write_u64(scratchpad: &mut Vec<u8>, addr: usize, v: u64)
    requires
        addr + 8 <= old(scratchpad)@.len(),
    ensures
        final(scratchpad)@ == store_u64(old(scratchpad)@, addr as int, v),
{
    let n = scratchpad.len();
    proof {
        vstd::arithmetic::power2::lemma2_to64();
        vstd::arithmetic::power2::lemma2_to64_rest();
        assert((v & 0xff) as u8 == (v / 0x1 % 256) as u8) by (bit_vector);
        assert(((v >> 8) & 0xff) as u8 == (v / 0x100 % 256) as u8) by (bit_vector);
        assert(((v >> 16) & 0xff) as u8 == (v / 0x1_0000 % 256) as u8) by (bit_vector);
        assert(((v >> 24) & 0xff) as u8 == (v / 0x100_0000 % 256) as u8) by (bit_vector);
        assert(((v >> 32) & 0xff) as u8 == (v / 0x1_0000_0000 % 256) as u8) by (bit_vector);
        assert(((v >> 40) & 0xff) as u8 == (v / 0x100_0000_0000 % 256) as u8) by (bit_vector);
        assert(((v >> 48) & 0xff) as u8 == (v / 0x1_0000_0000_0000 % 256) as u8) by (bit_vector);
        assert((v >> 56) as u8 == (v / 0x100_0000_0000_0000 % 256) as u8) by (bit_vector);
    }
    scratchpad.set(addr, (v & 0xff) as u8);
    scratchpad.set(addr + 1, ((v >> 8) & 0xff) as u8);
    scratchpad.set(addr + 2, ((v >> 16) & 0xff) as u8);
    scratchpad.set(addr + 3, ((v >> 24) & 0xff) as u8);
    scratchpad.set(addr + 4, ((v >> 32) & 0xff) as u8);
    scratchpad.set(addr + 5, ((v >> 40) & 0xff) as u8);
    scratchpad.set(addr + 6, ((v >> 48) & 0xff) as u8);
    scratchpad.set(addr + 7, (v >> 56) as u8);
    proof {
        assert forall|j: int| addr <= j < addr + 8 implies scratchpad@[j] == le_byte(v, j - addr) by {
            let k = j - addr;
            assert(k == 0 || k == 1 || k == 2 || k == 3 || k == 4 || k == 5 || k == 6 || k == 7);
        }
        assert(scratchpad@ =~= store_u64(old(scratchpad)@, addr as int, v));
    }
}

/// The destination register of a word.
pub open spec fn dst_of(w: u64) -> int {
    w as int / 0x100 % 256 % 8
}

/// The source register of a word.
pub open spec fn src_of(w: u64) -> int {
    w as int / 0x1_0000 % 256 % 8
}

/// The `mod` byte of a word.
pub open spec fn mod_of(w: u64) -> int {
    w as int / 0x100_0000 % 256
}

/// The immediate of a word.
pub open spec fn imm_of(w: u64) -> u32 {
    (w as int / 0x1_0000_0000) as u32
}

/// The scratchpad address of a memory operand: with a source register, the
/// register plus the immediate, in L1 or (when the low two bits of `mod` are
/// zero) L2; without one, the immediate alone, in L3.
pub open spec fn memory_address(r: Seq<u64>, w: u64) -> int {
    if src_of(w) != dst_of(w) {
        masked_address(
            if mod_of(w) % 4 == 0 { ScratchpadLevel::L2 } else { ScratchpadLevel::L1 },
            wrap64(r[src_of(w)] + sign_extend(imm_of(w))),
        )
    } else {
        masked_address(ScratchpadLevel::L3, sign_extend(imm_of(w)))
    }
}

/// The word a memory operand reads.
pub open spec fn memory_operand(r: Seq<u64>, sp: Seq<u8>, w: u64) -> u64 {
    le_u64_at(sp, memory_address(r, w)) as u64
}

/// The second operand of a register instruction: the source register, or the
/// immediate when source and destination are the same register.
pub open spec fn register_or_imm(r: Seq<u64>, w: u64) -> u64 {
    if src_of(w) != dst_of(w) { r[src_of(w)] } else { sign_extend(imm_of(w)) }
}

/// `x` is a power of two (zero is not).
pub open spec fn is_power_of_two(x: u32) -> bool {
    x != 0 && x & ((x - 1) as u32) == 0
}

/// The bit of a `CBRANCH` condition: `mod`'s top four bits past the jump offset.
pub open spec fn branch_shift(w: u64) -> u64 {
    (mod_of(w) / 16 + RANDOMX_JUMP_OFFSET) as u64
}

/// The constant a `CBRANCH` adds: the immediate, with the condition bit set
/// and the bit below it cleared.
pub open spec fn branch_constant(w: u64) -> u64 {
    (sign_extend(imm_of(w)) | (1u64 << branch_shift(w))) & !(1u64 << (branch_shift(w) - 1) as u64)
}

/// A `CBRANCH` jumps when the eight condition bits of its register are zero.
pub open spec fn branch_taken(value: u64, w: u64) -> bool {
    value & (0xffu64 << branch_shift(w)) == 0
}

/// The value an instruction leaves in its destination register. Arithmetic
/// wraps modulo 2^64; a reciprocal multiplication by zero or by a power of
/// two changes nothing; kinds that do not write an integer register leave it.
pub open spec fn integer_result(r: Seq<u64>, sp: Seq<u8>, w: u64) -> u64 {
    let a = r[dst_of(w)];
    let b = r[src_of(w)];
    let imm = imm_of(w);
    match instruction_of(w) {
        Instruction::IADD_RS => wrap64(
            a + (b << (mod_of(w) / 4 % 4) as u64) + if dst_of(w) == 5 {
                sign_extend(imm) as int
            } else {
                0
            },
        ),
        Instruction::IADD_M => wrap64(a + memory_operand(r, sp, w)),
        Instruction::ISUB_R => wrap64(a - register_or_imm(r, w)),
        Instruction::ISUB_M => wrap64(a - memory_operand(r, sp, w)),
        Instruction::IMUL_R => wrap64(a * register_or_imm(r, w)),
        Instruction::IMUL_M => wrap64(a * memory_operand(r, sp, w)),
        Instruction::IMULH_R => mul_high(a, b),
        Instruction::IMULH_M => mul_high(a, memory_operand(r, sp, w)),
        Instruction::ISMULH_R => signed_mul_high(a, b),
        Instruction::ISMULH_M => signed_mul_high(a, memory_operand(r, sp, w)),
        Instruction::IMUL_RCP => if imm == 0 || is_power_of_two(imm) {
            a
        } else {
            wrap64(a * reciprocal_of(imm))
        },
        Instruction::INEG_R => wrap64(-a),
        Instruction::IXOR_R => a ^ register_or_imm(r, w),
        Instruction::IXOR_M => a ^ memory_operand(r, sp, w),
        Instruction::IROR_R => rotate_right(a, register_or_imm(r, w)),
        Instruction::IROL_R => rotate_left(a, register_or_imm(r, w)),
        Instruction::CBRANCH => wrap64(a + branch_constant(w)),
        _ => a,
    }
}

/// The integer registers after an instruction.
pub open spec fn step_registers(r: Seq<u64>, sp: Seq<u8>, w: u64) -> Seq<u64> {
    if instruction_of(w) == Instruction::ISWAP_R {
        r.update(dst_of(w), r[src_of(w)]).update(src_of(w), r[dst_of(w)])
    } else {
        r.update(dst_of(w), integer_result(r, sp, w))
    }
}

/// The scratchpad address an `ISTORE` writes: the destination register plus
/// the immediate, in L3 when `mod`'s top four bits are at least 14, else in
/// L1 or L2 as for a memory operand.
pub open spec fn store_address(r: Seq<u64>, w: u64) -> int {
    masked_address(
        if mod_of(w) / 16 >= 14 {
            ScratchpadLevel::L3
        } else if mod_of(w) % 4 == 0 {
            ScratchpadLevel::L2
        } else {
            ScratchpadLevel::L1
        },
        wrap64(r[dst_of(w)] + sign_extend(imm_of(w))),
    )
}

/// The scratchpad after an instruction: only `ISTORE` writes it.
pub open spec fn step_scratchpad(r: Seq<u64>, sp: Seq<u8>, w: u64) -> Seq<u8> {
    if instruction_of(w) == Instruction::ISTORE {
        store_u64(sp, store_address(r, w), r[src_of(w)])
    } else {
        sp
    }
}

/// The rounding mode after an instruction: `CFROUND` takes the low two bits
/// of its source register rotated right by the immediate.
pub open spec fn step_fprc(r: Seq<u64>, fprc: u8, w: u64) -> u8 {
    if instruction_of(w) == Instruction::CFROUND {
        (rotate_right(r[src_of(w)], imm_of(w) as u64) % 4) as u8
    } else {
        fprc
    }
}

/// The next instruction: a taken `CBRANCH` goes to its target, anything else
/// to the following instruction.
pub open spec fn step_pc(r: Seq<u64>, sp: Seq<u8>, w: u64, pc: int, target: int) -> int {
    if instruction_of(w) == Instruction::CBRANCH && branch_taken(integer_result(r, sp, w), w) {
        target
    } else {
        pc + 1
    }
}

/// The sum of three words modulo 2^64.
fn add3(a: u64, b: u64, c: u64) -> (r: u64)
    ensures
        r == wrap64(a + b + c),
{
    ((a as u128 + b as u128 + c as u128) % 0x1_0000_0000_0000_0000) as u64
}

impl VMEnvironment {
    /// The word that the memory operand of `w` reads.
    fn read_memory_operand(&self, w: u64) -> (v: u64)
        requires
            self.wf(),
        ensures
            v == memory_operand(self.r_registers@, self.scratchpad@, w),
    {
        let d = (dst(w) % 8) as usize;
        let s = (src(w) % 8) as usize;
        let imm = sign_extend_imm(imm32(w));
        let addr = if s != d {
            let level = if mod_(w) % 4 == 0 { ScratchpadLevel::L2 } else { ScratchpadLevel::L1 };
            scratchpad_address(level, self.r_registers[s].wrapping_add(imm))
        } else {
            scratchpad_address(ScratchpadLevel::L3, imm)
        };
        read_u64(&self.scratchpad, addr)
    }

    /// The value instruction `w`, of kind `kind`, leaves in its destination.
    fn integer_value(&self, w: u64, kind: Instruction) -> (v: u64)
        requires
            self.wf(),
            kind == instruction_of(w),
        ensures
            v == integer_result(self.r_registers@, self.scratchpad@, w),
    {
        match kind {
            Instruction::IADD_M
            | Instruction::ISUB_M
            | Instruction::IMUL_M
            | Instruction::IMULH_M
            | Instruction::ISMULH_M
            | Instruction::IXOR_M => self.memory_value(w, kind),
            _ => self.register_value(w, kind),
        }
    }

    /// The result of an instruction with a memory operand.
    fn memory_value(&self, w: u64, kind: Instruction) -> (v: u64)
        requires
            self.wf(),
            kind == instruction_of(w),
            kind == Instruction::IADD_M || kind == Instruction::ISUB_M || kind == Instruction::IMUL_M
                || kind == Instruction::IMULH_M || kind == Instruction::ISMULH_M || kind
                == Instruction::IXOR_M,
        ensures
            v == integer_result(self.r_registers@, self.scratchpad@, w),
    {
        let a = self.r_registers[(dst(w) % 8) as usize];
        let x = self.read_memory_operand(w);
        match kind {
            Instruction::IADD_M => a.wrapping_add(x),
            Instruction::ISUB_M => a.wrapping_sub(x),
            Instruction::IMUL_M => a.wrapping_mul(x),
            Instruction::IMULH_M => mulh(a, x),
            Instruction::ISMULH_M => smulh(a, x),
            _ => a ^ x,
        }
    }

    /// The result of an instruction without a memory operand.
    #[verifier::rlimit(40)]
    fn register_value(&self, w: u64, kind: Instruction) -> (v: u64)
        requires
            self.wf(),
            kind == instruction_of(w),
            !(kind == Instruction::IADD_M || kind == Instruction::ISUB_M || kind == Instruction::IMUL_M
                || kind == Instruction::IMULH_M || kind == Instruction::ISMULH_M || kind
                == Instruction::IXOR_M),
        ensures
            v == integer_result(self.r_registers@, self.scratchpad@, w),
    {
        let d = (dst(w) % 8) as usize;
        let s = (src(w) % 8) as usize;
        let m = mod_(w);
        let imm = imm32(w);
        let a = self.r_registers[d];
        let b = self.r_registers[s];
        let operand = if s != d { b } else { sign_extend_imm(imm) };
        match kind {
            Instruction::IADD_RS => {
                let c = if d == 5 { sign_extend_imm(imm) } else { 0 };
                add3(a, b << (m / 4 % 4), c)
            },
            Instruction::ISUB_R => a.wrapping_sub(operand),
            Instruction::IMUL_R => a.wrapping_mul(operand),
            Instruction::IMULH_R => mulh(a, b),
            Instruction::ISMULH_R => smulh(a, b),
            Instruction::IMUL_RCP => {
                if imm == 0 || imm & (imm - 1) == 0 {
                    a
                } else {
                    a.wrapping_mul(reciprocal(imm))
                }
            },
            Instruction::INEG_R => 0u64.wrapping_sub(a),
            Instruction::IXOR_R => a ^ operand,
            Instruction::IROR_R => rotr(a, operand),
            Instruction::IROL_R => rotl(a, operand),
            Instruction::CBRANCH => {
                let shift: u64 = (m / 16) as u64 + RANDOMX_JUMP_OFFSET;
                let constant = (sign_extend_imm(imm) | (1u64 << shift)) & !(1u64 << (shift - 1));
                a.wrapping_add(constant)
            },
            _ => a,
        }
    }

    /// Execute the integer, control or store instruction at `pc`, whose
    /// branch target (used by `CBRANCH` alone) is `target`, and return the
    /// next instruction. Floating-point instructions and `NOP` change nothing
    /// here.
    pub fn execute_integer_instruction(&mut self, pc: usize, target: usize) -> (next: usize)
        requires
            old(self).wf(),
            pc < old(self).program_buffer@.len(),
        ensures
            final(self).wf(),
            final(self).r_registers@ == step_registers(
                old(self).r_registers@,
                old(self).scratchpad@,
                old(self).program_buffer@[pc as int],
            ),
            final(self).scratchpad@ == step_scratchpad(
                old(self).r_registers@,
                old(self).scratchpad@,
                old(self).program_buffer@[pc as int],
            ),
            final(self).fprc == step_fprc(
                old(self).r_registers@,
                old(self).fprc,
                old(self).program_buffer@[pc as int],
            ),
            next == step_pc(
                old(self).r_registers@,
                old(self).scratchpad@,
                old(self).program_buffer@[pc as int],
                pc as int,
                target as int,
            ),
            final(self).program_buffer@ == old(self).program_buffer@,
            final(self).f_registers == old(self).f_registers,
            final(self).e_registers == old(self).e_registers,
            final(self).a_registers == old(self).a_registers,
            final(self).configuration == old(self).configuration,
            final(self).ma == old(self).ma,
            final(self).mx == old(self).mx,
            final(self).dataset_offset == old(self).dataset_offset,
            final(self).ic == old(self).ic,
            final(self).sp_addr0 == old(self).sp_addr0,
            final(self).sp_addr1 == old(self).sp_addr1,
    {
        let w = self.program_buffer[pc];
        let kind = decode(w);
        let d = (dst(w) % 8) as usize;
        let s = (src(w) % 8) as usize;
        let m = mod_(w);
        let imm = imm32(w);
        let a = self.r_registers[d];
        let b = self.r_registers[s];
        let ghost r0 = self.r_registers@;
        match kind {
            Instruction::ISWAP_R => {
                self.r_registers[d] = b;
                self.r_registers[s] = a;
                proof {
                    assert(self.r_registers@ =~= step_registers(r0, self.scratchpad@, w));
                }
                pc + 1
            },
            Instruction::ISTORE => {
                let level = if m / 16 >= 14 {
                    ScratchpadLevel::L3
                } else if m % 4 == 0 {
                    ScratchpadLevel::L2
                } else {
                    ScratchpadLevel::L1
                };
                let addr = scratchpad_address(level, a.wrapping_add(sign_extend_imm(imm)));
                write_u64(&mut self.scratchpad, addr, b);
                proof {
                    assert(self.r_registers@ =~= step_registers(r0, old(self).scratchpad@, w));
                }
                pc + 1
            },
            Instruction::CFROUND => {
                self.fprc = (rotr(b, imm as u64) % 4) as u8;
                proof {
                    assert(self.r_registers@ =~= step_registers(r0, self.scratchpad@, w));
                }
                pc + 1
            },
            _ => {
                let v = self.integer_value(w, kind);
                self.r_registers[d] = v;
                proof {
                    assert(self.r_registers@ =~= step_registers(r0, self.scratchpad@, w));
                }
                match kind {
                    Instruction::CBRANCH => {
                        let shift: u64 = (m / 16) as u64 + RANDOMX_JUMP_OFFSET;
                        if v & (0xffu64 << shift) == 0 {
                            target
                        } else {
                            pc + 1
                        }
                    },
                    _ => pc + 1,
                }
            },
        }
    }
}

/// The kinds that compute on integer registers (`IADD_RS` to `ISWAP_R`).
pub open spec fn is_integer_kind(k: Instruction) -> bool {
    kind_index(k) <= 16
}

/// Instruction `w` changes integer register `reg`: a swap of two distinct
/// registers changes both, a degenerate reciprocal multiplication changes
/// nothing, any other integer instruction changes its destination.
pub open spec fn writes_register(w: u64, reg: int) -> bool {
    let k = instruction_of(w);
    if k == Instruction::ISWAP_R {
        src_of(w) != dst_of(w) && (reg == dst_of(w) || reg == src_of(w))
    } else if k == Instruction::IMUL_RCP {
        !(imm_of(w) == 0 || is_power_of_two(imm_of(w))) && reg == dst_of(w)
    } else {
        is_integer_kind(k) && reg == dst_of(w)
    }
}

/// For each register, where a branch on it placed after the first `n`
/// instructions jumps back to: just after the last instruction among them
/// that changed the register or that branched, whichever is later, or to the
/// start of the program.
pub open spec fn branch_points(p: Seq<u64>, n: int) -> Seq<int>
    decreases n,
{
    if n <= 0 {
        Seq::new(8, |r: int| 0)
    } else if instruction_of(p[n - 1]) == Instruction::CBRANCH {
        Seq::new(8, |r: int| n)
    } else {
        let u = branch_points(p, n - 1);
        Seq::new(8, |r: int| if writes_register(p[n - 1], r) { n } else { u[r] })
    }
}

/// The target of the instruction at `i`, were it a `CBRANCH`.
pub open spec fn branch_target(p: Seq<u64>, i: int) -> int {
    branch_points(p, i)[dst_of(p[i])]
}

fn is_integer(k: Instruction) -> (r: bool)
    ensures
        r == is_integer_kind(k),
{
    match k {
        Instruction::IADD_RS | Instruction::IADD_M | Instruction::ISUB_R | Instruction::ISUB_M
        | Instruction::IMUL_R | Instruction::IMUL_M | Instruction::IMULH_R
        | Instruction::IMULH_M | Instruction::ISMULH_R | Instruction::ISMULH_M
        | Instruction::IMUL_RCP | Instruction::INEG_R | Instruction::IXOR_R
        | Instruction::IXOR_M | Instruction::IROR_R | Instruction::IROL_R
        | Instruction::ISWAP_R => true,
        _ => false,
    }
}

/// The branch target of every instruction of a program; each jumps backwards
/// (or to itself at most).
pub fn branch_targets(program: &Vec<EncodedInstruction>) -> (t: Vec<usize>)
    ensures
        t@.len() == program@.len(),
        forall|i: int| 0 <= i < program@.len() ==> t@[i] == branch_target(program@, i),
        forall|i: int| 0 <= i < program@.len() ==> t@[i] <= i,
{
    let mut usage: [usize; 8] = [0; 8];
    let mut t: Vec<usize> = Vec::new();
    let mut i: usize = 0;
    while i < program.len()
        invariant
            i <= program@.len(),
            t@.len() == i,
            branch_points(program@, i as int).len() == 8,
            forall|r: int| 0 <= r < 8 ==> usage[r] == branch_points(program@, i as int)[r],
            forall|r: int| 0 <= r < 8 ==> usage[r] <= i,
            forall|j: int| 0 <= j < i ==> t@[j] == branch_target(program@, j),
            forall|j: int| 0 <= j < i ==> t@[j] <= j,
        decreases program@.len() - i,
    {
        let w = program[i];
        let d = (dst(w) % 8) as usize;
        let s = (src(w) % 8) as usize;
        let imm = imm32(w);
        t.push(usage[d]);
        let kind = decode(w);
        let ghost u = usage@;
        match kind {
            Instruction::CBRANCH => {
                usage = [i + 1; 8];
            },
            Instruction::ISWAP_R => {
                if s != d {
                    usage[d] = i + 1;
                    usage[s] = i + 1;
                }
            },
            Instruction::IMUL_RCP => {
                if !(imm == 0 || imm & (imm - 1) == 0) {
                    usage[d] = i + 1;
                }
            },
            _ => {
                if is_integer(kind) {
                    usage[d] = i + 1;
                }
            },
        }
        proof {
            assert forall|r: int| 0 <= r < 8 implies usage[r] == branch_points(
                program@,
                i + 1,
            )[r] by {
                assert(writes_register(w, r) == (if kind == Instruction::ISWAP_R {
                    s != d && (r == d || r == s)
                } else if kind == Instruction::IMUL_RCP {
                    !(imm == 0 || is_power_of_two(imm)) && r == d
                } else {
                    is_integer_kind(kind) && r == d
                }));
            }
        }
        i = i + 1;
    }
    t
}

/// Mask of a 64-byte aligned line of the L3 scratchpad.
pub const SCRATCHPAD_L3_LINE_MASK: u64 = 0x1f_ffc0;

/// Mask of a 64-byte aligned Dataset line address.
pub const CACHE_LINE_ALIGN_MASK: u64 = 0x7fff_ffc0;

/// The scratchpad after the words `ws` are written, in order, from `addr` on.
pub open spec fn store_words(sp: Seq<u8>, addr: int, ws: Seq<u64>) -> Seq<u8>
    decreases ws.len(),
{
    if ws.len() == 0 {
        sp
    } else {
        store_u64(store_words(sp, addr, ws.drop_last()), addr + 8 * (ws.len() - 1), ws.last())
    }
}

/// The eight words of the F registers, each pair `lo` first.
pub open spec fn f_words(f: [[u64; 2]; 4]) -> Seq<u64> {
    Seq::new(8, |k: int| f[k / 2][1 - k % 2])
}

/// The mix of the two registers that move the scratchpad addresses.
pub open spec fn scratchpad_mix(env: VMEnvironment) -> u64 {
    env.r_registers[env.configuration.read_reg0 as int] ^ env.r_registers[
        env.configuration.read_reg1 as int]
}

/// Write the eight words `ws` from `addr` on.
fn write_words(scratchpad: &mut Vec<u8>, addr: usize, ws: &[u64; 8])
    requires
        addr + 64 <= old(scratchpad)@.len(),
    ensures
        final(scratchpad)@ == store_words(old(scratchpad)@, addr as int, ws@),
        final(scratchpad)@.len() == old(scratchpad)@.len(),
{
    let ghost sp0 = scratchpad@;
    let n = scratchpad.len();
    let mut i: usize = 0;
    while i < 8
        invariant
            i <= 8,
            n == sp0.len(),
            addr + 64 <= sp0.len(),
            scratchpad@ == store_words(sp0, addr as int, ws@.subrange(0, i as int)),
            scratchpad@.len() == sp0.len(),
        decreases 8 - i,
    {
        write_u64(scratchpad, addr + 8 * i, ws[i]);
        proof {
            assert(ws@.subrange(0, i + 1).drop_last() =~= ws@.subrange(0, i as int));
        }
        i = i + 1;
    }
    assert(ws@.subrange(0, 8) =~= ws@);
}

impl VMEnvironment {
    /// The start of an iteration: both scratchpad addresses are moved by the
    /// mix of the first two read registers (the second by its high half) and
    /// masked to a 64-byte line of L3; then each integer register is XORed
    /// with its word of the line at the first address.
    pub fn begin_iteration(&mut self)
        requires
            old(self).wf(),
        ensures
            final(self).wf(),
            final(self).sp_addr0 == ((old(self).sp_addr0 as u64 ^ scratchpad_mix(*old(self)))
                & SCRATCHPAD_L3_LINE_MASK) as u32,
            final(self).sp_addr1 == ((old(self).sp_addr1 as u64 ^ (scratchpad_mix(*old(self)) >> 32u64))
                & SCRATCHPAD_L3_LINE_MASK) as u32,
            final(self).sp_addr0 % 64 == 0 && final(self).sp_addr0 + 64 <= RANDOMX_SCRATCHPAD_L3,
            final(self).sp_addr1 % 64 == 0 && final(self).sp_addr1 + 64 <= RANDOMX_SCRATCHPAD_L3,
            forall|i: int|
                0 <= i < 8 ==> final(self).r_registers[i] == old(self).r_registers[i] ^ (le_u64_at(
                    old(self).scratchpad@,
                    final(self).sp_addr0 + 8 * i,
                ) as u64),
            final(self).scratchpad@ == old(self).scratchpad@,
            final(self).program_buffer@ == old(self).program_buffer@,
            final(self).f_registers == old(self).f_registers,
            final(self).e_registers == old(self).e_registers,
            final(self).a_registers == old(self).a_registers,
            final(self).configuration == old(self).configuration,
            final(self).fprc == old(self).fprc,
            final(self).ma == old(self).ma,
            final(self).mx == old(self).mx,
            final(self).dataset_offset == old(self).dataset_offset,
            final(self).ic == old(self).ic,
    {
        let mix = self.r_registers[self.configuration.read_reg0 as usize]
            ^ self.r_registers[self.configuration.read_reg1 as usize];
        let x0 = self.sp_addr0 as u64 ^ mix;
        let x1 = self.sp_addr1 as u64 ^ (mix >> 32);
        let a0 = x0 & SCRATCHPAD_L3_LINE_MASK;
        let a1 = x1 & SCRATCHPAD_L3_LINE_MASK;
        assert(x0 & 0x1f_ffc0 <= 0x1f_ffc0 && (x0 & 0x1f_ffc0) % 64 == 0) by (bit_vector);
        assert(x1 & 0x1f_ffc0 <= 0x1f_ffc0 && (x1 & 0x1f_ffc0) % 64 == 0) by (bit_vector);
        self.sp_addr0 = a0 as u32;
        self.sp_addr1 = a1 as u32;
        let base = a0 as usize;
        let ghost r0 = self.r_registers;
        let mut i: usize = 0;
        while i < 8
            invariant
                i <= 8,
                self.wf(),
                base + 64 <= self.scratchpad@.len(),
                base == self.sp_addr0,
                self.scratchpad@ == old(self).scratchpad@,
                forall|j: int| 0 <= j < i ==> self.r_registers[j] == r0[j] ^ (le_u64_at(
                    self.scratchpad@,
                    base + 8 * j,
                ) as u64),
                forall|j: int| i <= j < 8 ==> self.r_registers[j] == r0[j],
                self.configuration == old(self).configuration,
                self.program_buffer@ == old(self).program_buffer@,
                self.f_registers == old(self).f_registers,
                self.e_registers == old(self).e_registers,
                self.a_registers == old(self).a_registers,
                self.fprc == old(self).fprc,
                self.ma == old(self).ma,
                self.mx == old(self).mx,
                self.dataset_offset == old(self).dataset_offset,
                self.ic == old(self).ic,
                self.sp_addr1 == a1 as u32,
            decreases 8 - i,
        {
            let x = read_u64(&self.scratchpad, base + 8 * i);
            self.r_registers[i] = self.r_registers[i] ^ x;
            i = i + 1;
        }
    }

    /// The Dataset address of the line this iteration reads.
    pub fn dataset_read_address(&self) -> (r: u64)
        requires
            self.wf(),
        ensures
            r == self.dataset_offset + self.ma,
    {
        self.dataset_offset + self.ma as u64
    }

    /// The end of an iteration, given the Dataset line read at
    /// `dataset_read_address()`: `mx` is moved by the last two read registers
    /// and aligned, then `ma` and `mx` swap; the line is XORed into the integer
    /// registers, which are stored at the second scratchpad address; the F
    /// registers are XORed with the E registers and stored at the first; both
    /// addresses are reset and one iteration fewer is left.
    pub fn finish_iteration(&mut self, line: &[u64; 8])
        requires
            old(self).wf(),
            old(self).ic > 0,
            old(self).sp_addr0 + 64 <= RANDOMX_SCRATCHPAD_L3,
            old(self).sp_addr1 + 64 <= RANDOMX_SCRATCHPAD_L3,
        ensures
            final(self).wf(),
            final(self).ma == ((old(self).mx as u64 ^ old(self).r_registers[
                old(self).configuration.read_reg2 as int] ^ old(self).r_registers[
                old(self).configuration.read_reg3 as int]) & CACHE_LINE_ALIGN_MASK) as u32,
            final(self).mx == old(self).ma,
            forall|i: int|
                0 <= i < 8 ==> final(self).r_registers[i] == old(self).r_registers[i] ^ line[i],
            forall|i: int, j: int|
                0 <= i < 4 && 0 <= j < 2 ==> final(self).f_registers[i][j] == old(
                    self,
                ).f_registers[i][j] ^ old(self).e_registers[i][j],
            final(self).scratchpad@ == store_words(
                store_words(old(self).scratchpad@, old(self).sp_addr1 as int, final(self).r_registers@),
                old(self).sp_addr0 as int,
                f_words(final(self).f_registers),
            ),
            final(self).sp_addr0 == 0,
            final(self).sp_addr1 == 0,
            final(self).ic == old(self).ic - 1,
            final(self).program_buffer@ == old(self).program_buffer@,
            final(self).e_registers == old(self).e_registers,
            final(self).a_registers == old(self).a_registers,
            final(self).configuration == old(self).configuration,
            final(self).fprc == old(self).fprc,
            final(self).dataset_offset == old(self).dataset_offset,
    {
        let mixed: u64 = (self.mx as u64 ^ self.r_registers[self.configuration.read_reg2 as usize]
            ^ self.r_registers[self.configuration.read_reg3 as usize]) & CACHE_LINE_ALIGN_MASK;
        let old_ma = self.ma;
        self.ma = mixed as u32;
        self.mx = old_ma;
        let mut i: usize = 0;
        let ghost r0 = self.r_registers;
        while i < 8
            invariant
                i <= 8,
                forall|j: int| 0 <= j < i ==> self.r_registers[j] == r0[j] ^ line[j],
                forall|j: int| i <= j < 8 ==> self.r_registers[j] == r0[j],
                self.f_registers == old(self).f_registers,
                self.wf(),
                self.scratchpad@ == old(self).scratchpad@,
                self.program_buffer@ == old(self).program_buffer@,
                self.e_registers == old(self).e_registers,
                self.a_registers == old(self).a_registers,
                self.configuration == old(self).configuration,
                self.fprc == old(self).fprc,
                self.dataset_offset == old(self).dataset_offset,
                self.ic == old(self).ic,
                self.sp_addr0 == old(self).sp_addr0,
                self.sp_addr1 == old(self).sp_addr1,
                self.ma == mixed as u32,
                self.mx == old(self).ma,
            decreases 8 - i,
        {
            self.r_registers[i] = self.r_registers[i] ^ line[i];
            i = i + 1;
        }
        let regs = self.r_registers;
        write_words(&mut self.scratchpad, self.sp_addr1 as usize, &regs);
        let ghost f0 = self.f_registers;
        let ghost sp1 = self.scratchpad@;
        let ghost regs1 = self.r_registers;
        let mut k: usize = 0;
        while k < 4
            invariant
                k <= 4,
                forall|a: int, b: int| 0 <= a < k && 0 <= b < 2 ==> self.f_registers[a][b] == f0[a][b]
                    ^ self.e_registers[a][b],
                forall|a: int, b: int| k <= a < 4 && 0 <= b < 2 ==> self.f_registers[a][b] == f0[a][b],
                self.r_registers == regs1,
                self.wf(),
                self.scratchpad@ == sp1,
                self.program_buffer@ == old(self).program_buffer@,
                self.e_registers == old(self).e_registers,
                self.a_registers == old(self).a_registers,
                self.configuration == old(self).configuration,
                self.fprc == old(self).fprc,
                self.dataset_offset == old(self).dataset_offset,
                self.ic == old(self).ic,
                self.sp_addr0 == old(self).sp_addr0,
                self.sp_addr1 == old(self).sp_addr1,
                self.ma == mixed as u32,
                self.mx == old(self).ma,

            decreases 4 - k,
        {
            let lo = self.f_registers[k][1] ^ self.e_registers[k][1];
            let hi = self.f_registers[k][0] ^ self.e_registers[k][0];
            self.f_registers[k] = [hi, lo];
            k = k + 1;
        }
        let f = self.f_registers;
        let words: [u64; 8] = [f[0][1], f[0][0], f[1][1], f[1][0], f[2][1], f[2][0], f[3][1], f[3][0]];
        proof {
            assert(words@ =~= f_words(f));
        }
        write_words(&mut self.scratchpad, self.sp_addr0 as usize, &words);
        self.sp_addr0 = 0;
        self.sp_addr1 = 0;
        self.ic = self.ic - 1;
    }
}

} // verus!

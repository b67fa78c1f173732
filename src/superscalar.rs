//! SuperscalarHash: the instruction kinds with their scheduling metadata, the
//! generator that simulates a three-port out-of-order core to build a program
//! from a Blake2b byte stream, and the replay of a program on eight registers.
use crate::helpers::{
    mul_high, mulh, reciprocal, reciprocal_of, rotate_right, rotr, sign_extend, sign_extend_imm,
    signed_mul_high, smulh, wrap64,
};
use crate::parameters::{RANDOMX_SUPERSCALAR_LATENCY, RANDOMX_SUPERSCALAR_MAX_SIZE};
use crate::{be_u32_at, blake2b_512, BlakeGenerator};
use vstd::prelude::*;

verus! {

/// The fourteen kinds of superscalar instruction.
#[allow(non_camel_case_types)]
#[derive(Clone, Copy, Debug, PartialEq, Eq, Structural)]
pub enum SuperscalarInstructionType {
    ISUB_R,
    IXOR_R,
    IADD_RS,
    IMUL_R,
    IROR_C,
    IADD_C7,
    IXOR_C7,
    IADD_C8,
    IXOR_C8,
    IADD_C9,
    IXOR_C9,
    IMULH_R,
    ISMULH_R,
    IMUL_RCP,
}

/// The kinds that multiply.
pub open spec fn is_mul(k: SuperscalarInstructionType) -> bool {
    ||| k == SuperscalarInstructionType::IMUL_R
    ||| k == SuperscalarInstructionType::IMULH_R
    ||| k == SuperscalarInstructionType::ISMULH_R
    ||| k == SuperscalarInstructionType::IMUL_RCP
}

/// The kinds that read a second register.
pub open spec fn has_source(k: SuperscalarInstructionType) -> bool {
    ||| k == SuperscalarInstructionType::ISUB_R
    ||| k == SuperscalarInstructionType::IXOR_R
    ||| k == SuperscalarInstructionType::IADD_RS
    ||| k == SuperscalarInstructionType::IMUL_R
    ||| k == SuperscalarInstructionType::IMULH_R
    ||| k == SuperscalarInstructionType::ISMULH_R
}

/// The execution ports of the simulated core, and the groups of them on which
/// an instruction may run.
#[derive(Clone, Copy, Debug, PartialEq, Eq, Structural)]
pub enum ExecutionPort {
    Null,
    P0,
    P1,
    P5,
    P01,
    P05,
    P015,
}

/// The ports on which a kind executes.
pub open spec fn port_of(k: SuperscalarInstructionType) -> ExecutionPort {
    match k {
        SuperscalarInstructionType::IADD_RS => ExecutionPort::P01,
        SuperscalarInstructionType::IMUL_R => ExecutionPort::P1,
        SuperscalarInstructionType::IROR_C => ExecutionPort::P05,
        SuperscalarInstructionType::IMULH_R => ExecutionPort::P1,
        SuperscalarInstructionType::ISMULH_R => ExecutionPort::P1,
        SuperscalarInstructionType::IMUL_RCP => ExecutionPort::P1,
        _ => ExecutionPort::P015,
    }
}

/// Cycles from issue until the result is available.
pub open spec fn latency_of(k: SuperscalarInstructionType) -> int {
    match k {
        SuperscalarInstructionType::IMUL_R => 3,
        SuperscalarInstructionType::IMULH_R => 3,
        SuperscalarInstructionType::ISMULH_R => 3,
        SuperscalarInstructionType::IMUL_RCP => 4,
        _ => 1,
    }
}

/// Bytes of x86 code the kind stands for.
pub open spec fn code_size_of(k: SuperscalarInstructionType) -> int {
    match k {
        SuperscalarInstructionType::ISUB_R => 3,
        SuperscalarInstructionType::IXOR_R => 3,
        SuperscalarInstructionType::IADD_RS => 4,
        SuperscalarInstructionType::IMUL_R => 4,
        SuperscalarInstructionType::IROR_C => 4,
        SuperscalarInstructionType::IADD_C7 => 7,
        SuperscalarInstructionType::IXOR_C7 => 7,
        SuperscalarInstructionType::IADD_C8 => 8,
        SuperscalarInstructionType::IXOR_C8 => 8,
        SuperscalarInstructionType::IADD_C9 => 9,
        SuperscalarInstructionType::IXOR_C9 => 9,
        SuperscalarInstructionType::IMULH_R => 9,
        SuperscalarInstructionType::ISMULH_R => 9,
        SuperscalarInstructionType::IMUL_RCP => 14,
    }
}

/// Macro-ops the kind decodes to.
pub open spec fn macro_ops_of(k: SuperscalarInstructionType) -> int {
    match k {
        SuperscalarInstructionType::IADD_C8 => 2,
        SuperscalarInstructionType::IXOR_C8 => 2,
        SuperscalarInstructionType::IADD_C9 => 2,
        SuperscalarInstructionType::IXOR_C9 => 2,
        SuperscalarInstructionType::IMULH_R => 3,
        SuperscalarInstructionType::ISMULH_R => 3,
        SuperscalarInstructionType::IMUL_RCP => 2,
        _ => 1,
    }
}

/// The kind that a selector byte draws: each kind owns a run of the 256 byte
/// values, as long as its weight.
pub open spec fn kind_of_byte(b: u8) -> SuperscalarInstructionType {
    if b < 24 { SuperscalarInstructionType::ISUB_R }
    else if b < 48 { SuperscalarInstructionType::IXOR_R }
    else if b < 72 { SuperscalarInstructionType::IADD_RS }
    else if b < 96 { SuperscalarInstructionType::IMUL_R }
    else if b < 112 { SuperscalarInstructionType::IROR_C }
    else if b < 128 { SuperscalarInstructionType::IADD_C7 }
    else if b < 144 { SuperscalarInstructionType::IXOR_C7 }
    else if b < 160 { SuperscalarInstructionType::IADD_C8 }
    else if b < 176 { SuperscalarInstructionType::IXOR_C8 }
    else if b < 192 { SuperscalarInstructionType::IADD_C9 }
    else if b < 208 { SuperscalarInstructionType::IXOR_C9 }
    else if b < 220 { SuperscalarInstructionType::IMULH_R }
    else if b < 232 { SuperscalarInstructionType::ISMULH_R }
    else { SuperscalarInstructionType::IMUL_RCP }
}

impl SuperscalarInstructionType {
    /// Multiplications are counted apart: they set the Dataset's mixing strength.
    pub fn is_multiplication(self) -> (r: bool)
        ensures
            r == is_mul(self),
    {
        match self {
            SuperscalarInstructionType::IMUL_R
            | SuperscalarInstructionType::IMULH_R
            | SuperscalarInstructionType::ISMULH_R
            | SuperscalarInstructionType::IMUL_RCP => true,
            _ => false,
        }
    }

    /// Whether the kind reads a second register.
    pub fn reads_source(self) -> (r: bool)
        ensures
            r == has_source(self),
    {
        match self {
            SuperscalarInstructionType::ISUB_R
            | SuperscalarInstructionType::IXOR_R
            | SuperscalarInstructionType::IADD_RS
            | SuperscalarInstructionType::IMUL_R
            | SuperscalarInstructionType::IMULH_R
            | SuperscalarInstructionType::ISMULH_R => true,
            _ => false,
        }
    }

    /// The ports the kind may execute on.
    pub fn port(self) -> (r: ExecutionPort)
        ensures
            r == port_of(self),
    {
        match self {
            SuperscalarInstructionType::IADD_RS => ExecutionPort::P01,
            SuperscalarInstructionType::IMUL_R => ExecutionPort::P1,
            SuperscalarInstructionType::IROR_C => ExecutionPort::P05,
            SuperscalarInstructionType::IMULH_R => ExecutionPort::P1,
            SuperscalarInstructionType::ISMULH_R => ExecutionPort::P1,
            SuperscalarInstructionType::IMUL_RCP => ExecutionPort::P1,
            _ => ExecutionPort::P015,
        }
    }

    /// Cycles from issue until the result is available.
    pub fn latency(self) -> (r: u32)
        ensures
            r == latency_of(self),
    {
        match self {
            SuperscalarInstructionType::IMUL_R => 3,
            SuperscalarInstructionType::IMULH_R => 3,
            SuperscalarInstructionType::ISMULH_R => 3,
            SuperscalarInstructionType::IMUL_RCP => 4,
            _ => 1,
        }
    }

    /// Bytes of x86 code the kind stands for.
    pub fn code_size(self) -> (r: u32)
        ensures
            r == code_size_of(self),
    {
        match self {
            SuperscalarInstructionType::ISUB_R => 3,
            SuperscalarInstructionType::IXOR_R => 3,
            SuperscalarInstructionType::IADD_RS => 4,
            SuperscalarInstructionType::IMUL_R => 4,
            SuperscalarInstructionType::IROR_C => 4,
            SuperscalarInstructionType::IADD_C7 => 7,
            SuperscalarInstructionType::IXOR_C7 => 7,
            SuperscalarInstructionType::IADD_C8 => 8,
            SuperscalarInstructionType::IXOR_C8 => 8,
            SuperscalarInstructionType::IADD_C9 => 9,
            SuperscalarInstructionType::IXOR_C9 => 9,
            SuperscalarInstructionType::IMULH_R => 9,
            SuperscalarInstructionType::ISMULH_R => 9,
            SuperscalarInstructionType::IMUL_RCP => 14,
        }
    }

    /// Macro-ops the kind decodes to.
    pub fn macro_ops(self) -> (r: u32)
        ensures
            r == macro_ops_of(self),
    {
        match self {
            SuperscalarInstructionType::IADD_C8 => 2,
            SuperscalarInstructionType::IXOR_C8 => 2,
            SuperscalarInstructionType::IADD_C9 => 2,
            SuperscalarInstructionType::IXOR_C9 => 2,
            SuperscalarInstructionType::IMULH_R => 3,
            SuperscalarInstructionType::ISMULH_R => 3,
            SuperscalarInstructionType::IMUL_RCP => 2,
            _ => 1,
        }
    }

    /// The kind drawn by a selector byte.
    pub fn from_byte(b: u8) -> (r: SuperscalarInstructionType)
        ensures
            r == kind_of_byte(b),
    {
        if b < 24 { SuperscalarInstructionType::ISUB_R }
        else if b < 48 { SuperscalarInstructionType::IXOR_R }
        else if b < 72 { SuperscalarInstructionType::IADD_RS }
        else if b < 96 { SuperscalarInstructionType::IMUL_R }
        else if b < 112 { SuperscalarInstructionType::IROR_C }
        else if b < 128 { SuperscalarInstructionType::IADD_C7 }
        else if b < 144 { SuperscalarInstructionType::IXOR_C7 }
        else if b < 160 { SuperscalarInstructionType::IADD_C8 }
        else if b < 176 { SuperscalarInstructionType::IXOR_C8 }
        else if b < 192 { SuperscalarInstructionType::IADD_C9 }
        else if b < 208 { SuperscalarInstructionType::IXOR_C9 }
        else if b < 220 { SuperscalarInstructionType::IMULH_R }
        else if b < 232 { SuperscalarInstructionType::ISMULH_R }
        else { SuperscalarInstructionType::IMUL_RCP }
    }
}

/// One instruction of a superscalar program.
#[derive(Clone, Copy, Debug, PartialEq, Eq, Structural)]
pub struct SuperscalarInstruction {
    pub kind: SuperscalarInstructionType,
    pub dst: u8,
    pub src: u8,
    pub imm32: u32,
    /// Left shift of the source operand of `IADD_RS`, taken modulo 4
    pub shift: u8,
}

/// What one issue slot takes from the byte stream: a kind selector, two
/// register selectors and an immediate.
#[derive(Clone, Copy, Debug, PartialEq, Eq, Structural)]
pub struct Draw {
    pub kind_byte: u8,
    pub dst_byte: u8,
    pub src_byte: u8,
    pub imm: u32,
}

/// The next byte of a generator's stream at `(block, cursor)`, and the
/// stream's next position.
pub open spec fn stream_byte(block: Seq<u8>, cursor: int) -> (u8, Seq<u8>, int) {
    if cursor + 1 > 64 {
        let b = blake2b_512(block);
        (b[0], b, 1)
    } else {
        (block[cursor], block, cursor + 1)
    }
}

/// The next big-endian word of a generator's stream, and its next position.
pub open spec fn stream_u32(block: Seq<u8>, cursor: int) -> (u32, Seq<u8>, int) {
    if cursor + 4 > 64 {
        let b = blake2b_512(block);
        (be_u32_at(b, 0) as u32, b, 4)
    } else {
        (be_u32_at(block, cursor) as u32, block, cursor + 4)
    }
}

/// One slot's draw: three bytes, then a word.
pub open spec fn stream_draw(block: Seq<u8>, cursor: int) -> (Draw, Seq<u8>, int) {
    let (k, b1, c1) = stream_byte(block, cursor);
    let (d, b2, c2) = stream_byte(b1, c1);
    let (s, b3, c3) = stream_byte(b2, c2);
    let (i, b4, c4) = stream_u32(b3, c3);
    (Draw { kind_byte: k, dst_byte: d, src_byte: s, imm: i }, b4, c4)
}

/// The instruction a draw proposes. Kinds without a source name their
/// destination twice; a rotation is by `1..64` bits and a reciprocal
/// multiplier is odd.
pub open spec fn candidate(d: Draw) -> SuperscalarInstruction {
    let kind = kind_of_byte(d.kind_byte);
    let dst = (d.dst_byte % 8) as u8;
    SuperscalarInstruction {
        kind,
        dst,
        src: if has_source(kind) { (d.src_byte % 8) as u8 } else { dst },
        imm32: if kind == SuperscalarInstructionType::IROR_C {
            (d.imm % 63 + 1) as u32
        } else if kind == SuperscalarInstructionType::IMUL_RCP {
            d.imm | 1
        } else {
            d.imm
        },
        shift: (d.src_byte / 8 % 4) as u8,
    }
}

/// How far past the current decode cycle an instruction may be scheduled.
pub const LOOKAHEAD: u32 = 4;

/// The largest latency of any kind.
pub const MAX_LATENCY: u32 = 4;

/// The simulated core while a program is generated.
pub struct ScheduleState {
    /// The current decode cycle
    pub cycle: int,
    /// For ports P0, P1 and P5, the first cycle at which each is free
    pub port_free: Seq<int>,
    /// For each register, the cycle at which its value is available
    pub ready: Seq<int>,
    /// The same on an ASIC that is never short of ports
    pub asic_ready: Seq<int>,
    /// The registers of the last instruction issued, if it multiplied
    pub last_mul: Option<(u8, u8)>,
    pub program: Seq<SuperscalarInstruction>,
    pub macro_ops: int,
    pub code_size: int,
    pub mul_count: int,
    pub throw_away_count: int,
    pub cpu_latency: int,
    pub asic_latency: int,
}

pub open spec fn max_int(a: int, b: int) -> int {
    if a >= b { a } else { b }
}

/// The state before the first decode cycle.
pub open spec fn initial_schedule() -> ScheduleState {
    ScheduleState {
        cycle: 0,
        port_free: Seq::new(3, |i: int| 0),
        ready: Seq::new(8, |i: int| 0),
        asic_ready: Seq::new(8, |i: int| 0),
        last_mul: None,
        program: Seq::empty(),
        macro_ops: 0,
        code_size: 0,
        mul_count: 0,
        throw_away_count: 0,
        cpu_latency: 0,
        asic_latency: 0,
    }
}

/// The cycle at which the operands of an instruction are all available.
pub open spec fn operands_ready(s: ScheduleState, ins: SuperscalarInstruction) -> int {
    if has_source(ins.kind) {
        max_int(s.ready[ins.dst as int], s.ready[ins.src as int])
    } else {
        s.ready[ins.dst as int]
    }
}

/// The first cycle, from now, at which port `p` can start an instruction
/// whose operands are available at `r`.
pub open spec fn port_time(s: ScheduleState, p: int, r: int) -> int {
    max_int(max_int(s.cycle, r), s.port_free[p])
}

/// The port an instruction goes to: of those it may use, the one that can
/// start it first, the lowest on a tie (P0, then P1, then P5).
pub open spec fn chosen_port(s: ScheduleState, ins: SuperscalarInstruction) -> int {
    let r = operands_ready(s, ins);
    match port_of(ins.kind) {
        ExecutionPort::P1 => 1,
        ExecutionPort::P01 => if port_time(s, 0, r) <= port_time(s, 1, r) { 0 } else { 1 },
        ExecutionPort::P05 => if port_time(s, 0, r) <= port_time(s, 2, r) { 0 } else { 2 },
        _ => if port_time(s, 0, r) <= port_time(s, 1, r) && port_time(s, 0, r) <= port_time(s, 2, r) {
            0
        } else if port_time(s, 1, r) <= port_time(s, 2, r) {
            1
        } else {
            2
        },
    }
}

/// The cycle at which an instruction would start.
pub open spec fn issue_cycle(s: ScheduleState, ins: SuperscalarInstruction) -> int {
    port_time(s, chosen_port(s, ins), operands_ready(s, ins))
}

/// An instruction is issued when it reads two distinct registers (if it reads
/// two), does not repeat at once the register pair of a multiplication, has a
/// non-degenerate reciprocal, and can start within the lookahead window.
pub open spec fn issuable(s: ScheduleState, ins: SuperscalarInstruction) -> bool {
    &&& !has_source(ins.kind) || ins.src != ins.dst
    &&& !(is_mul(ins.kind) && s.last_mul == Some((ins.dst, ins.src)))
    &&& !(ins.kind == SuperscalarInstructionType::IMUL_RCP && ins.imm32 == 1)
    &&& issue_cycle(s, ins) <= s.cycle + LOOKAHEAD
}

/// The cycle at which the operands are available on the ASIC.
pub open spec fn asic_operands_ready(s: ScheduleState, ins: SuperscalarInstruction) -> int {
    if has_source(ins.kind) {
        max_int(s.asic_ready[ins.dst as int], s.asic_ready[ins.src as int])
    } else {
        s.asic_ready[ins.dst as int]
    }
}

/// The state after an instruction is issued: its port is taken for one
/// cycle, its result is ready after its latency, and it joins the program.
pub open spec fn issue(s: ScheduleState, ins: SuperscalarInstruction) -> ScheduleState {
    let t = issue_cycle(s, ins);
    let done = t + latency_of(ins.kind);
    let asic_done = asic_operands_ready(s, ins) + latency_of(ins.kind);
    ScheduleState {
        port_free: s.port_free.update(chosen_port(s, ins), t + 1),
        ready: s.ready.update(ins.dst as int, done),
        asic_ready: s.asic_ready.update(ins.dst as int, asic_done),
        last_mul: if is_mul(ins.kind) { Some((ins.dst, ins.src)) } else { None },
        program: s.program.push(ins),
        macro_ops: s.macro_ops + macro_ops_of(ins.kind),
        code_size: s.code_size + code_size_of(ins.kind),
        mul_count: s.mul_count + if is_mul(ins.kind) { 1int } else { 0 },
        cpu_latency: max_int(s.cpu_latency, done),
        asic_latency: max_int(s.asic_latency, asic_done),
        ..s
    }
}

/// One issue slot: the drawn instruction is issued, or thrown away.
pub open spec fn fill_slot(s: ScheduleState, d: Draw) -> ScheduleState {
    let ins = candidate(d);
    if issuable(s, ins) {
        issue(s, ins)
    } else {
        ScheduleState { throw_away_count: s.throw_away_count + 1, ..s }
    }
}

/// Generation goes on until the program's latency reaches the target or the
/// decode cycles run out.
pub open spec fn running(s: ScheduleState) -> bool {
    s.cycle < RANDOMX_SUPERSCALAR_LATENCY && s.cpu_latency < RANDOMX_SUPERSCALAR_LATENCY
}

/// The rest of a generation from slot `slot` of the current decode cycle,
/// with the stream at `(block, cursor)`: the final state and stream position.
/// Each decode cycle has three issue slots.
pub open spec fn schedule(s: ScheduleState, slot: int, block: Seq<u8>, cursor: int) -> (
    ScheduleState,
    Seq<u8>,
    int,
)
    decreases RANDOMX_SUPERSCALAR_LATENCY - s.cycle, 3 - slot,
{
    if !running(s) || slot < 0 || slot > 3 {
        (s, block, cursor)
    } else if slot == 3 {
        schedule(ScheduleState { cycle: s.cycle + 1, ..s }, 0, block, cursor)
    } else {
        let (d, b, c) = stream_draw(block, cursor);
        schedule(fill_slot(s, d), slot + 1, b, c)
    }
}

/// The number of multiplications in a sequence of instructions.
pub open spec fn count_muls(p: Seq<SuperscalarInstruction>) -> int
    decreases p.len(),
{
    if p.len() == 0 {
        0
    } else {
        count_muls(p.drop_last()) + if is_mul(p.last().kind) { 1int } else { 0 }
    }
}

/// The first index of a largest value among the first `n` of `s`.
pub open spec fn max_index(s: Seq<int>, n: int) -> int
    decreases n,
{
    if n <= 1 {
        0
    } else {
        let m = max_index(s, n - 1);
        if s[n - 1] > s[m] { n - 1 } else { m }
    }
}

fn max_u32(a: u32, b: u32) -> (r: u32)
    ensures
        r == max_int(a as int, b as int),
{
    if a >= b { a } else { b }
}

/// The instruction a draw proposes.
fn propose(d: Draw) -> (ins: SuperscalarInstruction)
    ensures
        ins == candidate(d),
{
    let kind = SuperscalarInstructionType::from_byte(d.kind_byte);
    let dst = d.dst_byte % 8;
    let src = if kind.reads_source() { d.src_byte % 8 } else { dst };
    let imm32 = match kind {
        SuperscalarInstructionType::IROR_C => d.imm % 63 + 1,
        SuperscalarInstructionType::IMUL_RCP => d.imm | 1,
        _ => d.imm,
    };
    SuperscalarInstruction { kind, dst, src, imm32, shift: d.src_byte / 8 % 4 }
}

/// Take one slot's draw from the generator.
fn draw(gen: &mut BlakeGenerator) -> (d: Draw)
    requires
        old(gen).wf(),
    ensures
        final(gen).wf(),
        (d, final(gen).block(), final(gen).cursor()) == stream_draw(old(gen).block(), old(gen).cursor()),
{
    let kind_byte = gen.get_byte();
    let dst_byte = gen.get_byte();
    let src_byte = gen.get_byte();
    let imm = gen.get_u32();
    Draw { kind_byte, dst_byte, src_byte, imm }
}

/// The executable state of the simulated core.
struct Scheduler {
    cycle: u32,
    port_free: [u32; 3],
    ready: [u32; 8],
    asic_ready: [u32; 8],
    last_mul: Option<(u8, u8)>,
    program: Vec<SuperscalarInstruction>,
    macro_ops: u32,
    code_size: u32,
    mul_count: u32,
    throw_away_count: u32,
    cpu_latency: u32,
    asic_latency: u32,
}

impl Scheduler {
    spec fn model(&self) -> ScheduleState {
        ScheduleState {
            cycle: self.cycle as int,
            port_free: self.port_free@.map_values(|x: u32| x as int),
            ready: self.ready@.map_values(|x: u32| x as int),
            asic_ready: self.asic_ready@.map_values(|x: u32| x as int),
            last_mul: self.last_mul,
            program: self.program@,
            macro_ops: self.macro_ops as int,
            code_size: self.code_size as int,
            mul_count: self.mul_count as int,
            throw_away_count: self.throw_away_count as int,
            cpu_latency: self.cpu_latency as int,
            asic_latency: self.asic_latency as int,
        }
    }

    /// Bounds that keep every counter within `u32`, at slot `slot` of the
    /// current decode cycle.
    spec fn inv(&self, slot: int) -> bool {
        let n = self.program@.len();
        &&& 0 <= slot <= 3
        &&& self.cycle <= RANDOMX_SUPERSCALAR_LATENCY
        &&& forall|p: int| 0 <= p < 3 ==> self.port_free[p] <= self.cycle + LOOKAHEAD + 1
        &&& forall|r: int| 0 <= r < 8 ==> self.ready[r] <= self.cycle + LOOKAHEAD + MAX_LATENCY
        &&& self.cpu_latency < RANDOMX_SUPERSCALAR_LATENCY + LOOKAHEAD + MAX_LATENCY
        &&& n <= 3 * self.cycle + slot
        &&& forall|r: int| 0 <= r < 8 ==> self.asic_ready[r] <= MAX_LATENCY * n
        &&& self.asic_latency <= MAX_LATENCY * n
        &&& self.macro_ops <= 3 * n
        &&& self.code_size <= 14 * n
        &&& self.throw_away_count <= 3 * self.cycle + slot
        &&& self.mul_count == count_muls(self.program@)
        &&& self.mul_count <= n
        &&& registers_valid(self.program@)
    }

    fn new() -> (r: Self)
        ensures
            r.model() == initial_schedule(),
            r.inv(0),
    {
        let r = Scheduler {
            cycle: 0,
            port_free: [0; 3],
            ready: [0; 8],
            asic_ready: [0; 8],
            last_mul: None,
            program: Vec::new(),
            macro_ops: 0,
            code_size: 0,
            mul_count: 0,
            throw_away_count: 0,
            cpu_latency: 0,
            asic_latency: 0,
        };
        assert(r.model().port_free =~= initial_schedule().port_free);
        assert(r.model().ready =~= initial_schedule().ready);
        assert(r.model().asic_ready =~= initial_schedule().asic_ready);
        assert(r.model().program =~= initial_schedule().program);
        r
    }

    /// One issue slot of the current decode cycle.
    fn fill_slot(&mut self, d: Draw, slot: u32)
        requires
            old(self).inv(slot as int),
            slot < 3,
            running(old(self).model()),
        ensures
            final(self).model() == fill_slot(old(self).model(), d),
            final(self).inv(slot + 1),
    {
        let ghost m = self.model();
        let ins = propose(d);
        let kind = ins.kind;
        let dst = ins.dst as usize;
        let src = ins.src as usize;
        let reads_source = kind.reads_source();
        let r = if reads_source { max_u32(self.ready[dst], self.ready[src]) } else { self.ready[dst] };
        let t0 = max_u32(max_u32(self.cycle, r), self.port_free[0]);
        let t1 = max_u32(max_u32(self.cycle, r), self.port_free[1]);
        let t2 = max_u32(max_u32(self.cycle, r), self.port_free[2]);
        let port: usize = match kind.port() {
            ExecutionPort::P1 => 1,
            ExecutionPort::P01 => if t0 <= t1 { 0 } else { 1 },
            ExecutionPort::P05 => if t0 <= t2 { 0 } else { 2 },
            _ => if t0 <= t1 && t0 <= t2 { 0 } else if t1 <= t2 { 1 } else { 2 },
        };
        let t = if port == 0 { t0 } else if port == 1 { t1 } else { t2 };
        let is_mul = kind.is_multiplication();
        let repeats = match self.last_mul {
            Some((a, b)) => a == ins.dst && b == ins.src,
            None => false,
        };
        let degenerate = match kind {
            SuperscalarInstructionType::IMUL_RCP => ins.imm32 == 1,
            _ => false,
        };
        proof {
            assert(r == operands_ready(m, ins));
            assert(port == chosen_port(m, ins));
            assert(t == issue_cycle(m, ins));
        }
        if (!reads_source || src != dst) && !(is_mul && repeats) && !degenerate && t <= self.cycle
            + LOOKAHEAD {
            let latency = kind.latency();
            let done = t + latency;
            let a = if reads_source {
                max_u32(self.asic_ready[dst], self.asic_ready[src])
            } else {
                self.asic_ready[dst]
            };
            let asic_done = a + latency;
            self.port_free[port] = t + 1;
            self.ready[dst] = done;
            self.asic_ready[dst] = asic_done;
            self.last_mul = if is_mul { Some((ins.dst, ins.src)) } else { None };
            let ghost old_program = self.program@;
            self.program.push(ins);
            self.macro_ops = self.macro_ops + kind.macro_ops();
            self.code_size = self.code_size + kind.code_size();
            if is_mul {
                self.mul_count = self.mul_count + 1;
            }
            self.cpu_latency = max_u32(self.cpu_latency, done);
            self.asic_latency = max_u32(self.asic_latency, asic_done);
            proof {
                let e = issue(m, ins);
                assert(self.program@.drop_last() =~= old_program);
                assert(self.model().port_free =~= e.port_free);
                assert(self.model().ready =~= e.ready);
                assert(self.model().asic_ready =~= e.asic_ready);
                assert(self.model().program =~= e.program);
                assert(forall|j: int| 0 <= j < old_program.len() ==> self.program@[j] == old_program[j]);
            }
        } else {
            self.throw_away_count = self.throw_away_count + 1;
            proof {
                assert(self.model().port_free =~= m.port_free);
                assert(self.model().ready =~= m.ready);
                assert(self.model().asic_ready =~= m.asic_ready);
            }
        }
    }
}

/// A generated SuperscalarHash program with its scheduling summary.
pub struct SuperscalarProgram {
    pub size: u32,
    /// The register with the highest ASIC latency, which addresses the Cache
    pub addr_reg: u32,
    pub code_size: u32,
    pub macro_ops: u32,
    pub decode_cycles: u32,
    pub cpu_latency: u32,
    pub asic_latency: u32,
    pub mul_count: u32,
    /// Drawn instructions that could not be issued
    pub throw_away_count: u32,
    pub cpu_latencies: [u32; 8],
    pub asic_latencies: [u32; 8],
    pub program_buffer: Vec<SuperscalarInstruction>,
}

/// The final state of the generation that starts on a generator's stream at
/// `(block, cursor)`, and where the stream is left.
pub open spec fn generation(block: Seq<u8>, cursor: int) -> (ScheduleState, Seq<u8>, int) {
    schedule(initial_schedule(), 0, block, cursor)
}

impl SuperscalarProgram {
    /// The program is the summary of the final generation state `s`.
    pub open spec fn summarises(&self, s: ScheduleState) -> bool {
        &&& self.program_buffer@ == s.program
        &&& self.size == s.program.len()
        &&& self.code_size == s.code_size
        &&& self.macro_ops == s.macro_ops
        &&& self.decode_cycles == s.cycle
        &&& self.cpu_latency == s.cpu_latency
        &&& self.asic_latency == s.asic_latency
        &&& self.mul_count == s.mul_count
        &&& self.throw_away_count == s.throw_away_count
        &&& self.cpu_latencies@.map_values(|x: u32| x as int) == s.ready
        &&& self.asic_latencies@.map_values(|x: u32| x as int) == s.asic_ready
        &&& self.addr_reg == max_index(s.asic_ready, 8)
    }

    /// Generate a program from the generator's byte stream. Each decode cycle
    /// offers three issue slots; generation stops once the program's latency
    /// on the simulated core reaches the target, or after as many decode
    /// cycles as the target has.
    pub fn generate(gen: &mut BlakeGenerator) -> (r: Self)
        requires
            old(gen).wf(),
        ensures
            final(gen).wf(),
            r.summarises(generation(old(gen).block(), old(gen).cursor()).0),
            final(gen).block() == generation(old(gen).block(), old(gen).cursor()).1,
            final(gen).cursor() == generation(old(gen).block(), old(gen).cursor()).2,
            r.size == r.program_buffer@.len(),
            r.size <= RANDOMX_SUPERSCALAR_MAX_SIZE,
            r.cpu_latency >= RANDOMX_SUPERSCALAR_LATENCY || r.decode_cycles
                == RANDOMX_SUPERSCALAR_LATENCY,
            r.cpu_latency < RANDOMX_SUPERSCALAR_LATENCY + LOOKAHEAD + MAX_LATENCY,
            r.mul_count == count_muls(r.program_buffer@),
            registers_valid(r.program_buffer@),
    {
        let ghost block0 = gen.block();
        let ghost cursor0 = gen.cursor();
        let mut st = Scheduler::new();
        let mut slot: u32 = 0;
        while st.cycle < RANDOMX_SUPERSCALAR_LATENCY as u32 && st.cpu_latency
            < RANDOMX_SUPERSCALAR_LATENCY as u32
            invariant
                gen.wf(),
                st.inv(slot as int),
                slot <= 3,
                st.cycle == RANDOMX_SUPERSCALAR_LATENCY ==> slot == 0,
                schedule(st.model(), slot as int, gen.block(), gen.cursor()) == generation(
                    block0,
                    cursor0,
                ),
            decreases RANDOMX_SUPERSCALAR_LATENCY - st.cycle, 3 - slot,
        {
            if slot == 3 {
                let ghost m = st.model();
                st.cycle = st.cycle + 1;
                slot = 0;
                proof {
                    assert(st.model().port_free =~= m.port_free);
                    assert(st.model().ready =~= m.ready);
                    assert(st.model().asic_ready =~= m.asic_ready);
                    assert(st.model() == (ScheduleState { cycle: m.cycle + 1, ..m }));
                }
            } else {
                let d = draw(gen);
                st.fill_slot(d, slot);
                slot = slot + 1;
            }
        }
        let mut addr_reg: usize = 0;
        let mut i: usize = 1;
        while i < 8
            invariant
                1 <= i <= 8,
                addr_reg < i,
                addr_reg == max_index(st.model().asic_ready, i as int),
            decreases 8 - i,
        {
            if st.asic_ready[i] > st.asic_ready[addr_reg] {
                addr_reg = i;
            }
            i = i + 1;
        }
        let r = SuperscalarProgram {
            size: st.program.len() as u32,
            addr_reg: addr_reg as u32,
            code_size: st.code_size,
            macro_ops: st.macro_ops,
            decode_cycles: st.cycle,
            cpu_latency: st.cpu_latency,
            asic_latency: st.asic_latency,
            mul_count: st.mul_count,
            throw_away_count: st.throw_away_count,
            cpu_latencies: st.ready,
            asic_latencies: st.asic_ready,
            program_buffer: st.program,
        };
        proof {
            assert(r.cpu_latencies@.map_values(|x: u32| x as int) =~= st.model().ready);
            assert(r.asic_latencies@.map_values(|x: u32| x as int) =~= st.model().asic_ready);
        }
        r
    }
}

/// Every instruction names registers `0..8`.
pub open spec fn registers_valid(p: Seq<SuperscalarInstruction>) -> bool {
    forall|i: int| 0 <= i < p.len() ==> p[i].dst < 8 && p[i].src < 8
}

/// The registers after one instruction. Arithmetic wraps modulo 2^64; a
/// reciprocal multiplication by zero leaves the register as it is.
pub open spec fn replay_step(r: Seq<u64>, ins: SuperscalarInstruction) -> Seq<u64> {
    let a = r[ins.dst as int];
    let b = r[ins.src as int];
    let v: u64 = match ins.kind {
        SuperscalarInstructionType::ISUB_R => wrap64(a - b),
        SuperscalarInstructionType::IXOR_R => a ^ b,
        SuperscalarInstructionType::IADD_RS => wrap64(a + (b << (ins.shift % 4))),
        SuperscalarInstructionType::IMUL_R => wrap64(a * b),
        SuperscalarInstructionType::IROR_C => rotate_right(a, ins.imm32 as u64),
        SuperscalarInstructionType::IADD_C7 => wrap64(a + sign_extend(ins.imm32)),
        SuperscalarInstructionType::IADD_C8 => wrap64(a + sign_extend(ins.imm32)),
        SuperscalarInstructionType::IADD_C9 => wrap64(a + sign_extend(ins.imm32)),
        SuperscalarInstructionType::IXOR_C7 => a ^ sign_extend(ins.imm32),
        SuperscalarInstructionType::IXOR_C8 => a ^ sign_extend(ins.imm32),
        SuperscalarInstructionType::IXOR_C9 => a ^ sign_extend(ins.imm32),
        SuperscalarInstructionType::IMULH_R => mul_high(a, b),
        SuperscalarInstructionType::ISMULH_R => signed_mul_high(a, b),
        SuperscalarInstructionType::IMUL_RCP => if ins.imm32 == 0 {
            a
        } else {
            wrap64(a * reciprocal_of(ins.imm32))
        },
    };
    r.update(ins.dst as int, v)
}

/// The registers after a whole program, run in order.
pub open spec fn replay(p: Seq<SuperscalarInstruction>, r: Seq<u64>) -> Seq<u64>
    decreases p.len(),
{
    if p.len() == 0 {
        r
    } else {
        replay_step(replay(p.drop_last(), r), p.last())
    }
}

/// Run one instruction on the registers.
pub fn execute_instruction(r: &mut [u64; 8], ins: SuperscalarInstruction)
    requires
        ins.dst < 8,
        ins.src < 8,
    ensures
        final(r)@ == replay_step(old(r)@, ins),
{
    let d = ins.dst as usize;
    let a = r[d];
    let b = r[ins.src as usize];
    let v: u64 = match ins.kind {
        SuperscalarInstructionType::ISUB_R => a.wrapping_sub(b),
        SuperscalarInstructionType::IXOR_R => a ^ b,
        SuperscalarInstructionType::IADD_RS => a.wrapping_add(b << (ins.shift % 4)),
        SuperscalarInstructionType::IMUL_R => a.wrapping_mul(b),
        SuperscalarInstructionType::IROR_C => rotr(a, ins.imm32 as u64),
        SuperscalarInstructionType::IADD_C7
        | SuperscalarInstructionType::IADD_C8
        | SuperscalarInstructionType::IADD_C9 => a.wrapping_add(sign_extend_imm(ins.imm32)),
        SuperscalarInstructionType::IXOR_C7
        | SuperscalarInstructionType::IXOR_C8
        | SuperscalarInstructionType::IXOR_C9 => a ^ sign_extend_imm(ins.imm32),
        SuperscalarInstructionType::IMULH_R => mulh(a, b),
        SuperscalarInstructionType::ISMULH_R => smulh(a, b),
        SuperscalarInstructionType::IMUL_RCP => if ins.imm32 == 0 {
            a
        } else {
            a.wrapping_mul(reciprocal(ins.imm32))
        },
    };
    r[d] = v;
}

impl SuperscalarProgram {
    /// Run the whole program, in order, on the registers: this is how a
    /// Dataset item is mixed from the Cache.
    pub fn execute(&self, r: &mut [u64; 8])
        requires
            registers_valid(self.program_buffer@),
        ensures
            final(r)@ == replay(self.program_buffer@, old(r)@),
    {
        let ghost r0 = r@;
        let p = &self.program_buffer;
        let mut i: usize = 0;
        while i < p.len()
            invariant
                p@ == self.program_buffer@,
                registers_valid(p@),
                i <= p@.len(),
                r@ == replay(p@.subrange(0, i as int), r0),
            decreases p@.len() - i,
        {
            proof {
                assert(p@.subrange(0, i + 1).drop_last() =~= p@.subrange(0, i as int));
            }
            execute_instruction(r, p[i]);
            i = i + 1;
        }
        assert(p@.subrange(0, p@.len() as int) =~= p@);
    }
}

/// Generation is deterministic: two generators at the same point of the same
/// byte stream yield the same instruction sequence and the same summary.
pub proof fn lemma_generation_deterministic(
    g1: BlakeGenerator,
    g2: BlakeGenerator,
    p1: SuperscalarProgram,
    p2: SuperscalarProgram,
)
    requires
        g1.block() == g2.block(),
        g1.cursor() == g2.cursor(),
        p1.summarises(generation(g1.block(), g1.cursor()).0),
        p2.summarises(generation(g2.block(), g2.cursor()).0),
    ensures
        p1.program_buffer@ == p2.program_buffer@,
        p1.size == p2.size,
        p1.addr_reg == p2.addr_reg,
        p1.code_size == p2.code_size,
        p1.macro_ops == p2.macro_ops,
        p1.decode_cycles == p2.decode_cycles,
        p1.cpu_latency == p2.cpu_latency,
        p1.asic_latency == p2.asic_latency,
        p1.mul_count == p2.mul_count,
        p1.throw_away_count == p2.throw_away_count,
        p1.cpu_latencies@ == p2.cpu_latencies@,
        p1.asic_latencies@ == p2.asic_latencies@,
{
    let s = generation(g1.block(), g1.cursor()).0;
    assert forall|i: int| 0 <= i < 8 implies p1.cpu_latencies@[i] == p2.cpu_latencies@[i] by {
        assert(p1.cpu_latencies@.map_values(|x: u32| x as int)[i] == s.ready[i]);
        assert(p2.cpu_latencies@.map_values(|x: u32| x as int)[i] == s.ready[i]);
    }
    assert forall|i: int| 0 <= i < 8 implies p1.asic_latencies@[i] == p2.asic_latencies@[i] by {
        assert(p1.asic_latencies@.map_values(|x: u32| x as int)[i] == s.asic_ready[i]);
        assert(p2.asic_latencies@.map_values(|x: u32| x as int)[i] == s.asic_ready[i]);
    }
    assert(p1.cpu_latencies@ =~= p2.cpu_latencies@);
    assert(p1.asic_latencies@ =~= p2.asic_latencies@);
}

/// The multiplication count never decreases as a program grows: a prefix
/// holds no more multiplications than any longer prefix.
pub proof fn lemma_mul_count_monotonic(p: Seq<SuperscalarInstruction>, i: int, j: int)
    requires
        0 <= i <= j <= p.len(),
    ensures
        count_muls(p.subrange(0, i)) <= count_muls(p.subrange(0, j)),
    decreases j - i,
{
    if i < j {
        lemma_mul_count_monotonic(p, i, j - 1);
        assert(p.subrange(0, j).drop_last() =~= p.subrange(0, j - 1));
    }
}

/// Replay is idempotent: replaying one program on equal registers gives
/// equal registers, however often it is done.
pub proof fn lemma_replay_deterministic(
    p: SuperscalarProgram,
    r1: [u64; 8],
    r2: [u64; 8],
    out1: [u64; 8],
    out2: [u64; 8],
)
    requires
        r1@ == r2@,
        out1@ == replay(p.program_buffer@, r1@),
        out2@ == replay(p.program_buffer@, r2@),
    ensures
        out1@ == out2@,
{
}

} // verus!

use vstd::prelude::*;
use crate::arm::ProgramStatus;
use crate::decode_arm::{DPShifterOperand, DataProcessingOpcode, ShiftType};
use crate::gba::{GbaModel, GbaSystem, Register};
use vstd::arithmetic::power2::pow2;

verus! {

/// The bits from `a` up to (not including) `b` of a word, set.
pub open spec fn ones_between(a: u32, b: u32) -> u32 {
    ((0xFFFFFFFFu64 << a) & (((1u64 << b) - 1u64) as u64)) as u32
}

/// `val` with bit `bits - 1` copied into every bit above it, as a signed word.
pub open spec fn sign_extend_spec(val: u32, bits: u32) -> i32 {
    if val & (1u32 << (bits - 1) as u32) != 0 {
        (val | ones_between(bits, 32)) as i32
    } else {
        val as i32
    }
}

/// Sign-extends the `bits`-bit value `val` to 32 bits (bits of `val` above
/// the sign bit are kept when the sign bit is clear).
pub fn sign_extend(val: u32, bits: usize) -> (r: i32)
    requires
        1 <= bits <= 32,
    ensures
        r == sign_extend_spec(val, bits as u32),
{
    let b: u32 = bits as u32;
    if val & (1u32 << (b - 1)) != 0 {
        let mut n_val = val;
        let mut n: u32 = b;
        assert(ones_between(b, b) == 0) by (bit_vector)
            requires
                b <= 32,
        ;
        assert(val | 0 == val) by (bit_vector);
        while n < 32
            invariant
                b <= n <= 32,
                n_val == val | ones_between(b, n),
            decreases 32 - n,
        {
            assert((val | ones_between(b, n)) | (1u32 << n) == val | ones_between(b, (n + 1) as u32))
                by (bit_vector)
                requires
                    b <= n < 32,
            ;
            n_val = n_val | (1u32 << n);
            n = n + 1;
        }
        n_val as i32
    } else {
        val as i32
    }
}

/// A sign-extended value of `bits` bits (`bits` below 32) has the value that
/// its two's-complement reading gives.
pub proof fn lemma_sign_extend_value(val: u32, bits: u32)
    requires
        1 <= bits < 32,
        val < (1u32 << bits),
    ensures
        sign_extend_spec(val, bits) as int == (if val >= (1u32 << (bits - 1) as u32) {
            val - (1u32 << bits)
        } else {
            val as int
        }),
{
    let hi = (1u32 << (bits - 1) as u32);
    let full = (1u32 << bits);
    let r = val | ones_between(bits, 32);
    assert(val & hi != 0 <==> val >= hi) by (bit_vector)
        requires
            1 <= bits < 32,
            val < full,
            hi == 1u32 << (bits - 1) as u32,
            full == 1u32 << bits,
    ;
    if val >= hi {
        assert(r as i32 as int == val - full) by (bit_vector)
            requires
                1 <= bits < 32,
                val < full,
                val >= hi,
                hi == 1u32 << (bits - 1) as u32,
                full == 1u32 << bits,
                r == val | ones_between(bits, 32),
        ;
    } else {
        assert(val as i32 as int == val) by (bit_vector)
            requires
                1 <= bits < 32,
                val < hi,
                hi == 1u32 << (bits - 1) as u32,
        ;
    }
}

/// `a + b` modulo 2^32.
pub open spec fn wadd(a: u32, b: u32) -> u32 {
    vstd::wrapping::u32_specs::wrapping_add(a, b)
}

/// `a - b` modulo 2^32.
pub open spec fn wsub(a: u32, b: u32) -> u32 {
    vstd::wrapping::u32_specs::wrapping_sub(a, b)
}

/// `a + b` modulo 2^32 for a signed `b`.
pub open spec fn wadd_signed(a: u32, b: i32) -> u32 {
    vstd::wrapping::u32_specs::wrapping_add_signed(a, b)
}

/// `x` rotated right by `n` modulo 32.
pub open spec fn rotr(x: u32, n: u32) -> u32 {
    if n & 31 == 0 {
        x
    } else {
        (x >> (n & 31)) | (x << (32 - (n & 31)) as u32)
    }
}

/// Logical shift right by `n` modulo 32, and whether `n` was 32 or more.
pub open spec fn shr_of(x: u32, n: u32) -> (u32, bool) {
    (x >> (n & 31), n >= 32)
}

/// Logical shift left by `n` modulo 32, and whether `n` was 32 or more.
pub open spec fn shl_of(x: u32, n: u32) -> (u32, bool) {
    (x << (n & 31), n >= 32)
}

/// Arithmetic shift right of `x` read as signed, by `n` modulo 32, and
/// whether `n` was 32 or more.
pub open spec fn asr_of(x: u32, n: u32) -> (u32, bool) {
    (((x as i32) >> (n & 31)) as u32, n >= 32)
}

/// `a + b + c` modulo 2^32, and whether it carried out of 32 bits.
pub open spec fn add_with_carry(a: u32, b: u32, c: bool) -> (u32, bool) {
    let s = a + b + (if c { 1int } else { 0int });
    ((s % 0x1_0000_0000) as u32, s > u32::MAX)
}

/// `a - b - borrow` modulo 2^32, and whether it borrowed.
pub open spec fn sub_with_borrow(a: u32, b: u32, borrow: bool) -> (u32, bool) {
    let d = a - b - (if borrow { 1int } else { 0int });
    ((if d < 0 { d + 0x1_0000_0000 } else { d }) as u32, d < 0)
}

/// Whether `a + b + c` leaves the range of a signed word.
pub open spec fn add_overflows(a: i32, b: i32, c: bool) -> bool {
    let s = a + b + (if c { 1int } else { 0int });
    s < i32::MIN || s > i32::MAX
}

/// Whether `a - b - borrow` leaves the range of a signed word.
pub open spec fn sub_overflows(a: i32, b: i32, borrow: bool) -> bool {
    let d = a - b - (if borrow { 1int } else { 0int });
    d < i32::MIN || d > i32::MAX
}

/// The low five bits of a shift amount, read as arithmetic.
pub proof fn lemma_low_five_bits(n: u32)
    ensures
        n & 31 == n % 32,
        n & 31 < 32,
{
    assert(n & 31 == n % 32) by (bit_vector);
}

pub(crate) fn rotate_right(x: u32, n: u32) -> (r: u32)
    ensures
        r == rotr(x, n),
{
    let k: u32 = n & 31;
    proof {
        lemma_low_five_bits(n);
    }
    if k == 0 {
        x
    } else {
        (x >> k) | (x << (32 - k))
    }
}

fn overflowing_shr(x: u32, n: u32) -> (r: (u32, bool))
    ensures
        r == shr_of(x, n),
{
    let k: u32 = n & 31;
    proof {
        lemma_low_five_bits(n);
    }
    (x >> k, n >= 32)
}

fn overflowing_shl(x: u32, n: u32) -> (r: (u32, bool))
    ensures
        r == shl_of(x, n),
{
    let k: u32 = n & 31;
    proof {
        lemma_low_five_bits(n);
    }
    (x << k, n >= 32)
}

fn overflowing_asr(x: u32, n: u32) -> (r: (u32, bool))
    ensures
        r == asr_of(x, n),
{
    let k: u32 = n & 31;
    proof {
        lemma_low_five_bits(n);
    }
    let s: i32 = x as i32;
    ((s >> k) as u32, n >= 32)
}

fn carrying_add(a: u32, b: u32, c: bool) -> (r: (u32, bool))
    ensures
        r == add_with_carry(a, b, c),
{
    let s: u64 = a as u64 + b as u64 + if c {
        1u64
    } else {
        0u64
    };
    ((s % 0x1_0000_0000) as u32, s > 0xFFFF_FFFF)
}

fn borrowing_sub(a: u32, b: u32, borrow: bool) -> (r: (u32, bool))
    ensures
        r == sub_with_borrow(a, b, borrow),
{
    let d: i64 = a as i64 - b as i64 - if borrow {
        1i64
    } else {
        0i64
    };
    if d < 0 {
        ((d + 0x1_0000_0000) as u32, true)
    } else {
        (d as u32, false)
    }
}

fn signed_add_overflows(a: i32, b: i32, c: bool) -> (r: bool)
    ensures
        r == add_overflows(a, b, c),
{
    let s: i64 = a as i64 + b as i64 + if c {
        1i64
    } else {
        0i64
    };
    s < -0x8000_0000 || s > 0x7FFF_FFFF
}

fn signed_sub_overflows(a: i32, b: i32, borrow: bool) -> (r: bool)
    ensures
        r == sub_overflows(a, b, borrow),
{
    let d: i64 = a as i64 - b as i64 - if borrow {
        1i64
    } else {
        0i64
    };
    d < -0x8000_0000 || d > 0x7FFF_FFFF
}

impl GbaModel {
    /// The state with one status flag set or cleared.
    pub open spec fn set_flag(self, f: u32, v: bool) -> GbaModel {
        GbaModel { cpsr: self.cpsr.with(f, v), ..self }
    }

    /// The state with N and Z taken from `res`, C from `carry`, V from `overflow`.
    pub open spec fn set_nzcv(self, res: u32, carry: bool, overflow: bool) -> GbaModel {
        self.set_flag(ProgramStatus::FLAG_N, (res & 0x80000000) != 0).set_flag(
            ProgramStatus::FLAG_Z,
            res == 0,
        ).set_flag(ProgramStatus::FLAG_C, carry).set_flag(ProgramStatus::FLAG_V, overflow)
    }

    /// The state with N and Z taken from `res` and C from `carry`.
    pub open spec fn set_nzc(self, res: u32, carry: bool) -> GbaModel {
        self.set_flag(ProgramStatus::FLAG_N, (res & 0x80000000) != 0).set_flag(
            ProgramStatus::FLAG_Z,
            res == 0,
        ).set_flag(ProgramStatus::FLAG_C, carry)
    }

    /// The value and carry-out of a data-processing operand.
    pub open spec fn shifter(self, so: DPShifterOperand) -> (u32, bool) {
        let c = self.cpsr.has(ProgramStatus::FLAG_C);
        match so {
            DPShifterOperand::Immediate { rotate, immed } => {
                let s = rotr(immed as u32, (rotate as u32 * 2) as u32);
                (s, (s & 0x80000000) != 0)
            },
            DPShifterOperand::ImmediateShift { immed, shift_type, rm } => {
                let x = self.reg(rm);
                match shift_type {
                    ShiftType::ASR => asr_of(x, immed as u32),
                    ShiftType::LSL => if immed == 0 {
                        (x, c)
                    } else {
                        shl_of(x, immed as u32)
                    },
                    ShiftType::LSR => shr_of(x, immed as u32),
                    ShiftType::ROR => (rotr(x, immed as u32), false),
                    ShiftType::RRX => {
                        let s = rotr(x, immed as u32);
                        (
                            (s & 0x7FFFFFFF) | (if c {
                                0x80000000u32
                            } else {
                                0u32
                            }),
                            (s & 0x80000000) != 0,
                        )
                    },
                }
            },
            DPShifterOperand::RegisterShift { rs, shift_type, rm } => {
                let x = self.reg(rm);
                let n = self.reg(rs);
                match shift_type {
                    ShiftType::ASR => asr_of(x, n),
                    ShiftType::LSL => shl_of(x, n),
                    ShiftType::LSR => shr_of(x, n),
                    ShiftType::ROR => (rotr(x, n), false),
                    ShiftType::RRX => (
                        (if c {
                            1u32
                        } else {
                            0u32
                        }) | shr_of(x, 1).0,
                        (x & 0x1) != 0,
                    ),
                }
            },
        }
    }

    /// A logical operation: `val` goes to `rd`; with `s`, a write to r15
    /// restores the saved status register, any other sets N and Z from the
    /// register and C from the shifter.
    pub open spec fn alu_logical(self, s: bool, rd: Register, val: u32, carry: bool) -> GbaModel {
        let m = self.write_reg(rd, val);
        if s {
            if rd == Register::R15 {
                m.load_mode_spsr()
            } else {
                m.set_nzc(m.reg(rd), carry)
            }
        } else {
            m
        }
    }

    /// An arithmetic operation: with `s`, the flags are set first (or, for a
    /// write to r15, the saved status register restored), then `res.0` goes
    /// to `rd`.
    pub open spec fn alu_arith(self, s: bool, rd: Register, res: (u32, bool), overflow: bool) -> GbaModel {
        let m = if s {
            if rd == Register::R15 {
                self.load_mode_spsr()
            } else {
                self.set_nzcv(res.0, res.1, overflow)
            }
        } else {
            self
        };
        m.write_reg(rd, res.0)
    }

    /// The state after a data-processing operation.
    #[verifier::opaque]
    pub open spec fn alu(
        self,
        op: DataProcessingOpcode,
        s: bool,
        rd: Register,
        rn: Register,
        so: DPShifterOperand,
    ) -> GbaModel {
        let sh = self.shifter(so);
        let a = self.reg(rn);
        let c = self.cpsr.has(ProgramStatus::FLAG_C);
        match op {
            DataProcessingOpcode::AND => self.alu_logical(s, rd, a & sh.0, sh.1),
            DataProcessingOpcode::EOR => self.alu_logical(s, rd, a ^ sh.0, sh.1),
            DataProcessingOpcode::ORR => self.alu_logical(s, rd, a | sh.0, sh.1),
            DataProcessingOpcode::RSB => {
                let ru = sub_with_borrow(sh.0, a, false);
                self.alu_arith(s, rd, (ru.0, !ru.1), sub_overflows(sh.0 as i32, a as i32, false))
            },
            DataProcessingOpcode::RSC => {
                let ru = sub_with_borrow(sh.0, a, !c);
                self.alu_arith(s, rd, (ru.0, !ru.1), sub_overflows(sh.0 as i32, a as i32, !c))
            },
            DataProcessingOpcode::ADD => {
                let v = if rn == Register::R15 {
                    a & 0xFFFFFFFC
                } else {
                    a
                };
                self.alu_arith(
                    s,
                    rd,
                    add_with_carry(v, sh.0, false),
                    add_overflows(v as i32, sh.0 as i32, false),
                )
            },
            DataProcessingOpcode::ADC => self.alu_arith(
                s,
                rd,
                add_with_carry(a, sh.0, c),
                add_overflows(a as i32, sh.0 as i32, c),
            ),
            DataProcessingOpcode::SUB => {
                let ru = sub_with_borrow(a, sh.0, false);
                self.alu_arith(s, rd, (ru.0, !ru.1), sub_overflows(a as i32, sh.0 as i32, false))
            },
            DataProcessingOpcode::SBC => {
                let ru = sub_with_borrow(a, sh.0, !c);
                self.alu_arith(s, rd, (ru.0, !ru.1), sub_overflows(a as i32, sh.0 as i32, !c))
            },
            DataProcessingOpcode::TST => self.set_nzc(a & sh.0, sh.1),
            DataProcessingOpcode::TEQ => self.set_nzc(a ^ sh.0, sh.1),
            DataProcessingOpcode::CMP => {
                let ru = sub_with_borrow(a, sh.0, false);
                self.set_nzcv(ru.0, !ru.1, sub_overflows(a as i32, sh.0 as i32, false))
            },
            DataProcessingOpcode::CMN => {
                let ru = add_with_carry(a, sh.0, false);
                self.set_nzcv(ru.0, !ru.1, add_overflows(a as i32, sh.0 as i32, false))
            },
            DataProcessingOpcode::MOV => {
                let m = self.write_reg(rd, sh.0);
                if s {
                    if rd == Register::R15 {
                        m.load_mode_spsr()
                    } else {
                        let m2 = m.set_flag(
                            ProgramStatus::FLAG_N,
                            (m.reg(rd) & 0x80000000) != 0,
                        ).set_flag(ProgramStatus::FLAG_Z, m.reg(rd) == 0);
                        if !m2.cpsr.has(ProgramStatus::FLAG_T) {
                            m2.set_flag(ProgramStatus::FLAG_C, sh.1)
                        } else {
                            m2
                        }
                    }
                } else {
                    m
                }
            },
            DataProcessingOpcode::MVN => self.alu_logical(s, rd, !sh.0, sh.1),
            DataProcessingOpcode::BIC => self.alu_logical(s, rd, self.reg(rd) & !sh.0, sh.1),
            DataProcessingOpcode::MUL => {
                let m = self.write_reg(rd, ((self.reg(rd) as nat * sh.0 as nat) % 0x1_0000_0000) as u32);
                m.set_flag(ProgramStatus::FLAG_N, (m.reg(rd) & 0x80000000) != 0).set_flag(
                    ProgramStatus::FLAG_Z,
                    m.reg(rd) == 0,
                )
            },
        }
    }
}

impl GbaSystem {
    fn update_flags(&mut self, ru: &(u32, bool), rs: &(i32, bool))
        ensures
            final(self)@ == old(self)@.set_nzcv(ru.0, ru.1, rs.1),
    {
        self.cpsr.set(ProgramStatus::FLAG_N, (ru.0 & 0x80000000) != 0);
        self.cpsr.set(ProgramStatus::FLAG_Z, ru.0 == 0);
        self.cpsr.set(ProgramStatus::FLAG_C, ru.1);
        self.cpsr.set(ProgramStatus::FLAG_V, rs.1);
    }

    fn calc_shifter_operand(&self, shifter_operand: &DPShifterOperand) -> (r: (u32, bool))
        ensures
            r == self@.shifter(*shifter_operand),
    {
        match *shifter_operand {
            DPShifterOperand::Immediate { rotate, immed } => {
                let s = rotate_right(immed as u32, rotate as u32 * 2);
                (s, (s & 0x80000000) != 0)
            },
            DPShifterOperand::ImmediateShift { immed, shift_type, rm } => {
                match shift_type {
                    ShiftType::ASR => overflowing_asr(self.read_register(rm), immed as u32),
                    ShiftType::LSL => if immed == 0 {
                        (self.read_register(rm), self.cpsr.contains(ProgramStatus::FLAG_C))
                    } else {
                        overflowing_shl(self.read_register(rm), immed as u32)
                    },
                    ShiftType::LSR => overflowing_shr(self.read_register(rm), immed as u32),
                    ShiftType::ROR => (rotate_right(self.read_register(rm), immed as u32), false),
                    ShiftType::RRX => {
                        let s = rotate_right(self.read_register(rm), immed as u32);
                        let nc = (s & 0x80000000) != 0;
                        (
                            (s & 0x7FFFFFFF) | (if self.cpsr.contains(ProgramStatus::FLAG_C) {
                                0x80000000
                            } else {
                                0
                            }),
                            nc,
                        )
                    },
                }
            },
            DPShifterOperand::RegisterShift { rs, shift_type, rm } => {
                match shift_type {
                    ShiftType::ASR => overflowing_asr(self.read_register(rm), self.read_register(rs)),
                    ShiftType::LSL => overflowing_shl(self.read_register(rm), self.read_register(rs)),
                    ShiftType::LSR => overflowing_shr(self.read_register(rm), self.read_register(rs)),
                    ShiftType::ROR => (
                        rotate_right(self.read_register(rm), self.read_register(rs)),
                        false,
                    ),
                    ShiftType::RRX => {
                        let s = (if self.cpsr.contains(ProgramStatus::FLAG_C) {
                            1
                        } else {
                            0
                        }) | overflowing_shr(self.read_register(rm), 1).0;
                        let co = (self.read_register(rm) & 0x1) != 0;
                        (s, co)
                    },
                }
            },
        }
    }

    fn write_logical(&mut self, update_flags: bool, rd: Register, val: u32, carry: bool)
        ensures
            final(self)@ == old(self)@.alu_logical(update_flags, rd, val, carry),
    {
        self.write_register(rd, val);
        if update_flags {
            if rd == Register::R15 {
                self.load_mode_spsr();
            } else {
                proof {
                    crate::arm::lemma_flag_keeps_mode(
                        self.cpsr,
                        ProgramStatus::FLAG_N,
                        (self@.reg(rd) & 0x80000000) != 0,
                    );
                }
                self.cpsr.set(ProgramStatus::FLAG_N, (self.read_register(rd) & 0x80000000) != 0);
                self.cpsr.set(ProgramStatus::FLAG_Z, self.read_register(rd) == 0);
                self.cpsr.set(ProgramStatus::FLAG_C, carry);
            }
        }
    }

    fn write_arith(&mut self, update_flags: bool, rd: Register, ru: (u32, bool), rs: (i32, bool))
        ensures
            final(self)@ == old(self)@.alu_arith(update_flags, rd, ru, rs.1),
    {
        if update_flags {
            if rd == Register::R15 {
                self.load_mode_spsr();
            } else {
                self.update_flags(&ru, &rs);
            }
        }
        self.write_register(rd, ru.0);
    }

    /// Performs a data-processing operation (see `GbaModel::alu`).
    pub fn alu_perform(
        &mut self,
        op: &DataProcessingOpcode,
        update_flags: bool,
        rd: Register,
        rn: Register,
        shifter_operand: &DPShifterOperand,
    )
        ensures
            final(self)@ == old(self)@.alu(*op, update_flags, rd, rn, *shifter_operand),
    {
        match *op {
            DataProcessingOpcode::AND | DataProcessingOpcode::EOR | DataProcessingOpcode::ORR
            | DataProcessingOpcode::MVN | DataProcessingOpcode::BIC => self.perform_logical(
                *op,
                update_flags,
                rd,
                rn,
                shifter_operand,
            ),
            DataProcessingOpcode::RSB | DataProcessingOpcode::RSC | DataProcessingOpcode::SUB
            | DataProcessingOpcode::SBC => self.perform_subtract(
                *op,
                update_flags,
                rd,
                rn,
                shifter_operand,
            ),
            DataProcessingOpcode::ADD | DataProcessingOpcode::ADC => self.perform_add(
                *op,
                update_flags,
                rd,
                rn,
                shifter_operand,
            ),
            DataProcessingOpcode::TST | DataProcessingOpcode::TEQ | DataProcessingOpcode::CMP
            | DataProcessingOpcode::CMN => self.perform_compare(
                *op,
                update_flags,
                rd,
                rn,
                shifter_operand,
            ),
            DataProcessingOpcode::MOV | DataProcessingOpcode::MUL => self.perform_move_multiply(
                *op,
                update_flags,
                rd,
                rn,
                shifter_operand,
            ),
        }
    }

    fn perform_logical(
        &mut self,
        op: DataProcessingOpcode,
        update_flags: bool,
        rd: Register,
        rn: Register,
        shifter_operand: &DPShifterOperand,
    )
        requires
            op == DataProcessingOpcode::AND || op == DataProcessingOpcode::EOR || op
                == DataProcessingOpcode::ORR || op == DataProcessingOpcode::MVN || op
                == DataProcessingOpcode::BIC,
        ensures
            final(self)@ == old(self)@.alu(op, update_flags, rd, rn, *shifter_operand),
    {
        proof {
            reveal(GbaModel::alu);
        }
        let shifter = self.calc_shifter_operand(shifter_operand);
        match op {
            DataProcessingOpcode::AND => {
                let v = self.read_register(rn) & shifter.0;
                self.write_logical(update_flags, rd, v, shifter.1);
            },
            DataProcessingOpcode::EOR => {
                let v = self.read_register(rn) ^ shifter.0;
                self.write_logical(update_flags, rd, v, shifter.1);
            },
            DataProcessingOpcode::ORR => {
                let v = self.read_register(rn) | shifter.0;
                self.write_logical(update_flags, rd, v, shifter.1);
            },
            DataProcessingOpcode::MVN => {
                self.write_logical(update_flags, rd, !shifter.0, shifter.1);
            },
            _ => {
                let v = self.read_register(rd) & !shifter.0;
                self.write_logical(update_flags, rd, v, shifter.1);
            },
        }
    }

    fn perform_subtract(
        &mut self,
        op: DataProcessingOpcode,
        update_flags: bool,
        rd: Register,
        rn: Register,
        shifter_operand: &DPShifterOperand,
    )
        requires
            op == DataProcessingOpcode::RSB || op == DataProcessingOpcode::RSC || op
                == DataProcessingOpcode::SUB || op == DataProcessingOpcode::SBC,
        ensures
            final(self)@ == old(self)@.alu(op, update_flags, rd, rn, *shifter_operand),
    {
        proof {
            reveal(GbaModel::alu);
        }
        let shifter = self.calc_shifter_operand(shifter_operand);
        let c = self.cpsr.contains(ProgramStatus::FLAG_C);
        let a = self.read_register(rn);
        let (x, y, borrow) = match op {
            DataProcessingOpcode::RSB => (shifter.0, a, false),
            DataProcessingOpcode::RSC => (shifter.0, a, !c),
            DataProcessingOpcode::SUB => (a, shifter.0, false),
            _ => (a, shifter.0, !c),
        };
        let mut ru = borrowing_sub(x, y, borrow);
        let rs = (
            (x as i32).wrapping_sub(y as i32).wrapping_sub(if borrow { 1 } else { 0 }),
            signed_sub_overflows(x as i32, y as i32, borrow),
        );
        // The carry flag is the inverse of the borrow.
        ru.1 = !ru.1;
        self.write_arith(update_flags, rd, ru, rs);
    }

    fn perform_add(
        &mut self,
        op: DataProcessingOpcode,
        update_flags: bool,
        rd: Register,
        rn: Register,
        shifter_operand: &DPShifterOperand,
    )
        requires
            op == DataProcessingOpcode::ADD || op == DataProcessingOpcode::ADC,
        ensures
            final(self)@ == old(self)@.alu(op, update_flags, rd, rn, *shifter_operand),
    {
        proof {
            reveal(GbaModel::alu);
        }
        let shifter = self.calc_shifter_operand(shifter_operand);
        let c = self.cpsr.contains(ProgramStatus::FLAG_C);
        let (reg_val, carry) = if op == DataProcessingOpcode::ADD {
            if rn == Register::R15 {
                (self.read_register(rn) & 0xFFFFFFFC, false)
            } else {
                (self.read_register(rn), false)
            }
        } else {
            (self.read_register(rn), c)
        };
        let ru = carrying_add(reg_val, shifter.0, carry);
        let rs = (
            (reg_val as i32).wrapping_add(shifter.0 as i32).wrapping_add(if carry { 1 } else { 0 }),
            signed_add_overflows(reg_val as i32, shifter.0 as i32, carry),
        );
        self.write_arith(update_flags, rd, ru, rs);
    }

    fn perform_compare(
        &mut self,
        op: DataProcessingOpcode,
        update_flags: bool,
        rd: Register,
        rn: Register,
        shifter_operand: &DPShifterOperand,
    )
        requires
            op == DataProcessingOpcode::TST || op == DataProcessingOpcode::TEQ || op
                == DataProcessingOpcode::CMP || op == DataProcessingOpcode::CMN,
        ensures
            final(self)@ == old(self)@.alu(op, update_flags, rd, rn, *shifter_operand),
    {
        proof {
            reveal(GbaModel::alu);
        }
        let shifter = self.calc_shifter_operand(shifter_operand);
        let a = self.read_register(rn);
        match op {
            DataProcessingOpcode::TST => {
                let r = a & shifter.0;
                self.cpsr.set(ProgramStatus::FLAG_N, (r & 0x80000000) != 0);
                self.cpsr.set(ProgramStatus::FLAG_Z, r == 0);
                self.cpsr.set(ProgramStatus::FLAG_C, shifter.1);
            },
            DataProcessingOpcode::TEQ => {
                let r = a ^ shifter.0;
                self.cpsr.set(ProgramStatus::FLAG_N, (r & 0x80000000) != 0);
                self.cpsr.set(ProgramStatus::FLAG_Z, r == 0);
                self.cpsr.set(ProgramStatus::FLAG_C, shifter.1);
            },
            DataProcessingOpcode::CMP => {
                let mut ru = borrowing_sub(a, shifter.0, false);
                let rs = (
                    (a as i32).wrapping_sub(shifter.0 as i32),
                    signed_sub_overflows(a as i32, shifter.0 as i32, false),
                );
                ru.1 = !ru.1;
                self.update_flags(&ru, &rs);
            },
            _ => {
                let mut ru = carrying_add(a, shifter.0, false);
                let rs = (
                    (a as i32).wrapping_add(shifter.0 as i32),
                    signed_add_overflows(a as i32, shifter.0 as i32, false),
                );
                ru.1 = !ru.1;
                self.update_flags(&ru, &rs);
            },
        }
    }

    fn perform_move_multiply(
        &mut self,
        op: DataProcessingOpcode,
        update_flags: bool,
        rd: Register,
        rn: Register,
        shifter_operand: &DPShifterOperand,
    )
        requires
            op == DataProcessingOpcode::MOV || op == DataProcessingOpcode::MUL,
        ensures
            final(self)@ == old(self)@.alu(op, update_flags, rd, rn, *shifter_operand),
    {
        proof {
            reveal(GbaModel::alu);
        }
        let shifter = self.calc_shifter_operand(shifter_operand);
        if op == DataProcessingOpcode::MOV {
            self.write_register(rd, shifter.0);
            if update_flags {
                if rd == Register::R15 {
                    self.load_mode_spsr();
                } else {
                    proof {
                        crate::arm::lemma_flag_keeps_mode(
                            self.cpsr,
                            ProgramStatus::FLAG_N,
                            (self@.reg(rd) & 0x80000000) != 0,
                        );
                    }
                    self.cpsr.set(ProgramStatus::FLAG_N, (self.read_register(rd) & 0x80000000) != 0);
                    self.cpsr.set(ProgramStatus::FLAG_Z, self.read_register(rd) == 0);
                    if !self.cpsr.contains(ProgramStatus::FLAG_T) {
                        self.cpsr.set(ProgramStatus::FLAG_C, shifter.1);
                    }
                }
            }
        } else {
            let v = self.read_register(rd).wrapping_mul(shifter.0);
            self.write_register(rd, v);
            proof {
                crate::arm::lemma_flag_keeps_mode(
                    self.cpsr,
                    ProgramStatus::FLAG_N,
                    (self@.reg(rd) & 0x80000000) != 0,
                );
            }
            self.cpsr.set(ProgramStatus::FLAG_N, (self.read_register(rd) & 0x80000000) != 0);
            self.cpsr.set(ProgramStatus::FLAG_Z, self.read_register(rd) == 0);
        }
    }
}

/// Addition: ADD sets the destination to the sum modulo 2^32 and, with S,
/// the carry flag to the carry out of bit 31 and Z to whether the sum is zero.
pub proof fn lemma_add_result(m: GbaModel, rd: Register, rn: Register, so: DPShifterOperand)
    requires
        rd != Register::R15,
        rn != Register::R15,
    ensures
        ({
            let a = m.reg(rn);
            let b = m.shifter(so).0;
            let r = m.alu(DataProcessingOpcode::ADD, true, rd, rn, so);
            &&& r.reg(rd) as int == (a + b) % 0x1_0000_0000
            &&& r.cpsr.has(ProgramStatus::FLAG_C) == (a + b > u32::MAX)
            &&& r.cpsr.has(ProgramStatus::FLAG_Z) == ((a + b) % 0x1_0000_0000 == 0)
        }),
{
    reveal(GbaModel::alu);
    let a = m.reg(rn);
    let b = m.shifter(so).0;
    let res = add_with_carry(a, b, false);
    let m1 = m.set_nzcv(res.0, res.1, add_overflows(a as i32, b as i32, false));
    flags_independent(m.cpsr.bits, res.0, res.1, add_overflows(a as i32, b as i32, false));
    crate::gba::lemma_write_then_read_register(m1, rd, rd, res.0);
    crate::arm::lemma_set_mode_get_mode(m.cpsr, m.mode());
}

/// Subtraction and comparison: after SUBS or CMP the carry flag is set
/// exactly when the first operand is not below the second (no borrow), and
/// Z exactly when they are equal; CMP changes no register.
pub proof fn lemma_compare_flags(m: GbaModel, rd: Register, rn: Register, so: DPShifterOperand)
    ensures
        ({
            let a = m.reg(rn);
            let b = m.shifter(so).0;
            let r = m.alu(DataProcessingOpcode::CMP, true, rd, rn, so);
            &&& r.cpsr.has(ProgramStatus::FLAG_C) == (a >= b)
            &&& r.cpsr.has(ProgramStatus::FLAG_Z) == (a == b)
            &&& r.r == m.r && r.r_fiq == m.r_fiq && r.r_svc == m.r_svc
            &&& r.r_abt == m.r_abt && r.r_irq == m.r_irq && r.r_und == m.r_und
        }),
{
    reveal(GbaModel::alu);
    let a = m.reg(rn);
    let b = m.shifter(so).0;
    let ru = sub_with_borrow(a, b, false);
    flags_independent(m.cpsr.bits, ru.0, !ru.1, sub_overflows(a as i32, b as i32, false));
}

/// Setting N, Z, C and V one after the other leaves each with its own value.
proof fn flags_independent(b: u32, res: u32, c: bool, v: bool)
    ensures
        ({
            let p = ProgramStatus { bits: b }.with(ProgramStatus::FLAG_N, (res & 0x80000000) != 0).with(
                ProgramStatus::FLAG_Z,
                res == 0,
            ).with(ProgramStatus::FLAG_C, c).with(ProgramStatus::FLAG_V, v);
            &&& p.has(ProgramStatus::FLAG_N) == ((res & 0x80000000) != 0)
            &&& p.has(ProgramStatus::FLAG_Z) == (res == 0)
            &&& p.has(ProgramStatus::FLAG_C) == c
            &&& p.has(ProgramStatus::FLAG_V) == v
            &&& p.bits & 0x1F == b & 0x1F
        }),
{
    let n = (res & 0x80000000) != 0;
    let z = res == 0;
    let b1 = if n { b | 0x80000000u32 } else { b & !0x80000000u32 };
    let b2 = if z { b1 | 0x40000000u32 } else { b1 & !0x40000000u32 };
    let b3 = if c { b2 | 0x20000000u32 } else { b2 & !0x20000000u32 };
    let b4 = if v { b3 | 0x10000000u32 } else { b3 & !0x10000000u32 };
    assert((b4 & 0x80000000 == 0x80000000) == n && (b4 & 0x40000000 == 0x40000000) == z && (b4
        & 0x20000000 == 0x20000000) == c && (b4 & 0x10000000 == 0x10000000) == v && b4 & 0x1F == b
        & 0x1F) by (bit_vector)
        requires
            b1 == if n { b | 0x80000000u32 } else { b & !0x80000000u32 },
            b2 == if z { b1 | 0x40000000u32 } else { b1 & !0x40000000u32 },
            b3 == if c { b2 | 0x20000000u32 } else { b2 & !0x20000000u32 },
            b4 == if v { b3 | 0x10000000u32 } else { b3 & !0x10000000u32 },
    ;
}

proof fn lemma_logical_keeps_memory(m: GbaModel, s: bool, rd: Register, v: u32, c: bool)
    ensures
        m.alu_logical(s, rd, v, c).same_memory(m),
        m.alu_logical(s, rd, v, c).same_system(m),
{
}

proof fn lemma_arith_keeps_memory(m: GbaModel, s: bool, rd: Register, res: (u32, bool), o: bool)
    ensures
        m.alu_arith(s, rd, res, o).same_memory(m),
        m.alu_arith(s, rd, res, o).same_system(m),
{
}

/// A data-processing instruction changes registers and flags only: the
/// memories, the I/O registers and the rest of the system stay as they were.
#[verifier::spinoff_prover]
pub proof fn lemma_data_processing_keeps_memory(
    m: GbaModel,
    op: DataProcessingOpcode,
    s: bool,
    rd: Register,
    rn: Register,
    so: DPShifterOperand,
)
    ensures
        m.alu(op, s, rd, rn, so).same_memory(m),
        m.alu(op, s, rd, rn, so).same_system(m),
{
    let sh = m.shifter(so);
    let a = m.reg(rn);
    let c = m.cpsr.has(ProgramStatus::FLAG_C);
    let r = m.alu(op, s, rd, rn, so);
    match op {
        DataProcessingOpcode::AND => {
            assert(r == m.alu_logical(s, rd, a & sh.0, sh.1)) by { reveal(GbaModel::alu); }
            lemma_logical_keeps_memory(m, s, rd, a & sh.0, sh.1);
        },
        DataProcessingOpcode::EOR => {
            assert(r == m.alu_logical(s, rd, a ^ sh.0, sh.1)) by { reveal(GbaModel::alu); }
            lemma_logical_keeps_memory(m, s, rd, a ^ sh.0, sh.1);
        },
        DataProcessingOpcode::ORR => {
            assert(r == m.alu_logical(s, rd, a | sh.0, sh.1)) by { reveal(GbaModel::alu); }
            lemma_logical_keeps_memory(m, s, rd, a | sh.0, sh.1);
        },
        DataProcessingOpcode::MVN => {
            assert(r == m.alu_logical(s, rd, !sh.0, sh.1)) by { reveal(GbaModel::alu); }
            lemma_logical_keeps_memory(m, s, rd, !sh.0, sh.1);
        },
        DataProcessingOpcode::BIC => {
            assert(r == m.alu_logical(s, rd, m.reg(rd) & !sh.0, sh.1)) by { reveal(GbaModel::alu); }
            lemma_logical_keeps_memory(m, s, rd, m.reg(rd) & !sh.0, sh.1);
        },
        DataProcessingOpcode::RSB => {
            let ru = sub_with_borrow(sh.0, a, false);
            let o = sub_overflows(sh.0 as i32, a as i32, false);
            assert(r == m.alu_arith(s, rd, (ru.0, !ru.1), o)) by { reveal(GbaModel::alu); }
            lemma_arith_keeps_memory(m, s, rd, (ru.0, !ru.1), o);
        },
        DataProcessingOpcode::RSC => {
            let ru = sub_with_borrow(sh.0, a, !c);
            let o = sub_overflows(sh.0 as i32, a as i32, !c);
            assert(r == m.alu_arith(s, rd, (ru.0, !ru.1), o)) by { reveal(GbaModel::alu); }
            lemma_arith_keeps_memory(m, s, rd, (ru.0, !ru.1), o);
        },
        DataProcessingOpcode::ADD => {
            let v = if rn == Register::R15 {
                a & 0xFFFFFFFC
            } else {
                a
            };
            let ru = add_with_carry(v, sh.0, false);
            let o = add_overflows(v as i32, sh.0 as i32, false);
            assert(r == m.alu_arith(s, rd, ru, o)) by { reveal(GbaModel::alu); }
            lemma_arith_keeps_memory(m, s, rd, ru, o);
        },
        DataProcessingOpcode::ADC => {
            let ru = add_with_carry(a, sh.0, c);
            let o = add_overflows(a as i32, sh.0 as i32, c);
            assert(r == m.alu_arith(s, rd, ru, o)) by { reveal(GbaModel::alu); }
            lemma_arith_keeps_memory(m, s, rd, ru, o);
        },
        DataProcessingOpcode::SUB => {
            let ru = sub_with_borrow(a, sh.0, false);
            let o = sub_overflows(a as i32, sh.0 as i32, false);
            assert(r == m.alu_arith(s, rd, (ru.0, !ru.1), o)) by { reveal(GbaModel::alu); }
            lemma_arith_keeps_memory(m, s, rd, (ru.0, !ru.1), o);
        },
        DataProcessingOpcode::SBC => {
            let ru = sub_with_borrow(a, sh.0, !c);
            let o = sub_overflows(a as i32, sh.0 as i32, !c);
            assert(r == m.alu_arith(s, rd, (ru.0, !ru.1), o)) by { reveal(GbaModel::alu); }
            lemma_arith_keeps_memory(m, s, rd, (ru.0, !ru.1), o);
        },
        _ => {
            assert(r.same_memory(m) && r.same_system(m)) by { reveal(GbaModel::alu); }
        },
    }
}

/// Setting N and Z from `res` and C from `carry` leaves the mode and every
/// other status bit of the mode field alone.
proof fn lemma_set_nzc_facts(m: GbaModel, res: u32, carry: bool)
    ensures
        m.set_nzc(res, carry).mode() == m.mode(),
        m.set_nzc(res, carry).cpsr.has(ProgramStatus::FLAG_N) == ((res & 0x80000000) != 0),
        m.set_nzc(res, carry).cpsr.has(ProgramStatus::FLAG_Z) == (res == 0),
        m.set_nzc(res, carry).cpsr.has(ProgramStatus::FLAG_C) == carry,
{
    let b = m.cpsr.bits;
    let n = (res & 0x80000000) != 0;
    let z = res == 0;
    let b1 = if n { b | 0x80000000u32 } else { b & !0x80000000u32 };
    let b2 = if z { b1 | 0x40000000u32 } else { b1 & !0x40000000u32 };
    let b3 = if carry { b2 | 0x20000000u32 } else { b2 & !0x20000000u32 };
    assert((b3 & 0x80000000 == 0x80000000) == n && (b3 & 0x40000000 == 0x40000000) == z && (b3
        & 0x20000000 == 0x20000000) == carry && b3 & 0x1F == b & 0x1F) by (bit_vector)
        requires
            b1 == if n { b | 0x80000000u32 } else { b & !0x80000000u32 },
            b2 == if z { b1 | 0x40000000u32 } else { b1 & !0x40000000u32 },
            b3 == if carry { b2 | 0x20000000u32 } else { b2 & !0x20000000u32 },
    ;
}

proof fn lemma_set_nzcv_facts(m: GbaModel, res: u32, carry: bool, overflow: bool)
    ensures
        m.set_nzcv(res, carry, overflow).mode() == m.mode(),
        m.set_nzcv(res, carry, overflow).cpsr.has(ProgramStatus::FLAG_N) == ((res & 0x80000000)
            != 0),
        m.set_nzcv(res, carry, overflow).cpsr.has(ProgramStatus::FLAG_Z) == (res == 0),
        m.set_nzcv(res, carry, overflow).cpsr.has(ProgramStatus::FLAG_C) == carry,
        m.set_nzcv(res, carry, overflow).cpsr.has(ProgramStatus::FLAG_V) == overflow,
{
    flags_independent(m.cpsr.bits, res, carry, overflow);
}

proof fn lemma_logical_result(m: GbaModel, s: bool, rd: Register, v: u32, c: bool)
    requires
        rd != Register::R15,
    ensures
        m.alu_logical(s, rd, v, c).reg(rd) == v,
        m.alu_logical(s, rd, v, c).mode() == m.mode(),
        forall|x: Register| x != rd ==> #[trigger] m.alu_logical(s, rd, v, c).reg(x) == m.reg(x),
        s ==> m.alu_logical(s, rd, v, c).cpsr.has(ProgramStatus::FLAG_N) == ((v & 0x80000000)
            != 0),
        s ==> m.alu_logical(s, rd, v, c).cpsr.has(ProgramStatus::FLAG_Z) == (v == 0),
        s ==> m.alu_logical(s, rd, v, c).cpsr.has(ProgramStatus::FLAG_C) == c,
{
    let m1 = m.write_reg(rd, v);
    assert forall|x: Register| x != rd implies #[trigger] m1.reg(x) == m.reg(x) by {
        crate::gba::lemma_write_then_read_register(m, rd, x, v);
    }
    crate::gba::lemma_write_then_read_register(m, rd, rd, v);
    lemma_set_nzc_facts(m1, v, c);
}

proof fn lemma_arith_result(m: GbaModel, s: bool, rd: Register, res: (u32, bool), o: bool)
    requires
        rd != Register::R15,
    ensures
        m.alu_arith(s, rd, res, o).reg(rd) == res.0,
        m.alu_arith(s, rd, res, o).mode() == m.mode(),
        forall|x: Register| x != rd ==> #[trigger] m.alu_arith(s, rd, res, o).reg(x) == m.reg(x),
        s ==> m.alu_arith(s, rd, res, o).cpsr.has(ProgramStatus::FLAG_N) == ((res.0 & 0x80000000)
            != 0),
        s ==> m.alu_arith(s, rd, res, o).cpsr.has(ProgramStatus::FLAG_Z) == (res.0 == 0),
        s ==> m.alu_arith(s, rd, res, o).cpsr.has(ProgramStatus::FLAG_C) == res.1,
        s ==> m.alu_arith(s, rd, res, o).cpsr.has(ProgramStatus::FLAG_V) == o,
{
    lemma_set_nzcv_facts(m, res.0, res.1, o);
    let m1 = if s {
        m.set_nzcv(res.0, res.1, o)
    } else {
        m
    };
    assert forall|x: Register| x != rd implies #[trigger] m1.write_reg(rd, res.0).reg(x) == m.reg(x) by {
        crate::gba::lemma_write_then_read_register(m1, rd, x, res.0);
    }
    crate::gba::lemma_write_then_read_register(m1, rd, rd, res.0);
}

/// Facts about words used by the flag laws: a word is zero exactly when it
/// XORs to zero with nothing, bit 31 is set exactly for values from 2^31 on.
proof fn lemma_word_facts(x: u32, y: u32)
    ensures
        (x ^ y == 0) == (x == y),
        ((x & 0x80000000) != 0) == (x >= 0x80000000),
{
    assert((x ^ y == 0) == (x == y) && ((x & 0x80000000) != 0) == (x >= 0x80000000)) by (bit_vector);
}

/// Setting N and Z from `res` leaves the mode alone and makes N and Z read
/// back as bit 31 of `res` and whether `res` is zero.
proof fn lemma_set_nz_facts(m: GbaModel, res: u32)
    ensures
        ({
            let n = m.set_flag(ProgramStatus::FLAG_N, (res & 0x80000000) != 0).set_flag(
                ProgramStatus::FLAG_Z,
                res == 0,
            );
            &&& n.mode() == m.mode()
            &&& n.cpsr.has(ProgramStatus::FLAG_N) == ((res & 0x80000000) != 0)
            &&& n.cpsr.has(ProgramStatus::FLAG_Z) == (res == 0)
            &&& n.cpsr.has(ProgramStatus::FLAG_T) == m.cpsr.has(ProgramStatus::FLAG_T)
        }),
{
    let b = m.cpsr.bits;
    let n = (res & 0x80000000) != 0;
    let z = res == 0;
    let b1 = if n { b | 0x80000000u32 } else { b & !0x80000000u32 };
    let b2 = if z { b1 | 0x40000000u32 } else { b1 & !0x40000000u32 };
    assert((b2 & 0x80000000 == 0x80000000) == n && (b2 & 0x40000000 == 0x40000000) == z && b2
        & 0x1F == b & 0x1F && (b2 & 0x20 == 0x20) == (b & 0x20 == 0x20)) by (bit_vector)
        requires
            b1 == if n { b | 0x80000000u32 } else { b & !0x80000000u32 },
            b2 == if z { b1 | 0x40000000u32 } else { b1 & !0x40000000u32 },
    ;
}

/// AND: the destination register and the status flags it leaves (see
/// `lemma_data_processing_result`); no other register changes.
#[verifier::spinoff_prover]
pub proof fn lemma_dp_result_and(m: GbaModel, op: DataProcessingOpcode, s: bool, rd: Register, rn: Register, so: DPShifterOperand)
    requires
        rd != Register::R15,
        op == DataProcessingOpcode::AND,
    ensures
        ({
            let a = m.reg(rn);
            let b = m.shifter(so).0;
            let ci: int = if m.cpsr.has(ProgramStatus::FLAG_C) {
                1
            } else {
                0
            };
            let r = m.alu(op, s, rd, rn, so);
            &&& r.mode() == m.mode()
            &&& forall|x: Register| x != rd ==> #[trigger] r.reg(x) == m.reg(x)
            &&& r.reg(rd) == a & b
            &&& s ==> (r.cpsr.has(ProgramStatus::FLAG_N) == ((r.reg(rd) & 0x80000000) != 0) && r.cpsr.has(ProgramStatus::FLAG_Z) == (r.reg(rd) == 0) && r.cpsr.has(ProgramStatus::FLAG_C) == m.shifter(so).1)
        }),
{
    let sh = m.shifter(so);
    let a = m.reg(rn);
    let c = m.cpsr.has(ProgramStatus::FLAG_C);
    let r = m.alu(op, s, rd, rn, so);
    assert(r == m.alu_logical(s, rd, a & sh.0, sh.1)) by { reveal(GbaModel::alu); }
    lemma_logical_result(m, s, rd, a & sh.0, sh.1);
}

/// EOR: the destination register and the status flags it leaves (see
/// `lemma_data_processing_result`); no other register changes.
#[verifier::spinoff_prover]
pub proof fn lemma_dp_result_eor(m: GbaModel, op: DataProcessingOpcode, s: bool, rd: Register, rn: Register, so: DPShifterOperand)
    requires
        rd != Register::R15,
        op == DataProcessingOpcode::EOR,
    ensures
        ({
            let a = m.reg(rn);
            let b = m.shifter(so).0;
            let ci: int = if m.cpsr.has(ProgramStatus::FLAG_C) {
                1
            } else {
                0
            };
            let r = m.alu(op, s, rd, rn, so);
            &&& r.mode() == m.mode()
            &&& forall|x: Register| x != rd ==> #[trigger] r.reg(x) == m.reg(x)
            &&& r.reg(rd) == a ^ b
            &&& s ==> (r.cpsr.has(ProgramStatus::FLAG_N) == ((r.reg(rd) & 0x80000000) != 0) && r.cpsr.has(ProgramStatus::FLAG_Z) == (r.reg(rd) == 0) && r.cpsr.has(ProgramStatus::FLAG_C) == m.shifter(so).1)
        }),
{
    let sh = m.shifter(so);
    let a = m.reg(rn);
    let c = m.cpsr.has(ProgramStatus::FLAG_C);
    let r = m.alu(op, s, rd, rn, so);
    assert(r == m.alu_logical(s, rd, a ^ sh.0, sh.1)) by { reveal(GbaModel::alu); }
    lemma_logical_result(m, s, rd, a ^ sh.0, sh.1);
}

/// ORR: the destination register and the status flags it leaves (see
/// `lemma_data_processing_result`); no other register changes.
#[verifier::spinoff_prover]
pub proof fn lemma_dp_result_orr(m: GbaModel, op: DataProcessingOpcode, s: bool, rd: Register, rn: Register, so: DPShifterOperand)
    requires
        rd != Register::R15,
        op == DataProcessingOpcode::ORR,
    ensures
        ({
            let a = m.reg(rn);
            let b = m.shifter(so).0;
            let ci: int = if m.cpsr.has(ProgramStatus::FLAG_C) {
                1
            } else {
                0
            };
            let r = m.alu(op, s, rd, rn, so);
            &&& r.mode() == m.mode()
            &&& forall|x: Register| x != rd ==> #[trigger] r.reg(x) == m.reg(x)
            &&& r.reg(rd) == a | b
            &&& s ==> (r.cpsr.has(ProgramStatus::FLAG_N) == ((r.reg(rd) & 0x80000000) != 0) && r.cpsr.has(ProgramStatus::FLAG_Z) == (r.reg(rd) == 0) && r.cpsr.has(ProgramStatus::FLAG_C) == m.shifter(so).1)
        }),
{
    let sh = m.shifter(so);
    let a = m.reg(rn);
    let c = m.cpsr.has(ProgramStatus::FLAG_C);
    let r = m.alu(op, s, rd, rn, so);
    assert(r == m.alu_logical(s, rd, a | sh.0, sh.1)) by { reveal(GbaModel::alu); }
    lemma_logical_result(m, s, rd, a | sh.0, sh.1);
}

/// MVN: the destination register and the status flags it leaves (see
/// `lemma_data_processing_result`); no other register changes.
#[verifier::spinoff_prover]
pub proof fn lemma_dp_result_mvn(m: GbaModel, op: DataProcessingOpcode, s: bool, rd: Register, rn: Register, so: DPShifterOperand)
    requires
        rd != Register::R15,
        op == DataProcessingOpcode::MVN,
    ensures
        ({
            let a = m.reg(rn);
            let b = m.shifter(so).0;
            let ci: int = if m.cpsr.has(ProgramStatus::FLAG_C) {
                1
            } else {
                0
            };
            let r = m.alu(op, s, rd, rn, so);
            &&& r.mode() == m.mode()
            &&& forall|x: Register| x != rd ==> #[trigger] r.reg(x) == m.reg(x)
            &&& r.reg(rd) == !b
            &&& s ==> (r.cpsr.has(ProgramStatus::FLAG_N) == ((r.reg(rd) & 0x80000000) != 0) && r.cpsr.has(ProgramStatus::FLAG_Z) == (r.reg(rd) == 0) && r.cpsr.has(ProgramStatus::FLAG_C) == m.shifter(so).1)
        }),
{
    let sh = m.shifter(so);
    let a = m.reg(rn);
    let c = m.cpsr.has(ProgramStatus::FLAG_C);
    let r = m.alu(op, s, rd, rn, so);
    assert(r == m.alu_logical(s, rd, !sh.0, sh.1)) by { reveal(GbaModel::alu); }
    lemma_logical_result(m, s, rd, !sh.0, sh.1);
}

/// BIC: the destination register and the status flags it leaves (see
/// `lemma_data_processing_result`); no other register changes.
#[verifier::spinoff_prover]
pub proof fn lemma_dp_result_bic(m: GbaModel, op: DataProcessingOpcode, s: bool, rd: Register, rn: Register, so: DPShifterOperand)
    requires
        rd != Register::R15,
        op == DataProcessingOpcode::BIC,
    ensures
        ({
            let a = m.reg(rn);
            let b = m.shifter(so).0;
            let ci: int = if m.cpsr.has(ProgramStatus::FLAG_C) {
                1
            } else {
                0
            };
            let r = m.alu(op, s, rd, rn, so);
            &&& r.mode() == m.mode()
            &&& forall|x: Register| x != rd ==> #[trigger] r.reg(x) == m.reg(x)
            &&& r.reg(rd) == m.reg(rd) & !b
            &&& s ==> (r.cpsr.has(ProgramStatus::FLAG_N) == ((r.reg(rd) & 0x80000000) != 0) && r.cpsr.has(ProgramStatus::FLAG_Z) == (r.reg(rd) == 0) && r.cpsr.has(ProgramStatus::FLAG_C) == m.shifter(so).1)
        }),
{
    let sh = m.shifter(so);
    let a = m.reg(rn);
    let c = m.cpsr.has(ProgramStatus::FLAG_C);
    let r = m.alu(op, s, rd, rn, so);
    assert(r == m.alu_logical(s, rd, m.reg(rd) & !sh.0, sh.1)) by { reveal(GbaModel::alu); }
    lemma_logical_result(m, s, rd, m.reg(rd) & !sh.0, sh.1);
}

/// RSB: the destination register and the status flags it leaves (see
/// `lemma_data_processing_result`); no other register changes.
#[verifier::spinoff_prover]
pub proof fn lemma_dp_result_rsb(m: GbaModel, op: DataProcessingOpcode, s: bool, rd: Register, rn: Register, so: DPShifterOperand)
    requires
        rd != Register::R15,
        op == DataProcessingOpcode::RSB,
    ensures
        ({
            let a = m.reg(rn);
            let b = m.shifter(so).0;
            let ci: int = if m.cpsr.has(ProgramStatus::FLAG_C) {
                1
            } else {
                0
            };
            let r = m.alu(op, s, rd, rn, so);
            &&& r.mode() == m.mode()
            &&& forall|x: Register| x != rd ==> #[trigger] r.reg(x) == m.reg(x)
            &&& r.reg(rd) as int == (b - a) % 0x1_0000_0000
            &&& s ==> (r.cpsr.has(ProgramStatus::FLAG_N) == ((r.reg(rd) & 0x80000000) != 0) && r.cpsr.has(ProgramStatus::FLAG_Z) == (r.reg(rd) == 0) && r.cpsr.has(ProgramStatus::FLAG_C) == (b >= a) && r.cpsr.has(ProgramStatus::FLAG_V) == !(i32::MIN <= b as i32 - a as i32 <= i32::MAX))
        }),
{
    let sh = m.shifter(so);
    let a = m.reg(rn);
    let c = m.cpsr.has(ProgramStatus::FLAG_C);
    let r = m.alu(op, s, rd, rn, so);
    let ru = sub_with_borrow(sh.0, a, false);
    let o = sub_overflows(sh.0 as i32, a as i32, false);
    assert(r == m.alu_arith(s, rd, (ru.0, !ru.1), o)) by { reveal(GbaModel::alu); }
    lemma_arith_result(m, s, rd, (ru.0, !ru.1), o);
}

/// RSC: the destination register and the status flags it leaves (see
/// `lemma_data_processing_result`); no other register changes.
#[verifier::spinoff_prover]
pub proof fn lemma_dp_result_rsc(m: GbaModel, op: DataProcessingOpcode, s: bool, rd: Register, rn: Register, so: DPShifterOperand)
    requires
        rd != Register::R15,
        op == DataProcessingOpcode::RSC,
    ensures
        ({
            let a = m.reg(rn);
            let b = m.shifter(so).0;
            let ci: int = if m.cpsr.has(ProgramStatus::FLAG_C) {
                1
            } else {
                0
            };
            let r = m.alu(op, s, rd, rn, so);
            &&& r.mode() == m.mode()
            &&& forall|x: Register| x != rd ==> #[trigger] r.reg(x) == m.reg(x)
            &&& r.reg(rd) as int == (b - a - (1 - ci)) % 0x1_0000_0000
            &&& s ==> (r.cpsr.has(ProgramStatus::FLAG_N) == ((r.reg(rd) & 0x80000000) != 0) && r.cpsr.has(ProgramStatus::FLAG_Z) == (r.reg(rd) == 0) && r.cpsr.has(ProgramStatus::FLAG_C) == (b - a - (1 - ci) >= 0) && r.cpsr.has(ProgramStatus::FLAG_V) == !(i32::MIN <= b as i32 - a as i32 - (1 - ci) <= i32::MAX))
        }),
{
    let sh = m.shifter(so);
    let a = m.reg(rn);
    let c = m.cpsr.has(ProgramStatus::FLAG_C);
    let r = m.alu(op, s, rd, rn, so);
    let ru = sub_with_borrow(sh.0, a, !c);
    let o = sub_overflows(sh.0 as i32, a as i32, !c);
    assert(r == m.alu_arith(s, rd, (ru.0, !ru.1), o)) by { reveal(GbaModel::alu); }
    lemma_arith_result(m, s, rd, (ru.0, !ru.1), o);
}

/// ADD: the destination register and the status flags it leaves (see
/// `lemma_data_processing_result`); no other register changes.
#[verifier::spinoff_prover]
pub proof fn lemma_dp_result_add(m: GbaModel, op: DataProcessingOpcode, s: bool, rd: Register, rn: Register, so: DPShifterOperand)
    requires
        rd != Register::R15,
        op == DataProcessingOpcode::ADD,
    ensures
        ({
            let a = m.reg(rn);
            let b = m.shifter(so).0;
            let ci: int = if m.cpsr.has(ProgramStatus::FLAG_C) {
                1
            } else {
                0
            };
            let r = m.alu(op, s, rd, rn, so);
            &&& r.mode() == m.mode()
            &&& forall|x: Register| x != rd ==> #[trigger] r.reg(x) == m.reg(x)
            &&& r.reg(rd) as int == ((if rn == Register::R15 { a & 0xFFFFFFFC } else { a }) + b) % 0x1_0000_0000
            &&& s ==> (r.cpsr.has(ProgramStatus::FLAG_N) == ((r.reg(rd) & 0x80000000) != 0) && r.cpsr.has(ProgramStatus::FLAG_Z) == (r.reg(rd) == 0) && r.cpsr.has(ProgramStatus::FLAG_C) == ((if rn == Register::R15 { a & 0xFFFFFFFC } else { a }) + b > u32::MAX) && r.cpsr.has(ProgramStatus::FLAG_V) == !(i32::MIN <= (if rn == Register::R15 { a & 0xFFFFFFFC } else { a }) as i32 + b as i32 <= i32::MAX))
        }),
{
    let sh = m.shifter(so);
    let a = m.reg(rn);
    let c = m.cpsr.has(ProgramStatus::FLAG_C);
    let r = m.alu(op, s, rd, rn, so);
    let v = if rn == Register::R15 {
        a & 0xFFFFFFFC
    } else {
        a
    };
    let ru = add_with_carry(v, sh.0, false);
    let o = add_overflows(v as i32, sh.0 as i32, false);
    assert(r == m.alu_arith(s, rd, ru, o)) by { reveal(GbaModel::alu); }
    lemma_arith_result(m, s, rd, ru, o);
}

/// ADC: the destination register and the status flags it leaves (see
/// `lemma_data_processing_result`); no other register changes.
#[verifier::spinoff_prover]
pub proof fn lemma_dp_result_adc(m: GbaModel, op: DataProcessingOpcode, s: bool, rd: Register, rn: Register, so: DPShifterOperand)
    requires
        rd != Register::R15,
        op == DataProcessingOpcode::ADC,
    ensures
        ({
            let a = m.reg(rn);
            let b = m.shifter(so).0;
            let ci: int = if m.cpsr.has(ProgramStatus::FLAG_C) {
                1
            } else {
                0
            };
            let r = m.alu(op, s, rd, rn, so);
            &&& r.mode() == m.mode()
            &&& forall|x: Register| x != rd ==> #[trigger] r.reg(x) == m.reg(x)
            &&& r.reg(rd) as int == (a + b + ci) % 0x1_0000_0000
            &&& s ==> (r.cpsr.has(ProgramStatus::FLAG_N) == ((r.reg(rd) & 0x80000000) != 0) && r.cpsr.has(ProgramStatus::FLAG_Z) == (r.reg(rd) == 0) && r.cpsr.has(ProgramStatus::FLAG_C) == (a + b + ci > u32::MAX) && r.cpsr.has(ProgramStatus::FLAG_V) == !(i32::MIN <= a as i32 + b as i32 + ci <= i32::MAX))
        }),
{
    let sh = m.shifter(so);
    let a = m.reg(rn);
    let c = m.cpsr.has(ProgramStatus::FLAG_C);
    let r = m.alu(op, s, rd, rn, so);
    let ru = add_with_carry(a, sh.0, c);
    let o = add_overflows(a as i32, sh.0 as i32, c);
    assert(r == m.alu_arith(s, rd, ru, o)) by { reveal(GbaModel::alu); }
    lemma_arith_result(m, s, rd, ru, o);
}

/// SUB: the destination register and the status flags it leaves (see
/// `lemma_data_processing_result`); no other register changes.
#[verifier::spinoff_prover]
pub proof fn lemma_dp_result_sub(m: GbaModel, op: DataProcessingOpcode, s: bool, rd: Register, rn: Register, so: DPShifterOperand)
    requires
        rd != Register::R15,
        op == DataProcessingOpcode::SUB,
    ensures
        ({
            let a = m.reg(rn);
            let b = m.shifter(so).0;
            let ci: int = if m.cpsr.has(ProgramStatus::FLAG_C) {
                1
            } else {
                0
            };
            let r = m.alu(op, s, rd, rn, so);
            &&& r.mode() == m.mode()
            &&& forall|x: Register| x != rd ==> #[trigger] r.reg(x) == m.reg(x)
            &&& r.reg(rd) as int == (a - b) % 0x1_0000_0000
            &&& s ==> (r.cpsr.has(ProgramStatus::FLAG_N) == ((r.reg(rd) & 0x80000000) != 0) && r.cpsr.has(ProgramStatus::FLAG_Z) == (r.reg(rd) == 0) && r.cpsr.has(ProgramStatus::FLAG_C) == (a >= b) && r.cpsr.has(ProgramStatus::FLAG_V) == !(i32::MIN <= a as i32 - b as i32 <= i32::MAX))
        }),
{
    let sh = m.shifter(so);
    let a = m.reg(rn);
    let c = m.cpsr.has(ProgramStatus::FLAG_C);
    let r = m.alu(op, s, rd, rn, so);
    let ru = sub_with_borrow(a, sh.0, false);
    let o = sub_overflows(a as i32, sh.0 as i32, false);
    assert(r == m.alu_arith(s, rd, (ru.0, !ru.1), o)) by { reveal(GbaModel::alu); }
    lemma_arith_result(m, s, rd, (ru.0, !ru.1), o);
}

/// SBC: the destination register and the status flags it leaves (see
/// `lemma_data_processing_result`); no other register changes.
#[verifier::spinoff_prover]
pub proof fn lemma_dp_result_sbc(m: GbaModel, op: DataProcessingOpcode, s: bool, rd: Register, rn: Register, so: DPShifterOperand)
    requires
        rd != Register::R15,
        op == DataProcessingOpcode::SBC,
    ensures
        ({
            let a = m.reg(rn);
            let b = m.shifter(so).0;
            let ci: int = if m.cpsr.has(ProgramStatus::FLAG_C) {
                1
            } else {
                0
            };
            let r = m.alu(op, s, rd, rn, so);
            &&& r.mode() == m.mode()
            &&& forall|x: Register| x != rd ==> #[trigger] r.reg(x) == m.reg(x)
            &&& r.reg(rd) as int == (a - b - (1 - ci)) % 0x1_0000_0000
            &&& s ==> (r.cpsr.has(ProgramStatus::FLAG_N) == ((r.reg(rd) & 0x80000000) != 0) && r.cpsr.has(ProgramStatus::FLAG_Z) == (r.reg(rd) == 0) && r.cpsr.has(ProgramStatus::FLAG_C) == (a - b - (1 - ci) >= 0) && r.cpsr.has(ProgramStatus::FLAG_V) == !(i32::MIN <= a as i32 - b as i32 - (1 - ci) <= i32::MAX))
        }),
{
    let sh = m.shifter(so);
    let a = m.reg(rn);
    let c = m.cpsr.has(ProgramStatus::FLAG_C);
    let r = m.alu(op, s, rd, rn, so);
    let ru = sub_with_borrow(a, sh.0, !c);
    let o = sub_overflows(a as i32, sh.0 as i32, !c);
    assert(r == m.alu_arith(s, rd, (ru.0, !ru.1), o)) by { reveal(GbaModel::alu); }
    lemma_arith_result(m, s, rd, (ru.0, !ru.1), o);
}

/// TST: the destination register and the status flags it leaves (see
/// `lemma_data_processing_result`); no other register changes.
#[verifier::spinoff_prover]
pub proof fn lemma_dp_result_tst(m: GbaModel, op: DataProcessingOpcode, s: bool, rd: Register, rn: Register, so: DPShifterOperand)
    requires
        rd != Register::R15,
        op == DataProcessingOpcode::TST,
    ensures
        ({
            let a = m.reg(rn);
            let b = m.shifter(so).0;
            let ci: int = if m.cpsr.has(ProgramStatus::FLAG_C) {
                1
            } else {
                0
            };
            let r = m.alu(op, s, rd, rn, so);
            &&& r.mode() == m.mode()
            &&& forall|x: Register| x != rd ==> #[trigger] r.reg(x) == m.reg(x)
            &&& r.reg(rd) == m.reg(rd)
            &&& r.cpsr.has(ProgramStatus::FLAG_N) == ((a & b & 0x80000000) != 0) && r.cpsr.has(ProgramStatus::FLAG_Z) == (a & b == 0) && r.cpsr.has(ProgramStatus::FLAG_C) == m.shifter(so).1
        }),
{
    lemma_word_facts(m.reg(rn) & m.shifter(so).0, 0);
    let sh = m.shifter(so);
    let a = m.reg(rn);
    let c = m.cpsr.has(ProgramStatus::FLAG_C);
    let r = m.alu(op, s, rd, rn, so);
    assert(r == m.set_nzc(a & sh.0, sh.1)) by { reveal(GbaModel::alu); }
    lemma_set_nzc_facts(m, a & sh.0, sh.1);
}

/// TEQ: the destination register and the status flags it leaves (see
/// `lemma_data_processing_result`); no other register changes.
#[verifier::spinoff_prover]
pub proof fn lemma_dp_result_teq(m: GbaModel, op: DataProcessingOpcode, s: bool, rd: Register, rn: Register, so: DPShifterOperand)
    requires
        rd != Register::R15,
        op == DataProcessingOpcode::TEQ,
    ensures
        ({
            let a = m.reg(rn);
            let b = m.shifter(so).0;
            let ci: int = if m.cpsr.has(ProgramStatus::FLAG_C) {
                1
            } else {
                0
            };
            let r = m.alu(op, s, rd, rn, so);
            &&& r.mode() == m.mode()
            &&& forall|x: Register| x != rd ==> #[trigger] r.reg(x) == m.reg(x)
            &&& r.reg(rd) == m.reg(rd)
            &&& r.cpsr.has(ProgramStatus::FLAG_N) == (((a ^ b) & 0x80000000) != 0) && r.cpsr.has(ProgramStatus::FLAG_Z) == (a == b) && r.cpsr.has(ProgramStatus::FLAG_C) == m.shifter(so).1
        }),
{
    lemma_word_facts(m.reg(rn), m.shifter(so).0);
    lemma_word_facts(m.reg(rn) ^ m.shifter(so).0, 0);
    let sh = m.shifter(so);
    let a = m.reg(rn);
    let c = m.cpsr.has(ProgramStatus::FLAG_C);
    let r = m.alu(op, s, rd, rn, so);
    assert(r == m.set_nzc(a ^ sh.0, sh.1)) by { reveal(GbaModel::alu); }
    lemma_set_nzc_facts(m, a ^ sh.0, sh.1);
}

/// CMP: the destination register and the status flags it leaves (see
/// `lemma_data_processing_result`); no other register changes.
#[verifier::spinoff_prover]
pub proof fn lemma_dp_result_compare(m: GbaModel, op: DataProcessingOpcode, s: bool, rd: Register, rn: Register, so: DPShifterOperand)
    requires
        rd != Register::R15,
        op == DataProcessingOpcode::CMP,
    ensures
        ({
            let a = m.reg(rn);
            let b = m.shifter(so).0;
            let ci: int = if m.cpsr.has(ProgramStatus::FLAG_C) {
                1
            } else {
                0
            };
            let r = m.alu(op, s, rd, rn, so);
            &&& r.mode() == m.mode()
            &&& forall|x: Register| x != rd ==> #[trigger] r.reg(x) == m.reg(x)
            &&& r.reg(rd) == m.reg(rd)
            &&& r.cpsr.has(ProgramStatus::FLAG_N) == ((a - b) % 0x1_0000_0000 >= 0x8000_0000) && r.cpsr.has(ProgramStatus::FLAG_Z) == (a == b) && r.cpsr.has(ProgramStatus::FLAG_C) == (a >= b) && r.cpsr.has(ProgramStatus::FLAG_V) == !(i32::MIN <= a as i32 - b as i32 <= i32::MAX)
        }),
{
    lemma_word_facts(sub_with_borrow(m.reg(rn), m.shifter(so).0, false).0, 0);
    let sh = m.shifter(so);
    let a = m.reg(rn);
    let c = m.cpsr.has(ProgramStatus::FLAG_C);
    let r = m.alu(op, s, rd, rn, so);
    let ru = sub_with_borrow(a, sh.0, false);
    let o = sub_overflows(a as i32, sh.0 as i32, false);
    assert(r == m.set_nzcv(ru.0, !ru.1, o)) by { reveal(GbaModel::alu); }
    lemma_set_nzcv_facts(m, ru.0, !ru.1, o);
}

/// CMN: the destination register and the status flags it leaves (see
/// `lemma_data_processing_result`); no other register changes.
#[verifier::spinoff_prover]
pub proof fn lemma_dp_result_compare_negative(m: GbaModel, op: DataProcessingOpcode, s: bool, rd: Register, rn: Register, so: DPShifterOperand)
    requires
        rd != Register::R15,
        op == DataProcessingOpcode::CMN,
    ensures
        ({
            let a = m.reg(rn);
            let b = m.shifter(so).0;
            let ci: int = if m.cpsr.has(ProgramStatus::FLAG_C) {
                1
            } else {
                0
            };
            let r = m.alu(op, s, rd, rn, so);
            &&& r.mode() == m.mode()
            &&& forall|x: Register| x != rd ==> #[trigger] r.reg(x) == m.reg(x)
            &&& r.reg(rd) == m.reg(rd)
            &&& r.cpsr.has(ProgramStatus::FLAG_N) == ((a + b) % 0x1_0000_0000 >= 0x8000_0000) && r.cpsr.has(ProgramStatus::FLAG_Z) == ((a + b) % 0x1_0000_0000 == 0) && r.cpsr.has(ProgramStatus::FLAG_C) == (a + b <= u32::MAX) && r.cpsr.has(ProgramStatus::FLAG_V) == !(i32::MIN <= a as i32 + b as i32 <= i32::MAX)
        }),
{
    lemma_word_facts(add_with_carry(m.reg(rn), m.shifter(so).0, false).0, 0);
    let sh = m.shifter(so);
    let a = m.reg(rn);
    let c = m.cpsr.has(ProgramStatus::FLAG_C);
    let r = m.alu(op, s, rd, rn, so);
    let ru = add_with_carry(a, sh.0, false);
    let o = add_overflows(a as i32, sh.0 as i32, false);
    assert(r == m.set_nzcv(ru.0, !ru.1, o)) by { reveal(GbaModel::alu); }
    lemma_set_nzcv_facts(m, ru.0, !ru.1, o);
}

/// MOV: the destination register and the status flags it leaves (see
/// `lemma_data_processing_result`); no other register changes.
#[verifier::spinoff_prover]
pub proof fn lemma_dp_result_mov(m: GbaModel, op: DataProcessingOpcode, s: bool, rd: Register, rn: Register, so: DPShifterOperand)
    requires
        rd != Register::R15,
        op == DataProcessingOpcode::MOV,
    ensures
        ({
            let a = m.reg(rn);
            let b = m.shifter(so).0;
            let ci: int = if m.cpsr.has(ProgramStatus::FLAG_C) {
                1
            } else {
                0
            };
            let r = m.alu(op, s, rd, rn, so);
            &&& r.mode() == m.mode()
            &&& forall|x: Register| x != rd ==> #[trigger] r.reg(x) == m.reg(x)
            &&& r.reg(rd) == b
            &&& s ==> (r.cpsr.has(ProgramStatus::FLAG_N) == ((r.reg(rd) & 0x80000000) != 0) && r.cpsr.has(ProgramStatus::FLAG_Z) == (r.reg(rd) == 0)) && (s && !m.cpsr.has(ProgramStatus::FLAG_T) ==> r.cpsr.has(ProgramStatus::FLAG_C) == m.shifter(so).1)
        }),
{
    let m1v = m.write_reg(rd, m.shifter(so).0);
    crate::gba::lemma_write_then_read_register(m, rd, rd, m.shifter(so).0);
    lemma_set_nz_facts(m1v, m.shifter(so).0);
    lemma_set_nzc_facts(m1v, m.shifter(so).0, m.shifter(so).1);
    let sh = m.shifter(so);
    let a = m.reg(rn);
    let c = m.cpsr.has(ProgramStatus::FLAG_C);
    let r = m.alu(op, s, rd, rn, so);
    let m1 = m.write_reg(rd, sh.0);
    assert forall|x: Register| x != rd implies #[trigger] m1.reg(x) == m.reg(x) by {
        crate::gba::lemma_write_then_read_register(m, rd, x, sh.0);
    }
    crate::gba::lemma_write_then_read_register(m, rd, rd, sh.0);
    let m2 = m1.set_flag(ProgramStatus::FLAG_N, (m1.reg(rd) & 0x80000000) != 0).set_flag(
        ProgramStatus::FLAG_Z,
        m1.reg(rd) == 0,
    );
    crate::arm::lemma_flag_keeps_mode(
        m1.cpsr,
        ProgramStatus::FLAG_N,
        (m1.reg(rd) & 0x80000000) != 0,
    );
    crate::arm::lemma_flag_keeps_mode(
        m1.set_flag(ProgramStatus::FLAG_N, (m1.reg(rd) & 0x80000000) != 0).cpsr,
        ProgramStatus::FLAG_Z,
        m1.reg(rd) == 0,
    );
    crate::arm::lemma_flag_keeps_mode(m2.cpsr, ProgramStatus::FLAG_C, sh.1);
    assert(r == if s {
        if !m2.cpsr.has(ProgramStatus::FLAG_T) {
            m2.set_flag(ProgramStatus::FLAG_C, sh.1)
        } else {
            m2
        }
    } else {
        m1
    }) by {
        reveal(GbaModel::alu);
    }
}

/// MUL: the destination register and the status flags it leaves (see
/// `lemma_data_processing_result`); no other register changes.
#[verifier::spinoff_prover]
pub proof fn lemma_dp_result_mul(m: GbaModel, op: DataProcessingOpcode, s: bool, rd: Register, rn: Register, so: DPShifterOperand)
    requires
        rd != Register::R15,
        op == DataProcessingOpcode::MUL,
    ensures
        ({
            let a = m.reg(rn);
            let b = m.shifter(so).0;
            let ci: int = if m.cpsr.has(ProgramStatus::FLAG_C) {
                1
            } else {
                0
            };
            let r = m.alu(op, s, rd, rn, so);
            &&& r.mode() == m.mode()
            &&& forall|x: Register| x != rd ==> #[trigger] r.reg(x) == m.reg(x)
            &&& r.reg(rd) as int == (m.reg(rd) * b) % 0x1_0000_0000
            &&& r.cpsr.has(ProgramStatus::FLAG_N) == ((r.reg(rd) & 0x80000000) != 0) && r.cpsr.has(ProgramStatus::FLAG_Z) == (r.reg(rd) == 0)
        }),
{
    let rv = ((m.reg(rd) as nat * m.shifter(so).0 as nat) % 0x1_0000_0000) as u32;
    lemma_set_nz_facts(m.write_reg(rd, rv), rv);
    crate::gba::lemma_write_then_read_register(m, rd, rd, rv);
    let sh = m.shifter(so);
    let a = m.reg(rn);
    let c = m.cpsr.has(ProgramStatus::FLAG_C);
    let r = m.alu(op, s, rd, rn, so);
    let v = ((m.reg(rd) as nat * sh.0 as nat) % 0x1_0000_0000) as u32;
    let m1 = m.write_reg(rd, v);
    assert forall|x: Register| x != rd implies #[trigger] m1.reg(x) == m.reg(x) by {
        crate::gba::lemma_write_then_read_register(m, rd, x, v);
    }
    crate::gba::lemma_write_then_read_register(m, rd, rd, v);
    crate::arm::lemma_flag_keeps_mode(
        m1.cpsr,
        ProgramStatus::FLAG_N,
        (m1.reg(rd) & 0x80000000) != 0,
    );
    crate::arm::lemma_flag_keeps_mode(
        m1.set_flag(ProgramStatus::FLAG_N, (m1.reg(rd) & 0x80000000) != 0).cpsr,
        ProgramStatus::FLAG_Z,
        m1.reg(rd) == 0,
    );
    assert(r == m1.set_flag(ProgramStatus::FLAG_N, (m1.reg(rd) & 0x80000000) != 0).set_flag(
        ProgramStatus::FLAG_Z,
        m1.reg(rd) == 0,
    )) by {
        reveal(GbaModel::alu);
    }
}

/// What a data-processing operation leaves in its destination register
/// (other than r15), with `a` the first operand, `b` the shifter operand and
/// `c` the carry flag: AND, EOR, ORR give `a & b`, `a ^ b`, `a | b`; BIC
/// gives the old destination with the bits of `b` cleared; MOV and MVN give
/// `b` and `!b`; ADD, ADC, SUB, SBC, RSB, RSC give the sum or difference
/// (with carry, or with the borrow that a clear carry stands for) modulo
/// 2^32, ADD reading r15 word-aligned; MUL gives the low word of the old
/// destination times `b`; the comparisons change no register. No other
/// register changes, and the mode stays.
pub proof fn lemma_data_processing_result(
    m: GbaModel,
    op: DataProcessingOpcode,
    s: bool,
    rd: Register,
    rn: Register,
    so: DPShifterOperand,
)
    requires
        rd != Register::R15,
    ensures
        ({
            let a = m.reg(rn);
            let b = m.shifter(so).0;
            let ci: int = if m.cpsr.has(ProgramStatus::FLAG_C) {
                1
            } else {
                0
            };
            let r = m.alu(op, s, rd, rn, so);
            &&& r.mode() == m.mode()
            &&& forall|x: Register| x != rd ==> #[trigger] r.reg(x) == m.reg(x)
            &&& match op {
                DataProcessingOpcode::AND => r.reg(rd) == a & b,
                DataProcessingOpcode::EOR => r.reg(rd) == a ^ b,
                DataProcessingOpcode::ORR => r.reg(rd) == a | b,
                DataProcessingOpcode::BIC => r.reg(rd) == m.reg(rd) & !b,
                DataProcessingOpcode::MVN => r.reg(rd) == !b,
                DataProcessingOpcode::MOV => r.reg(rd) == b,
                DataProcessingOpcode::ADD => r.reg(rd) as int == ((if rn == Register::R15 {
                    a & 0xFFFFFFFC
                } else {
                    a
                }) + b) % 0x1_0000_0000,
                DataProcessingOpcode::ADC => r.reg(rd) as int == (a + b + ci) % 0x1_0000_0000,
                DataProcessingOpcode::SUB => r.reg(rd) as int == (a - b) % 0x1_0000_0000,
                DataProcessingOpcode::SBC => r.reg(rd) as int == (a - b - (1 - ci)) % 0x1_0000_0000,
                DataProcessingOpcode::RSB => r.reg(rd) as int == (b - a) % 0x1_0000_0000,
                DataProcessingOpcode::RSC => r.reg(rd) as int == (b - a - (1 - ci)) % 0x1_0000_0000,
                DataProcessingOpcode::MUL => r.reg(rd) as int == (m.reg(rd) * b) % 0x1_0000_0000,
                _ => r.reg(rd) == m.reg(rd),
            }
        }),
{
    match op {
        DataProcessingOpcode::AND => lemma_dp_result_and(m, op, s, rd, rn, so),
        DataProcessingOpcode::EOR => lemma_dp_result_eor(m, op, s, rd, rn, so),
        DataProcessingOpcode::ORR => lemma_dp_result_orr(m, op, s, rd, rn, so),
        DataProcessingOpcode::MVN => lemma_dp_result_mvn(m, op, s, rd, rn, so),
        DataProcessingOpcode::BIC => lemma_dp_result_bic(m, op, s, rd, rn, so),
        DataProcessingOpcode::RSB => lemma_dp_result_rsb(m, op, s, rd, rn, so),
        DataProcessingOpcode::RSC => lemma_dp_result_rsc(m, op, s, rd, rn, so),
        DataProcessingOpcode::ADD => lemma_dp_result_add(m, op, s, rd, rn, so),
        DataProcessingOpcode::ADC => lemma_dp_result_adc(m, op, s, rd, rn, so),
        DataProcessingOpcode::SUB => lemma_dp_result_sub(m, op, s, rd, rn, so),
        DataProcessingOpcode::SBC => lemma_dp_result_sbc(m, op, s, rd, rn, so),
        DataProcessingOpcode::TST => lemma_dp_result_tst(m, op, s, rd, rn, so),
        DataProcessingOpcode::TEQ => lemma_dp_result_teq(m, op, s, rd, rn, so),
        DataProcessingOpcode::CMP => lemma_dp_result_compare(m, op, s, rd, rn, so),
        DataProcessingOpcode::CMN => lemma_dp_result_compare_negative(m, op, s, rd, rn, so),
        DataProcessingOpcode::MOV => lemma_dp_result_mov(m, op, s, rd, rn, so),
        DataProcessingOpcode::MUL => lemma_dp_result_mul(m, op, s, rd, rn, so),
    }
}

/// The barrel shifter: an unrotated immediate is itself with carry clear; a
/// register shifted left by nothing is itself with the current carry; a
/// logical shift right by `n` divides by 2^n and a shift left by `n`
/// multiplies by 2^n where the product fits in a word, `n` taken modulo 32
/// for a shift by a register, whose carry out tells whether the amount was
/// 32 or more.
pub proof fn lemma_shifter_values(m: GbaModel, so: DPShifterOperand)
    ensures
        so matches DPShifterOperand::Immediate { rotate, immed } ==> (rotate == 0 ==> m.shifter(so)
            == (immed as u32, false)),
        so matches DPShifterOperand::ImmediateShift { immed, shift_type, rm } ==> ({
            let x = m.reg(rm);
            let c = m.cpsr.has(ProgramStatus::FLAG_C);
            &&& shift_type == ShiftType::LSL && immed == 0 ==> m.shifter(so) == (x, c)
            &&& shift_type == ShiftType::LSR && immed < 32 ==> m.shifter(so) == ((x as nat / pow2(
                immed as nat,
            )) as u32, false)
            &&& shift_type == ShiftType::LSL && 0 < immed < 32 && x * pow2(immed as nat)
                <= u32::MAX ==> m.shifter(so) == ((x * pow2(immed as nat)) as u32, false)
        }),
        so matches DPShifterOperand::RegisterShift { rs, shift_type, rm } ==> ({
            let x = m.reg(rm);
            let n = m.reg(rs);
            &&& shift_type == ShiftType::LSR ==> m.shifter(so) == ((x as nat / pow2(
                (n % 32) as nat,
            )) as u32, n >= 32)
            &&& shift_type == ShiftType::LSL && x * pow2((n % 32) as nat) <= u32::MAX
                ==> m.shifter(so) == ((x * pow2((n % 32) as nat)) as u32, n >= 32)
        }),
{
    match so {
        DPShifterOperand::Immediate { rotate, immed } => {
            lemma_low_five_bits(0);
            lemma_word_facts(immed as u32, 0);
        },
        DPShifterOperand::ImmediateShift { immed, shift_type, rm } => {
            let n = immed as u32;
            lemma_low_five_bits(n);
            if n < 32 {
                vstd::bits::lemma_u32_shr_is_div(m.reg(rm), n);
                if m.reg(rm) * pow2(n as nat) <= u32::MAX {
                    vstd::bits::lemma_u32_shl_is_mul(m.reg(rm), n);
                }
            }
        },
        DPShifterOperand::RegisterShift { rs, shift_type, rm } => {
            let n = m.reg(rs);
            lemma_low_five_bits(n);
            vstd::bits::lemma_u32_shr_is_div(m.reg(rm), n & 31);
            if m.reg(rm) * pow2((n % 32) as nat) <= u32::MAX {
                vstd::bits::lemma_u32_shl_is_mul(m.reg(rm), n & 31);
            }
        },
    }
}

} // verus!

//! Assembler text for decoded instructions and their parts, and the text
//! form of the status register.
use vstd::prelude::*;
use vstd::string::StringExecFns;
use crate::alu::{rotate_right, rotr, sign_extend, sign_extend_spec};
use crate::arm::ProgramStatus;
use crate::bus::BusWidth;
use crate::decode_arm::{
    ArmInstruction, BranchOperation, Condition, DPShifterOperand, DataProcessingOpcode,
    LSShifterOperand, LoadStoreStatusOperation, MSRMask, RegisterList, condition_name, opcode_name,
    shift_name,
};
use crate::gba::{Register, register_name, register_of_index};

verus! {

/// The lower-case hexadecimal digit of `d` (0 to 15).
pub open spec fn hex_char(d: nat) -> char {
    if d == 0 {
        '0'
    } else if d == 1 {
        '1'
    } else if d == 2 {
        '2'
    } else if d == 3 {
        '3'
    } else if d == 4 {
        '4'
    } else if d == 5 {
        '5'
    } else if d == 6 {
        '6'
    } else if d == 7 {
        '7'
    } else if d == 8 {
        '8'
    } else if d == 9 {
        '9'
    } else if d == 10 {
        'a'
    } else if d == 11 {
        'b'
    } else if d == 12 {
        'c'
    } else if d == 13 {
        'd'
    } else if d == 14 {
        'e'
    } else {
        'f'
    }
}

/// The digits of `n` in base `base` (10 or 16), most significant first,
/// without leading zeros (a single `0` for zero).
pub open spec fn digits(n: nat, base: nat) -> Seq<char>
    recommends
        base == 10 || base == 16,
    decreases n,
{
    if base < 2 || n < base {
        seq![hex_char(n)]
    } else {
        proof {
            assert(n / base < n) by (nonlinear_arith)
                requires
                    base >= 2,
                    n >= base,
            ;
        }
        digits(n / base, base) + seq![hex_char(n % base)]
    }
}

/// The last `k` hexadecimal digits of `n`, with leading zeros.
pub open spec fn hex_fixed(n: nat, k: nat) -> Seq<char>
    decreases k,
{
    if k == 0 {
        Seq::empty()
    } else {
        hex_fixed(n / 16, (k - 1) as nat) + seq![hex_char(n % 16)]
    }
}

/// `n` in hexadecimal with a `0x` prefix.
pub open spec fn hex_text(n: nat) -> Seq<char> {
    seq!['0', 'x'] + digits(n, 16)
}

/// The one-character text of a hexadecimal digit.
fn digit_str(d: u32) -> (s: &'static str)
    requires
        d < 16,
    ensures
        s@ == seq![hex_char(d as nat)],
{
    proof {
        reveal_strlit("0");
        reveal_strlit("1");
        reveal_strlit("2");
        reveal_strlit("3");
        reveal_strlit("4");
        reveal_strlit("5");
        reveal_strlit("6");
        reveal_strlit("7");
        reveal_strlit("8");
        reveal_strlit("9");
        reveal_strlit("a");
        reveal_strlit("b");
        reveal_strlit("c");
        reveal_strlit("d");
        reveal_strlit("e");
        reveal_strlit("f");
    }
    match d {
        0 => "0",
        1 => "1",
        2 => "2",
        3 => "3",
        4 => "4",
        5 => "5",
        6 => "6",
        7 => "7",
        8 => "8",
        9 => "9",
        10 => "a",
        11 => "b",
        12 => "c",
        13 => "d",
        14 => "e",
        _ => "f",
    }
}

/// Appends the digits of `n` in base `base` (see `digits`).
pub fn push_digits(out: &mut String, n: u32, base: u32)
    requires
        base == 10 || base == 16,
    ensures
        final(out)@ == old(out)@ + digits(n as nat, base as nat),
    decreases n,
{
    if n >= base {
        push_digits(out, n / base, base);
    }
    out.append(digit_str(n % base));
    proof {
        assert(old(out)@ + digits(n as nat, base as nat) =~= (if n >= base {
            old(out)@ + digits((n / base) as nat, base as nat)
        } else {
            old(out)@
        }) + seq![hex_char((n % base) as nat)]);
    }
}

/// Appends the last `k` hexadecimal digits of `n`, with leading zeros.
pub fn push_hex_fixed(out: &mut String, n: u32, k: u32)
    ensures
        final(out)@ == old(out)@ + hex_fixed(n as nat, k as nat),
    decreases k,
{
    if k > 0 {
        push_hex_fixed(out, n / 16, k - 1);
        out.append(digit_str(n % 16));
        proof {
            assert(old(out)@ + hex_fixed(n as nat, k as nat) =~= old(out)@ + hex_fixed(
                (n / 16) as nat,
                (k - 1) as nat,
            ) + seq![hex_char((n % 16) as nat)]);
        }
    } else {
        proof {
            assert(old(out)@ + hex_fixed(n as nat, 0) =~= old(out)@);
        }
    }
}

/// Appends `n` in hexadecimal with a `0x` prefix.
pub fn push_hex(out: &mut String, n: u32)
    ensures
        final(out)@ == old(out)@ + hex_text(n as nat),
{
    proof {
        reveal_strlit("0x");
    }
    out.append("0x");
    push_digits(out, n, 16);
    proof {
        assert(old(out)@ + hex_text(n as nat) =~= old(out)@ + seq!['0', 'x'] + digits(
            n as nat,
            16,
        ));
    }
}

/// `c` where `b` holds, else `d`.
pub open spec fn pick(b: bool, c: Seq<char>, d: Seq<char>) -> Seq<char> {
    if b {
        c
    } else {
        d
    }
}

/// The letter of a status flag where it is set, `-` where it is clear.
pub open spec fn flag_text(p: ProgramStatus, f: u32, letter: Seq<char>) -> Seq<char> {
    pick(p.has(f), letter, "-"@)
}

/// The N, Z, C, V, I, F and T flags of a status register, each as its
/// letter or `-`.
pub open spec fn flags_text(p: ProgramStatus) -> Seq<char> {
    flag_text(p, ProgramStatus::FLAG_N, "N"@) + flag_text(p, ProgramStatus::FLAG_Z, "Z"@)
        + flag_text(p, ProgramStatus::FLAG_C, "C"@) + flag_text(p, ProgramStatus::FLAG_V, "V"@)
        + flag_text(p, ProgramStatus::FLAG_I, "I"@) + flag_text(p, ProgramStatus::FLAG_F, "F"@)
        + flag_text(p, ProgramStatus::FLAG_T, "T"@)
}

/// The text of a status register: its bits as eight hexadecimal digits,
/// then its flags in brackets (see `flags_text`).
pub open spec fn status_text(p: ProgramStatus) -> Seq<char> {
    hex_fixed(p.bits as nat, 8) + " ["@ + flags_text(p) + "]"@
}

/// The text of a data-processing operand: an immediate as its rotated value
/// in hexadecimal; a shifted register as the register, the shift and the
/// amount (decimal) or the register that holds it.
#[verifier::opaque]
pub open spec fn dp_operand_text(so: DPShifterOperand) -> Seq<char> {
    match so {
        DPShifterOperand::Immediate { rotate, immed } => hex_text(
            rotr(immed as u32, (rotate * 2) as u32) as nat,
        ),
        DPShifterOperand::ImmediateShift { immed, shift_type, rm } => register_name(rm) + ", "@
            + shift_name(shift_type) + " "@ + digits(immed as nat, 10),
        DPShifterOperand::RegisterShift { rs, shift_type, rm } => register_name(rm) + ", "@
            + shift_name(shift_type) + " "@ + register_name(rs),
    }
}

/// The text of a load/store offset: `#` and the immediate in hexadecimal, or
/// the register, the shift and `#` with the amount in decimal.
#[verifier::opaque]
pub open spec fn ls_operand_text(so: LSShifterOperand) -> Seq<char> {
    match so {
        LSShifterOperand::Immediate { immed } => "#"@ + hex_text(immed as nat),
        LSShifterOperand::ImmediateShift { immed, shift_type, rm } => register_name(rm) + ", "@
            + shift_name(shift_type) + " #"@ + digits(immed as nat, 10),
    }
}

/// The text of an MSR field mask: `c`, `x`, `s`, `f` for the fields it
/// selects.
#[verifier::opaque]
pub open spec fn mask_text(m: MSRMask) -> Seq<char> {
    pick(m.bits & 1 != 0, "c"@, ""@) + pick(m.bits & 2 != 0, "x"@, ""@) + pick(
        m.bits & 4 != 0,
        "s"@,
        ""@,
    ) + pick(m.bits & 8 != 0, "f"@, ""@)
}

/// The names of the registers below `i` in the register list `bits`, in
/// ascending order.
pub open spec fn names_below(bits: u16, i: nat) -> Seq<Seq<char>>
    decreases i,
{
    if i == 0 {
        Seq::empty()
    } else {
        let prev = names_below(bits, (i - 1) as nat);
        if (bits >> ((i - 1) as u16)) & 1 == 1 {
            prev.push(register_name(register_of_index(i - 1)))
        } else {
            prev
        }
    }
}

/// Texts joined with commas.
pub open spec fn join_commas(s: Seq<Seq<char>>) -> Seq<char>
    decreases s.len(),
{
    if s.len() == 0 {
        Seq::empty()
    } else if s.len() == 1 {
        s[0]
    } else {
        join_commas(s.drop_last()) + ","@ + s.last()
    }
}

/// The text of a register list: the names of its registers, ascending,
/// joined with commas.
#[verifier::opaque]
pub open spec fn register_list_text(l: RegisterList) -> Seq<char> {
    join_commas(names_below(l.bits, 16))
}

fn push_flag(out: &mut String, p: ProgramStatus, f: u32, letter: &str)
    ensures
        final(out)@ == old(out)@ + flag_text(p, f, letter@),
{
    if p.contains(f) {
        out.append(letter);
    } else {
        out.append("-");
    }
}

fn push_flags(out: &mut String, p: ProgramStatus)
    ensures
        final(out)@ == old(out)@ + flags_text(p),
{
    let ghost s0 = out@;
    push_flag(out, p, ProgramStatus::FLAG_N, "N");
    push_flag(out, p, ProgramStatus::FLAG_Z, "Z");
    push_flag(out, p, ProgramStatus::FLAG_C, "C");
    let ghost s3 = out@;
    assert(s3 =~= s0 + (flag_text(p, ProgramStatus::FLAG_N, "N"@) + flag_text(
        p,
        ProgramStatus::FLAG_Z,
        "Z"@,
    ) + flag_text(p, ProgramStatus::FLAG_C, "C"@)));
    push_flag(out, p, ProgramStatus::FLAG_V, "V");
    push_flag(out, p, ProgramStatus::FLAG_I, "I");
    let ghost s5 = out@;
    assert(s5 =~= s3 + (flag_text(p, ProgramStatus::FLAG_V, "V"@) + flag_text(
        p,
        ProgramStatus::FLAG_I,
        "I"@,
    )));
    push_flag(out, p, ProgramStatus::FLAG_F, "F");
    push_flag(out, p, ProgramStatus::FLAG_T, "T");
    assert(out@ =~= s5 + (flag_text(p, ProgramStatus::FLAG_F, "F"@) + flag_text(
        p,
        ProgramStatus::FLAG_T,
        "T"@,
    )));
    assert(out@ =~= s0 + flags_text(p));
}

/// Appends the text of a status register (see `status_text`).
fn push_status(out: &mut String, p: ProgramStatus)
    ensures
        final(out)@ == old(out)@ + status_text(p),
{
    push_hex_fixed(out, p.bits, 8);
    out.append(" [");
    push_flags(out, p);
    out.append("]");
    assert(out@ =~= old(out)@ + status_text(p));
}

/// Appends the text of a data-processing operand (see `dp_operand_text`).
fn push_dp_operand(out: &mut String, so: &DPShifterOperand)
    requires
        so matches DPShifterOperand::Immediate { rotate, .. } ==> rotate < 128,
    ensures
        final(out)@ == old(out)@ + dp_operand_text(*so),
{
    proof {
        reveal(dp_operand_text);
    }
    match *so {
        DPShifterOperand::Immediate { rotate, immed } => {
            push_hex(out, rotate_right(immed as u32, (rotate * 2) as u32));
        },
        DPShifterOperand::ImmediateShift { immed, shift_type, rm } => {
            out.append(rm.name());
            out.append(", ");
            out.append(shift_type.name());
            out.append(" ");
            push_digits(out, immed as u32, 10);
        },
        DPShifterOperand::RegisterShift { rs, shift_type, rm } => {
            out.append(rm.name());
            out.append(", ");
            out.append(shift_type.name());
            out.append(" ");
            out.append(rs.name());
        },
    }
    assert(out@ =~= old(out)@ + dp_operand_text(*so));
}

/// Appends the text of a load/store offset (see `ls_operand_text`).
fn push_ls_operand(out: &mut String, so: &LSShifterOperand)
    ensures
        final(out)@ == old(out)@ + ls_operand_text(*so),
{
    proof {
        reveal(ls_operand_text);
    }
    match *so {
        LSShifterOperand::Immediate { immed } => {
            out.append("#");
            push_hex(out, immed as u32);
        },
        LSShifterOperand::ImmediateShift { immed, shift_type, rm } => {
            out.append(rm.name());
            out.append(", ");
            out.append(shift_type.name());
            out.append(" #");
            push_digits(out, immed as u32, 10);
        },
    }
    assert(out@ =~= old(out)@ + ls_operand_text(*so));
}

/// Appends the text of an MSR field mask (see `mask_text`).
fn push_mask(out: &mut String, m: MSRMask)
    ensures
        final(out)@ == old(out)@ + mask_text(m),
{
    proof {
        reveal(mask_text);
    }
    out.append(if m.bits & 1 != 0 { "c" } else { "" });
    out.append(if m.bits & 2 != 0 { "x" } else { "" });
    out.append(if m.bits & 4 != 0 { "s" } else { "" });
    out.append(if m.bits & 8 != 0 { "f" } else { "" });
    assert(out@ =~= old(out)@ + mask_text(m));
}

/// Appends the text of a register list (see `register_list_text`).
fn push_register_list(out: &mut String, l: RegisterList)
    ensures
        final(out)@ == old(out)@ + register_list_text(l),
{
    proof {
        reveal(register_list_text);
    }
    let ghost start = out@;
    let mut first = true;
    let mut i: u16 = 0;
    assert(start + join_commas(names_below(l.bits, 0)) =~= start);
    while i < 16
        invariant
            i <= 16,
            out@ == start + join_commas(names_below(l.bits, i as nat)),
            first == (names_below(l.bits, i as nat).len() == 0),
        decreases 16 - i,
    {
        let ghost prev = names_below(l.bits, i as nat);
        if (l.bits >> i) & 1 == 1 {
            let reg = match Register::try_from(i as u8) {
                Ok(r) => r,
                Err(_) => Register::R0,
            };
            let name = reg.name();
            if !first {
                out.append(",");
            }
            out.append(name);
            proof {
                let next = prev.push(register_name(register_of_index(i as int)));
                assert(names_below(l.bits, (i + 1) as nat) == next);
                assert(next.drop_last() =~= prev);
                if prev.len() == 0 {
                    assert(join_commas(next) == next[0]);
                } else {
                    assert(join_commas(next) == join_commas(prev) + ","@ + next.last());
                }
                assert(out@ =~= start + join_commas(next));
            }
            first = false;
        } else {
            assert(names_below(l.bits, (i + 1) as nat) == prev);
        }
        i = i + 1;
    }
}

/// The width suffix of a load or store: `B`, `H` or nothing.
pub open spec fn width_text(w: BusWidth) -> Seq<char> {
    match w {
        BusWidth::Byte => "B"@,
        BusWidth::HalfWord => "H"@,
        BusWidth::Word => ""@,
    }
}

/// The text of a data-processing instruction: a comparison names `rn`, a
/// move `rd`, any other operation `rd` and `rn`; moves and other operations
/// show `S` where they set the flags.
pub open spec fn dp_text(
    c: Condition,
    op: DataProcessingOpcode,
    s: bool,
    rn: Register,
    rd: Register,
    so: DPShifterOperand,
) -> Seq<char> {
    match op {
        DataProcessingOpcode::TST | DataProcessingOpcode::TEQ | DataProcessingOpcode::CMP
        | DataProcessingOpcode::CMN => opcode_name(op) + condition_name(c) + " "@ + register_name(
            rn,
        ) + ", "@ + dp_operand_text(so),
        DataProcessingOpcode::MOV | DataProcessingOpcode::MVN => opcode_name(op) + condition_name(c)
            + pick(s, "S"@, ""@) + " "@ + register_name(rd) + ", "@ + dp_operand_text(so),
        _ => opcode_name(op) + condition_name(c) + pick(s, "S"@, ""@) + " "@ + register_name(rd)
            + ", "@ + register_name(rn) + ", "@ + dp_operand_text(so),
    }
}

/// The address part of a load or store: pre-indexed as `[rn offset]` or
/// `[rn -offset]`, post-indexed as `[rn] offset` or `[rn] -offset`.
pub open spec fn ls_address_text(p: bool, u: bool, rn: Register, so: LSShifterOperand) -> Seq<
    char,
> {
    if p {
        "["@ + register_name(rn) + pick(u, " "@, " -"@) + ls_operand_text(so) + "]"@
    } else {
        "["@ + register_name(rn) + pick(u, "] "@, "] -"@) + ls_operand_text(so)
    }
}

/// The text of a load or store: `LDR` or `STR`, the condition, the width,
/// `T` for a post-indexed access with write-back, the register and the
/// address.
pub open spec fn ls_text(
    c: Condition,
    p: bool,
    u: bool,
    width: BusWidth,
    w: bool,
    l: bool,
    rn: Register,
    rd: Register,
    so: LSShifterOperand,
) -> Seq<char> {
    pick(l, "LDR"@, "STR"@) + condition_name(c) + width_text(width) + pick(!p && w, "T"@, ""@)
        + " "@ + register_name(rd) + ", "@ + ls_address_text(p, u, rn, so)
}

/// The text of an MRS or MSR.
pub open spec fn status_op_text(c: Condition, r: bool, op: LoadStoreStatusOperation) -> Seq<char> {
    let psr = pick(r, "SPSR"@, "CPSR"@);
    match op {
        LoadStoreStatusOperation::StatusRegisterToRegister { rd } => "MRS"@ + condition_name(c)
            + " "@ + register_name(rd) + ", "@ + psr,
        LoadStoreStatusOperation::RegisterToStatusRegister { mask, rm } => "MSR"@ + condition_name(
            c,
        ) + " "@ + psr + "_"@ + mask_text(mask) + ", "@ + register_name(rm),
        LoadStoreStatusOperation::ImmediateToStatusRegister { mask, rot_imm, immed } => "MSR"@
            + condition_name(c) + " "@ + psr + "_"@ + mask_text(mask) + ", "@ + hex_fixed(
            rotr(immed as u32, (rot_imm as u32 * 2) as u32) as nat,
            8,
        ),
    }
}

/// The addressing mode of a block transfer: `IB`, `DB`, `IA` or `DA`.
pub open spec fn block_mode_text(exclude_first_word: bool, upwards: bool) -> Seq<char> {
    if exclude_first_word {
        pick(upwards, "IB"@, "DB"@)
    } else {
        pick(upwards, "IA"@, "DA"@)
    }
}

/// The text of a block transfer: `LDM` or `STM`, the addressing mode, the
/// condition, the base register with `!` and the register list in braces.
pub open spec fn block_text(
    c: Condition,
    exclude_first_word: bool,
    upwards: bool,
    load: bool,
    rn: Register,
    list: RegisterList,
) -> Seq<char> {
    pick(load, "LDM"@, "STM"@) + block_mode_text(exclude_first_word, upwards) + condition_name(c)
        + " "@ + register_name(rn) + "!, {"@ + register_list_text(list) + "}"@
}

/// The text of a branch: the mnemonic, the condition and the offset in
/// hexadecimal (negative offsets as their 32-bit two's complement) or the
/// register.
pub open spec fn branch_text(c: Condition, op: BranchOperation) -> Seq<char> {
    match op {
        BranchOperation::BranchImmed { offset } => "B"@ + condition_name(c) + " "@ + hex_text(
            offset as u32 as nat,
        ),
        BranchOperation::BranchLinkImmed { offset, .. } => "BL"@ + condition_name(c) + " "@
            + hex_text(offset as u32 as nat),
        BranchOperation::BranchExchangeThumb { rm } => "BX"@ + condition_name(c) + " "@
            + register_name(rm),
        BranchOperation::BranchExchangeLinkThumb { rm } => "BLX"@ + condition_name(c) + " "@
            + register_name(rm),
        BranchOperation::BranchExchangeLinkThumbImmed { offset } => "BLX"@ + condition_name(c)
            + " "@ + hex_text(offset as u32 as nat),
        BranchOperation::BranchExchangeJava { rm } => "BJ"@ + condition_name(c) + " "@
            + register_name(rm),
    }
}

/// The text of the first half of a Thumb long branch: ` > ` and the
/// sign-extended upper offset in hexadecimal.
pub open spec fn prefix_text(offset: u16) -> Seq<char> {
    " > "@ + hex_text(sign_extend_spec(((offset as u32) << 12u32) as u32, 22) as u32 as nat)
}

/// The text of the second half of a Thumb long branch: `BL` or `BLX` and
/// twice the offset in hexadecimal.
pub open spec fn suffix_text(op: BranchOperation) -> Seq<char> {
    match op {
        BranchOperation::BranchLinkImmed { offset, .. } => "BL "@ + hex_text(
            ((offset as u32) << 1u32) as nat,
        ),
        BranchOperation::BranchExchangeLinkThumbImmed { offset } => "BLX "@ + hex_text(
            ((offset as u32) << 1u32) as nat,
        ),
        _ => "UNKNOWN"@,
    }
}

/// The assembler text of an instruction; the kinds that the emulator does
/// not execute read `UNKNOWN`.
pub open spec fn instruction_text(inst: ArmInstruction) -> Seq<char> {
    match inst {
        ArmInstruction::DataProcessing { c, op, s, rn, rd, shifter_operand } => dp_text(
            c,
            op,
            s,
            rn,
            rd,
            shifter_operand,
        ),
        ArmInstruction::LoadStore {
            c,
            pre_indexed,
            add_offset,
            width,
            w,
            load,
            rn,
            rd,
            shifter_operand,
        } => ls_text(c, pre_indexed, add_offset, width, w, load, rn, rd, shifter_operand),
        ArmInstruction::LoadStoreStatus { c, r, op } => status_op_text(c, r, op),
        ArmInstruction::LoadStoreMultiple {
            c,
            exclude_first_word,
            upwards,
            load,
            rn,
            register_list,
            ..
        } => block_text(c, exclude_first_word, upwards, load, rn, register_list),
        ArmInstruction::Branch { c, op } => branch_text(c, op),
        ArmInstruction::BranchLinkPrefix { offset } => prefix_text(offset),
        ArmInstruction::BranchLinkSuffix { op } => suffix_text(op),
        _ => "UNKNOWN"@,
    }
}

/// Whether the text of an instruction is defined: the rotation of an
/// immediate data-processing operand, doubled, must fit in a byte.
pub open spec fn text_defined(inst: ArmInstruction) -> bool {
    inst matches ArmInstruction::DataProcessing { shifter_operand, .. } ==> (
    shifter_operand matches DPShifterOperand::Immediate { rotate, .. } ==> rotate < 128)
}

#[verifier::spinoff_prover]
fn push_dp(
    out: &mut String,
    c: Condition,
    op: DataProcessingOpcode,
    s: bool,
    rn: Register,
    rd: Register,
    so: &DPShifterOperand,
)
    requires
        so matches DPShifterOperand::Immediate { rotate, .. } ==> rotate < 128,
    ensures
        final(out)@ == old(out)@ + dp_text(c, op, s, rn, rd, *so),
{
    let head = op.name();
    let cond = c.name();
    let suffix = if s { "S" } else { "" };
    match op {
        DataProcessingOpcode::TST | DataProcessingOpcode::TEQ | DataProcessingOpcode::CMP
        | DataProcessingOpcode::CMN => {
            out.append(head);
            out.append(cond);
            out.append(" ");
            out.append(rn.name());
            out.append(", ");
            push_dp_operand(out, so);
            assert(out@ =~= old(out)@ + (opcode_name(op) + condition_name(c) + " "@
                + register_name(rn) + ", "@ + dp_operand_text(*so)));
        },
        DataProcessingOpcode::MOV | DataProcessingOpcode::MVN => {
            out.append(head);
            out.append(cond);
            out.append(suffix);
            out.append(" ");
            out.append(rd.name());
            out.append(", ");
            push_dp_operand(out, so);
            assert(out@ =~= old(out)@ + (opcode_name(op) + condition_name(c) + pick(s, "S"@, ""@)
                + " "@ + register_name(rd) + ", "@ + dp_operand_text(*so)));
        },
        _ => {
            out.append(head);
            out.append(cond);
            out.append(suffix);
            out.append(" ");
            out.append(rd.name());
            out.append(", ");
            out.append(rn.name());
            out.append(", ");
            push_dp_operand(out, so);
            assert(out@ =~= old(out)@ + (opcode_name(op) + condition_name(c) + pick(s, "S"@, ""@)
                + " "@ + register_name(rd) + ", "@ + register_name(rn) + ", "@ + dp_operand_text(
                *so,
            )));
        },
    }
}

fn push_ls_address(out: &mut String, p: bool, u: bool, rn: Register, so: &LSShifterOperand)
    ensures
        final(out)@ == old(out)@ + ls_address_text(p, u, rn, *so),
{
    out.append("[");
    out.append(rn.name());
    if p {
        out.append(if u { " " } else { " -" });
        push_ls_operand(out, so);
        out.append("]");
    } else {
        out.append(if u { "] " } else { "] -" });
        push_ls_operand(out, so);
    }
    assert(out@ =~= old(out)@ + ls_address_text(p, u, rn, *so));
}

fn push_ls(
    out: &mut String,
    c: Condition,
    p: bool,
    u: bool,
    width: BusWidth,
    w: bool,
    l: bool,
    rn: Register,
    rd: Register,
    so: &LSShifterOperand,
)
    ensures
        final(out)@ == old(out)@ + ls_text(c, p, u, width, w, l, rn, rd, *so),
{
    out.append(if l { "LDR" } else { "STR" });
    out.append(c.name());
    out.append(
        match width {
            BusWidth::Byte => "B",
            BusWidth::HalfWord => "H",
            BusWidth::Word => "",
        },
    );
    out.append(if !p && w { "T" } else { "" });
    out.append(" ");
    out.append(rd.name());
    out.append(", ");
    let ghost before = out@;
    push_ls_address(out, p, u, rn, so);
    assert(out@ =~= old(out)@ + ls_text(c, p, u, width, w, l, rn, rd, *so));
}

fn push_status_op(out: &mut String, c: Condition, r: bool, op: &LoadStoreStatusOperation)
    ensures
        final(out)@ == old(out)@ + status_op_text(c, r, *op),
{
    let psr = if r { "SPSR" } else { "CPSR" };
    match *op {
        LoadStoreStatusOperation::StatusRegisterToRegister { rd } => {
            out.append("MRS");
            out.append(c.name());
            out.append(" ");
            out.append(rd.name());
            out.append(", ");
            out.append(psr);
        },
        LoadStoreStatusOperation::RegisterToStatusRegister { mask, rm } => {
            out.append("MSR");
            out.append(c.name());
            out.append(" ");
            out.append(psr);
            out.append("_");
            push_mask(out, mask);
            out.append(", ");
            out.append(rm.name());
        },
        LoadStoreStatusOperation::ImmediateToStatusRegister { mask, rot_imm, immed } => {
            out.append("MSR");
            out.append(c.name());
            out.append(" ");
            out.append(psr);
            out.append("_");
            push_mask(out, mask);
            out.append(", ");
            push_hex_fixed(out, rotate_right(immed as u32, rot_imm as u32 * 2), 8);
        },
    }
    assert(out@ =~= old(out)@ + status_op_text(c, r, *op));
}

fn push_block(
    out: &mut String,
    c: Condition,
    exclude_first_word: bool,
    upwards: bool,
    load: bool,
    rn: Register,
    list: RegisterList,
)
    ensures
        final(out)@ == old(out)@ + block_text(c, exclude_first_word, upwards, load, rn, list),
{
    out.append(if load { "LDM" } else { "STM" });
    out.append(
        if exclude_first_word {
            if upwards { "IB" } else { "DB" }
        } else {
            if upwards { "IA" } else { "DA" }
        },
    );
    out.append(c.name());
    out.append(" ");
    out.append(rn.name());
    out.append("!, {");
    push_register_list(out, list);
    out.append("}");
    assert(out@ =~= old(out)@ + block_text(c, exclude_first_word, upwards, load, rn, list));
}

fn push_branch(out: &mut String, c: Condition, op: &BranchOperation)
    ensures
        final(out)@ == old(out)@ + branch_text(c, *op),
{
    match *op {
        BranchOperation::BranchImmed { offset } => {
            out.append("B");
            out.append(c.name());
            out.append(" ");
            push_hex(out, offset as u32);
        },
        BranchOperation::BranchLinkImmed { offset, .. } => {
            out.append("BL");
            out.append(c.name());
            out.append(" ");
            push_hex(out, offset as u32);
        },
        BranchOperation::BranchExchangeThumb { rm } => {
            out.append("BX");
            out.append(c.name());
            out.append(" ");
            out.append(rm.name());
        },
        BranchOperation::BranchExchangeLinkThumb { rm } => {
            out.append("BLX");
            out.append(c.name());
            out.append(" ");
            out.append(rm.name());
        },
        BranchOperation::BranchExchangeLinkThumbImmed { offset } => {
            out.append("BLX");
            out.append(c.name());
            out.append(" ");
            push_hex(out, offset as u32);
        },
        BranchOperation::BranchExchangeJava { rm } => {
            out.append("BJ");
            out.append(c.name());
            out.append(" ");
            out.append(rm.name());
        },
    }
    assert(out@ =~= old(out)@ + branch_text(c, *op));
}

fn push_instruction(out: &mut String, inst: &ArmInstruction)
    requires
        text_defined(*inst),
    ensures
        final(out)@ == old(out)@ + instruction_text(*inst),
{
    match *inst {
        ArmInstruction::DataProcessing { c, op, s, rn, rd, shifter_operand } => {
            push_dp(out, c, op, s, rn, rd, &shifter_operand);
        },
        ArmInstruction::LoadStore {
            c,
            pre_indexed,
            add_offset,
            width,
            w,
            load,
            rn,
            rd,
            shifter_operand,
        } => {
            push_ls(out, c, pre_indexed, add_offset, width, w, load, rn, rd, &shifter_operand);
        },
        ArmInstruction::LoadStoreStatus { c, r, op } => {
            push_status_op(out, c, r, &op);
        },
        ArmInstruction::LoadStoreMultiple {
            c,
            exclude_first_word,
            upwards,
            load,
            rn,
            register_list,
            ..
        } => {
            push_block(out, c, exclude_first_word, upwards, load, rn, register_list);
        },
        ArmInstruction::Branch { c, op } => {
            push_branch(out, c, &op);
        },
        ArmInstruction::BranchLinkPrefix { offset } => {
            out.append(" > ");
            push_hex(out, #[verifier::truncate] (sign_extend((offset as u32) << 12u32, 22) as u32));
            assert(out@ =~= old(out)@ + prefix_text(offset));
        },
        ArmInstruction::BranchLinkSuffix { op } => {
            match op {
                BranchOperation::BranchLinkImmed { offset, .. } => {
                    out.append("BL ");
                    push_hex(out, (offset as u32) << 1u32);
                },
                BranchOperation::BranchExchangeLinkThumbImmed { offset } => {
                    out.append("BLX ");
                    push_hex(out, (offset as u32) << 1u32);
                },
                _ => {
                    out.append("UNKNOWN");
                },
            }
            assert(out@ =~= old(out)@ + suffix_text(op));
        },
        _ => {
            out.append("UNKNOWN");
        },
    }
}

impl ArmInstruction {
    /// The assembler text of the instruction (see `instruction_text`).
    pub fn to_text(&self) -> (s: String)
        requires
            text_defined(*self),
        ensures
            s@ == instruction_text(*self),
    {
        let mut s = String::new();
        push_instruction(&mut s, self);
        assert(s@ =~= instruction_text(*self));
        s
    }
}

impl ProgramStatus {
    /// The text of the status register (see `status_text`).
    pub fn to_text(&self) -> (s: String)
        ensures
            s@ == status_text(*self),
    {
        let mut s = String::new();
        push_status(&mut s, *self);
        assert(s@ =~= status_text(*self));
        s
    }
}

impl DPShifterOperand {
    /// The text of the operand (see `dp_operand_text`).
    pub fn to_text(&self) -> (s: String)
        requires
            *self matches DPShifterOperand::Immediate { rotate, .. } ==> rotate < 128,
        ensures
            s@ == dp_operand_text(*self),
    {
        let mut s = String::new();
        push_dp_operand(&mut s, self);
        assert(s@ =~= dp_operand_text(*self));
        s
    }
}

impl LSShifterOperand {
    /// The text of the offset (see `ls_operand_text`).
    pub fn to_text(&self) -> (s: String)
        ensures
            s@ == ls_operand_text(*self),
    {
        let mut s = String::new();
        push_ls_operand(&mut s, self);
        assert(s@ =~= ls_operand_text(*self));
        s
    }
}

impl MSRMask {
    /// The text of the field mask (see `mask_text`).
    pub fn to_text(&self) -> (s: String)
        ensures
            s@ == mask_text(*self),
    {
        let mut s = String::new();
        push_mask(&mut s, *self);
        assert(s@ =~= mask_text(*self));
        s
    }
}

impl RegisterList {
    /// The text of the register list (see `register_list_text`).
    pub fn to_text(&self) -> (s: String)
        ensures
            s@ == register_list_text(*self),
    {
        let mut s = String::new();
        push_register_list(&mut s, *self);
        assert(s@ =~= register_list_text(*self));
        s
    }
}

impl LoadStoreStatusOperation {
    /// The text of a status-register operation on its own, which is empty:
    /// the instruction's text shows the operation.
    pub fn to_text(&self) -> (s: String)
        ensures
            s@ == Seq::<char>::empty(),
    {
        String::new()
    }
}

} // verus!

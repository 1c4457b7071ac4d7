//! Laws of the machine and of the assembler, stated and proved over the
//! specification-level functions that the executable contracts are pinned
//! to: determinism, the flag laws of `add` and `sub`, the `mul` law, the
//! `call`/`ret` round trip, and the agreement between the two assembler
//! passes on instruction addresses.

use crate::assembler::pass1;
use crate::assembler::pass2;
use crate::assembler::pass2_line;
use crate::assembler::spec_assemble;
use crate::assembler::spec_encode_line;
use crate::assembler::spec_mnemonic_of;
use crate::cpu::add8;
use crate::cpu::le16;
use crate::cpu::mul8;
use crate::cpu::reg_spec;
use crate::cpu::spec_step;
use crate::cpu::sub8;
use crate::cpu::wrap16;
use crate::cpu::CPU;
use crate::instructions::OP_ADD_RI;
use crate::instructions::OP_CALL;
use crate::instructions::OP_HLT;
use crate::instructions::OP_MUL;
use crate::instructions::OP_RET;
use crate::instructions::OP_SUB_RI;
use crate::text::spec_lines;
use crate::text::spec_tokenize;
use crate::text::spec_trim;
use vstd::prelude::*;

verus! {

/// Determinism of execution: stepping equal machine states over equal
/// memories gives equal outcomes. [`crate::cpu::CPU::step`] is pinned to
/// [`spec_step`], so two runs of the same program from the same state can
/// only agree.
pub proof fn lemma_step_deterministic(c1: CPU, c2: CPU, m1: Seq<u8>, m2: Seq<u8>)
    requires
        c1 == c2,
        m1 == m2,
    ensures
        spec_step(c1, m1) == spec_step(c2, m2),
{
}

/// Determinism and idempotence of assembly: equal source texts assemble to
/// equal outcomes. [`crate::assembler::assembler`] is pinned to
/// [`spec_assemble`], so assembling the same text twice gives byte-identical
/// output (or the identical error).
pub proof fn lemma_assembly_deterministic(s1: Seq<u8>, s2: Seq<u8>)
    requires
        s1 == s2,
    ensures
        spec_assemble(s1) == spec_assemble(s2),
{
}

/// Flag law of register-immediate `add`: for all 8-bit `x` (in the
/// destination register) and `y` (the immediate), the executed `add` stores
/// `(x + y) mod 256`, sets `carry` exactly when `x + y > 255`, and sets
/// `zero` exactly when `(x + y) mod 256 == 0`.
pub proof fn lemma_add_ri_flags(c: CPU, m: Seq<u8>)
    requires
        m.len() == 65536,
        m[c.pc as int] == OP_ADD_RI,
        m[wrap16(c.pc + 1) as int] < 4,
    ensures
        spec_step(c, m) is Ok,
        ({
            let dst = m[wrap16(c.pc + 1) as int];
            let x = reg_spec(c, dst);
            let y = m[wrap16(c.pc + 2) as int];
            let next = spec_step(c, m)->Ok_0.0;
            &&& next.carry <==> x + y > 255
            &&& next.zero <==> (x + y) % 256 == 0
            &&& reg_spec(next, dst) == (x + y) % 256
        }),
{
    assert(wrap16(wrap16(c.pc + 1) + 1) == wrap16(c.pc + 2));
    let dst = m[wrap16(c.pc + 1) as int];
    let x = reg_spec(c, dst);
    let y = m[wrap16(c.pc + 2) as int];
    assert(add8(x, y) == (x + y) % 256);
}

/// Borrow law of register-immediate `sub`: the executed `sub` stores
/// `(x - y) mod 256`, sets `carry` exactly when the subtraction borrows
/// (`x < y`), and sets `zero` exactly when `x == y`.
pub proof fn lemma_sub_ri_flags(c: CPU, m: Seq<u8>)
    requires
        m.len() == 65536,
        m[c.pc as int] == OP_SUB_RI,
        m[wrap16(c.pc + 1) as int] < 4,
    ensures
        spec_step(c, m) is Ok,
        ({
            let dst = m[wrap16(c.pc + 1) as int];
            let x = reg_spec(c, dst);
            let y = m[wrap16(c.pc + 2) as int];
            let next = spec_step(c, m)->Ok_0.0;
            &&& next.carry <==> x < y
            &&& next.zero <==> x == y
            &&& reg_spec(next, dst) == (x - y + 256) % 256
        }),
{
    assert(wrap16(wrap16(c.pc + 1) + 1) == wrap16(c.pc + 2));
    let dst = m[wrap16(c.pc + 1) as int];
    let x = reg_spec(c, dst);
    let y = m[wrap16(c.pc + 2) as int];
    assert(sub8(x, y) == (x - y + 256) % 256);
    assert(sub8(x, y) == 0 <==> x == y);
}

/// `mul` law: for all 8-bit `x` and `y`, the executed `mul` stores
/// `(x * y) mod 256` in the destination and sets `carry` exactly when the
/// full product `x * y` exceeds 255.
pub proof fn lemma_mul_law(c: CPU, m: Seq<u8>)
    requires
        m.len() == 65536,
        m[c.pc as int] == OP_MUL,
        m[wrap16(c.pc + 1) as int] < 4,
        m[wrap16(c.pc + 2) as int] < 4,
    ensures
        spec_step(c, m) is Ok,
        ({
            let dst = m[wrap16(c.pc + 1) as int];
            let src = m[wrap16(c.pc + 2) as int];
            let x = reg_spec(c, dst);
            let y = reg_spec(c, src);
            let next = spec_step(c, m)->Ok_0.0;
            &&& next.carry <==> x * y > 255
            &&& next.zero <==> (x * y) % 256 == 0
            &&& reg_spec(next, dst) == (x * y) % 256
        }),
{
    assert(wrap16(wrap16(c.pc + 1) + 1) == wrap16(c.pc + 2));
    let dst = m[wrap16(c.pc + 1) as int];
    let src = m[wrap16(c.pc + 2) as int];
    let x = reg_spec(c, dst);
    let y = reg_spec(c, src);
    assert(mul8(x, y) == (x * y) % 256);
}

/// `call`/`ret` round trip: a `call` whose target holds a `ret` leaves the
/// program counter at the byte after the 3-byte `call` and the stack pointer
/// exactly where it was, with registers, flags and the halt bit untouched.
/// The two stack bytes the `call` wrote are the only memory changed, so the
/// target must lie outside them for the `ret` to still be there.
pub proof fn lemma_call_ret_round_trip(c: CPU, m: Seq<u8>)
    requires
        m.len() == 65536,
        m[c.pc as int] == OP_CALL,
        ({
            let target = le16(m[wrap16(c.pc + 1) as int], m[wrap16(c.pc + 2) as int]);
            &&& m[target as int] == OP_RET
            &&& target != wrap16(c.sp - 1)
            &&& target != wrap16(c.sp - 2)
        }),
    ensures
        spec_step(c, m) is Ok,
        ({
            let mid = spec_step(c, m)->Ok_0;
            &&& spec_step(mid.0, mid.1) is Ok
            &&& ({
                let fin = spec_step(mid.0, mid.1)->Ok_0;
                &&& fin.0.pc == wrap16(c.pc + 3)
                &&& fin.0.sp == c.sp
                &&& fin.0.a == c.a
                &&& fin.0.b == c.b
                &&& fin.0.c == c.c
                &&& fin.0.d == c.d
                &&& fin.0.zero == c.zero
                &&& fin.0.carry == c.carry
                &&& fin.0.halted == c.halted
            })
        }),
{
    let target = le16(m[wrap16(c.pc + 1) as int], m[wrap16(c.pc + 2) as int]);
    let ret = wrap16(c.pc + 3);
    assert(wrap16(wrap16(c.pc + 1) + 1) == wrap16(c.pc + 2));
    assert(wrap16(wrap16(wrap16(c.pc + 1) + 1) + 1) == wrap16(c.pc + 3));
    let sp1 = wrap16(c.sp - 1);
    let sp2 = wrap16(sp1 - 1);
    assert(sp2 == wrap16(c.sp - 2));
    assert(sp1 != sp2);
    let mid = spec_step(c, m)->Ok_0;
    assert(mid.0.pc == target);
    assert(mid.0.sp == sp2);
    assert(mid.1[target as int] == OP_RET);
    assert(mid.1[sp2 as int] == (ret % 256) as u8);
    assert(wrap16(sp2 + 1) == sp1);
    assert(mid.1[sp1 as int] == (ret / 256) as u8);
    assert(wrap16(sp1 + 1) == c.sp);
    assert(le16((ret % 256) as u8, (ret / 256) as u8) == ret);
}

/// The machine's two control states: the only transition into the halted
/// state is `hlt`, and no opcode leaves it. A successful step sets the halt
/// bit exactly when the fetched opcode was `hlt` or the bit was already set.
pub proof fn lemma_halt_only_by_hlt(c: CPU, m: Seq<u8>)
    requires
        spec_step(c, m) is Ok,
    ensures
        spec_step(c, m)->Ok_0.0.halted == (c.halted || m[c.pc as int] == OP_HLT),
{
}

/// No instruction writes arbitrary memory: the only steps that change memory
/// at all are `call`s, which write exactly their two stack bytes.
pub proof fn lemma_memory_written_only_by_call(c: CPU, m: Seq<u8>)
    requires
        m.len() == 65536,
        spec_step(c, m) is Ok,
        m[c.pc as int] != OP_CALL,
    ensures
        spec_step(c, m)->Ok_0.1 == m,
{
}

/// Every successful instruction-line encoding is exactly as long as pass 1
/// said that mnemonic's instruction would be.
proof fn lemma_encode_len(toks: Seq<Seq<u8>>, syms: Seq<(Seq<u8>, u16)>, err_line: int)
    requires
        spec_encode_line(toks, syms, err_line) is Ok,
    ensures
        toks.len() > 0,
        spec_mnemonic_of(toks[0]) is Some,
        spec_encode_line(toks, syms, err_line)->Ok_0.len() == spec_mnemonic_of(
            toks[0],
        )->Some_0.size_spec(),
{
}

/// Assembler address invariant: as long as both passes have succeeded, the
/// number of bytes pass 2 has emitted for the first `i` lines equals the
/// address counter pass 1 reached after those lines. In particular the byte
/// offset of every instruction's first emitted byte equals the address
/// computed for it during label resolution.
pub proof fn lemma_pass_agreement(lines: Seq<Seq<u8>>, syms: Seq<(Seq<u8>, u16)>, i: int)
    requires
        0 <= i,
        pass1(lines, i) is Ok,
        pass2(lines, syms, i) is Ok,
    ensures
        pass2(lines, syms, i)->Ok_0.len() == pass1(lines, i)->Ok_0.0,
    decreases i,
{
    if i > 0 {
        lemma_pass_agreement(lines, syms, i - 1);
        let t = spec_trim(lines[i - 1]);
        let prev_out = pass2(lines, syms, i - 1)->Ok_0;
        if pass2_line(t, i, syms, prev_out) is Ok && !(crate::assembler::is_blank(t)
            || crate::assembler::is_comment(t) || crate::assembler::is_label(t)) {
            lemma_encode_len(spec_tokenize(t), syms, i);
        }
    }
}

/// The address invariant at the whole-program level: when assembly succeeds,
/// every prefix of the line list has both passes succeeding and in
/// agreement, so each instruction stands in the output at its pass-1
/// address.
pub proof fn lemma_assembler_address_invariant(src: Seq<u8>, i: int)
    requires
        spec_assemble(src) is Ok,
        0 <= i <= spec_lines(src).len(),
    ensures
        pass1(spec_lines(src), i) is Ok,
        ({
            let lines = spec_lines(src);
            let syms = pass1(lines, lines.len() as int)->Ok_0.1;
            &&& pass2(lines, syms, i) is Ok
            &&& pass2(lines, syms, i)->Ok_0.len() == pass1(lines, i)->Ok_0.0
        }),
{
    let lines = spec_lines(src);
    let n = lines.len() as int;
    let syms = pass1(lines, n)->Ok_0.1;
    lemma_pass1_prefix_ok(lines, i, n);
    lemma_pass2_prefix_ok(lines, syms, i, n);
    lemma_pass_agreement(lines, syms, i);
}

/// A pass-1 error in a prefix would be the whole pass's outcome, so a
/// succeeding pass has every prefix succeeding.
proof fn lemma_pass1_prefix_ok(lines: Seq<Seq<u8>>, i: int, j: int)
    requires
        0 <= i <= j,
        pass1(lines, j) is Ok,
    ensures
        pass1(lines, i) is Ok,
    decreases j,
{
    if j > i {
        if pass1(lines, j - 1) is Ok {
            lemma_pass1_prefix_ok(lines, i, j - 1);
        }
    }
}

/// As [`lemma_pass1_prefix_ok`], for pass 2.
proof fn lemma_pass2_prefix_ok(lines: Seq<Seq<u8>>, syms: Seq<(Seq<u8>, u16)>, i: int, j: int)
    requires
        0 <= i <= j,
        pass2(lines, syms, j) is Ok,
    ensures
        pass2(lines, syms, i) is Ok,
    decreases j,
{
    if j > i {
        if pass2(lines, syms, j - 1) is Ok {
            lemma_pass2_prefix_ok(lines, syms, i, j - 1);
        }
    }
}

} // verus!

//! The two-pass assembler: pass 1 walks the source lines keeping a running
//! address counter and records every label's address in the symbol table;
//! pass 2 walks them again and emits the binary encoding of each instruction,
//! resolving jump and call targets through the (by then complete) table.
//!
//! [`assembler`] is the public entry point. Its result is pinned to the
//! specification-level function [`spec_assemble`]: the same source text can
//! only ever yield the same bytes or the same error.

use crate::instructions::OP_ADD_RI;
use crate::instructions::OP_ADD_RR;
use crate::instructions::OP_CALL;
use crate::instructions::OP_CMP_RI;
use crate::instructions::OP_CMP_RR;
use crate::instructions::OP_DIV;
use crate::instructions::OP_HLT;
use crate::instructions::OP_JMP;
use crate::instructions::OP_JNZ;
use crate::instructions::OP_JZ;
use crate::instructions::OP_MOV_RI;
use crate::instructions::OP_MOV_RR;
use crate::instructions::OP_MUL;
use crate::instructions::OP_RET;
use crate::instructions::OP_SUB_RI;
use crate::instructions::OP_SUB_RR;
use crate::text::all_digits;
use crate::text::bytes_eq;
use crate::text::is_digit;
use crate::text::lower;
use crate::text::lower_bytes;
use crate::text::spec_lines;
use crate::text::spec_tokenize;
use crate::text::spec_trim;
use crate::text::split_lines;
use crate::text::tokenize;
use crate::text::trim;
use crate::text::views;
use crate::text::B_COLON;
use crate::text::B_SEMI;
use vstd::prelude::*;
use vstd::string::StringSliceAdditionalSpecFns;

verus! {

/// What went wrong on an assembly line.
#[derive(Clone, Copy, PartialEq, Eq, Structural, Debug)]
pub enum AsmErrorKind {
    /// The first token names no instruction (or the line has no token).
    UnknownMnemonic,
    /// A register operand is none of `a`, `b`, `c`, `d`.
    UnknownRegister,
    /// An immediate operand is not an unsigned decimal literal below 256.
    BadImmediate,
    /// A jump or call names a label that no line declares.
    UnknownLabel,
    /// The instruction has fewer operands than its shape asks for.
    MissingOperand,
    /// The running address counter left the 16-bit address space.
    ProgramTooLarge,
}

/// A fatal assembly error: the kind of problem and the 1-based source line
/// it was found on.
#[derive(Clone, Copy, PartialEq, Eq, Structural, Debug)]
pub struct AsmError {
    pub line: usize,
    pub kind: AsmErrorKind,
}

/// An instruction name as written in source. `mov`, `add`, `sub` and `cmp`
/// each cover a register-register and a register-immediate opcode; the
/// choice between the two is made per operand during emission.
#[derive(Clone, Copy, PartialEq, Eq, Structural, Debug)]
pub enum Mnemonic {
    Mov,
    Add,
    Sub,
    Cmp,
    Mul,
    Div,
    Jmp,
    Jz,
    Jnz,
    Call,
    Ret,
    Hlt,
}

impl Mnemonic {
    /// The fixed byte size every instruction with this name assembles to.
    pub open spec fn size_spec(self) -> u16 {
        match self {
            Mnemonic::Ret => 1u16,
            Mnemonic::Hlt => 1u16,
            _ => 3u16,
        }
    }

    /// The fixed byte size every instruction with this name assembles to.
    pub fn size(self) -> (n: u16)
        ensures
            n == self.size_spec(),
    {
        match self {
            Mnemonic::Ret => 1,
            Mnemonic::Hlt => 1,
            _ => 3,
        }
    }
}

/// The mnemonic a lowercased token names, if any.
pub open spec fn spec_mnemonic_of(t: Seq<u8>) -> Option<Mnemonic> {
    if t == seq![109u8, 111u8, 118u8] {  // mov
        Some(Mnemonic::Mov)
    } else if t == seq![97u8, 100u8, 100u8] {  // add
        Some(Mnemonic::Add)
    } else if t == seq![115u8, 117u8, 98u8] {  // sub
        Some(Mnemonic::Sub)
    } else if t == seq![99u8, 109u8, 112u8] {  // cmp
        Some(Mnemonic::Cmp)
    } else if t == seq![109u8, 117u8, 108u8] {  // mul
        Some(Mnemonic::Mul)
    } else if t == seq![100u8, 105u8, 118u8] {  // div
        Some(Mnemonic::Div)
    } else if t == seq![106u8, 109u8, 112u8] {  // jmp
        Some(Mnemonic::Jmp)
    } else if t == seq![106u8, 122u8] {  // jz
        Some(Mnemonic::Jz)
    } else if t == seq![106u8, 110u8, 122u8] {  // jnz
        Some(Mnemonic::Jnz)
    } else if t == seq![99u8, 97u8, 108u8, 108u8] {  // call
        Some(Mnemonic::Call)
    } else if t == seq![114u8, 101u8, 116u8] {  // ret
        Some(Mnemonic::Ret)
    } else if t == seq![104u8, 108u8, 116u8] {  // hlt
        Some(Mnemonic::Hlt)
    } else {
        None
    }
}

/// Whether `t` holds exactly the two given bytes.
fn tok_is2(t: &[u8], a: u8, b: u8) -> (r: bool)
    ensures
        r == (t@ == seq![a, b]),
{
    let r = t.len() == 2 && t[0] == a && t[1] == b;
    proof {
        if r {
            assert(t@ =~= seq![a, b]);
        }
    }
    r
}

/// Whether `t` holds exactly the three given bytes.
fn tok_is3(t: &[u8], a: u8, b: u8, c: u8) -> (r: bool)
    ensures
        r == (t@ == seq![a, b, c]),
{
    let r = t.len() == 3 && t[0] == a && t[1] == b && t[2] == c;
    proof {
        if r {
            assert(t@ =~= seq![a, b, c]);
        }
    }
    r
}

/// Whether `t` holds exactly the four given bytes.
fn tok_is4(t: &[u8], a: u8, b: u8, c: u8, d: u8) -> (r: bool)
    ensures
        r == (t@ == seq![a, b, c, d]),
{
    let r = t.len() == 4 && t[0] == a && t[1] == b && t[2] == c && t[3] == d;
    proof {
        if r {
            assert(t@ =~= seq![a, b, c, d]);
        }
    }
    r
}

/// The mnemonic a lowercased token names, if any.
pub fn mnemonic_of(t: &[u8]) -> (m: Option<Mnemonic>)
    ensures
        m == spec_mnemonic_of(t@),
{
    if tok_is3(t, 109, 111, 118) {
        Some(Mnemonic::Mov)
    } else if tok_is3(t, 97, 100, 100) {
        Some(Mnemonic::Add)
    } else if tok_is3(t, 115, 117, 98) {
        Some(Mnemonic::Sub)
    } else if tok_is3(t, 99, 109, 112) {
        Some(Mnemonic::Cmp)
    } else if tok_is3(t, 109, 117, 108) {
        Some(Mnemonic::Mul)
    } else if tok_is3(t, 100, 105, 118) {
        Some(Mnemonic::Div)
    } else if tok_is3(t, 106, 109, 112) {
        Some(Mnemonic::Jmp)
    } else if tok_is2(t, 106, 122) {
        Some(Mnemonic::Jz)
    } else if tok_is3(t, 106, 110, 122) {
        Some(Mnemonic::Jnz)
    } else if tok_is4(t, 99, 97, 108, 108) {
        Some(Mnemonic::Call)
    } else if tok_is3(t, 114, 101, 116) {
        Some(Mnemonic::Ret)
    } else if tok_is3(t, 104, 108, 116) {
        Some(Mnemonic::Hlt)
    } else {
        None
    }
}

/// The register index a lowercased token names: `a`, `b`, `c`, `d` stand for
/// 0 to 3.
pub open spec fn spec_parse_reg(t: Seq<u8>) -> Option<u8> {
    if t == seq![97u8] {
        Some(0u8)
    } else if t == seq![98u8] {
        Some(1u8)
    } else if t == seq![99u8] {
        Some(2u8)
    } else if t == seq![100u8] {
        Some(3u8)
    } else {
        None
    }
}

/// The register index a lowercased token names, if any.
pub fn parse_reg(t: &[u8]) -> (r: Option<u8>)
    ensures
        r == spec_parse_reg(t@),
{
    if t.len() == 1 {
        let b = t[0];
        proof {
            assert(t@ =~= seq![t@[0]]);
        }
        if b == 97 {
            Some(0)
        } else if b == 98 {
            Some(1)
        } else if b == 99 {
            Some(2)
        } else if b == 100 {
            Some(3)
        } else {
            None
        }
    } else {
        None
    }
}

/// Whether a lowercased token names a register.
pub fn is_reg(t: &[u8]) -> (r: bool)
    ensures
        r == spec_parse_reg(t@).is_some(),
{
    let p = parse_reg(t);
    p.is_some()
}

/// Whether every byte of the token is an ASCII decimal digit; this is what
/// decides `cmp`'s operand form.
pub fn digits_only(t: &[u8]) -> (r: bool)
    ensures
        r == all_digits(t@),
{
    let n = t.len();
    let mut i: usize = 0;
    while i < n
        invariant
            n == t@.len(),
            i <= n,
            forall|j: int| 0 <= j < i ==> is_digit(t@[j]),
        decreases n - i,
    {
        let b = t[i];
        if b < 48 || b > 57 {
            proof {
                assert(!is_digit(t@[i as int]));
            }
            return false;
        }
        i = i + 1;
    }
    true
}

/// The running value of the decimal literal `s` from position `i` on, given
/// the value `acc` of the digits before `i`; `None` once the value passes
/// 255 or a non-digit byte appears.
pub open spec fn imm_acc(s: Seq<u8>, i: int, acc: u16) -> Option<u8>
    decreases s.len() - i,
{
    if i < 0 || i >= s.len() {
        Some(acc as u8)
    } else if !is_digit(s[i]) {
        None
    } else {
        let v = acc * 10 + (s[i] - 48);
        if v > 255 {
            None
        } else {
            imm_acc(s, i + 1, v as u16)
        }
    }
}

/// The 8-bit value of an unsigned decimal literal token; `None` for an empty
/// token, a non-digit byte, or a value above 255.
pub open spec fn spec_parse_imm(s: Seq<u8>) -> Option<u8> {
    if s.len() == 0 {
        None
    } else {
        imm_acc(s, 0, 0)
    }
}

/// Parses an unsigned decimal literal fitting in 8 bits.
pub fn parse_imm(t: &[u8]) -> (r: Option<u8>)
    ensures
        r == spec_parse_imm(t@),
{
    let n = t.len();
    if n == 0 {
        return None;
    }
    let mut acc: u16 = 0;
    let mut i: usize = 0;
    while i < n
        invariant
            n == t@.len(),
            i <= n,
            acc <= 255,
            spec_parse_imm(t@) == imm_acc(t@, i as int, acc),
        decreases n - i,
    {
        let b = t[i];
        if b < 48 || b > 57 {
            return None;
        }
        let v = acc * 10 + ((b - 48) as u16);
        if v > 255 {
            return None;
        }
        acc = v;
        i = i + 1;
    }
    Some(acc as u8)
}

/// The fixed byte size of the instruction a tokenized line holds: keyed by
/// the first token's mnemonic, `None` when it names none.
pub open spec fn spec_instr_size(toks: Seq<Seq<u8>>) -> Option<u16> {
    if toks.len() == 0 {
        None
    } else {
        match spec_mnemonic_of(toks[0]) {
            Some(m) => Some(m.size_spec()),
            None => None,
        }
    }
}

/// The fixed byte size of the instruction a tokenized line holds, by which
/// pass 1 advances its address counter; `None` for an unknown mnemonic.
pub fn instr_size(tokens: &Vec<Vec<u8>>) -> (r: Option<u16>)
    ensures
        r == spec_instr_size(views(tokens@)),
{
    if tokens.len() == 0 {
        return None;
    }
    match mnemonic_of(tokens[0].as_slice()) {
        Some(m) => Some(m.size()),
        None => None,
    }
}

/// The label-to-address mapping built by pass 1. Lookup finds the most
/// recently recorded entry for a name, so a repeated label means its last
/// occurrence, exactly as overwriting a map entry would.
pub struct SymbolTable {
    entries: Vec<(Vec<u8>, u16)>,
}

impl View for SymbolTable {
    type V = Seq<(Seq<u8>, u16)>;

    closed spec fn view(&self) -> Seq<(Seq<u8>, u16)> {
        Seq::new(self.entries@.len(), |i: int| (self.entries@[i].0@, self.entries@[i].1))
    }
}

/// The address recorded for `name`, searching the latest entries first.
pub open spec fn spec_lookup(sy: Seq<(Seq<u8>, u16)>, name: Seq<u8>) -> Option<u16>
    decreases sy.len(),
{
    if sy.len() == 0 {
        None
    } else if sy.last().0 == name {
        Some(sy.last().1)
    } else {
        spec_lookup(sy.drop_last(), name)
    }
}

impl SymbolTable {
    /// An empty table.
    pub fn new() -> (st: SymbolTable)
        ensures
            st@ == Seq::<(Seq<u8>, u16)>::empty(),
    {
        let st = SymbolTable { entries: Vec::new() };
        proof {
            assert(st@ =~= Seq::<(Seq<u8>, u16)>::empty());
        }
        st
    }

    /// Records `name -> addr`, shadowing any earlier entry for `name`.
    pub fn insert(&mut self, name: Vec<u8>, addr: u16)
        ensures
            final(self)@ == old(self)@.push((name@, addr)),
    {
        let ghost nv = name@;
        self.entries.push((name, addr));
        proof {
            assert(self@ =~= old(self)@.push((nv, addr)));
        }
    }

    /// The address recorded for `name`, if any; the latest entry wins.
    pub fn lookup(&self, name: &[u8]) -> (r: Option<u16>)
        ensures
            r == spec_lookup(self@, name@),
    {
        let n = self.entries.len();
        let mut i: usize = n;
        proof {
            assert(self@.subrange(0, i as int) =~= self@);
        }
        while i > 0
            invariant
                n == self@.len(),
                n == self.entries@.len(),
                i <= n,
                spec_lookup(self@, name@) == spec_lookup(self@.subrange(0, i as int), name@),
            decreases i,
        {
            i = i - 1;
            let entry_name: &Vec<u8> = &self.entries[i].0;
            if bytes_eq(entry_name.as_slice(), name) {
                proof {
                    assert(self@.subrange(0, i as int + 1).last() == self@[i as int]);
                }
                return Some(self.entries[i].1);
            }
            proof {
                assert(self@.subrange(0, i as int + 1).last() == self@[i as int]);
                assert(self@.subrange(0, i as int + 1).drop_last() =~= self@.subrange(
                    0,
                    i as int,
                ));
            }
        }
        proof {
            assert(self@.subrange(0, 0).len() == 0);
        }
        None
    }
}

/// A line holding nothing after trimming.
pub open spec fn is_blank(t: Seq<u8>) -> bool {
    t.len() == 0
}

/// A full-line comment: the trimmed line starts with a semicolon.
pub open spec fn is_comment(t: Seq<u8>) -> bool {
    t.len() > 0 && t[0] == B_SEMI
}

/// A label declaration: the trimmed line ends with a colon.
pub open spec fn is_label(t: Seq<u8>) -> bool {
    t.len() > 0 && t[t.len() - 1] == B_COLON
}

/// Position of the first of the trailing colons strictly before `j`; the
/// label's name is everything before it.
pub open spec fn label_end(t: Seq<u8>, j: int) -> int
    decreases j,
{
    if j <= 0 || j > t.len() {
        0
    } else if t[j - 1] == B_COLON {
        label_end(t, j - 1)
    } else {
        j
    }
}

/// The name a label line declares: the text before its trailing colons,
/// lowercased (lookup tokens are lowercased too, so labels are
/// case-insensitive).
pub open spec fn label_name(t: Seq<u8>) -> Seq<u8> {
    lower(t.subrange(0, label_end(t, t.len() as int)))
}

/// The assembly error `kind` reported for the 1-based source line
/// `err_line`.
pub open spec fn asm_err(err_line: int, kind: AsmErrorKind) -> AsmError {
    AsmError { line: err_line as usize, kind }
}

/// One line of pass 1: blank and comment lines consume no address space, a
/// label line records the counter under its name, and an instruction line
/// advances the counter by the mnemonic's fixed size. `err_line` is the
/// 1-based number of the line.
pub open spec fn pass1_line(t: Seq<u8>, err_line: int, addr: u16, syms: Seq<(Seq<u8>, u16)>) -> Result<
    (u16, Seq<(Seq<u8>, u16)>),
    AsmError,
> {
    if is_blank(t) || is_comment(t) {
        Ok((addr, syms))
    } else if is_label(t) {
        Ok((addr, syms.push((label_name(t), addr))))
    } else {
        let toks = spec_tokenize(t);
        if toks.len() == 0 {
            Err(asm_err(err_line, AsmErrorKind::UnknownMnemonic))
        } else {
            match spec_mnemonic_of(toks[0]) {
                None => Err(asm_err(err_line, AsmErrorKind::UnknownMnemonic)),
                Some(m) => if addr + m.size_spec() > 65535 {
                    Err(asm_err(err_line, AsmErrorKind::ProgramTooLarge))
                } else {
                    Ok(((addr + m.size_spec()) as u16, syms))
                },
            }
        }
    }
}

/// Pass-1 state after the first `i` lines: the running address counter and
/// the symbol table so far, or the first error met.
pub open spec fn pass1(lines: Seq<Seq<u8>>, i: int) -> Result<(u16, Seq<(Seq<u8>, u16)>), AsmError>
    decreases i,
{
    if i <= 0 {
        Ok((0u16, Seq::empty()))
    } else {
        match pass1(lines, i - 1) {
            Err(e) => Err(e),
            Ok(st) => pass1_line(spec_trim(lines[i - 1]), i, st.0, st.1),
        }
    }
}

/// The symbol table pass 1 builds for a source text, or its first error.
pub open spec fn spec_first_pass(src: Seq<u8>) -> Result<Seq<(Seq<u8>, u16)>, AsmError> {
    match pass1(spec_lines(src), spec_lines(src).len() as int) {
        Ok(st) => Ok(st.1),
        Err(e) => Err(e),
    }
}

/// An error met at line `i` of pass 1 is the pass's outcome: every later
/// state keeps it.
proof fn lemma_pass1_err(lines: Seq<Seq<u8>>, i: int, j: int)
    requires
        0 <= i <= j,
        pass1(lines, i) is Err,
    ensures
        pass1(lines, j) == pass1(lines, i),
    decreases j,
{
    if j > i {
        lemma_pass1_err(lines, i, j - 1);
    }
}

/// Pass 1: walks the lines with a running 16-bit address counter and records
/// every label's address. The result is pinned to [`spec_first_pass`] of the
/// source bytes.
pub fn first_pass(source: &str) -> (r: Result<SymbolTable, AsmError>)
    ensures
        (match r {
            Ok(st) => spec_first_pass(source.spec_bytes()) == Ok::<
                Seq<(Seq<u8>, u16)>,
                AsmError,
            >(st@),
            Err(e) => spec_first_pass(source.spec_bytes()) == Err::<
                Seq<(Seq<u8>, u16)>,
                AsmError,
            >(e),
        }),
{
    let bytes = source.as_bytes();
    let lines = split_lines(bytes);
    let n = lines.len();
    let mut syms = SymbolTable::new();
    let mut addr: u16 = 0;
    let mut i: usize = 0;
    while i < n
        invariant
            n == lines@.len(),
            views(lines@) == spec_lines(source.spec_bytes()),
            i <= n,
            pass1(views(lines@), i as int) == Ok::<(u16, Seq<(Seq<u8>, u16)>), AsmError>(
                (addr, syms@),
            ),
        decreases n - i,
    {
        let t = trim(lines[i].as_slice());
        if t.len() == 0 || t[0] == B_SEMI {
            // comment or blank line: consumes no address space
        } else if t[t.len() - 1] == B_COLON {
            let mut j: usize = t.len();
            while j > 0 && t[j - 1] == B_COLON
                invariant
                    j <= t@.len(),
                    label_end(t@, t@.len() as int) == label_end(t@, j as int),
                decreases j,
            {
                j = j - 1;
            }
            let name = lower_bytes(&t.as_slice()[0..j]);
            syms.insert(name, addr);
        } else {
            let toks = tokenize(t.as_slice());
            match instr_size(&toks) {
                None => {
                    let e = AsmError { line: i + 1, kind: AsmErrorKind::UnknownMnemonic };
                    proof {
                        lemma_pass1_err(views(lines@), i + 1, n as int);
                    }
                    return Err(e);
                },
                Some(sz) => {
                    if addr > 65535 - sz {
                        let e = AsmError { line: i + 1, kind: AsmErrorKind::ProgramTooLarge };
                        proof {
                            lemma_pass1_err(views(lines@), i + 1, n as int);
                        }
                        return Err(e);
                    }
                    addr = addr + sz;
                },
            }
        }
        i = i + 1;
    }
    Ok(syms)
}

/// Encoding of a `mov`, `add` or `sub` line: the second operand picks the
/// register-register opcode when it names a register, else it must be an
/// 8-bit decimal literal for the register-immediate opcode.
pub open spec fn spec_encode_rr_ri(
    toks: Seq<Seq<u8>>,
    err_line: int,
    op_rr: u8,
    op_ri: u8,
) -> Result<Seq<u8>, AsmError> {
    if toks.len() < 3 {
        Err(asm_err(err_line, AsmErrorKind::MissingOperand))
    } else {
        match spec_parse_reg(toks[1]) {
            None => Err(asm_err(err_line, AsmErrorKind::UnknownRegister)),
            Some(r1) => match spec_parse_reg(toks[2]) {
                Some(r2) => Ok(seq![op_rr, r1, r2]),
                None => match spec_parse_imm(toks[2]) {
                    Some(v) => Ok(seq![op_ri, r1, v]),
                    None => Err(asm_err(err_line, AsmErrorKind::BadImmediate)),
                },
            },
        }
    }
}

/// Encoding of a `cmp` line: the operand form is decided by whether the
/// second operand consists of digits alone, not by register-name matching.
pub open spec fn spec_encode_cmp(toks: Seq<Seq<u8>>, err_line: int) -> Result<Seq<u8>, AsmError> {
    if toks.len() < 3 {
        Err(asm_err(err_line, AsmErrorKind::MissingOperand))
    } else {
        match spec_parse_reg(toks[1]) {
            None => Err(asm_err(err_line, AsmErrorKind::UnknownRegister)),
            Some(r1) => if all_digits(toks[2]) {
                match spec_parse_imm(toks[2]) {
                    Some(v) => Ok(seq![OP_CMP_RI, r1, v]),
                    None => Err(asm_err(err_line, AsmErrorKind::BadImmediate)),
                }
            } else {
                match spec_parse_reg(toks[2]) {
                    Some(r2) => Ok(seq![OP_CMP_RR, r1, r2]),
                    None => Err(asm_err(err_line, AsmErrorKind::UnknownRegister)),
                }
            },
        }
    }
}

/// Encoding of a `mul` or `div` line: always two register operands.
pub open spec fn spec_encode_regreg(toks: Seq<Seq<u8>>, err_line: int, op: u8) -> Result<
    Seq<u8>,
    AsmError,
> {
    if toks.len() < 3 {
        Err(asm_err(err_line, AsmErrorKind::MissingOperand))
    } else {
        match spec_parse_reg(toks[1]) {
            None => Err(asm_err(err_line, AsmErrorKind::UnknownRegister)),
            Some(r1) => match spec_parse_reg(toks[2]) {
                None => Err(asm_err(err_line, AsmErrorKind::UnknownRegister)),
                Some(r2) => Ok(seq![op, r1, r2]),
            },
        }
    }
}

/// Encoding of a `jmp`, `jz`, `jnz` or `call` line: the label's 16-bit
/// address, low byte first, after the opcode.
pub open spec fn spec_encode_jump(
    toks: Seq<Seq<u8>>,
    syms: Seq<(Seq<u8>, u16)>,
    err_line: int,
    op: u8,
) -> Result<Seq<u8>, AsmError> {
    if toks.len() < 2 {
        Err(asm_err(err_line, AsmErrorKind::MissingOperand))
    } else {
        match spec_lookup(syms, toks[1]) {
            None => Err(asm_err(err_line, AsmErrorKind::UnknownLabel)),
            Some(addr) => Ok(seq![op, (addr % 256) as u8, (addr / 256) as u8]),
        }
    }
}

/// The bytes an instruction line's tokens assemble to, or the error.
pub open spec fn spec_encode_line(
    toks: Seq<Seq<u8>>,
    syms: Seq<(Seq<u8>, u16)>,
    err_line: int,
) -> Result<Seq<u8>, AsmError> {
    if toks.len() == 0 {
        Err(asm_err(err_line, AsmErrorKind::UnknownMnemonic))
    } else {
        match spec_mnemonic_of(toks[0]) {
            None => Err(asm_err(err_line, AsmErrorKind::UnknownMnemonic)),
            Some(m) => match m {
                Mnemonic::Mov => spec_encode_rr_ri(toks, err_line, OP_MOV_RR, OP_MOV_RI),
                Mnemonic::Add => spec_encode_rr_ri(toks, err_line, OP_ADD_RR, OP_ADD_RI),
                Mnemonic::Sub => spec_encode_rr_ri(toks, err_line, OP_SUB_RR, OP_SUB_RI),
                Mnemonic::Cmp => spec_encode_cmp(toks, err_line),
                Mnemonic::Mul => spec_encode_regreg(toks, err_line, OP_MUL),
                Mnemonic::Div => spec_encode_regreg(toks, err_line, OP_DIV),
                Mnemonic::Jmp => spec_encode_jump(toks, syms, err_line, OP_JMP),
                Mnemonic::Jz => spec_encode_jump(toks, syms, err_line, OP_JZ),
                Mnemonic::Jnz => spec_encode_jump(toks, syms, err_line, OP_JNZ),
                Mnemonic::Call => spec_encode_jump(toks, syms, err_line, OP_CALL),
                Mnemonic::Ret => Ok(seq![OP_RET]),
                Mnemonic::Hlt => Ok(seq![OP_HLT]),
            },
        }
    }
}

/// One line of pass 2: blank, comment and label lines emit nothing; an
/// instruction line appends its encoding to the output so far.
pub open spec fn pass2_line(
    t: Seq<u8>,
    err_line: int,
    syms: Seq<(Seq<u8>, u16)>,
    out: Seq<u8>,
) -> Result<Seq<u8>, AsmError> {
    if is_blank(t) || is_comment(t) || is_label(t) {
        Ok(out)
    } else {
        match spec_encode_line(spec_tokenize(t), syms, err_line) {
            Ok(bs) => Ok(out + bs),
            Err(e) => Err(e),
        }
    }
}

/// Pass-2 state after the first `i` lines: the bytes emitted so far, or the
/// first error met.
pub open spec fn pass2(lines: Seq<Seq<u8>>, syms: Seq<(Seq<u8>, u16)>, i: int) -> Result<
    Seq<u8>,
    AsmError,
>
    decreases i,
{
    if i <= 0 {
        Ok(Seq::empty())
    } else {
        match pass2(lines, syms, i - 1) {
            Err(e) => Err(e),
            Ok(out) => pass2_line(spec_trim(lines[i - 1]), i, syms, out),
        }
    }
}

/// An error met at line `i` of pass 2 is the pass's outcome: every later
/// state keeps it.
proof fn lemma_pass2_err(lines: Seq<Seq<u8>>, syms: Seq<(Seq<u8>, u16)>, i: int, j: int)
    requires
        0 <= i <= j,
        pass2(lines, syms, i) is Err,
    ensures
        pass2(lines, syms, j) == pass2(lines, syms, i),
    decreases j,
{
    if j > i {
        lemma_pass2_err(lines, syms, i, j - 1);
    }
}

/// The bytes a whole source text assembles to: pass 1 for the symbol table,
/// then pass 2 for the emission, stopping at the first error of either pass.
pub open spec fn spec_assemble(src: Seq<u8>) -> Result<Seq<u8>, AsmError> {
    let lines = spec_lines(src);
    match pass1(lines, lines.len() as int) {
        Err(e) => Err(e),
        Ok(st) => pass2(lines, st.1, lines.len() as int),
    }
}

/// Appends one byte.
fn push1(out: &mut Vec<u8>, a: u8)
    ensures
        final(out)@ == old(out)@ + seq![a],
{
    out.push(a);
    proof {
        assert(out@ =~= old(out)@ + seq![a]);
    }
}

/// Appends an opcode and its two operand bytes.
fn push3(out: &mut Vec<u8>, a: u8, b: u8, c: u8)
    ensures
        final(out)@ == old(out)@ + seq![a, b, c],
{
    out.push(a);
    out.push(b);
    out.push(c);
    proof {
        assert(out@ =~= old(out)@ + seq![a, b, c]);
    }
}

/// Emits one instruction line's encoding onto `out`; on an error `out` is
/// untouched. `err_line` is the 1-based source line number for reporting.
fn encode_line(toks: &Vec<Vec<u8>>, syms: &SymbolTable, err_line: usize, out: &mut Vec<u8>) -> (r:
    Result<(), AsmError>)
    ensures
        (match spec_encode_line(views(toks@), syms@, err_line as int) {
            Ok(bs) => r is Ok && final(out)@ == old(out)@ + bs,
            Err(e) => r == Err::<(), AsmError>(e) && final(out)@ == old(out)@,
        }),
{
    if toks.len() == 0 {
        return Err(AsmError { line: err_line, kind: AsmErrorKind::UnknownMnemonic });
    }
    let m = match mnemonic_of(toks[0].as_slice()) {
        Some(m) => m,
        None => {
            return Err(AsmError { line: err_line, kind: AsmErrorKind::UnknownMnemonic });
        },
    };
    match m {
        Mnemonic::Mov | Mnemonic::Add | Mnemonic::Sub => {
            if toks.len() < 3 {
                return Err(AsmError { line: err_line, kind: AsmErrorKind::MissingOperand });
            }
            let r1 = match parse_reg(toks[1].as_slice()) {
                Some(r1) => r1,
                None => {
                    return Err(AsmError { line: err_line, kind: AsmErrorKind::UnknownRegister });
                },
            };
            let op_rr = if matches!(m, Mnemonic::Mov) {
                OP_MOV_RR
            } else if matches!(m, Mnemonic::Add) {
                OP_ADD_RR
            } else {
                OP_SUB_RR
            };
            let op_ri = if matches!(m, Mnemonic::Mov) {
                OP_MOV_RI
            } else if matches!(m, Mnemonic::Add) {
                OP_ADD_RI
            } else {
                OP_SUB_RI
            };
            match parse_reg(toks[2].as_slice()) {
                Some(r2) => {
                    push3(out, op_rr, r1, r2);
                },
                None => match parse_imm(toks[2].as_slice()) {
                    Some(v) => {
                        push3(out, op_ri, r1, v);
                    },
                    None => {
                        return Err(AsmError { line: err_line, kind: AsmErrorKind::BadImmediate });
                    },
                },
            }
        },
        Mnemonic::Cmp => {
            if toks.len() < 3 {
                return Err(AsmError { line: err_line, kind: AsmErrorKind::MissingOperand });
            }
            let r1 = match parse_reg(toks[1].as_slice()) {
                Some(r1) => r1,
                None => {
                    return Err(AsmError { line: err_line, kind: AsmErrorKind::UnknownRegister });
                },
            };
            if digits_only(toks[2].as_slice()) {
                match parse_imm(toks[2].as_slice()) {
                    Some(v) => {
                        push3(out, OP_CMP_RI, r1, v);
                    },
                    None => {
                        return Err(AsmError { line: err_line, kind: AsmErrorKind::BadImmediate });
                    },
                }
            } else {
                match parse_reg(toks[2].as_slice()) {
                    Some(r2) => {
                        push3(out, OP_CMP_RR, r1, r2);
                    },
                    None => {
                        return Err(
                            AsmError { line: err_line, kind: AsmErrorKind::UnknownRegister },
                        );
                    },
                }
            }
        },
        Mnemonic::Mul | Mnemonic::Div => {
            if toks.len() < 3 {
                return Err(AsmError { line: err_line, kind: AsmErrorKind::MissingOperand });
            }
            let r1 = match parse_reg(toks[1].as_slice()) {
                Some(r1) => r1,
                None => {
                    return Err(AsmError { line: err_line, kind: AsmErrorKind::UnknownRegister });
                },
            };
            let r2 = match parse_reg(toks[2].as_slice()) {
                Some(r2) => r2,
                None => {
                    return Err(AsmError { line: err_line, kind: AsmErrorKind::UnknownRegister });
                },
            };
            let op = if matches!(m, Mnemonic::Mul) {
                OP_MUL
            } else {
                OP_DIV
            };
            push3(out, op, r1, r2);
        },
        Mnemonic::Jmp | Mnemonic::Jz | Mnemonic::Jnz | Mnemonic::Call => {
            if toks.len() < 2 {
                return Err(AsmError { line: err_line, kind: AsmErrorKind::MissingOperand });
            }
            let addr = match syms.lookup(toks[1].as_slice()) {
                Some(addr) => addr,
                None => {
                    return Err(AsmError { line: err_line, kind: AsmErrorKind::UnknownLabel });
                },
            };
            let op = if matches!(m, Mnemonic::Jmp) {
                OP_JMP
            } else if matches!(m, Mnemonic::Jz) {
                OP_JZ
            } else if matches!(m, Mnemonic::Jnz) {
                OP_JNZ
            } else {
                OP_CALL
            };
            push3(out, op, (addr % 256) as u8, (addr / 256) as u8);
        },
        Mnemonic::Ret => {
            push1(out, OP_RET);
        },
        Mnemonic::Hlt => {
            push1(out, OP_HLT);
        },
    }
    Ok(())
}

/// The two-pass assembler: turns assembly source into the byte sequence the
/// execution engine runs, or reports the first error with its 1-based line
/// number. The result is pinned to [`spec_assemble`] of the source bytes.
pub fn assembler(source: &str) -> (r: Result<Vec<u8>, AsmError>)
    ensures
        (match r {
            Ok(v) => spec_assemble(source.spec_bytes()) == Ok::<Seq<u8>, AsmError>(v@),
            Err(e) => spec_assemble(source.spec_bytes()) == Err::<Seq<u8>, AsmError>(e),
        }),
{
    let syms = match first_pass(source) {
        Ok(st) => st,
        Err(e) => {
            return Err(e);
        },
    };
    let bytes = source.as_bytes();
    let lines = split_lines(bytes);
    let n = lines.len();
    let mut out: Vec<u8> = Vec::new();
    let mut i: usize = 0;
    while i < n
        invariant
            n == lines@.len(),
            views(lines@) == spec_lines(source.spec_bytes()),
            spec_first_pass(source.spec_bytes()) == Ok::<Seq<(Seq<u8>, u16)>, AsmError>(syms@),
            i <= n,
            pass2(views(lines@), syms@, i as int) == Ok::<Seq<u8>, AsmError>(out@),
        decreases n - i,
    {
        let t = trim(lines[i].as_slice());
        if t.len() == 0 || t[0] == B_SEMI || t[t.len() - 1] == B_COLON {
            // nothing emitted for blank, comment and label lines
        } else {
            let toks = tokenize(t.as_slice());
            match encode_line(&toks, &syms, i + 1, &mut out) {
                Ok(_) => {},
                Err(e) => {
                    proof {
                        lemma_pass2_err(views(lines@), syms@, i + 1, n as int);
                    }
                    return Err(e);
                },
            }
        }
        i = i + 1;
    }
    Ok(out)
}

} // verus!

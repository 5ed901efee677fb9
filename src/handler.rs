//! Register groups saved on a trap, as the inner handler sees them, and their diagnostic dump.
use crate::text::{hex_text, push_hex};
use vstd::prelude::*;

verus! {

/// Caller-saved registers, saved by the trampoline prologue.
#[derive(Clone, Copy, Debug, PartialEq, Eq, Structural)]
pub struct ScratchRegisters {
    pub r11: u64,
    pub r10: u64,
    pub r9: u64,
    pub r8: u64,
    pub rsi: u64,
    pub rdi: u64,
    pub rdx: u64,
    pub rcx: u64,
    pub rax: u64,
}

/// Callee-saved registers, saved by the trampoline prologue because the inner handler is an
/// ordinary function.
#[derive(Clone, Copy, Debug, PartialEq, Eq, Structural)]
pub struct PreservedRegisters {
    pub r15: u64,
    pub r14: u64,
    pub r13: u64,
    pub r12: u64,
    pub rbp: u64,
    pub rbx: u64,
}

/// The frame the processor pushes on every trap and pops with `iretq`.
#[derive(Clone, Copy, Debug, PartialEq, Eq, Structural)]
pub struct IretRegisters {
    pub rip: u64,
    pub cs: u64,
    pub rflags: u64,
    pub rsp: u64,
    pub ss: u64,
}

/// Everything on the stack when the inner handler runs, lowest address first: the preserved
/// registers were pushed last, then come the scratch registers, then the processor's frame.
#[derive(Clone, Copy, Debug, PartialEq, Eq, Structural)]
pub struct InterruptStackFrame {
    pub preserved: PreservedRegisters,
    pub scratch: ScratchRegisters,
    pub iret: IretRegisters,
}

/// One dump line: `name: value`, the value as `{:#x}` writes it.
pub open spec fn register_line(name: Seq<char>, value: u64) -> Seq<char> {
    name + ": "@ + hex_text(value)
}

/// The texts of a sequence of strings.
pub open spec fn texts(lines: Seq<String>) -> Seq<Seq<char>> {
    lines.map_values(|s: String| s@)
}

/// Appends the dump line for `name` and `value` to `lines`.
pub fn push_register_line(lines: &mut Vec<String>, name: &str, value: u64)
    ensures
        texts(final(lines)@) == texts(old(lines)@).push(register_line(name@, value)),
{
    let mut s = String::from_str(name);
    s.append(": ");
    push_hex(&mut s, value);
    lines.push(s);
    assert(texts(lines@) =~= texts(old(lines)@).push(register_line(name@, value)));
}

impl ScratchRegisters {
    pub open spec fn dump_text(self) -> Seq<Seq<char>> {
        seq![
            register_line("rax"@, self.rax),
            register_line("rcx"@, self.rcx),
            register_line("rdx"@, self.rdx),
            register_line("rdi"@, self.rdi),
            register_line("rsi"@, self.rsi),
            register_line("r8"@, self.r8),
            register_line("r9"@, self.r9),
            register_line("r10"@, self.r10),
            register_line("r11"@, self.r11),
        ]
    }

    /// The diagnostic lines for these registers, one `name: value` line each.
    pub fn dump(&self) -> (r: Vec<String>)
        ensures
            texts(r@) == self.dump_text(),
    {
        let mut lines: Vec<String> = Vec::new();
        push_register_line(&mut lines, "rax", self.rax);
        push_register_line(&mut lines, "rcx", self.rcx);
        push_register_line(&mut lines, "rdx", self.rdx);
        push_register_line(&mut lines, "rdi", self.rdi);
        push_register_line(&mut lines, "rsi", self.rsi);
        push_register_line(&mut lines, "r8", self.r8);
        push_register_line(&mut lines, "r9", self.r9);
        push_register_line(&mut lines, "r10", self.r10);
        push_register_line(&mut lines, "r11", self.r11);
        assert(texts(lines@) =~= self.dump_text());
        lines
    }
}

impl PreservedRegisters {
    pub open spec fn dump_text(self) -> Seq<Seq<char>> {
        seq![
            register_line("rbx"@, self.rbx),
            register_line("rbp"@, self.rbp),
            register_line("r12"@, self.r12),
            register_line("r13"@, self.r13),
            register_line("r14"@, self.r14),
            register_line("r15"@, self.r15),
        ]
    }

    /// The diagnostic lines for these registers, one `name: value` line each.
    pub fn dump(&self) -> (r: Vec<String>)
        ensures
            texts(r@) == self.dump_text(),
    {
        let mut lines: Vec<String> = Vec::new();
        push_register_line(&mut lines, "rbx", self.rbx);
        push_register_line(&mut lines, "rbp", self.rbp);
        push_register_line(&mut lines, "r12", self.r12);
        push_register_line(&mut lines, "r13", self.r13);
        push_register_line(&mut lines, "r14", self.r14);
        push_register_line(&mut lines, "r15", self.r15);
        assert(texts(lines@) =~= self.dump_text());
        lines
    }
}

impl IretRegisters {
    pub open spec fn dump_text(self) -> Seq<Seq<char>> {
        seq![
            register_line("rip"@, self.rip),
            register_line("cs"@, self.cs),
            register_line("rflags"@, self.rflags),
            register_line("rsp"@, self.rsp),
            register_line("ss"@, self.ss),
        ]
    }

    /// The diagnostic lines for these registers, one `name: value` line each.
    pub fn dump(&self) -> (r: Vec<String>)
        ensures
            texts(r@) == self.dump_text(),
    {
        let mut lines: Vec<String> = Vec::new();
        push_register_line(&mut lines, "rip", self.rip);
        push_register_line(&mut lines, "cs", self.cs);
        push_register_line(&mut lines, "rflags", self.rflags);
        push_register_line(&mut lines, "rsp", self.rsp);
        push_register_line(&mut lines, "ss", self.ss);
        assert(texts(lines@) =~= self.dump_text());
        lines
    }
}

/// Appends `more` to `lines`.
fn append_lines(lines: &mut Vec<String>, more: Vec<String>)
    ensures
        texts(final(lines)@) == texts(old(lines)@) + texts(more@),
{
    let ghost added = more@;
    let mut more = more;
    lines.append(&mut more);
    assert(texts(lines@) =~= texts(old(lines)@) + texts(added));
}

impl InterruptStackFrame {
    /// Scratch registers, then preserved registers, then the processor's frame.
    pub open spec fn dump_text(self) -> Seq<Seq<char>> {
        self.scratch.dump_text() + self.preserved.dump_text() + self.iret.dump_text()
    }

    /// The diagnostic lines for the whole frame: the scratch group, the preserved group, then the
    /// processor's frame.
    pub fn dump(&self) -> (r: Vec<String>)
        ensures
            texts(r@) == self.dump_text(),
    {
        let mut lines = self.scratch.dump();
        append_lines(&mut lines, self.preserved.dump());
        append_lines(&mut lines, self.iret.dump());
        lines
    }
}

} // verus!

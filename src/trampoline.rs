//! The trap trampolines as a machine of registers and stack words.
//!
//! On a trap the processor pushes `ss`, `rsp`, `rflags`, `cs`, `rip` and, for some vectors, an
//! error code. The stack-style prologue then pushes `rax`, `rcx`, `rdx`, `rdi`, `rsi`, `r8` to
//! `r11`, `rbx`, `rbp`, `r12` to `r15`; the error-style prologue pushes the same registers but
//! `rax`, takes the error code out of its slot as the handler's second argument and stores `rax`
//! there. Both leave the stack in the shape of an [`InterruptStackFrame`], lowest address first.
//! The epilogue pops the preserved registers, the scratch registers and `rax`, then `iretq` pops
//! the processor's frame.
use crate::handler::{InterruptStackFrame, IretRegisters, PreservedRegisters, ScratchRegisters};
use vstd::prelude::*;

verus! {

/// Words of an [`InterruptStackFrame`] on the stack.
pub const FRAME_WORDS: usize = 20;

/// The general-purpose registers but `rsp`.
#[derive(Clone, Copy, Debug, PartialEq, Eq, Structural)]
pub struct GeneralRegisters {
    pub rax: u64,
    pub rbx: u64,
    pub rcx: u64,
    pub rdx: u64,
    pub rsi: u64,
    pub rdi: u64,
    pub rbp: u64,
    pub r8: u64,
    pub r9: u64,
    pub r10: u64,
    pub r11: u64,
    pub r12: u64,
    pub r13: u64,
    pub r14: u64,
    pub r15: u64,
}

/// The processor as a trampoline sees it: its registers, and its stack with the top word last.
/// The stack's depth stands for `rsp`.
pub struct TrapCpu {
    pub regs: GeneralRegisters,
    pub stack: Vec<u64>,
}

/// What the processor pushes on a trap, in push order.
pub open spec fn iret_words(iret: IretRegisters) -> Seq<u64> {
    seq![iret.ss, iret.rsp, iret.rflags, iret.cs, iret.rip]
}

/// What a prologue saves of `r`, in push order.
pub open spec fn saved_words(r: GeneralRegisters) -> Seq<u64> {
    seq![
        r.rax,
        r.rcx,
        r.rdx,
        r.rdi,
        r.rsi,
        r.r8,
        r.r9,
        r.r10,
        r.r11,
        r.rbx,
        r.rbp,
        r.r12,
        r.r13,
        r.r14,
        r.r15,
    ]
}

/// A frame as stack words, in push order: the last word is at the lowest address.
pub open spec fn frame_words(f: InterruptStackFrame) -> Seq<u64> {
    seq![
        f.iret.ss,
        f.iret.rsp,
        f.iret.rflags,
        f.iret.cs,
        f.iret.rip,
        f.scratch.rax,
        f.scratch.rcx,
        f.scratch.rdx,
        f.scratch.rdi,
        f.scratch.rsi,
        f.scratch.r8,
        f.scratch.r9,
        f.scratch.r10,
        f.scratch.r11,
        f.preserved.rbx,
        f.preserved.rbp,
        f.preserved.r12,
        f.preserved.r13,
        f.preserved.r14,
        f.preserved.r15,
    ]
}

/// The frame that the top `FRAME_WORDS` words of `s` form.
pub open spec fn frame_of(s: Seq<u64>) -> InterruptStackFrame {
    let n = s.len() - FRAME_WORDS;
    InterruptStackFrame {
        preserved: PreservedRegisters {
            r15: s[n + 19],
            r14: s[n + 18],
            r13: s[n + 17],
            r12: s[n + 16],
            rbp: s[n + 15],
            rbx: s[n + 14],
        },
        scratch: ScratchRegisters {
            r11: s[n + 13],
            r10: s[n + 12],
            r9: s[n + 11],
            r8: s[n + 10],
            rsi: s[n + 9],
            rdi: s[n + 8],
            rdx: s[n + 7],
            rcx: s[n + 6],
            rax: s[n + 5],
        },
        iret: IretRegisters { rip: s[n + 4], cs: s[n + 3], rflags: s[n + 2], rsp: s[n + 1], ss: s[n] },
    }
}

/// The stack below the top frame.
pub open spec fn below_frame(s: Seq<u64>) -> Seq<u64> {
    s.subrange(0, s.len() - FRAME_WORDS)
}

/// `s` with its top frame replaced by `f`.
pub open spec fn with_frame(s: Seq<u64>, f: InterruptStackFrame) -> Seq<u64> {
    below_frame(s) + frame_words(f)
}

pub open spec fn scratch_of(r: GeneralRegisters) -> ScratchRegisters {
    ScratchRegisters {
        r11: r.r11,
        r10: r.r10,
        r9: r.r9,
        r8: r.r8,
        rsi: r.rsi,
        rdi: r.rdi,
        rdx: r.rdx,
        rcx: r.rcx,
        rax: r.rax,
    }
}

pub open spec fn preserved_of(r: GeneralRegisters) -> PreservedRegisters {
    PreservedRegisters { r15: r.r15, r14: r.r14, r13: r.r13, r12: r.r12, rbp: r.rbp, rbx: r.rbx }
}

/// The registers the epilogue loads from a frame.
pub open spec fn registers_of(f: InterruptStackFrame) -> GeneralRegisters {
    GeneralRegisters {
        rax: f.scratch.rax,
        rbx: f.preserved.rbx,
        rcx: f.scratch.rcx,
        rdx: f.scratch.rdx,
        rsi: f.scratch.rsi,
        rdi: f.scratch.rdi,
        rbp: f.preserved.rbp,
        r8: f.scratch.r8,
        r9: f.scratch.r9,
        r10: f.scratch.r10,
        r11: f.scratch.r11,
        r12: f.preserved.r12,
        r13: f.preserved.r13,
        r14: f.preserved.r14,
        r15: f.preserved.r15,
    }
}

/// `r` after a call that overwrote its caller-saved registers with `c`.
pub open spec fn with_scratch(r: GeneralRegisters, c: ScratchRegisters) -> GeneralRegisters {
    GeneralRegisters {
        rax: c.rax,
        rcx: c.rcx,
        rdx: c.rdx,
        rsi: c.rsi,
        rdi: c.rdi,
        r8: c.r8,
        r9: c.r9,
        r10: c.r10,
        r11: c.r11,
        ..r
    }
}

impl TrapCpu {
    /// `push`: one word onto the stack.
    pub fn push(&mut self, value: u64)
        ensures
            final(self).stack@ == old(self).stack@.push(value),
            final(self).regs == old(self).regs,
    {
        self.stack.push(value);
    }

    /// `pop`: the top word off the stack.
    pub fn pop(&mut self) -> (r: u64)
        requires
            old(self).stack.len() > 0,
        ensures
            r == old(self).stack@.last(),
            final(self).stack@ == old(self).stack@.drop_last(),
            final(self).regs == old(self).regs,
    {
        self.stack.pop().unwrap()
    }

    /// What the processor does on entering a trap: push its frame and, for vectors that have one,
    /// the error code.
    pub fn hardware_entry(&mut self, iret: &IretRegisters, error_code: Option<u64>)
        ensures
            final(self).regs == old(self).regs,
            final(self).stack@ == match error_code {
                Some(code) => old(self).stack@ + iret_words(*iret) + seq![code],
                None => old(self).stack@ + iret_words(*iret),
            },
    {
        self.push(iret.ss);
        self.push(iret.rsp);
        self.push(iret.rflags);
        self.push(iret.cs);
        self.push(iret.rip);
        match error_code {
            Some(code) => self.push(code),
            None => {},
        }
        assert(self.stack@ =~= match error_code {
            Some(code) => old(self).stack@ + iret_words(*iret) + seq![code],
            None => old(self).stack@ + iret_words(*iret),
        });
    }

    /// The scratch registers but `rax`, in push order.
    fn push_scratch(&mut self)
        ensures
            final(self).regs == old(self).regs,
            final(self).stack@ == old(self).stack@ + saved_words(old(self).regs).subrange(1, 9),
    {
        let r = self.regs;
        self.push(r.rcx);
        self.push(r.rdx);
        self.push(r.rdi);
        self.push(r.rsi);
        self.push(r.r8);
        self.push(r.r9);
        self.push(r.r10);
        self.push(r.r11);
        assert(self.stack@ =~= old(self).stack@ + saved_words(old(self).regs).subrange(1, 9));
    }

    /// The preserved registers, in push order.
    fn push_preserved(&mut self)
        ensures
            final(self).regs == old(self).regs,
            final(self).stack@ == old(self).stack@ + saved_words(old(self).regs).subrange(9, 15),
    {
        let r = self.regs;
        self.push(r.rbx);
        self.push(r.rbp);
        self.push(r.r12);
        self.push(r.r13);
        self.push(r.r14);
        self.push(r.r15);
        assert(self.stack@ =~= old(self).stack@ + saved_words(old(self).regs).subrange(9, 15));
    }

    /// Prologue of a vector without error code: saves every general-purpose register.
    pub fn stack_prologue(&mut self)
        ensures
            final(self).regs == old(self).regs,
            final(self).stack@ == old(self).stack@ + saved_words(old(self).regs),
    {
        let rax = self.regs.rax;
        self.push(rax);
        self.push_scratch();
        self.push_preserved();
        assert(self.stack@ =~= old(self).stack@ + saved_words(old(self).regs));
    }

    /// Prologue of a vector with error code: saves every general-purpose register, `rax` in the
    /// error code's slot, and returns the error code, which it also leaves in `rsi` as the inner
    /// handler's second argument.
    pub fn error_prologue(&mut self) -> (code: u64)
        requires
            old(self).stack.len() > 0,
        ensures
            code == old(self).stack@.last(),
            final(self).regs == (GeneralRegisters { rsi: code, ..old(self).regs }),
            final(self).stack@ == old(self).stack@.drop_last() + saved_words(old(self).regs),
    {
        self.push_scratch();
        self.push_preserved();
        let slot = self.stack.len() - 15;
        let code = self.stack[slot];
        let rax = self.regs.rax;
        self.stack.set(slot, rax);
        self.regs.rsi = code;
        assert(self.stack@ =~= old(self).stack@.drop_last() + saved_words(old(self).regs));
        code
    }

    /// The frame the inner handler is handed: the top `FRAME_WORDS` words.
    pub fn frame(&self) -> (r: InterruptStackFrame)
        requires
            self.stack.len() >= FRAME_WORDS,
        ensures
            r == frame_of(self.stack@),
    {
        let n = self.stack.len() - FRAME_WORDS;
        let s = &self.stack;
        InterruptStackFrame {
            preserved: PreservedRegisters {
                r15: s[n + 19],
                r14: s[n + 18],
                r13: s[n + 17],
                r12: s[n + 16],
                rbp: s[n + 15],
                rbx: s[n + 14],
            },
            scratch: ScratchRegisters {
                r11: s[n + 13],
                r10: s[n + 12],
                r9: s[n + 11],
                r8: s[n + 10],
                rsi: s[n + 9],
                rdi: s[n + 8],
                rdx: s[n + 7],
                rcx: s[n + 6],
                rax: s[n + 5],
            },
            iret: IretRegisters {
                rip: s[n + 4],
                cs: s[n + 3],
                rflags: s[n + 2],
                rsp: s[n + 1],
                ss: s[n],
            },
        }
    }

    /// The inner handler's effect: it leaves the frame as `handled` and, being an ordinary
    /// function, may leave any value in the caller-saved registers (`clobbered`); the
    /// callee-saved ones it keeps.
    pub fn call_handler(&mut self, handled: &InterruptStackFrame, clobbered: &ScratchRegisters)
        requires
            old(self).stack.len() >= FRAME_WORDS,
        ensures
            final(self).stack@ == with_frame(old(self).stack@, *handled),
            final(self).regs == with_scratch(old(self).regs, *clobbered),
    {
        let n = self.stack.len() - FRAME_WORDS;
        self.stack.set(n, handled.iret.ss);
        self.stack.set(n + 1, handled.iret.rsp);
        self.stack.set(n + 2, handled.iret.rflags);
        self.stack.set(n + 3, handled.iret.cs);
        self.stack.set(n + 4, handled.iret.rip);
        self.stack.set(n + 5, handled.scratch.rax);
        self.stack.set(n + 6, handled.scratch.rcx);
        self.stack.set(n + 7, handled.scratch.rdx);
        self.stack.set(n + 8, handled.scratch.rdi);
        self.stack.set(n + 9, handled.scratch.rsi);
        self.stack.set(n + 10, handled.scratch.r8);
        self.stack.set(n + 11, handled.scratch.r9);
        self.stack.set(n + 12, handled.scratch.r10);
        self.stack.set(n + 13, handled.scratch.r11);
        self.stack.set(n + 14, handled.preserved.rbx);
        self.stack.set(n + 15, handled.preserved.rbp);
        self.stack.set(n + 16, handled.preserved.r12);
        self.stack.set(n + 17, handled.preserved.r13);
        self.stack.set(n + 18, handled.preserved.r14);
        self.stack.set(n + 19, handled.preserved.r15);
        let c = *clobbered;
        self.regs.rax = c.rax;
        self.regs.rcx = c.rcx;
        self.regs.rdx = c.rdx;
        self.regs.rsi = c.rsi;
        self.regs.rdi = c.rdi;
        self.regs.r8 = c.r8;
        self.regs.r9 = c.r9;
        self.regs.r10 = c.r10;
        self.regs.r11 = c.r11;
        assert(self.stack@ =~= with_frame(old(self).stack@, *handled));
    }

    /// Epilogue of both trampoline shapes: pops the preserved registers, the scratch registers
    /// and `rax`, then `iretq` pops the processor's frame, which it returns: where and how the
    /// interrupted code resumes.
    pub fn epilogue(&mut self) -> (r: IretRegisters)
        requires
            old(self).stack.len() >= FRAME_WORDS,
        ensures
            r == frame_of(old(self).stack@).iret,
            final(self).regs == registers_of(frame_of(old(self).stack@)),
            final(self).stack@ == below_frame(old(self).stack@),
    {
        let ghost s = self.stack@;
        let ghost n = s.len() - FRAME_WORDS;
        self.regs.r15 = self.pop();
        self.regs.r14 = self.pop();
        self.regs.r13 = self.pop();
        self.regs.r12 = self.pop();
        self.regs.rbp = self.pop();
        self.regs.rbx = self.pop();
        self.regs.r11 = self.pop();
        self.regs.r10 = self.pop();
        self.regs.r9 = self.pop();
        self.regs.r8 = self.pop();
        self.regs.rsi = self.pop();
        self.regs.rdi = self.pop();
        self.regs.rdx = self.pop();
        self.regs.rcx = self.pop();
        self.regs.rax = self.pop();
        let rip = self.pop();
        let cs = self.pop();
        let rflags = self.pop();
        let rsp = self.pop();
        let ss = self.pop();
        assert(self.stack@ =~= below_frame(s));
        IretRegisters { rip, cs, rflags, rsp, ss }
    }
}

/// The stack a prologue leaves: below it the interrupted code's stack, then the processor's
/// frame, then the saved registers.
pub open spec fn entered_stack(stack: Seq<u64>, iret: IretRegisters, regs: GeneralRegisters) -> Seq<
    u64,
> {
    stack + iret_words(iret) + saved_words(regs)
}

/// After a prologue, the frame the inner handler sees holds the interrupted code's scratch and
/// preserved registers and the processor's frame, and the stack below it is the interrupted
/// code's.
pub proof fn lemma_prologue_frame(stack: Seq<u64>, iret: IretRegisters, regs: GeneralRegisters)
    ensures
        frame_of(entered_stack(stack, iret, regs)) == (InterruptStackFrame {
            preserved: preserved_of(regs),
            scratch: scratch_of(regs),
            iret,
        }),
        below_frame(entered_stack(stack, iret, regs)) == stack,
{
    assert(below_frame(entered_stack(stack, iret, regs)) =~= stack);
}

/// A trap with an error code: the processor pushes its frame and the code, the error-style
/// prologue runs. The inner handler then gets that code as its second argument, and in its frame
/// every scratch and preserved register as it was just before the trap.
pub proof fn lemma_error_trampoline_observes(
    stack: Seq<u64>,
    iret: IretRegisters,
    regs: GeneralRegisters,
    code: u64,
)
    ensures
        ({
            let trapped = stack + iret_words(iret) + seq![code];
            &&& trapped.last() == code
            &&& trapped.drop_last() + saved_words(regs) == entered_stack(stack, iret, regs)
            &&& frame_of(trapped.drop_last() + saved_words(regs)) == (InterruptStackFrame {
                preserved: preserved_of(regs),
                scratch: scratch_of(regs),
                iret,
            })
        }),
{
    let trapped = stack + iret_words(iret) + seq![code];
    assert(trapped.drop_last() =~= stack + iret_words(iret));
    lemma_prologue_frame(stack, iret, regs);
}

/// Prologue, an inner handler that leaves the frame as it found it, then the epilogue: every
/// general-purpose register is back to its value before the trap, whatever the handler left in
/// the caller-saved ones; the stack, hence `rsp`, is back to its depth and contents before the
/// trap; and `iretq` resumes with the processor's frame as it was pushed.
pub proof fn lemma_trampoline_restores(
    stack: Seq<u64>,
    iret: IretRegisters,
    regs: GeneralRegisters,
)
    ensures
        ({
            let entered = entered_stack(stack, iret, regs);
            let handled = with_frame(entered, frame_of(entered));
            &&& handled == entered
            &&& registers_of(frame_of(handled)) == regs
            &&& below_frame(handled) == stack
            &&& frame_of(handled).iret == iret
        }),
{
    let entered = entered_stack(stack, iret, regs);
    lemma_prologue_frame(stack, iret, regs);
    assert(with_frame(entered, frame_of(entered)) =~= entered);
}

} // verus!

//! The reserved exception vectors: which of them the kernel registers, which push an error code,
//! their names, and what the kernel does when one fires.
use crate::handler::{texts, InterruptStackFrame};
use crate::idt::{empty_table, Idt, IdtEntry, IdtEntryAttributes, IDT_ENTRIES};
use crate::selector::{PrivilegeLevel, SegmentSelector};
use crate::text::{decimal_text, push_decimal};
use vstd::prelude::*;

verus! {

/// Vectors the architecture reserves for exceptions.
pub const EXCEPTION_VECTORS: usize = 32;

/// Vector of the breakpoint exception, the one the kernel resumes from.
pub const BREAKPOINT_VECTOR: u8 = 3;

/// Whether the kernel sets a handler for vector `v`: 0 to 8, 10 to 14, 16 to 21 and 28 to 30.
/// The other reserved vectors stay empty and fault when used.
pub open spec fn spec_is_registered(v: int) -> bool {
    (0 <= v <= 8) || (10 <= v <= 14) || (16 <= v <= 21) || (28 <= v <= 30)
}

/// Whether the processor pushes an error code for vector `v`: 8, 10 to 14, 17, 21, 29 and 30.
pub open spec fn spec_pushes_error_code(v: int) -> bool {
    v == 8 || (10 <= v <= 14) || v == 17 || v == 21 || v == 29 || v == 30
}

pub fn is_registered(vector: u8) -> (r: bool)
    ensures
        r == spec_is_registered(vector as int),
{
    vector <= 8 || (10 <= vector && vector <= 14) || (16 <= vector && vector <= 21) || (28 <= vector
        && vector <= 30)
}

pub fn pushes_error_code(vector: u8) -> (r: bool)
    ensures
        r == spec_pushes_error_code(vector as int),
{
    vector == 8 || (10 <= vector && vector <= 14) || vector == 17 || vector == 21 || vector == 29
        || vector == 30
}

/// The name of registered vector `v`, as the diagnostics give it.
pub open spec fn spec_exception_name(v: int) -> Seq<char> {
    if v == 0 {
        "Divide by zero"@
    } else if v == 1 {
        "Debug"@
    } else if v == 2 {
        "Non-maskable interrupt"@
    } else if v == 3 {
        "Breakpoint"@
    } else if v == 4 {
        "Overflow"@
    } else if v == 5 {
        "Bound range exceeded"@
    } else if v == 6 {
        "Invalid opcode"@
    } else if v == 7 {
        "Device not available"@
    } else if v == 8 {
        "Double fault"@
    } else if v == 10 {
        "Invalid TSS"@
    } else if v == 11 {
        "Segment not present"@
    } else if v == 12 {
        "Stack segment fault"@
    } else if v == 13 {
        "General protection fault"@
    } else if v == 14 {
        "Page fault"@
    } else if v == 16 {
        "x87 floating point"@
    } else if v == 17 {
        "Alignment check"@
    } else if v == 18 {
        "Machine check"@
    } else if v == 19 {
        "SIMD floating point"@
    } else if v == 20 {
        "Virtualization"@
    } else if v == 21 {
        "Control protection"@
    } else if v == 28 {
        "Hypervisor injection"@
    } else if v == 29 {
        "VMM communication"@
    } else if v == 30 {
        "Security"@
    } else {
        Seq::empty()
    }
}

/// The name of `vector`, for the vectors the kernel registers.
pub fn exception_name(vector: u8) -> (r: Option<&'static str>)
    ensures
        r is Some <==> spec_is_registered(vector as int),
        r matches Some(name) ==> name@ == spec_exception_name(vector as int),
{
    if vector == 0 {
        Some("Divide by zero")
    } else if vector == 1 {
        Some("Debug")
    } else if vector == 2 {
        Some("Non-maskable interrupt")
    } else if vector == 3 {
        Some("Breakpoint")
    } else if vector == 4 {
        Some("Overflow")
    } else if vector == 5 {
        Some("Bound range exceeded")
    } else if vector == 6 {
        Some("Invalid opcode")
    } else if vector == 7 {
        Some("Device not available")
    } else if vector == 8 {
        Some("Double fault")
    } else if vector == 10 {
        Some("Invalid TSS")
    } else if vector == 11 {
        Some("Segment not present")
    } else if vector == 12 {
        Some("Stack segment fault")
    } else if vector == 13 {
        Some("General protection fault")
    } else if vector == 14 {
        Some("Page fault")
    } else if vector == 16 {
        Some("x87 floating point")
    } else if vector == 17 {
        Some("Alignment check")
    } else if vector == 18 {
        Some("Machine check")
    } else if vector == 19 {
        Some("SIMD floating point")
    } else if vector == 20 {
        Some("Virtualization")
    } else if vector == 21 {
        Some("Control protection")
    } else if vector == 28 {
        Some("Hypervisor injection")
    } else if vector == 29 {
        Some("VMM communication")
    } else if vector == 30 {
        Some("Security")
    } else {
        None
    }
}

/// The message a fatal exception halts with: its name, ` exception`, and for vectors that push
/// one, ` with error code: ` and the code in decimal.
pub open spec fn fault_text(v: int, error_code: u64) -> Seq<char> {
    if spec_pushes_error_code(v) {
        spec_exception_name(v) + " exception"@ + " with error code: "@ + decimal_text(error_code)
    } else {
        spec_exception_name(v) + " exception"@
    }
}

/// The message a fatal exception on `vector` halts with.
pub fn fault_message(vector: u8, error_code: u64) -> (r: String)
    requires
        spec_is_registered(vector as int),
    ensures
        r@ == fault_text(vector as int, error_code),
{
    let name = exception_name(vector).unwrap();
    let mut s = String::from_str(name);
    s.append(" exception");
    if pushes_error_code(vector) {
        s.append(" with error code: ");
        push_decimal(&mut s, error_code);
    }
    assert(s@ =~= fault_text(vector as int, error_code));
    s
}

/// What the kernel does once an exception's diagnostics are written.
#[derive(Debug)]
pub enum ExceptionAction {
    /// Return through the epilogue: `iretq` resumes at the saved `rip`, which for a breakpoint is
    /// the instruction after the trap.
    Resume,
    /// Never return: report `message` and halt the processor for good.
    Halt { message: String },
}

/// The diagnostic lines of one exception, and what follows them.
#[derive(Debug)]
pub struct ExceptionOutcome {
    pub lines: Vec<String>,
    pub action: ExceptionAction,
}

/// The breakpoint's first line.
pub open spec fn breakpoint_text() -> Seq<char> {
    "Breakpoint hit!"@
}

/// The policy of the registered vectors. A breakpoint writes a line saying so and the frame's
/// dump, and resumes. Every other exception is fatal at this stage: it writes the frame's dump
/// and halts with its name and, where the vector has one, its error code. The frame is only
/// read: a resumed breakpoint returns to where the processor's frame points.
pub fn handle_exception(vector: u8, frame: &InterruptStackFrame, error_code: u64) -> (r:
    ExceptionOutcome)
    requires
        spec_is_registered(vector as int),
    ensures
        vector == BREAKPOINT_VECTOR ==> r.action is Resume && texts(r.lines@) == seq![
            breakpoint_text(),
        ] + frame.dump_text(),
        vector != BREAKPOINT_VECTOR ==> texts(r.lines@) == frame.dump_text() && (r.action matches
            ExceptionAction::Halt { message } && message@ == fault_text(vector as int, error_code)),
{
    if vector == BREAKPOINT_VECTOR {
        let mut lines: Vec<String> = Vec::new();
        lines.push(String::from_str("Breakpoint hit!"));
        let mut dump = frame.dump();
        let ghost d = dump@;
        lines.append(&mut dump);
        assert(texts(lines@) =~= seq![breakpoint_text()] + frame.dump_text()) by {
            assert(lines@ =~= seq![lines@[0]] + d);
        }
        ExceptionOutcome { lines, action: ExceptionAction::Resume }
    } else {
        let message = fault_message(vector, error_code);
        ExceptionOutcome { lines: frame.dump(), action: ExceptionAction::Halt { message } }
    }
}

/// The entry `register_exceptions` writes for a handler at `handler`.
pub open spec fn kernel_entry(handler: usize) -> IdtEntry {
    IdtEntry::spec_new(
        handler,
        SegmentSelector::spec_new(1, PrivilegeLevel::Kernel),
        IdtEntryAttributes::spec_new(PrivilegeLevel::Kernel),
    )
}

/// `table` after `register_exceptions` with `handlers`, indexed by vector.
pub open spec fn registered_table(table: Seq<IdtEntry>, handlers: Seq<usize>) -> Seq<IdtEntry> {
    Seq::new(
        table.len(),
        |v: int|
            if spec_is_registered(v) {
                kernel_entry(handlers[v])
            } else {
                table[v]
            },
    )
}

/// Points every registered vector `v` at the trampoline at `handlers[v]`, and leaves every other
/// entry as it was. `handlers` is indexed by vector; its entries for unregistered vectors are not
/// read.
pub fn register_exceptions(idt: &mut Idt, handlers: &[usize; EXCEPTION_VECTORS])
    ensures
        final(idt).entries@ == registered_table(old(idt).entries@, handlers@),
{
    let mut v: u8 = 0;
    while v < EXCEPTION_VECTORS as u8
        invariant
            v <= EXCEPTION_VECTORS,
            idt.entries@ == Seq::new(
                IDT_ENTRIES as nat,
                |i: int|
                    if i < v && spec_is_registered(i) {
                        kernel_entry(handlers@[i])
                    } else {
                        old(idt).entries@[i]
                    },
            ),
        decreases EXCEPTION_VECTORS - v,
    {
        if is_registered(v) {
            idt.set_handler(v, handlers[v as usize]);
        }
        assert(idt.entries@ =~= Seq::new(
            IDT_ENTRIES as nat,
            |i: int|
                if i < v + 1 && spec_is_registered(i) {
                    kernel_entry(handlers@[i])
                } else {
                    old(idt).entries@[i]
                },
        ));
        v = v + 1;
    }
    assert(idt.entries@ =~= registered_table(old(idt).entries@, handlers@));
}

/// Registering the exceptions twice leaves the table as registering them once: each write is a
/// plain overwrite.
pub proof fn lemma_register_exceptions_idempotent(table: Seq<IdtEntry>, handlers: Seq<usize>)
    ensures
        registered_table(registered_table(table, handlers), handlers) == registered_table(
            table,
            handlers,
        ),
{
    assert(registered_table(registered_table(table, handlers), handlers) =~= registered_table(
        table,
        handlers,
    ));
}

/// In a table built empty and then registered, every vector that was not registered has handler
/// address 0 and is present, so using it faults predictably.
pub proof fn lemma_unregistered_vectors_fault(handlers: Seq<usize>)
    ensures
        forall|v: int|
            0 <= v < IDT_ENTRIES && !spec_is_registered(v) ==> {
                let e = #[trigger] registered_table(empty_table(), handlers)[v];
                e.spec_handler_offset() == 0 && e.spec_is_present()
            },
{
    crate::idt::lemma_empty_entry_faults();
}

/// After registration, the offset fields of every registered vector's entry put back together
/// give the address of the handler given for it.
pub proof fn lemma_registered_vectors_read_back(table: Seq<IdtEntry>, handlers: Seq<usize>)
    requires
        table.len() == IDT_ENTRIES,
    ensures
        forall|v: int|
            0 <= v < IDT_ENTRIES && spec_is_registered(v) ==> (#[trigger] registered_table(
                table,
                handlers,
            )[v]).spec_handler_offset() == handlers[v] as u64,
{
    assert forall|v: int| 0 <= v < IDT_ENTRIES && spec_is_registered(v) implies (#[trigger] registered_table(
        table,
        handlers,
    )[v]).spec_handler_offset() == handlers[v] as u64 by {
        crate::idt::lemma_handler_offset_round_trip(
            handlers[v],
            SegmentSelector::spec_new(1, PrivilegeLevel::Kernel),
            IdtEntryAttributes::spec_new(PrivilegeLevel::Kernel),
        );
    }
}

} // verus!

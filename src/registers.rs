use vstd::prelude::*;

verus! {

/// Number of general purpose registers V0 to VF.
pub const REGISTER_COUNT: usize = 16;

/// Index of the flag register VF.
pub const FLAG_REGISTER: u8 = 0x0F;

/// Address at which programs start; the memory below it holds interpreter
/// and font data.
pub const PROGRAM_START: u16 = 0x200;

/// Nesting depth of subroutine calls that the architecture allows. Deeper
/// stacks are tolerated, with a diagnostic.
pub const NOMINAL_STACK_DEPTH: usize = 16;

/// A soft failure of the call stack. The operation that reports it still
/// completes, so the machine keeps running.
#[derive(Clone, Copy, Debug, PartialEq, Eq, Structural)]
pub enum StackDiagnostic {
    /// A value was pushed onto a stack that already held more entries than
    /// the nominal depth; carries the depth before the push.
    Overflow(usize),
    /// A pop found the stack empty and returned 0.
    Underflow,
}

/// The value that a pop on stack `s` returns: the last entry, or 0 when the
/// stack is empty.
pub open spec fn popped_value(s: Seq<u16>) -> u16 {
    if s.len() == 0 {
        0
    } else {
        s.last()
    }
}

/// The stack that a pop leaves behind: `s` without its last entry, or `s`
/// itself when it is empty.
pub open spec fn stack_after_pop(s: Seq<u16>) -> Seq<u16> {
    if s.len() == 0 {
        s
    } else {
        s.drop_last()
    }
}

/// The values that `n` pops in a row on stack `s` return, in order.
pub open spec fn pop_values(s: Seq<u16>, n: nat) -> Seq<u16>
    decreases n,
{
    if n == 0 {
        Seq::empty()
    } else {
        seq![popped_value(s)] + pop_values(stack_after_pop(s), (n - 1) as nat)
    }
}

/// The stack that `n` pops in a row on stack `s` leave behind.
pub open spec fn stack_after_pops(s: Seq<u16>, n: nat) -> Seq<u16>
    decreases n,
{
    if n == 0 {
        s
    } else {
        stack_after_pops(stack_after_pop(s), (n - 1) as nat)
    }
}

/// The diagnostic that pushing onto a stack of `depth` entries raises.
pub open spec fn push_diagnostic(depth: nat) -> Option<StackDiagnostic> {
    if depth > NOMINAL_STACK_DEPTH {
        Some(StackDiagnostic::Overflow(depth as usize))
    } else {
        None
    }
}

/// The diagnostic that popping stack `s` raises.
pub open spec fn pop_diagnostic(s: Seq<u16>) -> Option<StackDiagnostic> {
    if s.len() == 0 {
        Some(StackDiagnostic::Underflow)
    } else {
        None
    }
}

/// Chip-8 has 16 general purpose 8-bit registers, usually referred to as Vx,
/// where x is a hexadecimal digit (0 through F). There is also a 16-bit
/// register called I, generally used to store memory addresses, so only its
/// lowest 12 bits are usually meaningful.
///
/// VF doubles as the flag output of some instructions and should not be used
/// by programs as a general register.
///
/// Besides these, the machine keeps pseudo-registers that programs cannot
/// address: the program counter and the call stack.
pub struct Registers {
    v: [u8; 16],
    i: u16,
    pc: u16,
    /// The architecture allows 16 levels of nested subroutines; this stack
    /// grows beyond that.
    stack: Vec<u16>,
}

impl Registers {
    /// The general purpose registers, V0 first.
    pub closed spec fn v_view(&self) -> Seq<u8> {
        self.v@
    }

    pub closed spec fn i_view(&self) -> u16 {
        self.i
    }

    pub closed spec fn pc_view(&self) -> u16 {
        self.pc
    }

    /// The return addresses, the most recently pushed last.
    pub closed spec fn stack_view(&self) -> Seq<u16> {
        self.stack@
    }

    /// Sixteen general purpose registers: the one invariant of the type.
    pub closed spec fn wf(&self) -> bool {
        self.v@.len() == REGISTER_COUNT
    }

    /// The register file as the machine starts: program counter at the
    /// program start, everything else zero, the stack empty.
    pub fn new() -> (r: Self)
        ensures
            r.wf(),
            r.pc_view() == PROGRAM_START,
            r.v_view() == Seq::new(16, |k: int| 0u8),
            r.i_view() == 0,
            r.stack_view() == Seq::<u16>::empty(),
    {
        let r = Self { v: [0; 16], i: 0, pc: PROGRAM_START, stack: Vec::new() };
        assert(r.v@ =~= Seq::new(16, |k: int| 0u8));
        r
    }

    /// Value of register Vx.
    pub fn v(&self, x: u8) -> (r: u8)
        requires
            self.wf(),
            x < 16,
        ensures
            r == self.v_view()[x as int],
    {
        self.v[x as usize]
    }

    /// Overwrites register Vx; every other part of the state stays as it was.
    pub fn set_v(&mut self, x: u8, value: u8)
        requires
            old(self).wf(),
            x < 16,
        ensures
            final(self).wf(),
            final(self).v_view() == old(self).v_view().update(x as int, value),
            final(self).i_view() == old(self).i_view(),
            final(self).pc_view() == old(self).pc_view(),
            final(self).stack_view() == old(self).stack_view(),
    {
        self.v[x as usize] = value;
    }

    /// Value of the flag register VF, which is V15.
    pub fn vf(&self) -> (r: u8)
        requires
            self.wf(),
        ensures
            r == self.v_view()[FLAG_REGISTER as int],
    {
        self.v(FLAG_REGISTER)
    }

    /// Overwrites the flag register VF, which is V15.
    pub fn set_vf(&mut self, value: u8)
        requires
            old(self).wf(),
        ensures
            final(self).wf(),
            final(self).v_view() == old(self).v_view().update(FLAG_REGISTER as int, value),
            final(self).i_view() == old(self).i_view(),
            final(self).pc_view() == old(self).pc_view(),
            final(self).stack_view() == old(self).stack_view(),
    {
        self.set_v(FLAG_REGISTER, value);
    }

    /// The address register, as stored: no bits are masked off.
    pub fn i(&self) -> (r: u16)
        ensures
            r == self.i_view(),
    {
        self.i
    }

    /// Stores all 16 bits of `value` in the address register; masking to the
    /// 12-bit address space is left to the caller.
    pub fn set_i(&mut self, value: u16)
        ensures
            final(self).i_view() == value,
            final(self).v_view() == old(self).v_view(),
            final(self).pc_view() == old(self).pc_view(),
            final(self).stack_view() == old(self).stack_view(),
            old(self).wf() ==> final(self).wf(),
    {
        self.i = value;
    }

    pub fn pc(&self) -> (r: u16)
        ensures
            r == self.pc_view(),
    {
        self.pc
    }

    /// Moves the program counter to `value`, as a jump, call or return does.
    pub fn set_pc(&mut self, value: u16)
        ensures
            final(self).pc_view() == value,
            final(self).v_view() == old(self).v_view(),
            final(self).i_view() == old(self).i_view(),
            final(self).stack_view() == old(self).stack_view(),
            old(self).wf() ==> final(self).wf(),
    {
        self.pc = value;
    }

    /// Advances the program counter by one two-byte instruction word. The
    /// counter must leave room for it below the end of the 16-bit range.
    pub fn increment_pc(&mut self)
        requires
            old(self).pc_view() + 2 <= u16::MAX,
        ensures
            final(self).pc_view() == old(self).pc_view() + 2,
            final(self).v_view() == old(self).v_view(),
            final(self).i_view() == old(self).i_view(),
            final(self).stack_view() == old(self).stack_view(),
            old(self).wf() ==> final(self).wf(),
    {
        self.pc = self.pc + 2;
    }

    /// Pushes a return address. The push always takes place; when the stack
    /// already held more entries than the nominal depth, an overflow
    /// diagnostic with that depth is returned as well.
    pub fn push_stack(&mut self, value: u16) -> (r: Option<StackDiagnostic>)
        ensures
            final(self).stack_view() == old(self).stack_view().push(value),
            r == push_diagnostic(old(self).stack_view().len()),
            final(self).v_view() == old(self).v_view(),
            final(self).i_view() == old(self).i_view(),
            final(self).pc_view() == old(self).pc_view(),
            old(self).wf() ==> final(self).wf(),
    {
        let depth = self.stack.len();
        self.stack.push(value);
        if depth > NOMINAL_STACK_DEPTH {
            Some(StackDiagnostic::Overflow(depth))
        } else {
            None
        }
    }

    /// Removes and returns the most recently pushed return address. On an
    /// empty stack it returns 0 with an underflow diagnostic and leaves the
    /// stack empty.
    pub fn pop_stack(&mut self) -> (r: (u16, Option<StackDiagnostic>))
        ensures
            r.0 == popped_value(old(self).stack_view()),
            r.1 == pop_diagnostic(old(self).stack_view()),
            final(self).stack_view() == stack_after_pop(old(self).stack_view()),
            final(self).v_view() == old(self).v_view(),
            final(self).i_view() == old(self).i_view(),
            final(self).pc_view() == old(self).pc_view(),
            old(self).wf() ==> final(self).wf(),
    {
        match self.stack.pop() {
            Some(value) => (value, None),
            None => (0, Some(StackDiagnostic::Underflow)),
        }
    }
}

/// Writing a register and reading it back gives the value written, and no
/// other register changes.
pub proof fn lemma_register_round_trip(before: Registers, after: Registers, x: u8, value: u8)
    requires
        before.wf(),
        x < 16,
        after.v_view() == before.v_view().update(x as int, value),
    ensures
        after.v_view()[x as int] == value,
        forall|y: int| 0 <= y < 16 && y != x ==> after.v_view()[y] == before.v_view()[y],
{
}

/// The flag register and register 15 are one slot: a write through either
/// accessor is seen by a read through the other.
pub proof fn lemma_flag_register_is_v15(before: Registers, after: Registers, value: u8)
    requires
        before.wf(),
        after.v_view() == before.v_view().update(FLAG_REGISTER as int, value),
    ensures
        FLAG_REGISTER == 15,
        after.v_view()[15] == value,
        after.v_view()[FLAG_REGISTER as int] == value,
{
}

/// Pops undo pushes in reverse order: after pushing `values` onto any stack,
/// as many pops return them last first, and leave the stack as it was, at
/// any depth.
pub proof fn lemma_stack_last_in_first_out(s: Seq<u16>, values: Seq<u16>)
    ensures
        pop_values(s + values, values.len()) == Seq::new(
            values.len(),
            |k: int| values[values.len() - 1 - k],
        ),
        stack_after_pops(s + values, values.len()) == s,
    decreases values.len(),
{
    let n = values.len();
    let expected = Seq::new(n, |k: int| values[n - 1 - k]);
    if n == 0 {
        assert(s + values =~= s);
        assert(expected =~= Seq::<u16>::empty());
    } else {
        let rest = values.drop_last();
        assert((s + values).drop_last() =~= s + rest);
        lemma_stack_last_in_first_out(s, rest);
        let tail = Seq::new(rest.len(), |k: int| rest[rest.len() - 1 - k]);
        assert(expected =~= seq![values.last()] + tail);
    }
}

/// Three pushes `a`, `b`, `c` are popped as `c`, `b`, `a`.
pub proof fn lemma_three_pushes_pop_reversed(s: Seq<u16>, a: u16, b: u16, c: u16)
    ensures
        pop_values(s.push(a).push(b).push(c), 3) == seq![c, b, a],
        stack_after_pops(s.push(a).push(b).push(c), 3) == s,
{
    let values = seq![a, b, c];
    assert(s.push(a).push(b).push(c) =~= s + values);
    lemma_stack_last_in_first_out(s, values);
    assert(Seq::new(3, |k: int| values[3 - 1 - k]) =~= seq![c, b, a]);
}

/// A pop on an empty stack returns 0 and leaves the stack empty, and the
/// stack works as before afterwards: a value pushed then is popped again.
pub proof fn lemma_underflow_leaves_stack_usable(value: u16)
    ensures
        popped_value(Seq::<u16>::empty()) == 0,
        stack_after_pop(Seq::<u16>::empty()) == Seq::<u16>::empty(),
        pop_diagnostic(Seq::<u16>::empty()) == Some(StackDiagnostic::Underflow),
        popped_value(stack_after_pop(Seq::<u16>::empty()).push(value)) == value,
        stack_after_pop(stack_after_pop(Seq::<u16>::empty()).push(value)) == Seq::<u16>::empty(),
{
    assert(Seq::<u16>::empty().push(value).drop_last() =~= Seq::<u16>::empty());
}

} // verus!

//! The instruction interpreter: the program counter, the call stack
//! with its two-phase call protocol, and one-instruction stepping over
//! the paged memory.

use vstd::prelude::*;

use crate::memory::{MemView, Memory, MemoryError};
use crate::ops::{
    spec_is_conditional, spec_with_word, ArithmeticMode, BinOp, Op, OpType, Operand, ParameterMode,
    UnOp,
};
use crate::primary::{
    convert_spec, Add, Bitwise, Convert, Dec, Div, Inc, Mul, Neg, Primary, Rem, Shl, Shr, Sub,
};
use crate::bytes::pow256;
use crate::UWord;

verus! {

/// One function of a program: its frame size and its instructions.
#[derive(Debug, Clone, Copy)]
pub struct Function<'f> {
    pub frame_size: UWord,
    pub program: &'f [Op],
}

/// One activation record: the callee, where its frame begins, where
/// its caller's slots begin, and where the caller resumes.
#[derive(Debug, Clone, Copy)]
pub struct FunctionCall<'f> {
    pub function: &'f Function<'f>,
    pub base_address: UWord,
    pub ret_address: UWord,
    pub ret_program_counter: UWord,
}

/// What a single step can fail with.
#[derive(Debug, PartialEq, Eq, Clone, Copy)]
pub enum ExecutionError {
    /// The program counter left the current function, or the call
    /// stack was empty.
    EndOfProgram,
    /// A memory access failed.
    MemoryError(MemoryError),
    /// The instruction cannot be executed as written; it is carried
    /// along.
    IncorrectOperation(Op),
    /// A call named a function the table does not have.
    UnknownFunction,
    /// Arithmetic under the handling mode overflowed.
    OperationOverflow,
    /// Integer division or remainder by zero.
    DivisionByZero,
}

/// What a successful step reports.
#[derive(Debug, PartialEq, Eq, Clone, Copy)]
pub enum ExecutionSuccess {
    /// The step ran; execution may continue.
    Ran,
    /// The program ended with a code.
    End(UWord),
    /// The program yields with a code; the driver may resume it.
    Sleep(UWord),
}

/// The outcome of one step.
pub type Executed = Result<ExecutionSuccess, ExecutionError>;

/// An activation record as the model sees it: the callee by value.
#[verifier::ext_equal]
pub struct FrameView<'f> {
    pub func: Function<'f>,
    pub base_address: UWord,
    pub ret_address: UWord,
    pub ret_program_counter: UWord,
}

/// The model reading of an activation record.
pub open spec fn frame_view<'f>(c: FunctionCall<'f>) -> FrameView<'f> {
    FrameView {
        func: *c.function,
        base_address: c.base_address,
        ret_address: c.ret_address,
        ret_program_counter: c.ret_program_counter,
    }
}

/// The mathematical content of an interpreter: the function table, the
/// memory, and the control state.
#[verifier::ext_equal]
pub struct VmView<'f> {
    pub funcs: Seq<Function<'f>>,
    pub mem: MemView,
    pub pc: UWord,
    pub frames: Seq<FrameView<'f>>,
    pub prepared: bool,
    pub param_ptr: UWord,
}

impl<'f> VmView<'f> {
    /// The index of the executing frame: below the top while a
    /// prepared frame sits there, the top otherwise.
    pub open spec fn cur_idx(self) -> int {
        if self.prepared {
            self.frames.len() - 2
        } else {
            self.frames.len() - 1
        }
    }

    /// The executing frame, if any.
    pub open spec fn cur_call(self) -> Result<FrameView<'f>, ExecutionError> {
        if 0 <= self.cur_idx() < self.frames.len() {
            Ok(self.frames[self.cur_idx()])
        } else {
            Err(ExecutionError::EndOfProgram)
        }
    }

    /// The instruction the program counter selects in the executing
    /// frame.
    pub open spec fn cur_op(self) -> Result<Op, ExecutionError> {
        match self.cur_call() {
            Err(e) => Err(e),
            Ok(c) => if self.pc < c.func.program@.len() {
                Ok(c.func.program@[self.pc as int])
            } else {
                Err(ExecutionError::EndOfProgram)
            },
        }
    }

    /// Resolving an operand against an offset operand: the offset's
    /// word is read and added, wrapping, to the base operand's word.
    pub open spec fn make_offset(self, a: Operand, offset: Operand) -> Result<
        Operand,
        ExecutionError,
    > {
        match self.get_val::<UWord>(offset) {
            Err(e) => Err(e),
            Ok(d) => Ok(
                spec_with_word(
                    a,
                    match crate::ops::operand_word(a) {
                        Some(w) => crate::ops::spec_wrap_word(w, d),
                        None => 0,
                    },
                ),
            ),
        }
    }

    /// The base operand of a one-operand group with its offset
    /// resolved.
    pub open spec fn resolve_un(self, u: UnOp) -> Result<Operand, ExecutionError> {
        match u.x_offset {
            Some(o) => self.make_offset(u.x, o),
            None => Ok(u.x),
        }
    }

    /// Both operands of a two-operand group with their offsets
    /// resolved.
    pub open spec fn resolve_bin(self, b: BinOp) -> Result<(Operand, Operand), ExecutionError> {
        let left = match b.x_offset {
            Some(o) => self.make_offset(b.x, o),
            None => Ok(b.x),
        };
        match left {
            Err(e) => Err(e),
            Ok(l) => match b.y_offset {
                Some(o) => match self.make_offset(b.y, o) {
                    Err(e) => Err(e),
                    Ok(r) => Ok((l, r)),
                },
                None => Ok((l, b.y)),
            },
        }
    }

    /// The error an unreadable or unwritable operand raises: the
    /// current instruction is carried, if there is one.
    pub open spec fn incorrect(self) -> ExecutionError {
        match self.cur_op() {
            Ok(op) => ExecutionError::IncorrectOperation(op),
            Err(e) => e,
        }
    }

    /// How a typed value is read through an operand.
    pub open spec fn get_val<T: Primary>(self, o: Operand) -> Result<T, ExecutionError> {
        match o {
            Operand::Loc(loc) => match self.cur_call() {
                Err(e) => Err(e),
                Ok(c) => lift_mem(
                    self.mem.get_val::<T>(crate::ops::spec_wrap_word(c.base_address, loc)),
                ),
            },
            Operand::Ind(ptr) => match self.cur_call() {
                Err(e) => Err(e),
                Ok(c) => match lift_mem(
                    self.mem.get_val::<UWord>(crate::ops::spec_wrap_word(c.base_address, ptr)),
                ) {
                    Err(e) => Err(e),
                    Ok(addr) => lift_mem(self.mem.get_val::<T>(addr)),
                },
            },
            Operand::Ret(ret) => match self.cur_call() {
                Err(e) => Err(e),
                Ok(c) => lift_mem(
                    self.mem.get_val::<T>(crate::ops::spec_wrap_word(c.ret_address, ret)),
                ),
            },
            Operand::Val(val) => Ok(T::of_le(val as nat)),
            Operand::Ref(var) => match self.cur_call() {
                Err(e) => Err(e),
                Ok(c) => Ok(T::of_le(crate::ops::spec_wrap_word(c.base_address, var) as nat)),
            },
            Operand::Glb(off) => lift_mem(
                self.mem.get_val::<T>(crate::ops::spec_wrap_word(crate::memory::HEAP_BASE, off)),
            ),
            Operand::Emp => Err(self.incorrect()),
        }
    }

    /// How a typed value is written through an operand; the memory is
    /// the only part that changes.
    pub open spec fn set_val<T: Primary>(self, o: Operand, v: T) -> (
        MemView,
        Result<(), ExecutionError>,
    ) {
        match o {
            Operand::Loc(loc) => match self.cur_call() {
                Err(e) => (self.mem, Err(e)),
                Ok(c) => lift_mem_pair(
                    self.mem.set_val::<T>(crate::ops::spec_wrap_word(c.base_address, loc), v),
                ),
            },
            Operand::Ind(ptr) => match self.cur_call() {
                Err(e) => (self.mem, Err(e)),
                Ok(c) => match lift_mem(
                    self.mem.get_val::<UWord>(crate::ops::spec_wrap_word(c.base_address, ptr)),
                ) {
                    Err(e) => (self.mem, Err(e)),
                    Ok(addr) => lift_mem_pair(self.mem.set_val::<T>(addr, v)),
                },
            },
            Operand::Ret(ret) => match self.cur_call() {
                Err(e) => (self.mem, Err(e)),
                Ok(c) => lift_mem_pair(
                    self.mem.set_val::<T>(crate::ops::spec_wrap_word(c.ret_address, ret), v),
                ),
            },
            Operand::Glb(off) => lift_mem_pair(
                self.mem.set_val::<T>(
                    crate::ops::spec_wrap_word(crate::memory::HEAP_BASE, off),
                    v,
                ),
            ),
            _ => (self.mem, Err(self.incorrect())),
        }
    }

    /// One step forward in the program counter, wrapping.
    pub open spec fn advanced(self) -> VmView<'f> {
        VmView { pc: crate::ops::spec_wrap_word(self.pc, 1), ..self }
    }

    /// A data step: on success the memory transition applies and the
    /// program counter advances; an error applies the transition's
    /// memory and keeps the counter.
    pub open spec fn data_step(self, mr: (MemView, Result<(), ExecutionError>)) -> (
        VmView<'f>,
        Executed,
    ) {
        match mr.1 {
            Ok(u) => (
                VmView { mem: mr.0, ..self }.advanced(),
                Ok(ExecutionSuccess::Ran),
            ),
            Err(e) => ((VmView { mem: mr.0, ..self }), Err(e)),
        }
    }

    /// A conditional step: a true test falls through; a false one
    /// skips the conditional chain that follows.
    pub open spec fn cond_step(self, pr: Result<bool, ExecutionError>) -> (VmView<'f>, Executed) {
        match pr {
            Err(e) => (self, Err(e)),
            Ok(true) => (self.advanced(), Ok(ExecutionSuccess::Ran)),
            Ok(false) => if self.pc == UWord::MAX {
                (self, Err(ExecutionError::EndOfProgram))
            } else {
                match self.cur_call() {
                    Err(e) => (
                        (VmView { pc: (self.pc + 1) as UWord, ..self }),
                        Err(e),
                    ),
                    Ok(c) => {
                        let (pc2, r) = spec_pass(c.func.program@, self.pc);
                        (
                            (VmView { pc: pc2, ..self }),
                            match r {
                                Ok(u) => Ok(ExecutionSuccess::Ran),
                                Err(e) => Err(e),
                            },
                        )
                    },
                }
            },
        }
    }

    /// How `add` acts on a two-operand group under each mode.
    pub open spec fn add_bin<T: Add, U: Add>(self, b: BinOp, m: ArithmeticMode) -> (
        MemView,
        Result<(), ExecutionError>,
    ) {
        match self.resolve_bin(b) {
            Err(e) => (self.mem, Err(e)),
            Ok((l, r)) => match self.get_val::<T>(l) {
                Err(e) => (self.mem, Err(e)),
                Ok(x) => match self.get_val::<T>(r) {
                    Err(e) => (self.mem, Err(e)),
                    Ok(y) => match m {
                        ArithmeticMode::Wrap => self.set_val::<T>(l, x.add_wrap_spec(y)),
                        ArithmeticMode::Sat => self.set_val::<T>(l, x.add_sat_spec(y)),
                        ArithmeticMode::Wide => self.set_val::<U>(
                            l,
                            convert_spec::<T, U>(x).add_wrap_spec(convert_spec::<T, U>(y)),
                        ),
                        ArithmeticMode::Hand => match x.add_checked_spec(y) {
                            Some(s) => self.set_val::<T>(l, s),
                            None => (self.mem, Err(ExecutionError::OperationOverflow)),
                        },
                    },
                },
            },
        }
    }

    /// How `sub` acts on a two-operand group under each mode.
    pub open spec fn sub_bin<T: Sub, U: Sub>(self, b: BinOp, m: ArithmeticMode) -> (
        MemView,
        Result<(), ExecutionError>,
    ) {
        match self.resolve_bin(b) {
            Err(e) => (self.mem, Err(e)),
            Ok((l, r)) => match self.get_val::<T>(l) {
                Err(e) => (self.mem, Err(e)),
                Ok(x) => match self.get_val::<T>(r) {
                    Err(e) => (self.mem, Err(e)),
                    Ok(y) => match m {
                        ArithmeticMode::Wrap => self.set_val::<T>(l, x.sub_wrap_spec(y)),
                        ArithmeticMode::Sat => self.set_val::<T>(l, x.sub_sat_spec(y)),
                        ArithmeticMode::Wide => self.set_val::<U>(
                            l,
                            convert_spec::<T, U>(x).sub_wrap_spec(convert_spec::<T, U>(y)),
                        ),
                        ArithmeticMode::Hand => match x.sub_checked_spec(y) {
                            Some(s) => self.set_val::<T>(l, s),
                            None => (self.mem, Err(ExecutionError::OperationOverflow)),
                        },
                    },
                },
            },
        }
    }

    /// How `mul` acts on a two-operand group under each mode.
    pub open spec fn mul_bin<T: Mul, U: Mul>(self, b: BinOp, m: ArithmeticMode) -> (
        MemView,
        Result<(), ExecutionError>,
    ) {
        match self.resolve_bin(b) {
            Err(e) => (self.mem, Err(e)),
            Ok((l, r)) => match self.get_val::<T>(l) {
                Err(e) => (self.mem, Err(e)),
                Ok(x) => match self.get_val::<T>(r) {
                    Err(e) => (self.mem, Err(e)),
                    Ok(y) => match m {
                        ArithmeticMode::Wrap => self.set_val::<T>(l, x.mul_wrap_spec(y)),
                        ArithmeticMode::Sat => self.set_val::<T>(l, x.mul_sat_spec(y)),
                        ArithmeticMode::Wide => self.set_val::<U>(
                            l,
                            convert_spec::<T, U>(x).mul_wrap_spec(convert_spec::<T, U>(y)),
                        ),
                        ArithmeticMode::Hand => match x.mul_checked_spec(y) {
                            Some(s) => self.set_val::<T>(l, s),
                            None => (self.mem, Err(ExecutionError::OperationOverflow)),
                        },
                    },
                },
            },
        }
    }

    /// How `div` acts on a two-operand group; a zero divisor is
    /// rejected before anything is written.
    pub open spec fn div_bin<T: Div>(self, b: BinOp) -> (MemView, Result<(), ExecutionError>) {
        match self.resolve_bin(b) {
            Err(e) => (self.mem, Err(e)),
            Ok((l, r)) => match self.get_val::<T>(l) {
                Err(e) => (self.mem, Err(e)),
                Ok(x) => match self.get_val::<T>(r) {
                    Err(e) => (self.mem, Err(e)),
                    Ok(y) => if y.as_int() == 0 {
                        (self.mem, Err(ExecutionError::DivisionByZero))
                    } else {
                        self.set_val::<T>(l, x.div_wrap_spec(y))
                    },
                },
            },
        }
    }

    /// How `rem` acts on a two-operand group; a zero divisor is
    /// rejected before anything is written.
    pub open spec fn rem_bin<T: Rem>(self, b: BinOp) -> (MemView, Result<(), ExecutionError>) {
        match self.resolve_bin(b) {
            Err(e) => (self.mem, Err(e)),
            Ok((l, r)) => match self.get_val::<T>(l) {
                Err(e) => (self.mem, Err(e)),
                Ok(x) => match self.get_val::<T>(r) {
                    Err(e) => (self.mem, Err(e)),
                    Ok(y) => if y.as_int() == 0 {
                        (self.mem, Err(ExecutionError::DivisionByZero))
                    } else {
                        self.set_val::<T>(l, x.rem_wrap_spec(y))
                    },
                },
            },
        }
    }

    /// How `Mov` copies a typed value from the second operand to the
    /// first; the first is also read, so it must be readable.
    pub open spec fn mov_bin<T: Primary>(self, b: BinOp) -> (MemView, Result<(), ExecutionError>) {
        match self.resolve_bin(b) {
            Err(e) => (self.mem, Err(e)),
            Ok((l, r)) => match self.get_val::<T>(l) {
                Err(e) => (self.mem, Err(e)),
                Ok(x) => match self.get_val::<T>(r) {
                    Err(e) => (self.mem, Err(e)),
                    Ok(y) => self.set_val::<T>(l, y),
                },
            },
        }
    }

    /// How the bitwise `and` acts on a two-operand group.
    pub open spec fn and_bin<T: Bitwise>(self, b: BinOp) -> (MemView, Result<(), ExecutionError>) {
        match self.resolve_bin(b) {
            Err(e) => (self.mem, Err(e)),
            Ok((l, r)) => match self.get_val::<T>(l) {
                Err(e) => (self.mem, Err(e)),
                Ok(x) => match self.get_val::<T>(r) {
                    Err(e) => (self.mem, Err(e)),
                    Ok(y) => self.set_val::<T>(l, x.and_spec(y)),
                },
            },
        }
    }

    /// How the bitwise `or` acts on a two-operand group.
    pub open spec fn or_bin<T: Bitwise>(self, b: BinOp) -> (MemView, Result<(), ExecutionError>) {
        match self.resolve_bin(b) {
            Err(e) => (self.mem, Err(e)),
            Ok((l, r)) => match self.get_val::<T>(l) {
                Err(e) => (self.mem, Err(e)),
                Ok(x) => match self.get_val::<T>(r) {
                    Err(e) => (self.mem, Err(e)),
                    Ok(y) => self.set_val::<T>(l, x.or_spec(y)),
                },
            },
        }
    }

    /// How the bitwise `xor` acts on a two-operand group.
    pub open spec fn xor_bin<T: Bitwise>(self, b: BinOp) -> (MemView, Result<(), ExecutionError>) {
        match self.resolve_bin(b) {
            Err(e) => (self.mem, Err(e)),
            Ok((l, r)) => match self.get_val::<T>(l) {
                Err(e) => (self.mem, Err(e)),
                Ok(x) => match self.get_val::<T>(r) {
                    Err(e) => (self.mem, Err(e)),
                    Ok(y) => self.set_val::<T>(l, x.xor_spec(y)),
                },
            },
        }
    }

    /// How the bitwise `not` acts on a one-operand group.
    pub open spec fn not_un<T: Bitwise>(self, u: UnOp) -> (MemView, Result<(), ExecutionError>) {
        match self.resolve_un(u) {
            Err(e) => (self.mem, Err(e)),
            Ok(l) => match self.get_val::<T>(l) {
                Err(e) => (self.mem, Err(e)),
                Ok(x) => self.set_val::<T>(l, x.not_spec()),
            },
        }
    }

    /// How `neg` acts on a one-operand group under each mode.
    pub open spec fn neg_un<T: Neg, U: Neg>(self, u: UnOp, m: ArithmeticMode) -> (
        MemView,
        Result<(), ExecutionError>,
    ) {
        match self.resolve_un(u) {
            Err(e) => (self.mem, Err(e)),
            Ok(l) => match self.get_val::<T>(l) {
                Err(e) => (self.mem, Err(e)),
                Ok(x) => match m {
                    ArithmeticMode::Wrap => self.set_val::<T>(l, x.neg_wrap_spec()),
                    ArithmeticMode::Sat => self.set_val::<T>(l, x.neg_wrap_spec()),
                    ArithmeticMode::Wide => self.set_val::<U>(
                        l,
                        convert_spec::<T, U>(x).neg_wrap_spec(),
                    ),
                    ArithmeticMode::Hand => match x.neg_checked_spec() {
                        Some(s) => self.set_val::<T>(l, s),
                        None => (self.mem, Err(ExecutionError::OperationOverflow)),
                    },
                },
            },
        }
    }

    /// How `inc` acts on a one-operand group under each mode.
    pub open spec fn inc_un<T: Inc, U: Inc>(self, u: UnOp, m: ArithmeticMode) -> (
        MemView,
        Result<(), ExecutionError>,
    ) {
        match self.resolve_un(u) {
            Err(e) => (self.mem, Err(e)),
            Ok(l) => match self.get_val::<T>(l) {
                Err(e) => (self.mem, Err(e)),
                Ok(x) => match m {
                    ArithmeticMode::Wrap => self.set_val::<T>(l, x.inc_wrap_spec()),
                    ArithmeticMode::Sat => self.set_val::<T>(l, x.inc_sat_spec()),
                    ArithmeticMode::Wide => self.set_val::<U>(
                        l,
                        convert_spec::<T, U>(x).inc_wrap_spec(),
                    ),
                    ArithmeticMode::Hand => match x.inc_checked_spec() {
                        Some(s) => self.set_val::<T>(l, s),
                        None => (self.mem, Err(ExecutionError::OperationOverflow)),
                    },
                },
            },
        }
    }

    /// How `dec` acts on a one-operand group under each mode.
    pub open spec fn dec_un<T: Dec, U: Dec>(self, u: UnOp, m: ArithmeticMode) -> (
        MemView,
        Result<(), ExecutionError>,
    ) {
        match self.resolve_un(u) {
            Err(e) => (self.mem, Err(e)),
            Ok(l) => match self.get_val::<T>(l) {
                Err(e) => (self.mem, Err(e)),
                Ok(x) => match m {
                    ArithmeticMode::Wrap => self.set_val::<T>(l, x.dec_wrap_spec()),
                    ArithmeticMode::Sat => self.set_val::<T>(l, x.dec_sat_spec()),
                    ArithmeticMode::Wide => self.set_val::<U>(
                        l,
                        convert_spec::<T, U>(x).dec_wrap_spec(),
                    ),
                    ArithmeticMode::Hand => match x.dec_checked_spec() {
                        Some(s) => self.set_val::<T>(l, s),
                        None => (self.mem, Err(ExecutionError::OperationOverflow)),
                    },
                },
            },
        }
    }

    /// How `shl` acts: the first operand is shifted by the eight-bit
    /// count read at the second.
    pub open spec fn shl_op<T: Shl>(self, x: Operand, y: Operand) -> (
        MemView,
        Result<(), ExecutionError>,
    ) {
        match self.get_val::<T>(x) {
            Err(e) => (self.mem, Err(e)),
            Ok(xv) => match self.get_val::<u8>(y) {
                Err(e) => (self.mem, Err(e)),
                Ok(yv) => self.set_val::<T>(x, xv.shl_wrap_spec(yv)),
            },
        }
    }

    /// How `shr` acts: the first operand is shifted by the eight-bit
    /// count read at the second.
    pub open spec fn shr_op<T: Shr>(self, x: Operand, y: Operand) -> (
        MemView,
        Result<(), ExecutionError>,
    ) {
        match self.get_val::<T>(x) {
            Err(e) => (self.mem, Err(e)),
            Ok(xv) => match self.get_val::<u8>(y) {
                Err(e) => (self.mem, Err(e)),
                Ok(yv) => self.set_val::<T>(x, xv.shr_wrap_spec(yv)),
            },
        }
    }

    /// How `Cnv` reads the second operand at the source type and writes
    /// its numeric value at the first as the target type.
    pub open spec fn cnv_op<T: Primary, U: Primary>(self, x: Operand, y: Operand) -> (
        MemView,
        Result<(), ExecutionError>,
    ) {
        match self.get_val::<T>(y) {
            Err(e) => (self.mem, Err(e)),
            Ok(v) => self.set_val::<U>(x, convert_spec::<T, U>(v)),
        }
    }

    /// The truth of a two-operand comparison, read at one type.
    pub open spec fn bin_vals<T: Primary>(self, b: BinOp) -> Result<(T, T), ExecutionError> {
        match self.resolve_bin(b) {
            Err(e) => Err(e),
            Ok((l, r)) => match self.get_val::<T>(l) {
                Err(e) => Err(e),
                Ok(x) => match self.get_val::<T>(r) {
                    Err(e) => Err(e),
                    Ok(y) => Ok((x, y)),
                },
            },
        }
    }

    /// The value read through a one-operand group.
    pub open spec fn un_val<T: Primary>(self, u: UnOp) -> Result<T, ExecutionError> {
        match self.resolve_un(u) {
            Err(e) => Err(e),
            Ok(l) => self.get_val::<T>(l),
        }
    }
}

/// A memory error wrapped into an execution error.
pub open spec fn lift_mem<T>(r: Result<T, MemoryError>) -> Result<T, ExecutionError> {
    match r {
        Ok(v) => Ok(v),
        Err(e) => Err(ExecutionError::MemoryError(e)),
    }
}

/// A memory transition with its error wrapped.
pub open spec fn lift_mem_pair(r: (MemView, Result<(), MemoryError>)) -> (
    MemView,
    Result<(), ExecutionError>,
) {
    match r.1 {
        Ok(u) => (r.0, Ok(u)),
        Err(e) => (r.0, Err(ExecutionError::MemoryError(e))),
    }
}


/// Where the program counter lands after a false conditional: forward
/// over the conditional chain, then one past the first plain
/// instruction; leaving the program is the end of it.
pub open spec fn spec_pass(prog: Seq<Op>, pc: UWord) -> (UWord, Result<(), ExecutionError>)
    decreases prog.len() - pc,
{
    if pc == UWord::MAX {
        (pc, Err(ExecutionError::EndOfProgram))
    } else {
        let p2 = (pc + 1) as UWord;
        if p2 >= prog.len() {
            (p2, Err(ExecutionError::EndOfProgram))
        } else if !spec_is_conditional(prog[p2 as int]) {
            if p2 == UWord::MAX {
                (p2, Err(ExecutionError::EndOfProgram))
            } else {
                ((p2 + 1) as UWord, Ok(()))
            }
        } else {
            spec_pass(prog, p2)
        }
    }
}


/// How `App` prepares a frame: the function is looked up, the stack
/// grows by its zeroed frame, and the new frame waits on top.
pub open spec fn spec_app<'f>(v: VmView<'f>, function_id: UWord) -> (
    VmView<'f>,
    Result<(), ExecutionError>,
) {
    if function_id >= v.funcs.len() {
        (v, Err(ExecutionError::UnknownFunction))
    } else {
        let f = v.funcs[function_id as int];
        let (p2, r) = crate::memory::spec_expand(
            v.mem.stack,
            v.mem.stack_limit,
            v.mem.stack_name,
            f.frame_size,
        );
        match r {
            Err(e) => (v, Err(ExecutionError::MemoryError(e))),
            Ok(u) => (
                VmView {
                    mem: MemView { stack: p2, ..v.mem },
                    frames: v.frames.push(
                        FrameView {
                            func: f,
                            base_address: v.mem.stack.len() as UWord,
                            ret_address: 0,
                            ret_program_counter: 0,
                        },
                    ),
                    prepared: true,
                    ..v
                },
                Ok(u),
            ),
        }
    }
}

/// How `Clf` activates the prepared frame: the caller's resume point
/// is recorded on it and the counter restarts for the callee.
pub open spec fn spec_clf<'f>(v: VmView<'f>, ret_address: UWord) -> (
    VmView<'f>,
    Result<(), ExecutionError>,
) {
    if v.frames.len() == 0 {
        (v, Err(ExecutionError::EndOfProgram))
    } else {
        let top = v.frames.last();
        (
            VmView {
                frames: v.frames.update(
                    v.frames.len() - 1,
                    FrameView {
                        ret_address,
                        ret_program_counter: crate::ops::spec_wrap_word(v.pc, 1),
                        ..top
                    },
                ),
                prepared: false,
                pc: 0,
                param_ptr: 0,
                ..v
            },
            Ok(()),
        )
    }
}

/// How `Ret` leaves a frame: its stack region is freed, the frame is
/// popped, and the caller's counter is restored.
pub open spec fn spec_ret<'f>(v: VmView<'f>) -> (VmView<'f>, Result<(), ExecutionError>) {
    if v.frames.len() == 0 {
        (v, Err(ExecutionError::EndOfProgram))
    } else {
        let top = v.frames.last();
        let (p2, r) = crate::memory::spec_narrow(v.mem.stack, v.mem.stack_name, top.func.frame_size);
        match r {
            Err(e) => (v, Err(ExecutionError::MemoryError(e))),
            Ok(u) => (
                VmView {
                    mem: MemView { stack: p2, ..v.mem },
                    frames: v.frames.take(v.frames.len() - 1),
                    pc: top.ret_program_counter,
                    ..v
                },
                Ok(u),
            ),
        }
    }
}

/// How `Par` fills one parameter slot: at the end of the prepared
/// frame, by the mode; the parameter cursor advances regardless.
pub open spec fn spec_par<'f, T: Primary>(v: VmView<'f>, un: UnOp, mode: ParameterMode) -> (
    MemView,
    UWord,
    Result<(), ExecutionError>,
) {
    match v.cur_call() {
        Err(e) => (v.mem, v.param_ptr, Err(e)),
        Ok(c) => {
            let parameter_loc = crate::ops::spec_wrap_word(v.param_ptr, c.func.frame_size);
            let param2 = crate::ops::spec_wrap_word(v.param_ptr, T::spec_size() as UWord);
            let v2 = VmView { param_ptr: param2, ..v };
            match mode {
                ParameterMode::Mov => match v2.un_val::<T>(un) {
                    Err(e) => (v.mem, param2, Err(e)),
                    Ok(val) => {
                        let (m2, r) = v2.set_val::<T>(Operand::Loc(parameter_loc), val);
                        (m2, param2, r)
                    },
                },
                ParameterMode::Emp => (v.mem, param2, Ok(())),
                ParameterMode::Zer => {
                    let (m2, r) = v2.set_val::<T>(Operand::Loc(parameter_loc), T::of_le(0));
                    (m2, param2, r)
                },
            }
        },
    }
}


/// The call protocol is a round trip: a frame prepared, activated and
/// returned from leaves the stack at its old length, resumes one past
/// the call, resets the parameter cursor, and restores the frames.
pub proof fn lemma_call_round_trip<'f>(v: VmView<'f>, fid: UWord, ra: UWord)
    requires
        spec_app(v, fid).1 is Ok,
    ensures
        ({
            let (v1, r1) = spec_app(v, fid);
            let (v2, r2) = spec_clf(v1, ra);
            let (v3, r3) = spec_ret(v2);
            &&& r2 is Ok
            &&& r3 is Ok
            &&& v3.mem.stack == v.mem.stack
            &&& v3.pc == crate::ops::spec_wrap_word(v.pc, 1)
            &&& v3.param_ptr == 0
            &&& v3.frames == v.frames
            &&& v3.prepared == false
        }),
{
    let (v1, r1) = spec_app(v, fid);
    let (v2, r2) = spec_clf(v1, ra);
    let (v3, r3) = spec_ret(v2);
    let f = v.funcs[fid as int];
    assert(v1.frames.len() == v.frames.len() + 1);
    assert(v2.frames.last().func == f);
    assert(v2.mem.stack.len() == v.mem.stack.len() + f.frame_size);
    assert(v3.mem.stack =~= v.mem.stack);
    assert(v3.frames =~= v.frames);
}

/// The interpreter.
pub struct Executor<'f> {
    pub functions: &'f [Function<'f>],
    pub memory: Memory,
    pub program_counter: UWord,
    pub call_stack: Vec<FunctionCall<'f>>,
    pub prepared_call: bool,
    pub parameter_ptr: UWord,
}

impl<'f> View for Executor<'f> {
    type V = VmView<'f>;

    open spec fn view(&self) -> VmView<'f> {
        VmView {
            funcs: self.functions@,
            mem: self.memory@,
            pc: self.program_counter,
            frames: self.call_stack@.map_values(|c: FunctionCall<'f>| frame_view(c)),
            prepared: self.prepared_call,
            param_ptr: self.parameter_ptr,
        }
    }
}

impl<'f> Executor<'f> {
    /// The memory's pages respect their limits.
    pub open spec fn wf(self) -> bool {
        self.memory.wf()
    }

    /// An interpreter over a function table, with empty memory and no
    /// frames.
    pub fn new(functions: &'f [Function<'f>]) -> (r: Self)
        ensures
            r@.funcs == functions@,
            r@.mem.stack =~= Seq::<u8>::empty(),
            r@.mem.heap =~= Seq::<u8>::empty(),
            r@.pc == 0,
            r@.frames =~= Seq::<FrameView<'f>>::empty(),
            r@.prepared == false,
            r@.param_ptr == 0,
            r@.mem.stack_limit == crate::memory::DEFAULT_STACK_LIMIT,
            r@.mem.heap_limit == crate::memory::DEFAULT_HEAP_LIMIT,
            r.wf(),
    {
        Self {
            functions,
            memory: Memory::new(),
            program_counter: 0,
            call_stack: Vec::new(),
            prepared_call: false,
            parameter_ptr: 0,
        }
    }

    /// The executing frame, by the current-frame rule.
    pub fn current_call(&self) -> (r: Result<FunctionCall<'f>, ExecutionError>)
        ensures
            self@.cur_call() matches Ok(fv) ==> (r matches Ok(c) && frame_view(c) == fv),
            self@.cur_call() matches Err(e) ==> r == Err::<FunctionCall<'f>, ExecutionError>(e),
    {
        let n = self.call_stack.len();
        let idx = if self.prepared_call {
            n.wrapping_sub(2)
        } else {
            n.wrapping_sub(1)
        };
        if idx < n {
            Ok(self.call_stack[idx])
        } else {
            Err(ExecutionError::EndOfProgram)
        }
    }

    /// The instruction at the program counter in the executing frame.
    pub fn current_op(&self) -> (r: Result<Op, ExecutionError>)
        ensures
            r == self@.cur_op(),
    {
        let c = match self.current_call() {
            Ok(c) => c,
            Err(e) => {
                return Err(e);
            },
        };
        let prog: &[Op] = c.function.program;
        if (self.program_counter as usize) < prog.len() {
            Ok(prog[self.program_counter as usize])
        } else {
            Err(ExecutionError::EndOfProgram)
        }
    }

    /// Reads a typed value through an operand against the executing
    /// frame.
    pub fn get_val<T: Primary>(&self, operand: Operand) -> (r: Result<T, ExecutionError>)
        ensures
            r == self@.get_val::<T>(operand),
    {
        match operand {
            Operand::Loc(loc) => {
                let c = match self.current_call() {
                    Ok(c) => c,
                    Err(e) => {
                        return Err(e);
                    },
                };
                match self.memory.get::<T>(c.base_address.wrapping_add(loc)) {
                    Ok(v) => Ok(v),
                    Err(e) => Err(ExecutionError::MemoryError(e)),
                }
            },
            Operand::Ind(ptr) => {
                let c = match self.current_call() {
                    Ok(c) => c,
                    Err(e) => {
                        return Err(e);
                    },
                };
                let addr = match self.memory.get::<UWord>(c.base_address.wrapping_add(ptr)) {
                    Ok(v) => v,
                    Err(e) => {
                        return Err(ExecutionError::MemoryError(e));
                    },
                };
                match self.memory.get::<T>(addr) {
                    Ok(v) => Ok(v),
                    Err(e) => Err(ExecutionError::MemoryError(e)),
                }
            },
            Operand::Ret(ret) => {
                let c = match self.current_call() {
                    Ok(c) => c,
                    Err(e) => {
                        return Err(e);
                    },
                };
                match self.memory.get::<T>(c.ret_address.wrapping_add(ret)) {
                    Ok(v) => Ok(v),
                    Err(e) => Err(ExecutionError::MemoryError(e)),
                }
            },
            Operand::Val(val) => Ok(T::from_word(val)),
            Operand::Ref(var) => {
                let c = match self.current_call() {
                    Ok(c) => c,
                    Err(e) => {
                        return Err(e);
                    },
                };
                Ok(T::from_word(c.base_address.wrapping_add(var)))
            },
            Operand::Glb(off) => {
                match self.memory.get::<T>(crate::memory::HEAP_BASE.wrapping_add(off)) {
                    Ok(v) => Ok(v),
                    Err(e) => Err(ExecutionError::MemoryError(e)),
                }
            },
            Operand::Emp => Err(self.incorrect_here()),
        }
    }

    /// The error a misused operand raises here.
    fn incorrect_here(&self) -> (r: ExecutionError)
        ensures
            r == self@.incorrect(),
    {
        match self.current_op() {
            Ok(op) => ExecutionError::IncorrectOperation(op),
            Err(e) => e,
        }
    }

    /// Writes a typed value through an operand against the executing
    /// frame; immediate, reference and absent operands reject the
    /// write.
    pub fn set_val<T: Primary>(&mut self, operand: Operand, val: T) -> (r: Result<
        (),
        ExecutionError,
    >)
        ensures
            (final(self)@.mem, r) == old(self)@.set_val::<T>(operand, val),
            final(self)@ == (VmView { mem: final(self)@.mem, ..old(self)@ }),
            old(self).wf() ==> final(self).wf(),
    {
        match operand {
            Operand::Loc(loc) => {
                let c = match self.current_call() {
                    Ok(c) => c,
                    Err(e) => {
                        return Err(e);
                    },
                };
                match self.memory.set::<T>(c.base_address.wrapping_add(loc), val) {
                    Ok(u) => Ok(u),
                    Err(e) => Err(ExecutionError::MemoryError(e)),
                }
            },
            Operand::Ind(ptr) => {
                let c = match self.current_call() {
                    Ok(c) => c,
                    Err(e) => {
                        return Err(e);
                    },
                };
                let addr = match self.memory.get::<UWord>(c.base_address.wrapping_add(ptr)) {
                    Ok(v) => v,
                    Err(e) => {
                        return Err(ExecutionError::MemoryError(e));
                    },
                };
                match self.memory.set::<T>(addr, val) {
                    Ok(u) => Ok(u),
                    Err(e) => Err(ExecutionError::MemoryError(e)),
                }
            },
            Operand::Ret(ret) => {
                let c = match self.current_call() {
                    Ok(c) => c,
                    Err(e) => {
                        return Err(e);
                    },
                };
                match self.memory.set::<T>(c.ret_address.wrapping_add(ret), val) {
                    Ok(u) => Ok(u),
                    Err(e) => Err(ExecutionError::MemoryError(e)),
                }
            },
            Operand::Glb(off) => {
                match self.memory.set::<T>(crate::memory::HEAP_BASE.wrapping_add(off), val) {
                    Ok(u) => Ok(u),
                    Err(e) => Err(ExecutionError::MemoryError(e)),
                }
            },
            _ => Err(self.incorrect_here()),
        }
    }

    /// Resolves a one-operand group's base operand.
    pub fn read_un_operand(&self, un: UnOp) -> (r: Result<Operand, ExecutionError>)
        ensures
            r == self@.resolve_un(un),
    {
        match un.x_offset {
            Some(offset) => self.make_offset(un.x, offset),
            None => Ok(un.x),
        }
    }

    /// Resolves both operands of a two-operand group.
    pub fn read_bin_operands(&self, bin: BinOp) -> (r: Result<(Operand, Operand), ExecutionError>)
        ensures
            r == self@.resolve_bin(bin),
    {
        let left = match bin.x_offset {
            Some(offset) => match self.make_offset(bin.x, offset) {
                Ok(l) => l,
                Err(e) => {
                    return Err(e);
                },
            },
            None => bin.x,
        };
        let right = match bin.y_offset {
            Some(offset) => match self.make_offset(bin.y, offset) {
                Ok(r) => r,
                Err(e) => {
                    return Err(e);
                },
            },
            None => bin.y,
        };
        Ok((left, right))
    }

    /// Adds a read offset, wrapping, to an operand's word.
    fn make_offset(&self, a: Operand, offset: Operand) -> (r: Result<Operand, ExecutionError>)
        ensures
            r == self@.make_offset(a, offset),
    {
        let d = match self.get_val::<UWord>(offset) {
            Ok(d) => d,
            Err(e) => {
                return Err(e);
            },
        };
        match a.get() {
            Some(w) => Ok(a.with_word(w.wrapping_add(d))),
            None => Ok(a.with_word(0)),
        }
    }

    /// Reads a typed value through a one-operand group.
    pub fn get_un<T: Primary>(&self, un: UnOp) -> (r: Result<T, ExecutionError>)
        ensures
            r == (match self@.resolve_un(un) {
                Ok(left) => self@.get_val::<T>(left),
                Err(e) => Err(e),
            }),
    {
        match self.read_un_operand(un) {
            Ok(left) => self.get_val::<T>(left),
            Err(e) => Err(e),
        }
    }
}


impl<'f> Executor<'f> {
    /// Pushes and zero-fills a frame for the named function; the new
    /// frame is prepared, not yet executing.
    pub fn app(&mut self, function_id: UWord) -> (r: Result<(), ExecutionError>)
        requires
            old(self).wf(),
        ensures
            (final(self)@, r) == spec_app(old(self)@, function_id),
            final(self).wf(),
    {
        if (function_id as usize) >= self.functions.len() {
            return Err(ExecutionError::UnknownFunction);
        }
        let f: &'f Function<'f> = &self.functions[function_id as usize];
        let base = self.memory.stack.len();
        match self.memory.stack.expand(f.frame_size) {
            Err(e) => {
                proof {
                    assert(final(self)@ =~= old(self)@);
                }
                Err(ExecutionError::MemoryError(e))
            },
            Ok(u) => {
                self.call_stack.push(
                    FunctionCall {
                        function: f,
                        base_address: base,
                        ret_address: 0,
                        ret_program_counter: 0,
                    },
                );
                self.prepared_call = true;
                proof {
                    let (v2, r2) = spec_app(old(self)@, function_id);
                    assert(final(self)@.frames =~= v2.frames);
                    assert(final(self)@.mem =~= v2.mem);
                    assert(final(self)@ =~= v2);
                }
                Ok(u)
            },
        }
    }

    /// Activates the prepared frame: records where the caller resumes
    /// and restarts the counter for the callee.
    pub fn clf(&mut self, ret_address: UWord) -> (r: Result<(), ExecutionError>)
        ensures
            (final(self)@, r) == spec_clf(old(self)@, ret_address),
            old(self).wf() ==> final(self).wf(),
    {
        let n = self.call_stack.len();
        if n == 0 {
            return Err(ExecutionError::EndOfProgram);
        }
        let mut top = self.call_stack[n - 1];
        top.ret_address = ret_address;
        top.ret_program_counter = self.program_counter.wrapping_add(1);
        self.call_stack.set(n - 1, top);
        self.prepared_call = false;
        self.program_counter = 0;
        self.parameter_ptr = 0;
        proof {
            let (v2, r2) = spec_clf(old(self)@, ret_address);
            assert(final(self)@.frames =~= v2.frames);
            assert(final(self)@ =~= v2);
        }
        Ok(())
    }

    /// Prepares and immediately activates a frame: how a driver enters
    /// a program.
    pub fn call(&mut self, function_id: UWord, ret_address: UWord) -> (r: Result<
        (),
        ExecutionError,
    >)
        requires
            old(self).wf(),
        ensures
            (final(self)@, r) == (match spec_app(old(self)@, function_id) {
                (v1, Ok(u)) => spec_clf(v1, ret_address),
                (v1, Err(e)) => (v1, Err(e)),
            }),
            old(self).wf() ==> final(self).wf(),
    {
        match self.app(function_id) {
            Ok(u) => self.clf(ret_address),
            Err(e) => Err(e),
        }
    }

    /// Pops the top frame, frees its stack region and resumes the
    /// caller.
    pub fn ret(&mut self) -> (r: Result<(), ExecutionError>)
        requires
            old(self).wf(),
        ensures
            (final(self)@, r) == spec_ret(old(self)@),
            old(self).wf() ==> final(self).wf(),
    {
        let n = self.call_stack.len();
        if n == 0 {
            return Err(ExecutionError::EndOfProgram);
        }
        let top = self.call_stack[n - 1];
        match self.memory.stack.narrow(top.function.frame_size) {
            Err(e) => {
                proof {
                    assert(final(self)@ =~= old(self)@);
                }
                Err(ExecutionError::MemoryError(e))
            },
            Ok(u) => {
                self.call_stack.pop();
                self.program_counter = top.ret_program_counter;
                proof {
                    let (v2, r2) = spec_ret(old(self)@);
                    assert(final(self)@.frames =~= v2.frames);
                    assert(final(self)@.mem =~= v2.mem);
                    assert(final(self)@ =~= v2);
                }
                Ok(u)
            },
        }
    }

    /// Walks the program counter past a false conditional's chain.
    pub fn pass_condition(&mut self) -> (r: Result<(), ExecutionError>)
        ensures
            final(self)@ == (VmView { pc: final(self)@.pc, ..old(self)@ }),
            old(self)@.cur_call() matches Ok(c) ==> (final(self)@.pc, r) == spec_pass(
                c.func.program@,
                old(self)@.pc,
            ),
            old(self)@.cur_call() matches Err(e) ==> (if old(self)@.pc == UWord::MAX {
                final(self)@.pc == old(self)@.pc && r == Err::<(), ExecutionError>(
                    ExecutionError::EndOfProgram,
                )
            } else {
                final(self)@.pc == old(self)@.pc + 1 && r == Err::<(), ExecutionError>(e)
            }),
            old(self).wf() ==> final(self).wf(),
    {
        let ghost c0 = old(self)@.cur_call();
        loop
            invariant
                self@ == (VmView { pc: self@.pc, ..old(self)@ }),
                self@.cur_call() == c0,
                c0 matches Ok(c) ==> spec_pass(c.func.program@, self@.pc) == spec_pass(
                    c.func.program@,
                    old(self)@.pc,
                ),
                c0 matches Err(e) ==> self@.pc == old(self)@.pc,
                self.wf() == old(self).wf(),
            decreases (match c0 {
                Ok(c) => c.func.program@.len() as int + 1 - self@.pc,
                Err(e) => 1int,
            }),
        {
            let next = match self.program_counter.checked_add(1) {
                Some(p) => p,
                None => {
                    return Err(ExecutionError::EndOfProgram);
                },
            };
            self.program_counter = next;
            let op = match self.current_op() {
                Ok(op) => op,
                Err(e) => {
                    return Err(e);
                },
            };
            if !op.is_conditional() {
                match self.program_counter.checked_add(1) {
                    Some(p) => {
                        self.program_counter = p;
                        return Ok(());
                    },
                    None => {
                        return Err(ExecutionError::EndOfProgram);
                    },
                }
            }
        }
    }

    /// Runs `add` on a two-operand group under the given mode.
    fn exec_add<T: Add, U: Add>(&mut self, bin: BinOp, mode: ArithmeticMode) -> (r: Result<
        (),
        ExecutionError,
    >)
        ensures
            (final(self)@.mem, r) == old(self)@.add_bin::<T, U>(bin, mode),
            final(self)@ == (VmView { mem: final(self)@.mem, ..old(self)@ }),
            old(self).wf() ==> final(self).wf(),
    {
        let (l, rr) = match self.read_bin_operands(bin) {
            Ok(v) => v,
            Err(e) => {
                return Err(e);
            },
        };
        let x: T = match self.get_val::<T>(l) {
            Ok(v) => v,
            Err(e) => {
                return Err(e);
            },
        };
        let y: T = match self.get_val::<T>(rr) {
            Ok(v) => v,
            Err(e) => {
                return Err(e);
            },
        };
        match mode {
            ArithmeticMode::Wrap => self.set_val::<T>(l, Add::wrapping(x, y)),
            ArithmeticMode::Sat => self.set_val::<T>(l, Add::saturating(x, y)),
            ArithmeticMode::Wide => self.set_val::<U>(
                l,
                Add::wrapping(<U as Convert<T>>::convert(x), <U as Convert<T>>::convert(y)),
            ),
            ArithmeticMode::Hand => match Add::checked(x, y) {
                Some(s) => self.set_val::<T>(l, s),
                None => Err(ExecutionError::OperationOverflow),
            },
        }
    }

    /// Runs `sub` on a two-operand group under the given mode.
    fn exec_sub<T: Sub, U: Sub>(&mut self, bin: BinOp, mode: ArithmeticMode) -> (r: Result<
        (),
        ExecutionError,
    >)
        ensures
            (final(self)@.mem, r) == old(self)@.sub_bin::<T, U>(bin, mode),
            final(self)@ == (VmView { mem: final(self)@.mem, ..old(self)@ }),
            old(self).wf() ==> final(self).wf(),
    {
        let (l, rr) = match self.read_bin_operands(bin) {
            Ok(v) => v,
            Err(e) => {
                return Err(e);
            },
        };
        let x: T = match self.get_val::<T>(l) {
            Ok(v) => v,
            Err(e) => {
                return Err(e);
            },
        };
        let y: T = match self.get_val::<T>(rr) {
            Ok(v) => v,
            Err(e) => {
                return Err(e);
            },
        };
        match mode {
            ArithmeticMode::Wrap => self.set_val::<T>(l, Sub::wrapping(x, y)),
            ArithmeticMode::Sat => self.set_val::<T>(l, Sub::saturating(x, y)),
            ArithmeticMode::Wide => self.set_val::<U>(
                l,
                Sub::wrapping(<U as Convert<T>>::convert(x), <U as Convert<T>>::convert(y)),
            ),
            ArithmeticMode::Hand => match Sub::checked(x, y) {
                Some(s) => self.set_val::<T>(l, s),
                None => Err(ExecutionError::OperationOverflow),
            },
        }
    }

    /// Runs `mul` on a two-operand group under the given mode.
    fn exec_mul<T: Mul, U: Mul>(&mut self, bin: BinOp, mode: ArithmeticMode) -> (r: Result<
        (),
        ExecutionError,
    >)
        ensures
            (final(self)@.mem, r) == old(self)@.mul_bin::<T, U>(bin, mode),
            final(self)@ == (VmView { mem: final(self)@.mem, ..old(self)@ }),
            old(self).wf() ==> final(self).wf(),
    {
        let (l, rr) = match self.read_bin_operands(bin) {
            Ok(v) => v,
            Err(e) => {
                return Err(e);
            },
        };
        let x: T = match self.get_val::<T>(l) {
            Ok(v) => v,
            Err(e) => {
                return Err(e);
            },
        };
        let y: T = match self.get_val::<T>(rr) {
            Ok(v) => v,
            Err(e) => {
                return Err(e);
            },
        };
        match mode {
            ArithmeticMode::Wrap => self.set_val::<T>(l, Mul::wrapping(x, y)),
            ArithmeticMode::Sat => self.set_val::<T>(l, Mul::saturating(x, y)),
            ArithmeticMode::Wide => self.set_val::<U>(
                l,
                Mul::wrapping(<U as Convert<T>>::convert(x), <U as Convert<T>>::convert(y)),
            ),
            ArithmeticMode::Hand => match Mul::checked(x, y) {
                Some(s) => self.set_val::<T>(l, s),
                None => Err(ExecutionError::OperationOverflow),
            },
        }
    }

    /// Runs `div` on a two-operand group; a zero divisor is rejected
    /// before anything is written.
    fn exec_div<T: Div>(&mut self, bin: BinOp) -> (r: Result<(), ExecutionError>)
        ensures
            (final(self)@.mem, r) == old(self)@.div_bin::<T>(bin),
            final(self)@ == (VmView { mem: final(self)@.mem, ..old(self)@ }),
            old(self).wf() ==> final(self).wf(),
    {
        let (l, rr) = match self.read_bin_operands(bin) {
            Ok(v) => v,
            Err(e) => {
                return Err(e);
            },
        };
        let x: T = match self.get_val::<T>(l) {
            Ok(v) => v,
            Err(e) => {
                return Err(e);
            },
        };
        let y: T = match self.get_val::<T>(rr) {
            Ok(v) => v,
            Err(e) => {
                return Err(e);
            },
        };
        proof {
            T::lemma_of_le(0);
            crate::bytes::lemma_pow256_pos(T::spec_size());
            assert(0nat % pow256(T::spec_size()) == 0) by (nonlinear_arith)
                requires
                    pow256(T::spec_size()) >= 1,
            ;
            y.lemma_le();
        }
        if y.eq_val(T::zero()) {
            return Err(ExecutionError::DivisionByZero);
        }
        self.set_val::<T>(l, Div::wrapping(x, y))
    }

    /// Runs `rem` on a two-operand group; a zero divisor is rejected
    /// before anything is written.
    fn exec_rem<T: Rem>(&mut self, bin: BinOp) -> (r: Result<(), ExecutionError>)
        ensures
            (final(self)@.mem, r) == old(self)@.rem_bin::<T>(bin),
            final(self)@ == (VmView { mem: final(self)@.mem, ..old(self)@ }),
            old(self).wf() ==> final(self).wf(),
    {
        let (l, rr) = match self.read_bin_operands(bin) {
            Ok(v) => v,
            Err(e) => {
                return Err(e);
            },
        };
        let x: T = match self.get_val::<T>(l) {
            Ok(v) => v,
            Err(e) => {
                return Err(e);
            },
        };
        let y: T = match self.get_val::<T>(rr) {
            Ok(v) => v,
            Err(e) => {
                return Err(e);
            },
        };
        proof {
            T::lemma_of_le(0);
            crate::bytes::lemma_pow256_pos(T::spec_size());
            assert(0nat % pow256(T::spec_size()) == 0) by (nonlinear_arith)
                requires
                    pow256(T::spec_size()) >= 1,
            ;
            y.lemma_le();
        }
        if y.eq_val(T::zero()) {
            return Err(ExecutionError::DivisionByZero);
        }
        self.set_val::<T>(l, Rem::wrapping(x, y))
    }

    /// Runs `Mov`: a typed copy from the second operand to the first.
    fn exec_mov<T: Primary>(&mut self, bin: BinOp) -> (r: Result<(), ExecutionError>)
        ensures
            (final(self)@.mem, r) == old(self)@.mov_bin::<T>(bin),
            final(self)@ == (VmView { mem: final(self)@.mem, ..old(self)@ }),
            old(self).wf() ==> final(self).wf(),
    {
        let (l, rr) = match self.read_bin_operands(bin) {
            Ok(v) => v,
            Err(e) => {
                return Err(e);
            },
        };
        let _x: T = match self.get_val::<T>(l) {
            Ok(v) => v,
            Err(e) => {
                return Err(e);
            },
        };
        let y: T = match self.get_val::<T>(rr) {
            Ok(v) => v,
            Err(e) => {
                return Err(e);
            },
        };
        self.set_val::<T>(l, y)
    }

    /// Runs the bitwise `and` on a two-operand group.
    fn exec_and<T: Bitwise>(&mut self, bin: BinOp) -> (r: Result<(), ExecutionError>)
        ensures
            (final(self)@.mem, r) == old(self)@.and_bin::<T>(bin),
            final(self)@ == (VmView { mem: final(self)@.mem, ..old(self)@ }),
            old(self).wf() ==> final(self).wf(),
    {
        let (l, rr) = match self.read_bin_operands(bin) {
            Ok(v) => v,
            Err(e) => {
                return Err(e);
            },
        };
        let x: T = match self.get_val::<T>(l) {
            Ok(v) => v,
            Err(e) => {
                return Err(e);
            },
        };
        let y: T = match self.get_val::<T>(rr) {
            Ok(v) => v,
            Err(e) => {
                return Err(e);
            },
        };
        self.set_val::<T>(l, x.bit_and(y))
    }

    /// Runs the bitwise `or` on a two-operand group.
    fn exec_or<T: Bitwise>(&mut self, bin: BinOp) -> (r: Result<(), ExecutionError>)
        ensures
            (final(self)@.mem, r) == old(self)@.or_bin::<T>(bin),
            final(self)@ == (VmView { mem: final(self)@.mem, ..old(self)@ }),
            old(self).wf() ==> final(self).wf(),
    {
        let (l, rr) = match self.read_bin_operands(bin) {
            Ok(v) => v,
            Err(e) => {
                return Err(e);
            },
        };
        let x: T = match self.get_val::<T>(l) {
            Ok(v) => v,
            Err(e) => {
                return Err(e);
            },
        };
        let y: T = match self.get_val::<T>(rr) {
            Ok(v) => v,
            Err(e) => {
                return Err(e);
            },
        };
        self.set_val::<T>(l, x.bit_or(y))
    }

    /// Runs the bitwise `xor` on a two-operand group.
    fn exec_xor<T: Bitwise>(&mut self, bin: BinOp) -> (r: Result<(), ExecutionError>)
        ensures
            (final(self)@.mem, r) == old(self)@.xor_bin::<T>(bin),
            final(self)@ == (VmView { mem: final(self)@.mem, ..old(self)@ }),
            old(self).wf() ==> final(self).wf(),
    {
        let (l, rr) = match self.read_bin_operands(bin) {
            Ok(v) => v,
            Err(e) => {
                return Err(e);
            },
        };
        let x: T = match self.get_val::<T>(l) {
            Ok(v) => v,
            Err(e) => {
                return Err(e);
            },
        };
        let y: T = match self.get_val::<T>(rr) {
            Ok(v) => v,
            Err(e) => {
                return Err(e);
            },
        };
        self.set_val::<T>(l, x.bit_xor(y))
    }

    /// Runs the bitwise `not` on a one-operand group.
    fn exec_not<T: Bitwise>(&mut self, un: UnOp) -> (r: Result<(), ExecutionError>)
        ensures
            (final(self)@.mem, r) == old(self)@.not_un::<T>(un),
            final(self)@ == (VmView { mem: final(self)@.mem, ..old(self)@ }),
            old(self).wf() ==> final(self).wf(),
    {
        let l = match self.read_un_operand(un) {
            Ok(v) => v,
            Err(e) => {
                return Err(e);
            },
        };
        let x: T = match self.get_val::<T>(l) {
            Ok(v) => v,
            Err(e) => {
                return Err(e);
            },
        };
        self.set_val::<T>(l, x.bit_not())
    }

    /// Runs `neg` on a one-operand group under the given mode.
    fn exec_neg<T: Neg, U: Neg>(&mut self, un: UnOp, mode: ArithmeticMode) -> (r: Result<
        (),
        ExecutionError,
    >)
        ensures
            (final(self)@.mem, r) == old(self)@.neg_un::<T, U>(un, mode),
            final(self)@ == (VmView { mem: final(self)@.mem, ..old(self)@ }),
            old(self).wf() ==> final(self).wf(),
    {
        let l = match self.read_un_operand(un) {
            Ok(v) => v,
            Err(e) => {
                return Err(e);
            },
        };
        let x: T = match self.get_val::<T>(l) {
            Ok(v) => v,
            Err(e) => {
                return Err(e);
            },
        };
        match mode {
            ArithmeticMode::Wrap => self.set_val::<T>(l, Neg::wrapping(x)),
            ArithmeticMode::Sat => self.set_val::<T>(l, Neg::saturating(x)),
            ArithmeticMode::Wide => self.set_val::<U>(
                l,
                Neg::wrapping(<U as Convert<T>>::convert(x)),
            ),
            ArithmeticMode::Hand => match Neg::checked(x) {
                Some(s) => self.set_val::<T>(l, s),
                None => Err(ExecutionError::OperationOverflow),
            },
        }
    }

    /// Runs `inc` on a one-operand group under the given mode.
    fn exec_inc<T: Inc, U: Inc>(&mut self, un: UnOp, mode: ArithmeticMode) -> (r: Result<
        (),
        ExecutionError,
    >)
        ensures
            (final(self)@.mem, r) == old(self)@.inc_un::<T, U>(un, mode),
            final(self)@ == (VmView { mem: final(self)@.mem, ..old(self)@ }),
            old(self).wf() ==> final(self).wf(),
    {
        let l = match self.read_un_operand(un) {
            Ok(v) => v,
            Err(e) => {
                return Err(e);
            },
        };
        let x: T = match self.get_val::<T>(l) {
            Ok(v) => v,
            Err(e) => {
                return Err(e);
            },
        };
        match mode {
            ArithmeticMode::Wrap => self.set_val::<T>(l, Inc::wrapping(x)),
            ArithmeticMode::Sat => self.set_val::<T>(l, Inc::saturating(x)),
            ArithmeticMode::Wide => self.set_val::<U>(
                l,
                Inc::wrapping(<U as Convert<T>>::convert(x)),
            ),
            ArithmeticMode::Hand => match Inc::checked(x) {
                Some(s) => self.set_val::<T>(l, s),
                None => Err(ExecutionError::OperationOverflow),
            },
        }
    }

    /// Runs `dec` on a one-operand group under the given mode.
    fn exec_dec<T: Dec, U: Dec>(&mut self, un: UnOp, mode: ArithmeticMode) -> (r: Result<
        (),
        ExecutionError,
    >)
        ensures
            (final(self)@.mem, r) == old(self)@.dec_un::<T, U>(un, mode),
            final(self)@ == (VmView { mem: final(self)@.mem, ..old(self)@ }),
            old(self).wf() ==> final(self).wf(),
    {
        let l = match self.read_un_operand(un) {
            Ok(v) => v,
            Err(e) => {
                return Err(e);
            },
        };
        let x: T = match self.get_val::<T>(l) {
            Ok(v) => v,
            Err(e) => {
                return Err(e);
            },
        };
        match mode {
            ArithmeticMode::Wrap => self.set_val::<T>(l, Dec::wrapping(x)),
            ArithmeticMode::Sat => self.set_val::<T>(l, Dec::saturating(x)),
            ArithmeticMode::Wide => self.set_val::<U>(
                l,
                Dec::wrapping(<U as Convert<T>>::convert(x)),
            ),
            ArithmeticMode::Hand => match Dec::checked(x) {
                Some(s) => self.set_val::<T>(l, s),
                None => Err(ExecutionError::OperationOverflow),
            },
        }
    }

    /// Runs `shl`: shifts the first operand by the count at the
    /// second.
    fn exec_shl<T: Shl>(&mut self, x: Operand, y: Operand) -> (r: Result<(), ExecutionError>)
        ensures
            (final(self)@.mem, r) == old(self)@.shl_op::<T>(x, y),
            final(self)@ == (VmView { mem: final(self)@.mem, ..old(self)@ }),
            old(self).wf() ==> final(self).wf(),
    {
        let xv: T = match self.get_val::<T>(x) {
            Ok(v) => v,
            Err(e) => {
                return Err(e);
            },
        };
        let yv: u8 = match self.get_val::<u8>(y) {
            Ok(v) => v,
            Err(e) => {
                return Err(e);
            },
        };
        self.set_val::<T>(x, Shl::wrapping(xv, yv))
    }

    /// Runs `shr`: shifts the first operand by the count at the
    /// second.
    fn exec_shr<T: Shr>(&mut self, x: Operand, y: Operand) -> (r: Result<(), ExecutionError>)
        ensures
            (final(self)@.mem, r) == old(self)@.shr_op::<T>(x, y),
            final(self)@ == (VmView { mem: final(self)@.mem, ..old(self)@ }),
            old(self).wf() ==> final(self).wf(),
    {
        let xv: T = match self.get_val::<T>(x) {
            Ok(v) => v,
            Err(e) => {
                return Err(e);
            },
        };
        let yv: u8 = match self.get_val::<u8>(y) {
            Ok(v) => v,
            Err(e) => {
                return Err(e);
            },
        };
        self.set_val::<T>(x, Shr::wrapping(xv, yv))
    }

    /// Runs `Cnv`: reads at the source type, writes the numeric value
    /// at the target type.
    fn exec_cnv<T: Primary, U: Primary>(&mut self, x: Operand, y: Operand) -> (r: Result<
        (),
        ExecutionError,
    >)
        ensures
            (final(self)@.mem, r) == old(self)@.cnv_op::<T, U>(x, y),
            final(self)@ == (VmView { mem: final(self)@.mem, ..old(self)@ }),
            old(self).wf() ==> final(self).wf(),
    {
        let v: T = match self.get_val::<T>(y) {
            Ok(v) => v,
            Err(e) => {
                return Err(e);
            },
        };
        self.set_val::<U>(x, <U as Convert<T>>::convert(v))
    }

    /// Reads both comparison operands at one type.
    fn bin_vals<T: Primary>(&self, bin: BinOp) -> (r: Result<(T, T), ExecutionError>)
        ensures
            r == self@.bin_vals::<T>(bin),
    {
        let (l, rr) = match self.read_bin_operands(bin) {
            Ok(v) => v,
            Err(e) => {
                return Err(e);
            },
        };
        let x: T = match self.get_val::<T>(l) {
            Ok(v) => v,
            Err(e) => {
                return Err(e);
            },
        };
        match self.get_val::<T>(rr) {
            Ok(y) => Ok((x, y)),
            Err(e) => Err(e),
        }
    }

    /// Places one parameter at the end of the prepared frame; the
    /// parameter cursor advances whatever the mode does.
    fn exec_par<T: Primary>(&mut self, un: UnOp, mode: ParameterMode) -> (r: Result<
        (),
        ExecutionError,
    >)
        ensures
            (final(self)@.mem, final(self)@.param_ptr, r) == spec_par::<T>(old(self)@, un, mode),
            final(self)@ == (VmView {
                mem: final(self)@.mem,
                param_ptr: final(self)@.param_ptr,
                ..old(self)@
            }),
            old(self).wf() ==> final(self).wf(),
    {
        let c = match self.current_call() {
            Ok(c) => c,
            Err(e) => {
                return Err(e);
            },
        };
        let frame_size = c.function.frame_size;
        let parameter_loc = self.parameter_ptr.wrapping_add(frame_size);
        proof {
            T::lemma_size();
        }
        self.parameter_ptr = self.parameter_ptr.wrapping_add(T::size() as UWord);
        match mode {
            ParameterMode::Mov => {
                let val: T = match self.get_un::<T>(un) {
                    Ok(v) => v,
                    Err(e) => {
                        return Err(e);
                    },
                };
                self.set_val::<T>(Operand::Loc(parameter_loc), val)
            },
            ParameterMode::Emp => Ok(()),
            ParameterMode::Zer => self.set_val::<T>(Operand::Loc(parameter_loc), T::zero()),
        }
    }
}

/// The per-type reading of one instruction family.
pub open spec fn dispatch_add<'f>(v: VmView<'f>, b: BinOp, t: OpType, m: ArithmeticMode) -> (MemView, Result<(), ExecutionError>) {
    match t {
        OpType::U8 => v.add_bin::<u8, u16>(b, m),
        OpType::I8 => v.add_bin::<i8, i16>(b, m),
        OpType::U16 => v.add_bin::<u16, u32>(b, m),
        OpType::I16 => v.add_bin::<i16, i32>(b, m),
        OpType::U32 => v.add_bin::<u32, u64>(b, m),
        OpType::I32 => v.add_bin::<i32, i64>(b, m),
        OpType::U64 => v.add_bin::<u64, u128>(b, m),
        OpType::I64 => v.add_bin::<i64, i128>(b, m),
        OpType::Uw => v.add_bin::<u32, u32>(b, m),
        OpType::Iw => v.add_bin::<i32, i32>(b, m),
        _ => (v.mem, Err(v.incorrect())),
    }
}

/// The per-type reading of one instruction family.
pub open spec fn dispatch_sub<'f>(v: VmView<'f>, b: BinOp, t: OpType, m: ArithmeticMode) -> (MemView, Result<(), ExecutionError>) {
    match t {
        OpType::U8 => v.sub_bin::<u8, u16>(b, m),
        OpType::I8 => v.sub_bin::<i8, i16>(b, m),
        OpType::U16 => v.sub_bin::<u16, u32>(b, m),
        OpType::I16 => v.sub_bin::<i16, i32>(b, m),
        OpType::U32 => v.sub_bin::<u32, u64>(b, m),
        OpType::I32 => v.sub_bin::<i32, i64>(b, m),
        OpType::U64 => v.sub_bin::<u64, u128>(b, m),
        OpType::I64 => v.sub_bin::<i64, i128>(b, m),
        OpType::Uw => v.sub_bin::<u32, u32>(b, m),
        OpType::Iw => v.sub_bin::<i32, i32>(b, m),
        _ => (v.mem, Err(v.incorrect())),
    }
}

/// The per-type reading of one instruction family.
pub open spec fn dispatch_mul<'f>(v: VmView<'f>, b: BinOp, t: OpType, m: ArithmeticMode) -> (MemView, Result<(), ExecutionError>) {
    match t {
        OpType::U8 => v.mul_bin::<u8, u16>(b, m),
        OpType::I8 => v.mul_bin::<i8, i16>(b, m),
        OpType::U16 => v.mul_bin::<u16, u32>(b, m),
        OpType::I16 => v.mul_bin::<i16, i32>(b, m),
        OpType::U32 => v.mul_bin::<u32, u64>(b, m),
        OpType::I32 => v.mul_bin::<i32, i64>(b, m),
        OpType::U64 => v.mul_bin::<u64, u128>(b, m),
        OpType::I64 => v.mul_bin::<i64, i128>(b, m),
        OpType::Uw => v.mul_bin::<u32, u32>(b, m),
        OpType::Iw => v.mul_bin::<i32, i32>(b, m),
        _ => (v.mem, Err(v.incorrect())),
    }
}

/// The per-type reading of one instruction family.
pub open spec fn dispatch_div<'f>(v: VmView<'f>, b: BinOp, t: OpType) -> (MemView, Result<(), ExecutionError>) {
    match t {
        OpType::U8 => v.div_bin::<u8>(b),
        OpType::I8 => v.div_bin::<i8>(b),
        OpType::U16 => v.div_bin::<u16>(b),
        OpType::I16 => v.div_bin::<i16>(b),
        OpType::U32 => v.div_bin::<u32>(b),
        OpType::I32 => v.div_bin::<i32>(b),
        OpType::U64 => v.div_bin::<u64>(b),
        OpType::I64 => v.div_bin::<i64>(b),
        OpType::Uw => v.div_bin::<u32>(b),
        OpType::Iw => v.div_bin::<i32>(b),
        _ => (v.mem, Err(v.incorrect())),
    }
}

/// The per-type reading of one instruction family.
pub open spec fn dispatch_rem<'f>(v: VmView<'f>, b: BinOp, t: OpType) -> (MemView, Result<(), ExecutionError>) {
    match t {
        OpType::U8 => v.rem_bin::<u8>(b),
        OpType::I8 => v.rem_bin::<i8>(b),
        OpType::U16 => v.rem_bin::<u16>(b),
        OpType::I16 => v.rem_bin::<i16>(b),
        OpType::U32 => v.rem_bin::<u32>(b),
        OpType::I32 => v.rem_bin::<i32>(b),
        OpType::U64 => v.rem_bin::<u64>(b),
        OpType::I64 => v.rem_bin::<i64>(b),
        OpType::Uw => v.rem_bin::<u32>(b),
        OpType::Iw => v.rem_bin::<i32>(b),
        _ => (v.mem, Err(v.incorrect())),
    }
}

/// The per-type reading of a typed copy; the float types move as
/// their bit patterns.
pub open spec fn dispatch_mov<'f>(v: VmView<'f>, b: BinOp, t: OpType) -> (MemView, Result<(), ExecutionError>) {
    match t {
        OpType::U8 => v.mov_bin::<u8>(b),
        OpType::I8 => v.mov_bin::<i8>(b),
        OpType::U16 => v.mov_bin::<u16>(b),
        OpType::I16 => v.mov_bin::<i16>(b),
        OpType::U32 => v.mov_bin::<u32>(b),
        OpType::I32 => v.mov_bin::<i32>(b),
        OpType::U64 => v.mov_bin::<u64>(b),
        OpType::I64 => v.mov_bin::<i64>(b),
        OpType::Uw => v.mov_bin::<u32>(b),
        OpType::Iw => v.mov_bin::<i32>(b),
        OpType::F32 => v.mov_bin::<u32>(b),
        OpType::F64 => v.mov_bin::<u64>(b),
    }
}

/// The per-type reading of one instruction family.
pub open spec fn dispatch_and<'f>(v: VmView<'f>, b: BinOp, t: OpType) -> (MemView, Result<(), ExecutionError>) {
    match t {
        OpType::U8 => v.and_bin::<u8>(b),
        OpType::I8 => v.and_bin::<i8>(b),
        OpType::U16 => v.and_bin::<u16>(b),
        OpType::I16 => v.and_bin::<i16>(b),
        OpType::U32 => v.and_bin::<u32>(b),
        OpType::I32 => v.and_bin::<i32>(b),
        OpType::U64 => v.and_bin::<u64>(b),
        OpType::I64 => v.and_bin::<i64>(b),
        OpType::Uw => v.and_bin::<u32>(b),
        OpType::Iw => v.and_bin::<i32>(b),
        _ => (v.mem, Err(v.incorrect())),
    }
}

/// The per-type reading of one instruction family.
pub open spec fn dispatch_or<'f>(v: VmView<'f>, b: BinOp, t: OpType) -> (MemView, Result<(), ExecutionError>) {
    match t {
        OpType::U8 => v.or_bin::<u8>(b),
        OpType::I8 => v.or_bin::<i8>(b),
        OpType::U16 => v.or_bin::<u16>(b),
        OpType::I16 => v.or_bin::<i16>(b),
        OpType::U32 => v.or_bin::<u32>(b),
        OpType::I32 => v.or_bin::<i32>(b),
        OpType::U64 => v.or_bin::<u64>(b),
        OpType::I64 => v.or_bin::<i64>(b),
        OpType::Uw => v.or_bin::<u32>(b),
        OpType::Iw => v.or_bin::<i32>(b),
        _ => (v.mem, Err(v.incorrect())),
    }
}

/// The per-type reading of one instruction family.
pub open spec fn dispatch_xor<'f>(v: VmView<'f>, b: BinOp, t: OpType) -> (MemView, Result<(), ExecutionError>) {
    match t {
        OpType::U8 => v.xor_bin::<u8>(b),
        OpType::I8 => v.xor_bin::<i8>(b),
        OpType::U16 => v.xor_bin::<u16>(b),
        OpType::I16 => v.xor_bin::<i16>(b),
        OpType::U32 => v.xor_bin::<u32>(b),
        OpType::I32 => v.xor_bin::<i32>(b),
        OpType::U64 => v.xor_bin::<u64>(b),
        OpType::I64 => v.xor_bin::<i64>(b),
        OpType::Uw => v.xor_bin::<u32>(b),
        OpType::Iw => v.xor_bin::<i32>(b),
        _ => (v.mem, Err(v.incorrect())),
    }
}

/// The per-type reading of one instruction family.
pub open spec fn dispatch_not<'f>(v: VmView<'f>, u: UnOp, t: OpType) -> (MemView, Result<(), ExecutionError>) {
    match t {
        OpType::U8 => v.not_un::<u8>(u),
        OpType::I8 => v.not_un::<i8>(u),
        OpType::U16 => v.not_un::<u16>(u),
        OpType::I16 => v.not_un::<i16>(u),
        OpType::U32 => v.not_un::<u32>(u),
        OpType::I32 => v.not_un::<i32>(u),
        OpType::U64 => v.not_un::<u64>(u),
        OpType::I64 => v.not_un::<i64>(u),
        OpType::Uw => v.not_un::<u32>(u),
        OpType::Iw => v.not_un::<i32>(u),
        _ => (v.mem, Err(v.incorrect())),
    }
}

/// The per-type reading of one instruction family.
pub open spec fn dispatch_neg<'f>(v: VmView<'f>, u: UnOp, t: OpType, m: ArithmeticMode) -> (MemView, Result<(), ExecutionError>) {
    match t {
        OpType::U8 => v.neg_un::<u8, u16>(u, m),
        OpType::I8 => v.neg_un::<i8, i16>(u, m),
        OpType::U16 => v.neg_un::<u16, u32>(u, m),
        OpType::I16 => v.neg_un::<i16, i32>(u, m),
        OpType::U32 => v.neg_un::<u32, u64>(u, m),
        OpType::I32 => v.neg_un::<i32, i64>(u, m),
        OpType::U64 => v.neg_un::<u64, u128>(u, m),
        OpType::I64 => v.neg_un::<i64, i128>(u, m),
        OpType::Uw => v.neg_un::<u32, u32>(u, m),
        OpType::Iw => v.neg_un::<i32, i32>(u, m),
        _ => (v.mem, Err(v.incorrect())),
    }
}

/// The per-type reading of one instruction family.
pub open spec fn dispatch_inc<'f>(v: VmView<'f>, u: UnOp, t: OpType, m: ArithmeticMode) -> (MemView, Result<(), ExecutionError>) {
    match t {
        OpType::U8 => v.inc_un::<u8, u16>(u, m),
        OpType::I8 => v.inc_un::<i8, i16>(u, m),
        OpType::U16 => v.inc_un::<u16, u32>(u, m),
        OpType::I16 => v.inc_un::<i16, i32>(u, m),
        OpType::U32 => v.inc_un::<u32, u64>(u, m),
        OpType::I32 => v.inc_un::<i32, i64>(u, m),
        OpType::U64 => v.inc_un::<u64, u128>(u, m),
        OpType::I64 => v.inc_un::<i64, i128>(u, m),
        OpType::Uw => v.inc_un::<u32, u32>(u, m),
        OpType::Iw => v.inc_un::<i32, i32>(u, m),
        _ => (v.mem, Err(v.incorrect())),
    }
}

/// The per-type reading of one instruction family.
pub open spec fn dispatch_dec<'f>(v: VmView<'f>, u: UnOp, t: OpType, m: ArithmeticMode) -> (MemView, Result<(), ExecutionError>) {
    match t {
        OpType::U8 => v.dec_un::<u8, u16>(u, m),
        OpType::I8 => v.dec_un::<i8, i16>(u, m),
        OpType::U16 => v.dec_un::<u16, u32>(u, m),
        OpType::I16 => v.dec_un::<i16, i32>(u, m),
        OpType::U32 => v.dec_un::<u32, u64>(u, m),
        OpType::I32 => v.dec_un::<i32, i64>(u, m),
        OpType::U64 => v.dec_un::<u64, u128>(u, m),
        OpType::I64 => v.dec_un::<i64, i128>(u, m),
        OpType::Uw => v.dec_un::<u32, u32>(u, m),
        OpType::Iw => v.dec_un::<i32, i32>(u, m),
        _ => (v.mem, Err(v.incorrect())),
    }
}

/// The per-type reading of one instruction family.
pub open spec fn dispatch_shl<'f>(v: VmView<'f>, x: Operand, y: Operand, t: OpType) -> (MemView, Result<(), ExecutionError>) {
    match t {
        OpType::U8 => v.shl_op::<u8>(x, y),
        OpType::I8 => v.shl_op::<i8>(x, y),
        OpType::U16 => v.shl_op::<u16>(x, y),
        OpType::I16 => v.shl_op::<i16>(x, y),
        OpType::U32 => v.shl_op::<u32>(x, y),
        OpType::I32 => v.shl_op::<i32>(x, y),
        OpType::U64 => v.shl_op::<u64>(x, y),
        OpType::I64 => v.shl_op::<i64>(x, y),
        OpType::Uw => v.shl_op::<u32>(x, y),
        OpType::Iw => v.shl_op::<i32>(x, y),
        _ => (v.mem, Err(v.incorrect())),
    }
}

/// The per-type reading of one instruction family.
pub open spec fn dispatch_shr<'f>(v: VmView<'f>, x: Operand, y: Operand, t: OpType) -> (MemView, Result<(), ExecutionError>) {
    match t {
        OpType::U8 => v.shr_op::<u8>(x, y),
        OpType::I8 => v.shr_op::<i8>(x, y),
        OpType::U16 => v.shr_op::<u16>(x, y),
        OpType::I16 => v.shr_op::<i16>(x, y),
        OpType::U32 => v.shr_op::<u32>(x, y),
        OpType::I32 => v.shr_op::<i32>(x, y),
        OpType::U64 => v.shr_op::<u64>(x, y),
        OpType::I64 => v.shr_op::<i64>(x, y),
        OpType::Uw => v.shr_op::<u32>(x, y),
        OpType::Iw => v.shr_op::<i32>(x, y),
        _ => (v.mem, Err(v.incorrect())),
    }
}

/// The per-source-type reading of a conversion.
pub open spec fn cnv_from<'f, T: Primary>(v: VmView<'f>, x: Operand, y: Operand, u: OpType) -> (MemView, Result<(), ExecutionError>) {
    match u {
        OpType::U8 => v.cnv_op::<T, u8>(x, y),
        OpType::I8 => v.cnv_op::<T, i8>(x, y),
        OpType::U16 => v.cnv_op::<T, u16>(x, y),
        OpType::I16 => v.cnv_op::<T, i16>(x, y),
        OpType::U32 => v.cnv_op::<T, u32>(x, y),
        OpType::I32 => v.cnv_op::<T, i32>(x, y),
        OpType::U64 => v.cnv_op::<T, u64>(x, y),
        OpType::I64 => v.cnv_op::<T, i64>(x, y),
        OpType::Uw => v.cnv_op::<T, u32>(x, y),
        OpType::Iw => v.cnv_op::<T, i32>(x, y),
        _ => (v.mem, Err(v.incorrect())),
    }
}

/// The per-type reading of a conversion.
pub open spec fn dispatch_cnv<'f>(v: VmView<'f>, x: Operand, y: Operand, t: OpType, u: OpType) -> (MemView, Result<(), ExecutionError>) {
    match t {
        OpType::U8 => cnv_from::<u8>(v, x, y, u),
        OpType::I8 => cnv_from::<i8>(v, x, y, u),
        OpType::U16 => cnv_from::<u16>(v, x, y, u),
        OpType::I16 => cnv_from::<i16>(v, x, y, u),
        OpType::U32 => cnv_from::<u32>(v, x, y, u),
        OpType::I32 => cnv_from::<i32>(v, x, y, u),
        OpType::U64 => cnv_from::<u64>(v, x, y, u),
        OpType::I64 => cnv_from::<i64>(v, x, y, u),
        OpType::Uw => cnv_from::<u32>(v, x, y, u),
        OpType::Iw => cnv_from::<i32>(v, x, y, u),
        _ => (v.mem, Err(v.incorrect())),
    }
}

/// The per-type reading of a parameter placement; the float types
/// move as their bit patterns.
pub open spec fn dispatch_par<'f>(v: VmView<'f>, u: UnOp, t: OpType, m: ParameterMode) -> (MemView, UWord, Result<(), ExecutionError>) {
    match t {
        OpType::U8 => spec_par::<u8>(v, u, m),
        OpType::I8 => spec_par::<i8>(v, u, m),
        OpType::U16 => spec_par::<u16>(v, u, m),
        OpType::I16 => spec_par::<i16>(v, u, m),
        OpType::U32 => spec_par::<u32>(v, u, m),
        OpType::I32 => spec_par::<i32>(v, u, m),
        OpType::U64 => spec_par::<u64>(v, u, m),
        OpType::I64 => spec_par::<i64>(v, u, m),
        OpType::Uw => spec_par::<u32>(v, u, m),
        OpType::Iw => spec_par::<i32>(v, u, m),
        OpType::F32 => spec_par::<u32>(v, u, m),
        OpType::F64 => spec_par::<u64>(v, u, m),
    }
}

/// The per-type truth of one conditional family.
pub open spec fn dispatch_ife<'f>(v: VmView<'f>, b: BinOp, t: OpType) -> Result<bool, ExecutionError> {
    match t {
        OpType::U8 => match v.bin_vals::<u8>(b) {
            Err(e) => Err(e),
            Ok((x, y)) => Ok(x.as_le() == y.as_le()),
        },
        OpType::I8 => match v.bin_vals::<i8>(b) {
            Err(e) => Err(e),
            Ok((x, y)) => Ok(x.as_le() == y.as_le()),
        },
        OpType::U16 => match v.bin_vals::<u16>(b) {
            Err(e) => Err(e),
            Ok((x, y)) => Ok(x.as_le() == y.as_le()),
        },
        OpType::I16 => match v.bin_vals::<i16>(b) {
            Err(e) => Err(e),
            Ok((x, y)) => Ok(x.as_le() == y.as_le()),
        },
        OpType::U32 => match v.bin_vals::<u32>(b) {
            Err(e) => Err(e),
            Ok((x, y)) => Ok(x.as_le() == y.as_le()),
        },
        OpType::I32 => match v.bin_vals::<i32>(b) {
            Err(e) => Err(e),
            Ok((x, y)) => Ok(x.as_le() == y.as_le()),
        },
        OpType::U64 => match v.bin_vals::<u64>(b) {
            Err(e) => Err(e),
            Ok((x, y)) => Ok(x.as_le() == y.as_le()),
        },
        OpType::I64 => match v.bin_vals::<i64>(b) {
            Err(e) => Err(e),
            Ok((x, y)) => Ok(x.as_le() == y.as_le()),
        },
        OpType::Uw => match v.bin_vals::<u32>(b) {
            Err(e) => Err(e),
            Ok((x, y)) => Ok(x.as_le() == y.as_le()),
        },
        OpType::Iw => match v.bin_vals::<i32>(b) {
            Err(e) => Err(e),
            Ok((x, y)) => Ok(x.as_le() == y.as_le()),
        },
        _ => Err(v.incorrect()),
    }
}

/// The per-type truth of one conditional family.
pub open spec fn dispatch_ine<'f>(v: VmView<'f>, b: BinOp, t: OpType) -> Result<bool, ExecutionError> {
    match t {
        OpType::U8 => match v.bin_vals::<u8>(b) {
            Err(e) => Err(e),
            Ok((x, y)) => Ok(x.as_le() != y.as_le()),
        },
        OpType::I8 => match v.bin_vals::<i8>(b) {
            Err(e) => Err(e),
            Ok((x, y)) => Ok(x.as_le() != y.as_le()),
        },
        OpType::U16 => match v.bin_vals::<u16>(b) {
            Err(e) => Err(e),
            Ok((x, y)) => Ok(x.as_le() != y.as_le()),
        },
        OpType::I16 => match v.bin_vals::<i16>(b) {
            Err(e) => Err(e),
            Ok((x, y)) => Ok(x.as_le() != y.as_le()),
        },
        OpType::U32 => match v.bin_vals::<u32>(b) {
            Err(e) => Err(e),
            Ok((x, y)) => Ok(x.as_le() != y.as_le()),
        },
        OpType::I32 => match v.bin_vals::<i32>(b) {
            Err(e) => Err(e),
            Ok((x, y)) => Ok(x.as_le() != y.as_le()),
        },
        OpType::U64 => match v.bin_vals::<u64>(b) {
            Err(e) => Err(e),
            Ok((x, y)) => Ok(x.as_le() != y.as_le()),
        },
        OpType::I64 => match v.bin_vals::<i64>(b) {
            Err(e) => Err(e),
            Ok((x, y)) => Ok(x.as_le() != y.as_le()),
        },
        OpType::Uw => match v.bin_vals::<u32>(b) {
            Err(e) => Err(e),
            Ok((x, y)) => Ok(x.as_le() != y.as_le()),
        },
        OpType::Iw => match v.bin_vals::<i32>(b) {
            Err(e) => Err(e),
            Ok((x, y)) => Ok(x.as_le() != y.as_le()),
        },
        _ => Err(v.incorrect()),
    }
}

/// The per-type truth of one conditional family.
pub open spec fn dispatch_ifl<'f>(v: VmView<'f>, b: BinOp, t: OpType) -> Result<bool, ExecutionError> {
    match t {
        OpType::U8 => match v.bin_vals::<u8>(b) {
            Err(e) => Err(e),
            Ok((x, y)) => Ok(x.as_int() < y.as_int()),
        },
        OpType::I8 => match v.bin_vals::<i8>(b) {
            Err(e) => Err(e),
            Ok((x, y)) => Ok(x.as_int() < y.as_int()),
        },
        OpType::U16 => match v.bin_vals::<u16>(b) {
            Err(e) => Err(e),
            Ok((x, y)) => Ok(x.as_int() < y.as_int()),
        },
        OpType::I16 => match v.bin_vals::<i16>(b) {
            Err(e) => Err(e),
            Ok((x, y)) => Ok(x.as_int() < y.as_int()),
        },
        OpType::U32 => match v.bin_vals::<u32>(b) {
            Err(e) => Err(e),
            Ok((x, y)) => Ok(x.as_int() < y.as_int()),
        },
        OpType::I32 => match v.bin_vals::<i32>(b) {
            Err(e) => Err(e),
            Ok((x, y)) => Ok(x.as_int() < y.as_int()),
        },
        OpType::U64 => match v.bin_vals::<u64>(b) {
            Err(e) => Err(e),
            Ok((x, y)) => Ok(x.as_int() < y.as_int()),
        },
        OpType::I64 => match v.bin_vals::<i64>(b) {
            Err(e) => Err(e),
            Ok((x, y)) => Ok(x.as_int() < y.as_int()),
        },
        OpType::Uw => match v.bin_vals::<u32>(b) {
            Err(e) => Err(e),
            Ok((x, y)) => Ok(x.as_int() < y.as_int()),
        },
        OpType::Iw => match v.bin_vals::<i32>(b) {
            Err(e) => Err(e),
            Ok((x, y)) => Ok(x.as_int() < y.as_int()),
        },
        _ => Err(v.incorrect()),
    }
}

/// The per-type truth of one conditional family.
pub open spec fn dispatch_ifg<'f>(v: VmView<'f>, b: BinOp, t: OpType) -> Result<bool, ExecutionError> {
    match t {
        OpType::U8 => match v.bin_vals::<u8>(b) {
            Err(e) => Err(e),
            Ok((x, y)) => Ok(y.as_int() < x.as_int()),
        },
        OpType::I8 => match v.bin_vals::<i8>(b) {
            Err(e) => Err(e),
            Ok((x, y)) => Ok(y.as_int() < x.as_int()),
        },
        OpType::U16 => match v.bin_vals::<u16>(b) {
            Err(e) => Err(e),
            Ok((x, y)) => Ok(y.as_int() < x.as_int()),
        },
        OpType::I16 => match v.bin_vals::<i16>(b) {
            Err(e) => Err(e),
            Ok((x, y)) => Ok(y.as_int() < x.as_int()),
        },
        OpType::U32 => match v.bin_vals::<u32>(b) {
            Err(e) => Err(e),
            Ok((x, y)) => Ok(y.as_int() < x.as_int()),
        },
        OpType::I32 => match v.bin_vals::<i32>(b) {
            Err(e) => Err(e),
            Ok((x, y)) => Ok(y.as_int() < x.as_int()),
        },
        OpType::U64 => match v.bin_vals::<u64>(b) {
            Err(e) => Err(e),
            Ok((x, y)) => Ok(y.as_int() < x.as_int()),
        },
        OpType::I64 => match v.bin_vals::<i64>(b) {
            Err(e) => Err(e),
            Ok((x, y)) => Ok(y.as_int() < x.as_int()),
        },
        OpType::Uw => match v.bin_vals::<u32>(b) {
            Err(e) => Err(e),
            Ok((x, y)) => Ok(y.as_int() < x.as_int()),
        },
        OpType::Iw => match v.bin_vals::<i32>(b) {
            Err(e) => Err(e),
            Ok((x, y)) => Ok(y.as_int() < x.as_int()),
        },
        _ => Err(v.incorrect()),
    }
}

/// The per-type truth of one conditional family.
pub open spec fn dispatch_inl<'f>(v: VmView<'f>, b: BinOp, t: OpType) -> Result<bool, ExecutionError> {
    match t {
        OpType::U8 => match v.bin_vals::<u8>(b) {
            Err(e) => Err(e),
            Ok((x, y)) => Ok(!(x.as_int() < y.as_int())),
        },
        OpType::I8 => match v.bin_vals::<i8>(b) {
            Err(e) => Err(e),
            Ok((x, y)) => Ok(!(x.as_int() < y.as_int())),
        },
        OpType::U16 => match v.bin_vals::<u16>(b) {
            Err(e) => Err(e),
            Ok((x, y)) => Ok(!(x.as_int() < y.as_int())),
        },
        OpType::I16 => match v.bin_vals::<i16>(b) {
            Err(e) => Err(e),
            Ok((x, y)) => Ok(!(x.as_int() < y.as_int())),
        },
        OpType::U32 => match v.bin_vals::<u32>(b) {
            Err(e) => Err(e),
            Ok((x, y)) => Ok(!(x.as_int() < y.as_int())),
        },
        OpType::I32 => match v.bin_vals::<i32>(b) {
            Err(e) => Err(e),
            Ok((x, y)) => Ok(!(x.as_int() < y.as_int())),
        },
        OpType::U64 => match v.bin_vals::<u64>(b) {
            Err(e) => Err(e),
            Ok((x, y)) => Ok(!(x.as_int() < y.as_int())),
        },
        OpType::I64 => match v.bin_vals::<i64>(b) {
            Err(e) => Err(e),
            Ok((x, y)) => Ok(!(x.as_int() < y.as_int())),
        },
        OpType::Uw => match v.bin_vals::<u32>(b) {
            Err(e) => Err(e),
            Ok((x, y)) => Ok(!(x.as_int() < y.as_int())),
        },
        OpType::Iw => match v.bin_vals::<i32>(b) {
            Err(e) => Err(e),
            Ok((x, y)) => Ok(!(x.as_int() < y.as_int())),
        },
        _ => Err(v.incorrect()),
    }
}

/// The per-type truth of one conditional family.
pub open spec fn dispatch_ing<'f>(v: VmView<'f>, b: BinOp, t: OpType) -> Result<bool, ExecutionError> {
    match t {
        OpType::U8 => match v.bin_vals::<u8>(b) {
            Err(e) => Err(e),
            Ok((x, y)) => Ok(!(y.as_int() < x.as_int())),
        },
        OpType::I8 => match v.bin_vals::<i8>(b) {
            Err(e) => Err(e),
            Ok((x, y)) => Ok(!(y.as_int() < x.as_int())),
        },
        OpType::U16 => match v.bin_vals::<u16>(b) {
            Err(e) => Err(e),
            Ok((x, y)) => Ok(!(y.as_int() < x.as_int())),
        },
        OpType::I16 => match v.bin_vals::<i16>(b) {
            Err(e) => Err(e),
            Ok((x, y)) => Ok(!(y.as_int() < x.as_int())),
        },
        OpType::U32 => match v.bin_vals::<u32>(b) {
            Err(e) => Err(e),
            Ok((x, y)) => Ok(!(y.as_int() < x.as_int())),
        },
        OpType::I32 => match v.bin_vals::<i32>(b) {
            Err(e) => Err(e),
            Ok((x, y)) => Ok(!(y.as_int() < x.as_int())),
        },
        OpType::U64 => match v.bin_vals::<u64>(b) {
            Err(e) => Err(e),
            Ok((x, y)) => Ok(!(y.as_int() < x.as_int())),
        },
        OpType::I64 => match v.bin_vals::<i64>(b) {
            Err(e) => Err(e),
            Ok((x, y)) => Ok(!(y.as_int() < x.as_int())),
        },
        OpType::Uw => match v.bin_vals::<u32>(b) {
            Err(e) => Err(e),
            Ok((x, y)) => Ok(!(y.as_int() < x.as_int())),
        },
        OpType::Iw => match v.bin_vals::<i32>(b) {
            Err(e) => Err(e),
            Ok((x, y)) => Ok(!(y.as_int() < x.as_int())),
        },
        _ => Err(v.incorrect()),
    }
}

/// The per-type truth of one conditional family.
pub open spec fn dispatch_ifa<'f>(v: VmView<'f>, b: BinOp, t: OpType) -> Result<bool, ExecutionError> {
    match t {
        OpType::U8 => match v.bin_vals::<u8>(b) {
            Err(e) => Err(e),
            Ok((x, y)) => Ok(x.and_spec(y).as_le() != 0),
        },
        OpType::I8 => match v.bin_vals::<i8>(b) {
            Err(e) => Err(e),
            Ok((x, y)) => Ok(x.and_spec(y).as_le() != 0),
        },
        OpType::U16 => match v.bin_vals::<u16>(b) {
            Err(e) => Err(e),
            Ok((x, y)) => Ok(x.and_spec(y).as_le() != 0),
        },
        OpType::I16 => match v.bin_vals::<i16>(b) {
            Err(e) => Err(e),
            Ok((x, y)) => Ok(x.and_spec(y).as_le() != 0),
        },
        OpType::U32 => match v.bin_vals::<u32>(b) {
            Err(e) => Err(e),
            Ok((x, y)) => Ok(x.and_spec(y).as_le() != 0),
        },
        OpType::I32 => match v.bin_vals::<i32>(b) {
            Err(e) => Err(e),
            Ok((x, y)) => Ok(x.and_spec(y).as_le() != 0),
        },
        OpType::U64 => match v.bin_vals::<u64>(b) {
            Err(e) => Err(e),
            Ok((x, y)) => Ok(x.and_spec(y).as_le() != 0),
        },
        OpType::I64 => match v.bin_vals::<i64>(b) {
            Err(e) => Err(e),
            Ok((x, y)) => Ok(x.and_spec(y).as_le() != 0),
        },
        OpType::Uw => match v.bin_vals::<u32>(b) {
            Err(e) => Err(e),
            Ok((x, y)) => Ok(x.and_spec(y).as_le() != 0),
        },
        OpType::Iw => match v.bin_vals::<i32>(b) {
            Err(e) => Err(e),
            Ok((x, y)) => Ok(x.and_spec(y).as_le() != 0),
        },
        _ => Err(v.incorrect()),
    }
}

/// The per-type truth of one conditional family.
pub open spec fn dispatch_ifo<'f>(v: VmView<'f>, b: BinOp, t: OpType) -> Result<bool, ExecutionError> {
    match t {
        OpType::U8 => match v.bin_vals::<u8>(b) {
            Err(e) => Err(e),
            Ok((x, y)) => Ok(x.or_spec(y).as_le() != 0),
        },
        OpType::I8 => match v.bin_vals::<i8>(b) {
            Err(e) => Err(e),
            Ok((x, y)) => Ok(x.or_spec(y).as_le() != 0),
        },
        OpType::U16 => match v.bin_vals::<u16>(b) {
            Err(e) => Err(e),
            Ok((x, y)) => Ok(x.or_spec(y).as_le() != 0),
        },
        OpType::I16 => match v.bin_vals::<i16>(b) {
            Err(e) => Err(e),
            Ok((x, y)) => Ok(x.or_spec(y).as_le() != 0),
        },
        OpType::U32 => match v.bin_vals::<u32>(b) {
            Err(e) => Err(e),
            Ok((x, y)) => Ok(x.or_spec(y).as_le() != 0),
        },
        OpType::I32 => match v.bin_vals::<i32>(b) {
            Err(e) => Err(e),
            Ok((x, y)) => Ok(x.or_spec(y).as_le() != 0),
        },
        OpType::U64 => match v.bin_vals::<u64>(b) {
            Err(e) => Err(e),
            Ok((x, y)) => Ok(x.or_spec(y).as_le() != 0),
        },
        OpType::I64 => match v.bin_vals::<i64>(b) {
            Err(e) => Err(e),
            Ok((x, y)) => Ok(x.or_spec(y).as_le() != 0),
        },
        OpType::Uw => match v.bin_vals::<u32>(b) {
            Err(e) => Err(e),
            Ok((x, y)) => Ok(x.or_spec(y).as_le() != 0),
        },
        OpType::Iw => match v.bin_vals::<i32>(b) {
            Err(e) => Err(e),
            Ok((x, y)) => Ok(x.or_spec(y).as_le() != 0),
        },
        _ => Err(v.incorrect()),
    }
}

/// The per-type truth of one conditional family.
pub open spec fn dispatch_ifx<'f>(v: VmView<'f>, b: BinOp, t: OpType) -> Result<bool, ExecutionError> {
    match t {
        OpType::U8 => match v.bin_vals::<u8>(b) {
            Err(e) => Err(e),
            Ok((x, y)) => Ok(x.xor_spec(y).as_le() != 0),
        },
        OpType::I8 => match v.bin_vals::<i8>(b) {
            Err(e) => Err(e),
            Ok((x, y)) => Ok(x.xor_spec(y).as_le() != 0),
        },
        OpType::U16 => match v.bin_vals::<u16>(b) {
            Err(e) => Err(e),
            Ok((x, y)) => Ok(x.xor_spec(y).as_le() != 0),
        },
        OpType::I16 => match v.bin_vals::<i16>(b) {
            Err(e) => Err(e),
            Ok((x, y)) => Ok(x.xor_spec(y).as_le() != 0),
        },
        OpType::U32 => match v.bin_vals::<u32>(b) {
            Err(e) => Err(e),
            Ok((x, y)) => Ok(x.xor_spec(y).as_le() != 0),
        },
        OpType::I32 => match v.bin_vals::<i32>(b) {
            Err(e) => Err(e),
            Ok((x, y)) => Ok(x.xor_spec(y).as_le() != 0),
        },
        OpType::U64 => match v.bin_vals::<u64>(b) {
            Err(e) => Err(e),
            Ok((x, y)) => Ok(x.xor_spec(y).as_le() != 0),
        },
        OpType::I64 => match v.bin_vals::<i64>(b) {
            Err(e) => Err(e),
            Ok((x, y)) => Ok(x.xor_spec(y).as_le() != 0),
        },
        OpType::Uw => match v.bin_vals::<u32>(b) {
            Err(e) => Err(e),
            Ok((x, y)) => Ok(x.xor_spec(y).as_le() != 0),
        },
        OpType::Iw => match v.bin_vals::<i32>(b) {
            Err(e) => Err(e),
            Ok((x, y)) => Ok(x.xor_spec(y).as_le() != 0),
        },
        _ => Err(v.incorrect()),
    }
}

/// The per-type truth of one conditional family.
pub open spec fn dispatch_ina<'f>(v: VmView<'f>, b: BinOp, t: OpType) -> Result<bool, ExecutionError> {
    match t {
        OpType::U8 => match v.bin_vals::<u8>(b) {
            Err(e) => Err(e),
            Ok((x, y)) => Ok(x.and_spec(y).as_le() == 0),
        },
        OpType::I8 => match v.bin_vals::<i8>(b) {
            Err(e) => Err(e),
            Ok((x, y)) => Ok(x.and_spec(y).as_le() == 0),
        },
        OpType::U16 => match v.bin_vals::<u16>(b) {
            Err(e) => Err(e),
            Ok((x, y)) => Ok(x.and_spec(y).as_le() == 0),
        },
        OpType::I16 => match v.bin_vals::<i16>(b) {
            Err(e) => Err(e),
            Ok((x, y)) => Ok(x.and_spec(y).as_le() == 0),
        },
        OpType::U32 => match v.bin_vals::<u32>(b) {
            Err(e) => Err(e),
            Ok((x, y)) => Ok(x.and_spec(y).as_le() == 0),
        },
        OpType::I32 => match v.bin_vals::<i32>(b) {
            Err(e) => Err(e),
            Ok((x, y)) => Ok(x.and_spec(y).as_le() == 0),
        },
        OpType::U64 => match v.bin_vals::<u64>(b) {
            Err(e) => Err(e),
            Ok((x, y)) => Ok(x.and_spec(y).as_le() == 0),
        },
        OpType::I64 => match v.bin_vals::<i64>(b) {
            Err(e) => Err(e),
            Ok((x, y)) => Ok(x.and_spec(y).as_le() == 0),
        },
        OpType::Uw => match v.bin_vals::<u32>(b) {
            Err(e) => Err(e),
            Ok((x, y)) => Ok(x.and_spec(y).as_le() == 0),
        },
        OpType::Iw => match v.bin_vals::<i32>(b) {
            Err(e) => Err(e),
            Ok((x, y)) => Ok(x.and_spec(y).as_le() == 0),
        },
        _ => Err(v.incorrect()),
    }
}

/// The per-type truth of one conditional family.
pub open spec fn dispatch_ino<'f>(v: VmView<'f>, b: BinOp, t: OpType) -> Result<bool, ExecutionError> {
    match t {
        OpType::U8 => match v.bin_vals::<u8>(b) {
            Err(e) => Err(e),
            Ok((x, y)) => Ok(x.or_spec(y).as_le() == 0),
        },
        OpType::I8 => match v.bin_vals::<i8>(b) {
            Err(e) => Err(e),
            Ok((x, y)) => Ok(x.or_spec(y).as_le() == 0),
        },
        OpType::U16 => match v.bin_vals::<u16>(b) {
            Err(e) => Err(e),
            Ok((x, y)) => Ok(x.or_spec(y).as_le() == 0),
        },
        OpType::I16 => match v.bin_vals::<i16>(b) {
            Err(e) => Err(e),
            Ok((x, y)) => Ok(x.or_spec(y).as_le() == 0),
        },
        OpType::U32 => match v.bin_vals::<u32>(b) {
            Err(e) => Err(e),
            Ok((x, y)) => Ok(x.or_spec(y).as_le() == 0),
        },
        OpType::I32 => match v.bin_vals::<i32>(b) {
            Err(e) => Err(e),
            Ok((x, y)) => Ok(x.or_spec(y).as_le() == 0),
        },
        OpType::U64 => match v.bin_vals::<u64>(b) {
            Err(e) => Err(e),
            Ok((x, y)) => Ok(x.or_spec(y).as_le() == 0),
        },
        OpType::I64 => match v.bin_vals::<i64>(b) {
            Err(e) => Err(e),
            Ok((x, y)) => Ok(x.or_spec(y).as_le() == 0),
        },
        OpType::Uw => match v.bin_vals::<u32>(b) {
            Err(e) => Err(e),
            Ok((x, y)) => Ok(x.or_spec(y).as_le() == 0),
        },
        OpType::Iw => match v.bin_vals::<i32>(b) {
            Err(e) => Err(e),
            Ok((x, y)) => Ok(x.or_spec(y).as_le() == 0),
        },
        _ => Err(v.incorrect()),
    }
}

/// The per-type truth of one conditional family.
pub open spec fn dispatch_inx<'f>(v: VmView<'f>, b: BinOp, t: OpType) -> Result<bool, ExecutionError> {
    match t {
        OpType::U8 => match v.bin_vals::<u8>(b) {
            Err(e) => Err(e),
            Ok((x, y)) => Ok(x.xor_spec(y).as_le() == 0),
        },
        OpType::I8 => match v.bin_vals::<i8>(b) {
            Err(e) => Err(e),
            Ok((x, y)) => Ok(x.xor_spec(y).as_le() == 0),
        },
        OpType::U16 => match v.bin_vals::<u16>(b) {
            Err(e) => Err(e),
            Ok((x, y)) => Ok(x.xor_spec(y).as_le() == 0),
        },
        OpType::I16 => match v.bin_vals::<i16>(b) {
            Err(e) => Err(e),
            Ok((x, y)) => Ok(x.xor_spec(y).as_le() == 0),
        },
        OpType::U32 => match v.bin_vals::<u32>(b) {
            Err(e) => Err(e),
            Ok((x, y)) => Ok(x.xor_spec(y).as_le() == 0),
        },
        OpType::I32 => match v.bin_vals::<i32>(b) {
            Err(e) => Err(e),
            Ok((x, y)) => Ok(x.xor_spec(y).as_le() == 0),
        },
        OpType::U64 => match v.bin_vals::<u64>(b) {
            Err(e) => Err(e),
            Ok((x, y)) => Ok(x.xor_spec(y).as_le() == 0),
        },
        OpType::I64 => match v.bin_vals::<i64>(b) {
            Err(e) => Err(e),
            Ok((x, y)) => Ok(x.xor_spec(y).as_le() == 0),
        },
        OpType::Uw => match v.bin_vals::<u32>(b) {
            Err(e) => Err(e),
            Ok((x, y)) => Ok(x.xor_spec(y).as_le() == 0),
        },
        OpType::Iw => match v.bin_vals::<i32>(b) {
            Err(e) => Err(e),
            Ok((x, y)) => Ok(x.xor_spec(y).as_le() == 0),
        },
        _ => Err(v.incorrect()),
    }
}

/// The per-type truth of the zero test.
pub open spec fn dispatch_ift<'f>(v: VmView<'f>, u: UnOp, t: OpType) -> Result<bool, ExecutionError> {
    match t {
        OpType::U8 => match v.un_val::<u8>(u) {
            Err(e) => Err(e),
            Ok(x) => Ok(x.as_le() != 0),
        },
        OpType::I8 => match v.un_val::<i8>(u) {
            Err(e) => Err(e),
            Ok(x) => Ok(x.as_le() != 0),
        },
        OpType::U16 => match v.un_val::<u16>(u) {
            Err(e) => Err(e),
            Ok(x) => Ok(x.as_le() != 0),
        },
        OpType::I16 => match v.un_val::<i16>(u) {
            Err(e) => Err(e),
            Ok(x) => Ok(x.as_le() != 0),
        },
        OpType::U32 => match v.un_val::<u32>(u) {
            Err(e) => Err(e),
            Ok(x) => Ok(x.as_le() != 0),
        },
        OpType::I32 => match v.un_val::<i32>(u) {
            Err(e) => Err(e),
            Ok(x) => Ok(x.as_le() != 0),
        },
        OpType::U64 => match v.un_val::<u64>(u) {
            Err(e) => Err(e),
            Ok(x) => Ok(x.as_le() != 0),
        },
        OpType::I64 => match v.un_val::<i64>(u) {
            Err(e) => Err(e),
            Ok(x) => Ok(x.as_le() != 0),
        },
        OpType::Uw => match v.un_val::<u32>(u) {
            Err(e) => Err(e),
            Ok(x) => Ok(x.as_le() != 0),
        },
        OpType::Iw => match v.un_val::<i32>(u) {
            Err(e) => Err(e),
            Ok(x) => Ok(x.as_le() != 0),
        },
        _ => Err(v.incorrect()),
    }
}

/// The per-type truth of the zero test.
pub open spec fn dispatch_iff<'f>(v: VmView<'f>, u: UnOp, t: OpType) -> Result<bool, ExecutionError> {
    match t {
        OpType::U8 => match v.un_val::<u8>(u) {
            Err(e) => Err(e),
            Ok(x) => Ok(x.as_le() == 0),
        },
        OpType::I8 => match v.un_val::<i8>(u) {
            Err(e) => Err(e),
            Ok(x) => Ok(x.as_le() == 0),
        },
        OpType::U16 => match v.un_val::<u16>(u) {
            Err(e) => Err(e),
            Ok(x) => Ok(x.as_le() == 0),
        },
        OpType::I16 => match v.un_val::<i16>(u) {
            Err(e) => Err(e),
            Ok(x) => Ok(x.as_le() == 0),
        },
        OpType::U32 => match v.un_val::<u32>(u) {
            Err(e) => Err(e),
            Ok(x) => Ok(x.as_le() == 0),
        },
        OpType::I32 => match v.un_val::<i32>(u) {
            Err(e) => Err(e),
            Ok(x) => Ok(x.as_le() == 0),
        },
        OpType::U64 => match v.un_val::<u64>(u) {
            Err(e) => Err(e),
            Ok(x) => Ok(x.as_le() == 0),
        },
        OpType::I64 => match v.un_val::<i64>(u) {
            Err(e) => Err(e),
            Ok(x) => Ok(x.as_le() == 0),
        },
        OpType::Uw => match v.un_val::<u32>(u) {
            Err(e) => Err(e),
            Ok(x) => Ok(x.as_le() == 0),
        },
        OpType::Iw => match v.un_val::<i32>(u) {
            Err(e) => Err(e),
            Ok(x) => Ok(x.as_le() == 0),
        },
        _ => Err(v.incorrect()),
    }
}

/// How one instruction transforms the interpreter: the one-step
/// operational semantics.  Errors leave the program counter in place;
/// the file instructions are not interpreted by the plain stepper.
#[verifier::opaque]
pub open spec fn spec_step<'f>(v: VmView<'f>) -> (VmView<'f>, Executed) {
    match v.cur_op() {
        Err(e) => (v, Err(e)),
        Ok(op) => match op {
            Op::Nop => (v.advanced(), Ok(ExecutionSuccess::Ran)),
            Op::End(x) => match v.get_val::<UWord>(x) {
                Err(e) => (v, Err(e)),
                Ok(val) => (v.advanced(), Ok(ExecutionSuccess::End(val))),
            },
            Op::Slp(x) => match v.get_val::<UWord>(x) {
                Err(e) => (v, Err(e)),
                Ok(val) => (v.advanced(), Ok(ExecutionSuccess::Sleep(val))),
            },
            Op::Mov(b, t) => v.data_step(dispatch_mov(v, b, t)),
            Op::Cnv(x, y, t, u) => v.data_step(dispatch_cnv(v, x, y, t, u)),
            Op::Add(b, t, m) => v.data_step(dispatch_add(v, b, t, m)),
            Op::Sub(b, t, m) => v.data_step(dispatch_sub(v, b, t, m)),
            Op::Mul(b, t, m) => v.data_step(dispatch_mul(v, b, t, m)),
            Op::Div(b, t) => v.data_step(dispatch_div(v, b, t)),
            Op::Mod(b, t) => v.data_step(dispatch_rem(v, b, t)),
            Op::Shl(x, y, t) => v.data_step(dispatch_shl(v, x, y, t)),
            Op::Shr(x, y, t) => v.data_step(dispatch_shr(v, x, y, t)),
            Op::And(b, t) => v.data_step(dispatch_and(v, b, t)),
            Op::Or(b, t) => v.data_step(dispatch_or(v, b, t)),
            Op::Xor(b, t) => v.data_step(dispatch_xor(v, b, t)),
            Op::Not(u, t) => v.data_step(dispatch_not(v, u, t)),
            Op::Neg(u, t, m) => v.data_step(dispatch_neg(v, u, t, m)),
            Op::Inc(u, t, m) => v.data_step(dispatch_inc(v, u, t, m)),
            Op::Dec(u, t, m) => v.data_step(dispatch_dec(v, u, t, m)),
            Op::Go(x) => match v.get_val::<UWord>(x) {
                Err(e) => (v, Err(e)),
                Ok(d) => ((VmView { pc: d, ..v }), Ok(ExecutionSuccess::Ran)),
            },
            Op::Ift(u, t) => v.cond_step(dispatch_ift(v, u, t)),
            Op::Iff(u, t) => v.cond_step(dispatch_iff(v, u, t)),
            Op::Ife(b, t) => v.cond_step(dispatch_ife(v, b, t)),
            Op::Ifl(b, t) => v.cond_step(dispatch_ifl(v, b, t)),
            Op::Ifg(b, t) => v.cond_step(dispatch_ifg(v, b, t)),
            Op::Ine(b, t) => v.cond_step(dispatch_ine(v, b, t)),
            Op::Inl(b, t) => v.cond_step(dispatch_inl(v, b, t)),
            Op::Ing(b, t) => v.cond_step(dispatch_ing(v, b, t)),
            Op::Ifa(b, t) => v.cond_step(dispatch_ifa(v, b, t)),
            Op::Ifo(b, t) => v.cond_step(dispatch_ifo(v, b, t)),
            Op::Ifx(b, t) => v.cond_step(dispatch_ifx(v, b, t)),
            Op::Ina(b, t) => v.cond_step(dispatch_ina(v, b, t)),
            Op::Ino(b, t) => v.cond_step(dispatch_ino(v, b, t)),
            Op::Inx(b, t) => v.cond_step(dispatch_inx(v, b, t)),
            Op::App(x) => match v.get_val::<UWord>(x) {
                Err(e) => (v, Err(e)),
                Ok(fid) => {
                    let (v2, r) = spec_app(v, fid);
                    match r {
                        Ok(u) => (v2.advanced(), Ok(ExecutionSuccess::Ran)),
                        Err(e) => (v2, Err(e)),
                    }
                },
            },
            Op::Par(u, t, m) => {
                let (m2, pp2, r) = dispatch_par(v, u, t, m);
                let v2 = VmView { mem: m2, param_ptr: pp2, ..v };
                match r {
                    Ok(un) => (v2.advanced(), Ok(ExecutionSuccess::Ran)),
                    Err(e) => (v2, Err(e)),
                }
            },
            Op::Clf(x) => match v.get_val::<UWord>(x) {
                Err(e) => (v, Err(e)),
                Ok(ra) => {
                    let (v2, r) = spec_clf(v, ra);
                    match r {
                        Ok(un) => (v2, Ok(ExecutionSuccess::Ran)),
                        Err(e) => (v2, Err(e)),
                    }
                },
            },
            Op::Ret(u, t) => {
                let (v2, r) = spec_ret(v);
                match r {
                    Ok(un) => (v2, Ok(ExecutionSuccess::Ran)),
                    Err(e) => (v2, Err(e)),
                }
            },
            Op::In(b) => (v, Err(ExecutionError::IncorrectOperation(op))),
            Op::Out(u) => (v, Err(ExecutionError::IncorrectOperation(op))),
            Op::Fls => (v, Err(ExecutionError::IncorrectOperation(op))),
            Op::Sfd(x) => (v, Err(ExecutionError::IncorrectOperation(op))),
            Op::Gfd(x) => (v, Err(ExecutionError::IncorrectOperation(op))),
            Op::Zer(x, y) => match v.get_val::<UWord>(x) {
                Err(e) => (v, Err(e)),
                Ok(dest) => match v.get_val::<UWord>(y) {
                    Err(e) => (v, Err(e)),
                    Ok(size) => v.data_step(lift_mem_pair(v.mem.zero_fill(dest, size))),
                },
            },
            Op::Cmp(x, y, z) => match v.get_val::<UWord>(x) {
                Err(e) => (v, Err(e)),
                Ok(a) => match v.get_val::<UWord>(y) {
                    Err(e) => (v, Err(e)),
                    Ok(bb) => match v.get_val::<UWord>(z) {
                        Err(e) => (v, Err(e)),
                        Ok(size) => v.cond_step(lift_mem(v.mem.compare(a, bb, size))),
                    },
                },
            },
            Op::Cpy(x, y, z) => match v.get_val::<UWord>(x) {
                Err(e) => (v, Err(e)),
                Ok(dest) => match v.get_val::<UWord>(y) {
                    Err(e) => (v, Err(e)),
                    Ok(src) => match v.get_val::<UWord>(z) {
                        Err(e) => (v, Err(e)),
                        Ok(size) => v.data_step(lift_mem_pair(v.mem.copy(dest, src, size))),
                    },
                },
            },
        },
    }
}

impl<'f> Executor<'f> {

    /// One step of `Mov`.
    #[verifier::rlimit(100)]
    fn step_mov(&mut self, b: BinOp, t: OpType) -> (r: Executed)
        requires
            old(self)@.cur_op() == Ok::<Op, ExecutionError>(Op::Mov(b, t)),
            old(self).wf(),
        ensures
            (final(self)@, r) == spec_step(old(self)@),
            final(self).wf(),
    {
        let res = match t {
            OpType::U8 => self.exec_mov::<u8>(b),
            OpType::I8 => self.exec_mov::<i8>(b),
            OpType::U16 => self.exec_mov::<u16>(b),
            OpType::I16 => self.exec_mov::<i16>(b),
            OpType::U32 => self.exec_mov::<u32>(b),
            OpType::I32 => self.exec_mov::<i32>(b),
            OpType::U64 => self.exec_mov::<u64>(b),
            OpType::I64 => self.exec_mov::<i64>(b),
            OpType::Uw => self.exec_mov::<u32>(b),
            OpType::Iw => self.exec_mov::<i32>(b),
            OpType::F32 => self.exec_mov::<u32>(b),
            OpType::F64 => self.exec_mov::<u64>(b),
        };
        proof {
            reveal(spec_step);
        }
        match res {
            Ok(u) => {
                self.program_counter = self.program_counter.wrapping_add(1);
                proof {
                    assert(self@ =~= spec_step(old(self)@).0);
                }
                Ok(ExecutionSuccess::Ran)
            },
            Err(e) => {
                proof {
                    assert(self@ =~= spec_step(old(self)@).0);
                }
                Err(e)
            },
        }
    }

    /// One step of `Add`.
    #[verifier::rlimit(100)]
    fn step_add(&mut self, b: BinOp, t: OpType, m: ArithmeticMode) -> (r: Executed)
        requires
            old(self)@.cur_op() == Ok::<Op, ExecutionError>(Op::Add(b, t, m)),
            old(self).wf(),
        ensures
            (final(self)@, r) == spec_step(old(self)@),
            final(self).wf(),
    {
        let res = match t {
            OpType::U8 => self.exec_add::<u8, u16>(b, m),
            OpType::I8 => self.exec_add::<i8, i16>(b, m),
            OpType::U16 => self.exec_add::<u16, u32>(b, m),
            OpType::I16 => self.exec_add::<i16, i32>(b, m),
            OpType::U32 => self.exec_add::<u32, u64>(b, m),
            OpType::I32 => self.exec_add::<i32, i64>(b, m),
            OpType::U64 => self.exec_add::<u64, u128>(b, m),
            OpType::I64 => self.exec_add::<i64, i128>(b, m),
            OpType::Uw => self.exec_add::<u32, u32>(b, m),
            OpType::Iw => self.exec_add::<i32, i32>(b, m),
            OpType::F32 => Err(self.incorrect_here()),
            OpType::F64 => Err(self.incorrect_here()),
        };
        proof {
            reveal(spec_step);
        }
        match res {
            Ok(u) => {
                self.program_counter = self.program_counter.wrapping_add(1);
                proof {
                    assert(self@ =~= spec_step(old(self)@).0);
                }
                Ok(ExecutionSuccess::Ran)
            },
            Err(e) => {
                proof {
                    assert(self@ =~= spec_step(old(self)@).0);
                }
                Err(e)
            },
        }
    }

    /// One step of `Sub`.
    #[verifier::rlimit(100)]
    fn step_sub(&mut self, b: BinOp, t: OpType, m: ArithmeticMode) -> (r: Executed)
        requires
            old(self)@.cur_op() == Ok::<Op, ExecutionError>(Op::Sub(b, t, m)),
            old(self).wf(),
        ensures
            (final(self)@, r) == spec_step(old(self)@),
            final(self).wf(),
    {
        let res = match t {
            OpType::U8 => self.exec_sub::<u8, u16>(b, m),
            OpType::I8 => self.exec_sub::<i8, i16>(b, m),
            OpType::U16 => self.exec_sub::<u16, u32>(b, m),
            OpType::I16 => self.exec_sub::<i16, i32>(b, m),
            OpType::U32 => self.exec_sub::<u32, u64>(b, m),
            OpType::I32 => self.exec_sub::<i32, i64>(b, m),
            OpType::U64 => self.exec_sub::<u64, u128>(b, m),
            OpType::I64 => self.exec_sub::<i64, i128>(b, m),
            OpType::Uw => self.exec_sub::<u32, u32>(b, m),
            OpType::Iw => self.exec_sub::<i32, i32>(b, m),
            OpType::F32 => Err(self.incorrect_here()),
            OpType::F64 => Err(self.incorrect_here()),
        };
        proof {
            reveal(spec_step);
        }
        match res {
            Ok(u) => {
                self.program_counter = self.program_counter.wrapping_add(1);
                proof {
                    assert(self@ =~= spec_step(old(self)@).0);
                }
                Ok(ExecutionSuccess::Ran)
            },
            Err(e) => {
                proof {
                    assert(self@ =~= spec_step(old(self)@).0);
                }
                Err(e)
            },
        }
    }

    /// One step of `Mul`.
    #[verifier::rlimit(100)]
    fn step_mul(&mut self, b: BinOp, t: OpType, m: ArithmeticMode) -> (r: Executed)
        requires
            old(self)@.cur_op() == Ok::<Op, ExecutionError>(Op::Mul(b, t, m)),
            old(self).wf(),
        ensures
            (final(self)@, r) == spec_step(old(self)@),
            final(self).wf(),
    {
        let res = match t {
            OpType::U8 => self.exec_mul::<u8, u16>(b, m),
            OpType::I8 => self.exec_mul::<i8, i16>(b, m),
            OpType::U16 => self.exec_mul::<u16, u32>(b, m),
            OpType::I16 => self.exec_mul::<i16, i32>(b, m),
            OpType::U32 => self.exec_mul::<u32, u64>(b, m),
            OpType::I32 => self.exec_mul::<i32, i64>(b, m),
            OpType::U64 => self.exec_mul::<u64, u128>(b, m),
            OpType::I64 => self.exec_mul::<i64, i128>(b, m),
            OpType::Uw => self.exec_mul::<u32, u32>(b, m),
            OpType::Iw => self.exec_mul::<i32, i32>(b, m),
            OpType::F32 => Err(self.incorrect_here()),
            OpType::F64 => Err(self.incorrect_here()),
        };
        proof {
            reveal(spec_step);
        }
        match res {
            Ok(u) => {
                self.program_counter = self.program_counter.wrapping_add(1);
                proof {
                    assert(self@ =~= spec_step(old(self)@).0);
                }
                Ok(ExecutionSuccess::Ran)
            },
            Err(e) => {
                proof {
                    assert(self@ =~= spec_step(old(self)@).0);
                }
                Err(e)
            },
        }
    }

    /// One step of `Div`.
    #[verifier::rlimit(100)]
    fn step_div(&mut self, b: BinOp, t: OpType) -> (r: Executed)
        requires
            old(self)@.cur_op() == Ok::<Op, ExecutionError>(Op::Div(b, t)),
            old(self).wf(),
        ensures
            (final(self)@, r) == spec_step(old(self)@),
            final(self).wf(),
    {
        let res = match t {
            OpType::U8 => self.exec_div::<u8>(b),
            OpType::I8 => self.exec_div::<i8>(b),
            OpType::U16 => self.exec_div::<u16>(b),
            OpType::I16 => self.exec_div::<i16>(b),
            OpType::U32 => self.exec_div::<u32>(b),
            OpType::I32 => self.exec_div::<i32>(b),
            OpType::U64 => self.exec_div::<u64>(b),
            OpType::I64 => self.exec_div::<i64>(b),
            OpType::Uw => self.exec_div::<u32>(b),
            OpType::Iw => self.exec_div::<i32>(b),
            OpType::F32 => Err(self.incorrect_here()),
            OpType::F64 => Err(self.incorrect_here()),
        };
        proof {
            reveal(spec_step);
        }
        match res {
            Ok(u) => {
                self.program_counter = self.program_counter.wrapping_add(1);
                proof {
                    assert(self@ =~= spec_step(old(self)@).0);
                }
                Ok(ExecutionSuccess::Ran)
            },
            Err(e) => {
                proof {
                    assert(self@ =~= spec_step(old(self)@).0);
                }
                Err(e)
            },
        }
    }

    /// One step of `Mod`.
    #[verifier::rlimit(100)]
    fn step_rem(&mut self, b: BinOp, t: OpType) -> (r: Executed)
        requires
            old(self)@.cur_op() == Ok::<Op, ExecutionError>(Op::Mod(b, t)),
            old(self).wf(),
        ensures
            (final(self)@, r) == spec_step(old(self)@),
            final(self).wf(),
    {
        let res = match t {
            OpType::U8 => self.exec_rem::<u8>(b),
            OpType::I8 => self.exec_rem::<i8>(b),
            OpType::U16 => self.exec_rem::<u16>(b),
            OpType::I16 => self.exec_rem::<i16>(b),
            OpType::U32 => self.exec_rem::<u32>(b),
            OpType::I32 => self.exec_rem::<i32>(b),
            OpType::U64 => self.exec_rem::<u64>(b),
            OpType::I64 => self.exec_rem::<i64>(b),
            OpType::Uw => self.exec_rem::<u32>(b),
            OpType::Iw => self.exec_rem::<i32>(b),
            OpType::F32 => Err(self.incorrect_here()),
            OpType::F64 => Err(self.incorrect_here()),
        };
        proof {
            reveal(spec_step);
        }
        match res {
            Ok(u) => {
                self.program_counter = self.program_counter.wrapping_add(1);
                proof {
                    assert(self@ =~= spec_step(old(self)@).0);
                }
                Ok(ExecutionSuccess::Ran)
            },
            Err(e) => {
                proof {
                    assert(self@ =~= spec_step(old(self)@).0);
                }
                Err(e)
            },
        }
    }

    /// One step of `And`.
    #[verifier::rlimit(100)]
    fn step_and(&mut self, b: BinOp, t: OpType) -> (r: Executed)
        requires
            old(self)@.cur_op() == Ok::<Op, ExecutionError>(Op::And(b, t)),
            old(self).wf(),
        ensures
            (final(self)@, r) == spec_step(old(self)@),
            final(self).wf(),
    {
        let res = match t {
            OpType::U8 => self.exec_and::<u8>(b),
            OpType::I8 => self.exec_and::<i8>(b),
            OpType::U16 => self.exec_and::<u16>(b),
            OpType::I16 => self.exec_and::<i16>(b),
            OpType::U32 => self.exec_and::<u32>(b),
            OpType::I32 => self.exec_and::<i32>(b),
            OpType::U64 => self.exec_and::<u64>(b),
            OpType::I64 => self.exec_and::<i64>(b),
            OpType::Uw => self.exec_and::<u32>(b),
            OpType::Iw => self.exec_and::<i32>(b),
            OpType::F32 => Err(self.incorrect_here()),
            OpType::F64 => Err(self.incorrect_here()),
        };
        proof {
            reveal(spec_step);
        }
        match res {
            Ok(u) => {
                self.program_counter = self.program_counter.wrapping_add(1);
                proof {
                    assert(self@ =~= spec_step(old(self)@).0);
                }
                Ok(ExecutionSuccess::Ran)
            },
            Err(e) => {
                proof {
                    assert(self@ =~= spec_step(old(self)@).0);
                }
                Err(e)
            },
        }
    }

    /// One step of `Or`.
    #[verifier::rlimit(100)]
    fn step_or(&mut self, b: BinOp, t: OpType) -> (r: Executed)
        requires
            old(self)@.cur_op() == Ok::<Op, ExecutionError>(Op::Or(b, t)),
            old(self).wf(),
        ensures
            (final(self)@, r) == spec_step(old(self)@),
            final(self).wf(),
    {
        let res = match t {
            OpType::U8 => self.exec_or::<u8>(b),
            OpType::I8 => self.exec_or::<i8>(b),
            OpType::U16 => self.exec_or::<u16>(b),
            OpType::I16 => self.exec_or::<i16>(b),
            OpType::U32 => self.exec_or::<u32>(b),
            OpType::I32 => self.exec_or::<i32>(b),
            OpType::U64 => self.exec_or::<u64>(b),
            OpType::I64 => self.exec_or::<i64>(b),
            OpType::Uw => self.exec_or::<u32>(b),
            OpType::Iw => self.exec_or::<i32>(b),
            OpType::F32 => Err(self.incorrect_here()),
            OpType::F64 => Err(self.incorrect_here()),
        };
        proof {
            reveal(spec_step);
        }
        match res {
            Ok(u) => {
                self.program_counter = self.program_counter.wrapping_add(1);
                proof {
                    assert(self@ =~= spec_step(old(self)@).0);
                }
                Ok(ExecutionSuccess::Ran)
            },
            Err(e) => {
                proof {
                    assert(self@ =~= spec_step(old(self)@).0);
                }
                Err(e)
            },
        }
    }

    /// One step of `Xor`.
    #[verifier::rlimit(100)]
    fn step_xor(&mut self, b: BinOp, t: OpType) -> (r: Executed)
        requires
            old(self)@.cur_op() == Ok::<Op, ExecutionError>(Op::Xor(b, t)),
            old(self).wf(),
        ensures
            (final(self)@, r) == spec_step(old(self)@),
            final(self).wf(),
    {
        let res = match t {
            OpType::U8 => self.exec_xor::<u8>(b),
            OpType::I8 => self.exec_xor::<i8>(b),
            OpType::U16 => self.exec_xor::<u16>(b),
            OpType::I16 => self.exec_xor::<i16>(b),
            OpType::U32 => self.exec_xor::<u32>(b),
            OpType::I32 => self.exec_xor::<i32>(b),
            OpType::U64 => self.exec_xor::<u64>(b),
            OpType::I64 => self.exec_xor::<i64>(b),
            OpType::Uw => self.exec_xor::<u32>(b),
            OpType::Iw => self.exec_xor::<i32>(b),
            OpType::F32 => Err(self.incorrect_here()),
            OpType::F64 => Err(self.incorrect_here()),
        };
        proof {
            reveal(spec_step);
        }
        match res {
            Ok(u) => {
                self.program_counter = self.program_counter.wrapping_add(1);
                proof {
                    assert(self@ =~= spec_step(old(self)@).0);
                }
                Ok(ExecutionSuccess::Ran)
            },
            Err(e) => {
                proof {
                    assert(self@ =~= spec_step(old(self)@).0);
                }
                Err(e)
            },
        }
    }

    /// One step of `Not`.
    #[verifier::rlimit(100)]
    fn step_not(&mut self, u: UnOp, t: OpType) -> (r: Executed)
        requires
            old(self)@.cur_op() == Ok::<Op, ExecutionError>(Op::Not(u, t)),
            old(self).wf(),
        ensures
            (final(self)@, r) == spec_step(old(self)@),
            final(self).wf(),
    {
        let res = match t {
            OpType::U8 => self.exec_not::<u8>(u),
            OpType::I8 => self.exec_not::<i8>(u),
            OpType::U16 => self.exec_not::<u16>(u),
            OpType::I16 => self.exec_not::<i16>(u),
            OpType::U32 => self.exec_not::<u32>(u),
            OpType::I32 => self.exec_not::<i32>(u),
            OpType::U64 => self.exec_not::<u64>(u),
            OpType::I64 => self.exec_not::<i64>(u),
            OpType::Uw => self.exec_not::<u32>(u),
            OpType::Iw => self.exec_not::<i32>(u),
            OpType::F32 => Err(self.incorrect_here()),
            OpType::F64 => Err(self.incorrect_here()),
        };
        proof {
            reveal(spec_step);
        }
        match res {
            Ok(u) => {
                self.program_counter = self.program_counter.wrapping_add(1);
                proof {
                    assert(self@ =~= spec_step(old(self)@).0);
                }
                Ok(ExecutionSuccess::Ran)
            },
            Err(e) => {
                proof {
                    assert(self@ =~= spec_step(old(self)@).0);
                }
                Err(e)
            },
        }
    }

    /// One step of `Neg`.
    #[verifier::rlimit(100)]
    fn step_neg(&mut self, u: UnOp, t: OpType, m: ArithmeticMode) -> (r: Executed)
        requires
            old(self)@.cur_op() == Ok::<Op, ExecutionError>(Op::Neg(u, t, m)),
            old(self).wf(),
        ensures
            (final(self)@, r) == spec_step(old(self)@),
            final(self).wf(),
    {
        let res = match t {
            OpType::U8 => self.exec_neg::<u8, u16>(u, m),
            OpType::I8 => self.exec_neg::<i8, i16>(u, m),
            OpType::U16 => self.exec_neg::<u16, u32>(u, m),
            OpType::I16 => self.exec_neg::<i16, i32>(u, m),
            OpType::U32 => self.exec_neg::<u32, u64>(u, m),
            OpType::I32 => self.exec_neg::<i32, i64>(u, m),
            OpType::U64 => self.exec_neg::<u64, u128>(u, m),
            OpType::I64 => self.exec_neg::<i64, i128>(u, m),
            OpType::Uw => self.exec_neg::<u32, u32>(u, m),
            OpType::Iw => self.exec_neg::<i32, i32>(u, m),
            OpType::F32 => Err(self.incorrect_here()),
            OpType::F64 => Err(self.incorrect_here()),
        };
        proof {
            reveal(spec_step);
        }
        match res {
            Ok(u) => {
                self.program_counter = self.program_counter.wrapping_add(1);
                proof {
                    assert(self@ =~= spec_step(old(self)@).0);
                }
                Ok(ExecutionSuccess::Ran)
            },
            Err(e) => {
                proof {
                    assert(self@ =~= spec_step(old(self)@).0);
                }
                Err(e)
            },
        }
    }

    /// One step of `Inc`.
    #[verifier::rlimit(100)]
    fn step_inc(&mut self, u: UnOp, t: OpType, m: ArithmeticMode) -> (r: Executed)
        requires
            old(self)@.cur_op() == Ok::<Op, ExecutionError>(Op::Inc(u, t, m)),
            old(self).wf(),
        ensures
            (final(self)@, r) == spec_step(old(self)@),
            final(self).wf(),
    {
        let res = match t {
            OpType::U8 => self.exec_inc::<u8, u16>(u, m),
            OpType::I8 => self.exec_inc::<i8, i16>(u, m),
            OpType::U16 => self.exec_inc::<u16, u32>(u, m),
            OpType::I16 => self.exec_inc::<i16, i32>(u, m),
            OpType::U32 => self.exec_inc::<u32, u64>(u, m),
            OpType::I32 => self.exec_inc::<i32, i64>(u, m),
            OpType::U64 => self.exec_inc::<u64, u128>(u, m),
            OpType::I64 => self.exec_inc::<i64, i128>(u, m),
            OpType::Uw => self.exec_inc::<u32, u32>(u, m),
            OpType::Iw => self.exec_inc::<i32, i32>(u, m),
            OpType::F32 => Err(self.incorrect_here()),
            OpType::F64 => Err(self.incorrect_here()),
        };
        proof {
            reveal(spec_step);
        }
        match res {
            Ok(u) => {
                self.program_counter = self.program_counter.wrapping_add(1);
                proof {
                    assert(self@ =~= spec_step(old(self)@).0);
                }
                Ok(ExecutionSuccess::Ran)
            },
            Err(e) => {
                proof {
                    assert(self@ =~= spec_step(old(self)@).0);
                }
                Err(e)
            },
        }
    }

    /// One step of `Dec`.
    #[verifier::rlimit(100)]
    fn step_dec(&mut self, u: UnOp, t: OpType, m: ArithmeticMode) -> (r: Executed)
        requires
            old(self)@.cur_op() == Ok::<Op, ExecutionError>(Op::Dec(u, t, m)),
            old(self).wf(),
        ensures
            (final(self)@, r) == spec_step(old(self)@),
            final(self).wf(),
    {
        let res = match t {
            OpType::U8 => self.exec_dec::<u8, u16>(u, m),
            OpType::I8 => self.exec_dec::<i8, i16>(u, m),
            OpType::U16 => self.exec_dec::<u16, u32>(u, m),
            OpType::I16 => self.exec_dec::<i16, i32>(u, m),
            OpType::U32 => self.exec_dec::<u32, u64>(u, m),
            OpType::I32 => self.exec_dec::<i32, i64>(u, m),
            OpType::U64 => self.exec_dec::<u64, u128>(u, m),
            OpType::I64 => self.exec_dec::<i64, i128>(u, m),
            OpType::Uw => self.exec_dec::<u32, u32>(u, m),
            OpType::Iw => self.exec_dec::<i32, i32>(u, m),
            OpType::F32 => Err(self.incorrect_here()),
            OpType::F64 => Err(self.incorrect_here()),
        };
        proof {
            reveal(spec_step);
        }
        match res {
            Ok(u) => {
                self.program_counter = self.program_counter.wrapping_add(1);
                proof {
                    assert(self@ =~= spec_step(old(self)@).0);
                }
                Ok(ExecutionSuccess::Ran)
            },
            Err(e) => {
                proof {
                    assert(self@ =~= spec_step(old(self)@).0);
                }
                Err(e)
            },
        }
    }

    /// One step of `Shl`.
    #[verifier::rlimit(100)]
    fn step_shl(&mut self, x: Operand, y: Operand, t: OpType) -> (r: Executed)
        requires
            old(self)@.cur_op() == Ok::<Op, ExecutionError>(Op::Shl(x, y, t)),
            old(self).wf(),
        ensures
            (final(self)@, r) == spec_step(old(self)@),
            final(self).wf(),
    {
        let res = match t {
            OpType::U8 => self.exec_shl::<u8>(x, y),
            OpType::I8 => self.exec_shl::<i8>(x, y),
            OpType::U16 => self.exec_shl::<u16>(x, y),
            OpType::I16 => self.exec_shl::<i16>(x, y),
            OpType::U32 => self.exec_shl::<u32>(x, y),
            OpType::I32 => self.exec_shl::<i32>(x, y),
            OpType::U64 => self.exec_shl::<u64>(x, y),
            OpType::I64 => self.exec_shl::<i64>(x, y),
            OpType::Uw => self.exec_shl::<u32>(x, y),
            OpType::Iw => self.exec_shl::<i32>(x, y),
            OpType::F32 => Err(self.incorrect_here()),
            OpType::F64 => Err(self.incorrect_here()),
        };
        proof {
            reveal(spec_step);
        }
        match res {
            Ok(u) => {
                self.program_counter = self.program_counter.wrapping_add(1);
                proof {
                    assert(self@ =~= spec_step(old(self)@).0);
                }
                Ok(ExecutionSuccess::Ran)
            },
            Err(e) => {
                proof {
                    assert(self@ =~= spec_step(old(self)@).0);
                }
                Err(e)
            },
        }
    }

    /// One step of `Shr`.
    #[verifier::rlimit(100)]
    fn step_shr(&mut self, x: Operand, y: Operand, t: OpType) -> (r: Executed)
        requires
            old(self)@.cur_op() == Ok::<Op, ExecutionError>(Op::Shr(x, y, t)),
            old(self).wf(),
        ensures
            (final(self)@, r) == spec_step(old(self)@),
            final(self).wf(),
    {
        let res = match t {
            OpType::U8 => self.exec_shr::<u8>(x, y),
            OpType::I8 => self.exec_shr::<i8>(x, y),
            OpType::U16 => self.exec_shr::<u16>(x, y),
            OpType::I16 => self.exec_shr::<i16>(x, y),
            OpType::U32 => self.exec_shr::<u32>(x, y),
            OpType::I32 => self.exec_shr::<i32>(x, y),
            OpType::U64 => self.exec_shr::<u64>(x, y),
            OpType::I64 => self.exec_shr::<i64>(x, y),
            OpType::Uw => self.exec_shr::<u32>(x, y),
            OpType::Iw => self.exec_shr::<i32>(x, y),
            OpType::F32 => Err(self.incorrect_here()),
            OpType::F64 => Err(self.incorrect_here()),
        };
        proof {
            reveal(spec_step);
        }
        match res {
            Ok(u) => {
                self.program_counter = self.program_counter.wrapping_add(1);
                proof {
                    assert(self@ =~= spec_step(old(self)@).0);
                }
                Ok(ExecutionSuccess::Ran)
            },
            Err(e) => {
                proof {
                    assert(self@ =~= spec_step(old(self)@).0);
                }
                Err(e)
            },
        }
    }

    /// One conversion step from a known source type.
    #[verifier::rlimit(100)]
    fn cnv_from_exec<T: Primary>(&mut self, x: Operand, y: Operand, u: OpType) -> (r: Result<
        (),
        ExecutionError,
    >)
        ensures
            (final(self)@.mem, r) == cnv_from::<T>(old(self)@, x, y, u),
            final(self)@ == (VmView { mem: final(self)@.mem, ..old(self)@ }),
            old(self).wf() ==> final(self).wf(),
    {
        match u {
            OpType::U8 => self.exec_cnv::<T, u8>(x, y),
            OpType::I8 => self.exec_cnv::<T, i8>(x, y),
            OpType::U16 => self.exec_cnv::<T, u16>(x, y),
            OpType::I16 => self.exec_cnv::<T, i16>(x, y),
            OpType::U32 => self.exec_cnv::<T, u32>(x, y),
            OpType::I32 => self.exec_cnv::<T, i32>(x, y),
            OpType::U64 => self.exec_cnv::<T, u64>(x, y),
            OpType::I64 => self.exec_cnv::<T, i64>(x, y),
            OpType::Uw => self.exec_cnv::<T, u32>(x, y),
            OpType::Iw => self.exec_cnv::<T, i32>(x, y),
            _ => Err(self.incorrect_here()),
        }
    }

    /// One step of `Cnv`.
    #[verifier::rlimit(100)]
    fn step_cnv(&mut self, x: Operand, y: Operand, t: OpType, u: OpType) -> (r: Executed)
        requires
            old(self)@.cur_op() == Ok::<Op, ExecutionError>(Op::Cnv(x, y, t, u)),
            old(self).wf(),
        ensures
            (final(self)@, r) == spec_step(old(self)@),
            final(self).wf(),
    {
        let res = match t {
            OpType::U8 => self.cnv_from_exec::<u8>(x, y, u),
            OpType::I8 => self.cnv_from_exec::<i8>(x, y, u),
            OpType::U16 => self.cnv_from_exec::<u16>(x, y, u),
            OpType::I16 => self.cnv_from_exec::<i16>(x, y, u),
            OpType::U32 => self.cnv_from_exec::<u32>(x, y, u),
            OpType::I32 => self.cnv_from_exec::<i32>(x, y, u),
            OpType::U64 => self.cnv_from_exec::<u64>(x, y, u),
            OpType::I64 => self.cnv_from_exec::<i64>(x, y, u),
            OpType::Uw => self.cnv_from_exec::<u32>(x, y, u),
            OpType::Iw => self.cnv_from_exec::<i32>(x, y, u),
            OpType::F32 => Err(self.incorrect_here()),
            OpType::F64 => Err(self.incorrect_here()),
        };
        proof {
            reveal(spec_step);
        }
        match res {
            Ok(u) => {
                self.program_counter = self.program_counter.wrapping_add(1);
                proof {
                    assert(self@ =~= spec_step(old(self)@).0);
                }
                Ok(ExecutionSuccess::Ran)
            },
            Err(e) => {
                proof {
                    assert(self@ =~= spec_step(old(self)@).0);
                }
                Err(e)
            },
        }
    }

    /// One step of `Ife`.
    #[verifier::rlimit(100)]
    fn step_ife(&mut self, b: BinOp, t: OpType) -> (r: Executed)
        requires
            old(self)@.cur_op() == Ok::<Op, ExecutionError>(Op::Ife(b, t)),
            old(self).wf(),
        ensures
            (final(self)@, r) == spec_step(old(self)@),
            final(self).wf(),
    {
        let res: Result<bool, ExecutionError> = match t {
            OpType::U8 => match self.bin_vals::<u8>(b) {
                Ok(vv) => Ok({ let (x, y) = vv; x.eq_val(y) }),
                Err(e) => Err(e),
            },
            OpType::I8 => match self.bin_vals::<i8>(b) {
                Ok(vv) => Ok({ let (x, y) = vv; x.eq_val(y) }),
                Err(e) => Err(e),
            },
            OpType::U16 => match self.bin_vals::<u16>(b) {
                Ok(vv) => Ok({ let (x, y) = vv; x.eq_val(y) }),
                Err(e) => Err(e),
            },
            OpType::I16 => match self.bin_vals::<i16>(b) {
                Ok(vv) => Ok({ let (x, y) = vv; x.eq_val(y) }),
                Err(e) => Err(e),
            },
            OpType::U32 => match self.bin_vals::<u32>(b) {
                Ok(vv) => Ok({ let (x, y) = vv; x.eq_val(y) }),
                Err(e) => Err(e),
            },
            OpType::I32 => match self.bin_vals::<i32>(b) {
                Ok(vv) => Ok({ let (x, y) = vv; x.eq_val(y) }),
                Err(e) => Err(e),
            },
            OpType::U64 => match self.bin_vals::<u64>(b) {
                Ok(vv) => Ok({ let (x, y) = vv; x.eq_val(y) }),
                Err(e) => Err(e),
            },
            OpType::I64 => match self.bin_vals::<i64>(b) {
                Ok(vv) => Ok({ let (x, y) = vv; x.eq_val(y) }),
                Err(e) => Err(e),
            },
            OpType::Uw => match self.bin_vals::<u32>(b) {
                Ok(vv) => Ok({ let (x, y) = vv; x.eq_val(y) }),
                Err(e) => Err(e),
            },
            OpType::Iw => match self.bin_vals::<i32>(b) {
                Ok(vv) => Ok({ let (x, y) = vv; x.eq_val(y) }),
                Err(e) => Err(e),
            },
            _ => Err(self.incorrect_here()),
        };
        proof {
            reveal(spec_step);
        }
        match res {
            Err(e) => Err(e),
            Ok(true) => {
                self.program_counter = self.program_counter.wrapping_add(1);
                proof {
                    assert(self@ =~= spec_step(old(self)@).0);
                }
                Ok(ExecutionSuccess::Ran)
            },
            Ok(false) => {
                let pr = self.pass_condition();
                proof {
                    assert(self@ =~= spec_step(old(self)@).0);
                }
                match pr {
                    Ok(u) => Ok(ExecutionSuccess::Ran),
                    Err(e) => Err(e),
                }
            },
        }
    }

    /// One step of `Ine`.
    #[verifier::rlimit(100)]
    fn step_ine(&mut self, b: BinOp, t: OpType) -> (r: Executed)
        requires
            old(self)@.cur_op() == Ok::<Op, ExecutionError>(Op::Ine(b, t)),
            old(self).wf(),
        ensures
            (final(self)@, r) == spec_step(old(self)@),
            final(self).wf(),
    {
        let res: Result<bool, ExecutionError> = match t {
            OpType::U8 => match self.bin_vals::<u8>(b) {
                Ok(vv) => Ok({ let (x, y) = vv; !x.eq_val(y) }),
                Err(e) => Err(e),
            },
            OpType::I8 => match self.bin_vals::<i8>(b) {
                Ok(vv) => Ok({ let (x, y) = vv; !x.eq_val(y) }),
                Err(e) => Err(e),
            },
            OpType::U16 => match self.bin_vals::<u16>(b) {
                Ok(vv) => Ok({ let (x, y) = vv; !x.eq_val(y) }),
                Err(e) => Err(e),
            },
            OpType::I16 => match self.bin_vals::<i16>(b) {
                Ok(vv) => Ok({ let (x, y) = vv; !x.eq_val(y) }),
                Err(e) => Err(e),
            },
            OpType::U32 => match self.bin_vals::<u32>(b) {
                Ok(vv) => Ok({ let (x, y) = vv; !x.eq_val(y) }),
                Err(e) => Err(e),
            },
            OpType::I32 => match self.bin_vals::<i32>(b) {
                Ok(vv) => Ok({ let (x, y) = vv; !x.eq_val(y) }),
                Err(e) => Err(e),
            },
            OpType::U64 => match self.bin_vals::<u64>(b) {
                Ok(vv) => Ok({ let (x, y) = vv; !x.eq_val(y) }),
                Err(e) => Err(e),
            },
            OpType::I64 => match self.bin_vals::<i64>(b) {
                Ok(vv) => Ok({ let (x, y) = vv; !x.eq_val(y) }),
                Err(e) => Err(e),
            },
            OpType::Uw => match self.bin_vals::<u32>(b) {
                Ok(vv) => Ok({ let (x, y) = vv; !x.eq_val(y) }),
                Err(e) => Err(e),
            },
            OpType::Iw => match self.bin_vals::<i32>(b) {
                Ok(vv) => Ok({ let (x, y) = vv; !x.eq_val(y) }),
                Err(e) => Err(e),
            },
            _ => Err(self.incorrect_here()),
        };
        proof {
            reveal(spec_step);
        }
        match res {
            Err(e) => Err(e),
            Ok(true) => {
                self.program_counter = self.program_counter.wrapping_add(1);
                proof {
                    assert(self@ =~= spec_step(old(self)@).0);
                }
                Ok(ExecutionSuccess::Ran)
            },
            Ok(false) => {
                let pr = self.pass_condition();
                proof {
                    assert(self@ =~= spec_step(old(self)@).0);
                }
                match pr {
                    Ok(u) => Ok(ExecutionSuccess::Ran),
                    Err(e) => Err(e),
                }
            },
        }
    }

    /// One step of `Ifl`.
    #[verifier::rlimit(100)]
    fn step_ifl(&mut self, b: BinOp, t: OpType) -> (r: Executed)
        requires
            old(self)@.cur_op() == Ok::<Op, ExecutionError>(Op::Ifl(b, t)),
            old(self).wf(),
        ensures
            (final(self)@, r) == spec_step(old(self)@),
            final(self).wf(),
    {
        let res: Result<bool, ExecutionError> = match t {
            OpType::U8 => match self.bin_vals::<u8>(b) {
                Ok(vv) => Ok({ let (x, y) = vv; x.lt_val(y) }),
                Err(e) => Err(e),
            },
            OpType::I8 => match self.bin_vals::<i8>(b) {
                Ok(vv) => Ok({ let (x, y) = vv; x.lt_val(y) }),
                Err(e) => Err(e),
            },
            OpType::U16 => match self.bin_vals::<u16>(b) {
                Ok(vv) => Ok({ let (x, y) = vv; x.lt_val(y) }),
                Err(e) => Err(e),
            },
            OpType::I16 => match self.bin_vals::<i16>(b) {
                Ok(vv) => Ok({ let (x, y) = vv; x.lt_val(y) }),
                Err(e) => Err(e),
            },
            OpType::U32 => match self.bin_vals::<u32>(b) {
                Ok(vv) => Ok({ let (x, y) = vv; x.lt_val(y) }),
                Err(e) => Err(e),
            },
            OpType::I32 => match self.bin_vals::<i32>(b) {
                Ok(vv) => Ok({ let (x, y) = vv; x.lt_val(y) }),
                Err(e) => Err(e),
            },
            OpType::U64 => match self.bin_vals::<u64>(b) {
                Ok(vv) => Ok({ let (x, y) = vv; x.lt_val(y) }),
                Err(e) => Err(e),
            },
            OpType::I64 => match self.bin_vals::<i64>(b) {
                Ok(vv) => Ok({ let (x, y) = vv; x.lt_val(y) }),
                Err(e) => Err(e),
            },
            OpType::Uw => match self.bin_vals::<u32>(b) {
                Ok(vv) => Ok({ let (x, y) = vv; x.lt_val(y) }),
                Err(e) => Err(e),
            },
            OpType::Iw => match self.bin_vals::<i32>(b) {
                Ok(vv) => Ok({ let (x, y) = vv; x.lt_val(y) }),
                Err(e) => Err(e),
            },
            _ => Err(self.incorrect_here()),
        };
        proof {
            reveal(spec_step);
        }
        match res {
            Err(e) => Err(e),
            Ok(true) => {
                self.program_counter = self.program_counter.wrapping_add(1);
                proof {
                    assert(self@ =~= spec_step(old(self)@).0);
                }
                Ok(ExecutionSuccess::Ran)
            },
            Ok(false) => {
                let pr = self.pass_condition();
                proof {
                    assert(self@ =~= spec_step(old(self)@).0);
                }
                match pr {
                    Ok(u) => Ok(ExecutionSuccess::Ran),
                    Err(e) => Err(e),
                }
            },
        }
    }

    /// One step of `Ifg`.
    #[verifier::rlimit(100)]
    fn step_ifg(&mut self, b: BinOp, t: OpType) -> (r: Executed)
        requires
            old(self)@.cur_op() == Ok::<Op, ExecutionError>(Op::Ifg(b, t)),
            old(self).wf(),
        ensures
            (final(self)@, r) == spec_step(old(self)@),
            final(self).wf(),
    {
        let res: Result<bool, ExecutionError> = match t {
            OpType::U8 => match self.bin_vals::<u8>(b) {
                Ok(vv) => Ok({ let (x, y) = vv; y.lt_val(x) }),
                Err(e) => Err(e),
            },
            OpType::I8 => match self.bin_vals::<i8>(b) {
                Ok(vv) => Ok({ let (x, y) = vv; y.lt_val(x) }),
                Err(e) => Err(e),
            },
            OpType::U16 => match self.bin_vals::<u16>(b) {
                Ok(vv) => Ok({ let (x, y) = vv; y.lt_val(x) }),
                Err(e) => Err(e),
            },
            OpType::I16 => match self.bin_vals::<i16>(b) {
                Ok(vv) => Ok({ let (x, y) = vv; y.lt_val(x) }),
                Err(e) => Err(e),
            },
            OpType::U32 => match self.bin_vals::<u32>(b) {
                Ok(vv) => Ok({ let (x, y) = vv; y.lt_val(x) }),
                Err(e) => Err(e),
            },
            OpType::I32 => match self.bin_vals::<i32>(b) {
                Ok(vv) => Ok({ let (x, y) = vv; y.lt_val(x) }),
                Err(e) => Err(e),
            },
            OpType::U64 => match self.bin_vals::<u64>(b) {
                Ok(vv) => Ok({ let (x, y) = vv; y.lt_val(x) }),
                Err(e) => Err(e),
            },
            OpType::I64 => match self.bin_vals::<i64>(b) {
                Ok(vv) => Ok({ let (x, y) = vv; y.lt_val(x) }),
                Err(e) => Err(e),
            },
            OpType::Uw => match self.bin_vals::<u32>(b) {
                Ok(vv) => Ok({ let (x, y) = vv; y.lt_val(x) }),
                Err(e) => Err(e),
            },
            OpType::Iw => match self.bin_vals::<i32>(b) {
                Ok(vv) => Ok({ let (x, y) = vv; y.lt_val(x) }),
                Err(e) => Err(e),
            },
            _ => Err(self.incorrect_here()),
        };
        proof {
            reveal(spec_step);
        }
        match res {
            Err(e) => Err(e),
            Ok(true) => {
                self.program_counter = self.program_counter.wrapping_add(1);
                proof {
                    assert(self@ =~= spec_step(old(self)@).0);
                }
                Ok(ExecutionSuccess::Ran)
            },
            Ok(false) => {
                let pr = self.pass_condition();
                proof {
                    assert(self@ =~= spec_step(old(self)@).0);
                }
                match pr {
                    Ok(u) => Ok(ExecutionSuccess::Ran),
                    Err(e) => Err(e),
                }
            },
        }
    }

    /// One step of `Inl`.
    #[verifier::rlimit(100)]
    fn step_inl(&mut self, b: BinOp, t: OpType) -> (r: Executed)
        requires
            old(self)@.cur_op() == Ok::<Op, ExecutionError>(Op::Inl(b, t)),
            old(self).wf(),
        ensures
            (final(self)@, r) == spec_step(old(self)@),
            final(self).wf(),
    {
        let res: Result<bool, ExecutionError> = match t {
            OpType::U8 => match self.bin_vals::<u8>(b) {
                Ok(vv) => Ok({ let (x, y) = vv; !x.lt_val(y) }),
                Err(e) => Err(e),
            },
            OpType::I8 => match self.bin_vals::<i8>(b) {
                Ok(vv) => Ok({ let (x, y) = vv; !x.lt_val(y) }),
                Err(e) => Err(e),
            },
            OpType::U16 => match self.bin_vals::<u16>(b) {
                Ok(vv) => Ok({ let (x, y) = vv; !x.lt_val(y) }),
                Err(e) => Err(e),
            },
            OpType::I16 => match self.bin_vals::<i16>(b) {
                Ok(vv) => Ok({ let (x, y) = vv; !x.lt_val(y) }),
                Err(e) => Err(e),
            },
            OpType::U32 => match self.bin_vals::<u32>(b) {
                Ok(vv) => Ok({ let (x, y) = vv; !x.lt_val(y) }),
                Err(e) => Err(e),
            },
            OpType::I32 => match self.bin_vals::<i32>(b) {
                Ok(vv) => Ok({ let (x, y) = vv; !x.lt_val(y) }),
                Err(e) => Err(e),
            },
            OpType::U64 => match self.bin_vals::<u64>(b) {
                Ok(vv) => Ok({ let (x, y) = vv; !x.lt_val(y) }),
                Err(e) => Err(e),
            },
            OpType::I64 => match self.bin_vals::<i64>(b) {
                Ok(vv) => Ok({ let (x, y) = vv; !x.lt_val(y) }),
                Err(e) => Err(e),
            },
            OpType::Uw => match self.bin_vals::<u32>(b) {
                Ok(vv) => Ok({ let (x, y) = vv; !x.lt_val(y) }),
                Err(e) => Err(e),
            },
            OpType::Iw => match self.bin_vals::<i32>(b) {
                Ok(vv) => Ok({ let (x, y) = vv; !x.lt_val(y) }),
                Err(e) => Err(e),
            },
            _ => Err(self.incorrect_here()),
        };
        proof {
            reveal(spec_step);
        }
        match res {
            Err(e) => Err(e),
            Ok(true) => {
                self.program_counter = self.program_counter.wrapping_add(1);
                proof {
                    assert(self@ =~= spec_step(old(self)@).0);
                }
                Ok(ExecutionSuccess::Ran)
            },
            Ok(false) => {
                let pr = self.pass_condition();
                proof {
                    assert(self@ =~= spec_step(old(self)@).0);
                }
                match pr {
                    Ok(u) => Ok(ExecutionSuccess::Ran),
                    Err(e) => Err(e),
                }
            },
        }
    }

    /// One step of `Ing`.
    #[verifier::rlimit(100)]
    fn step_ing(&mut self, b: BinOp, t: OpType) -> (r: Executed)
        requires
            old(self)@.cur_op() == Ok::<Op, ExecutionError>(Op::Ing(b, t)),
            old(self).wf(),
        ensures
            (final(self)@, r) == spec_step(old(self)@),
            final(self).wf(),
    {
        let res: Result<bool, ExecutionError> = match t {
            OpType::U8 => match self.bin_vals::<u8>(b) {
                Ok(vv) => Ok({ let (x, y) = vv; !y.lt_val(x) }),
                Err(e) => Err(e),
            },
            OpType::I8 => match self.bin_vals::<i8>(b) {
                Ok(vv) => Ok({ let (x, y) = vv; !y.lt_val(x) }),
                Err(e) => Err(e),
            },
            OpType::U16 => match self.bin_vals::<u16>(b) {
                Ok(vv) => Ok({ let (x, y) = vv; !y.lt_val(x) }),
                Err(e) => Err(e),
            },
            OpType::I16 => match self.bin_vals::<i16>(b) {
                Ok(vv) => Ok({ let (x, y) = vv; !y.lt_val(x) }),
                Err(e) => Err(e),
            },
            OpType::U32 => match self.bin_vals::<u32>(b) {
                Ok(vv) => Ok({ let (x, y) = vv; !y.lt_val(x) }),
                Err(e) => Err(e),
            },
            OpType::I32 => match self.bin_vals::<i32>(b) {
                Ok(vv) => Ok({ let (x, y) = vv; !y.lt_val(x) }),
                Err(e) => Err(e),
            },
            OpType::U64 => match self.bin_vals::<u64>(b) {
                Ok(vv) => Ok({ let (x, y) = vv; !y.lt_val(x) }),
                Err(e) => Err(e),
            },
            OpType::I64 => match self.bin_vals::<i64>(b) {
                Ok(vv) => Ok({ let (x, y) = vv; !y.lt_val(x) }),
                Err(e) => Err(e),
            },
            OpType::Uw => match self.bin_vals::<u32>(b) {
                Ok(vv) => Ok({ let (x, y) = vv; !y.lt_val(x) }),
                Err(e) => Err(e),
            },
            OpType::Iw => match self.bin_vals::<i32>(b) {
                Ok(vv) => Ok({ let (x, y) = vv; !y.lt_val(x) }),
                Err(e) => Err(e),
            },
            _ => Err(self.incorrect_here()),
        };
        proof {
            reveal(spec_step);
        }
        match res {
            Err(e) => Err(e),
            Ok(true) => {
                self.program_counter = self.program_counter.wrapping_add(1);
                proof {
                    assert(self@ =~= spec_step(old(self)@).0);
                }
                Ok(ExecutionSuccess::Ran)
            },
            Ok(false) => {
                let pr = self.pass_condition();
                proof {
                    assert(self@ =~= spec_step(old(self)@).0);
                }
                match pr {
                    Ok(u) => Ok(ExecutionSuccess::Ran),
                    Err(e) => Err(e),
                }
            },
        }
    }

    /// One step of `Ifa`.
    #[verifier::rlimit(100)]
    fn step_ifa(&mut self, b: BinOp, t: OpType) -> (r: Executed)
        requires
            old(self)@.cur_op() == Ok::<Op, ExecutionError>(Op::Ifa(b, t)),
            old(self).wf(),
        ensures
            (final(self)@, r) == spec_step(old(self)@),
            final(self).wf(),
    {
        let res: Result<bool, ExecutionError> = match t {
            OpType::U8 => match self.bin_vals::<u8>(b) {
                Ok(vv) => Ok({ let (x, y) = vv; !x.bit_and(y).is_zero() }),
                Err(e) => Err(e),
            },
            OpType::I8 => match self.bin_vals::<i8>(b) {
                Ok(vv) => Ok({ let (x, y) = vv; !x.bit_and(y).is_zero() }),
                Err(e) => Err(e),
            },
            OpType::U16 => match self.bin_vals::<u16>(b) {
                Ok(vv) => Ok({ let (x, y) = vv; !x.bit_and(y).is_zero() }),
                Err(e) => Err(e),
            },
            OpType::I16 => match self.bin_vals::<i16>(b) {
                Ok(vv) => Ok({ let (x, y) = vv; !x.bit_and(y).is_zero() }),
                Err(e) => Err(e),
            },
            OpType::U32 => match self.bin_vals::<u32>(b) {
                Ok(vv) => Ok({ let (x, y) = vv; !x.bit_and(y).is_zero() }),
                Err(e) => Err(e),
            },
            OpType::I32 => match self.bin_vals::<i32>(b) {
                Ok(vv) => Ok({ let (x, y) = vv; !x.bit_and(y).is_zero() }),
                Err(e) => Err(e),
            },
            OpType::U64 => match self.bin_vals::<u64>(b) {
                Ok(vv) => Ok({ let (x, y) = vv; !x.bit_and(y).is_zero() }),
                Err(e) => Err(e),
            },
            OpType::I64 => match self.bin_vals::<i64>(b) {
                Ok(vv) => Ok({ let (x, y) = vv; !x.bit_and(y).is_zero() }),
                Err(e) => Err(e),
            },
            OpType::Uw => match self.bin_vals::<u32>(b) {
                Ok(vv) => Ok({ let (x, y) = vv; !x.bit_and(y).is_zero() }),
                Err(e) => Err(e),
            },
            OpType::Iw => match self.bin_vals::<i32>(b) {
                Ok(vv) => Ok({ let (x, y) = vv; !x.bit_and(y).is_zero() }),
                Err(e) => Err(e),
            },
            _ => Err(self.incorrect_here()),
        };
        proof {
            reveal(spec_step);
        }
        match res {
            Err(e) => Err(e),
            Ok(true) => {
                self.program_counter = self.program_counter.wrapping_add(1);
                proof {
                    assert(self@ =~= spec_step(old(self)@).0);
                }
                Ok(ExecutionSuccess::Ran)
            },
            Ok(false) => {
                let pr = self.pass_condition();
                proof {
                    assert(self@ =~= spec_step(old(self)@).0);
                }
                match pr {
                    Ok(u) => Ok(ExecutionSuccess::Ran),
                    Err(e) => Err(e),
                }
            },
        }
    }

    /// One step of `Ifo`.
    #[verifier::rlimit(100)]
    fn step_ifo(&mut self, b: BinOp, t: OpType) -> (r: Executed)
        requires
            old(self)@.cur_op() == Ok::<Op, ExecutionError>(Op::Ifo(b, t)),
            old(self).wf(),
        ensures
            (final(self)@, r) == spec_step(old(self)@),
            final(self).wf(),
    {
        let res: Result<bool, ExecutionError> = match t {
            OpType::U8 => match self.bin_vals::<u8>(b) {
                Ok(vv) => Ok({ let (x, y) = vv; !x.bit_or(y).is_zero() }),
                Err(e) => Err(e),
            },
            OpType::I8 => match self.bin_vals::<i8>(b) {
                Ok(vv) => Ok({ let (x, y) = vv; !x.bit_or(y).is_zero() }),
                Err(e) => Err(e),
            },
            OpType::U16 => match self.bin_vals::<u16>(b) {
                Ok(vv) => Ok({ let (x, y) = vv; !x.bit_or(y).is_zero() }),
                Err(e) => Err(e),
            },
            OpType::I16 => match self.bin_vals::<i16>(b) {
                Ok(vv) => Ok({ let (x, y) = vv; !x.bit_or(y).is_zero() }),
                Err(e) => Err(e),
            },
            OpType::U32 => match self.bin_vals::<u32>(b) {
                Ok(vv) => Ok({ let (x, y) = vv; !x.bit_or(y).is_zero() }),
                Err(e) => Err(e),
            },
            OpType::I32 => match self.bin_vals::<i32>(b) {
                Ok(vv) => Ok({ let (x, y) = vv; !x.bit_or(y).is_zero() }),
                Err(e) => Err(e),
            },
            OpType::U64 => match self.bin_vals::<u64>(b) {
                Ok(vv) => Ok({ let (x, y) = vv; !x.bit_or(y).is_zero() }),
                Err(e) => Err(e),
            },
            OpType::I64 => match self.bin_vals::<i64>(b) {
                Ok(vv) => Ok({ let (x, y) = vv; !x.bit_or(y).is_zero() }),
                Err(e) => Err(e),
            },
            OpType::Uw => match self.bin_vals::<u32>(b) {
                Ok(vv) => Ok({ let (x, y) = vv; !x.bit_or(y).is_zero() }),
                Err(e) => Err(e),
            },
            OpType::Iw => match self.bin_vals::<i32>(b) {
                Ok(vv) => Ok({ let (x, y) = vv; !x.bit_or(y).is_zero() }),
                Err(e) => Err(e),
            },
            _ => Err(self.incorrect_here()),
        };
        proof {
            reveal(spec_step);
        }
        match res {
            Err(e) => Err(e),
            Ok(true) => {
                self.program_counter = self.program_counter.wrapping_add(1);
                proof {
                    assert(self@ =~= spec_step(old(self)@).0);
                }
                Ok(ExecutionSuccess::Ran)
            },
            Ok(false) => {
                let pr = self.pass_condition();
                proof {
                    assert(self@ =~= spec_step(old(self)@).0);
                }
                match pr {
                    Ok(u) => Ok(ExecutionSuccess::Ran),
                    Err(e) => Err(e),
                }
            },
        }
    }

    /// One step of `Ifx`.
    #[verifier::rlimit(100)]
    fn step_ifx(&mut self, b: BinOp, t: OpType) -> (r: Executed)
        requires
            old(self)@.cur_op() == Ok::<Op, ExecutionError>(Op::Ifx(b, t)),
            old(self).wf(),
        ensures
            (final(self)@, r) == spec_step(old(self)@),
            final(self).wf(),
    {
        let res: Result<bool, ExecutionError> = match t {
            OpType::U8 => match self.bin_vals::<u8>(b) {
                Ok(vv) => Ok({ let (x, y) = vv; !x.bit_xor(y).is_zero() }),
                Err(e) => Err(e),
            },
            OpType::I8 => match self.bin_vals::<i8>(b) {
                Ok(vv) => Ok({ let (x, y) = vv; !x.bit_xor(y).is_zero() }),
                Err(e) => Err(e),
            },
            OpType::U16 => match self.bin_vals::<u16>(b) {
                Ok(vv) => Ok({ let (x, y) = vv; !x.bit_xor(y).is_zero() }),
                Err(e) => Err(e),
            },
            OpType::I16 => match self.bin_vals::<i16>(b) {
                Ok(vv) => Ok({ let (x, y) = vv; !x.bit_xor(y).is_zero() }),
                Err(e) => Err(e),
            },
            OpType::U32 => match self.bin_vals::<u32>(b) {
                Ok(vv) => Ok({ let (x, y) = vv; !x.bit_xor(y).is_zero() }),
                Err(e) => Err(e),
            },
            OpType::I32 => match self.bin_vals::<i32>(b) {
                Ok(vv) => Ok({ let (x, y) = vv; !x.bit_xor(y).is_zero() }),
                Err(e) => Err(e),
            },
            OpType::U64 => match self.bin_vals::<u64>(b) {
                Ok(vv) => Ok({ let (x, y) = vv; !x.bit_xor(y).is_zero() }),
                Err(e) => Err(e),
            },
            OpType::I64 => match self.bin_vals::<i64>(b) {
                Ok(vv) => Ok({ let (x, y) = vv; !x.bit_xor(y).is_zero() }),
                Err(e) => Err(e),
            },
            OpType::Uw => match self.bin_vals::<u32>(b) {
                Ok(vv) => Ok({ let (x, y) = vv; !x.bit_xor(y).is_zero() }),
                Err(e) => Err(e),
            },
            OpType::Iw => match self.bin_vals::<i32>(b) {
                Ok(vv) => Ok({ let (x, y) = vv; !x.bit_xor(y).is_zero() }),
                Err(e) => Err(e),
            },
            _ => Err(self.incorrect_here()),
        };
        proof {
            reveal(spec_step);
        }
        match res {
            Err(e) => Err(e),
            Ok(true) => {
                self.program_counter = self.program_counter.wrapping_add(1);
                proof {
                    assert(self@ =~= spec_step(old(self)@).0);
                }
                Ok(ExecutionSuccess::Ran)
            },
            Ok(false) => {
                let pr = self.pass_condition();
                proof {
                    assert(self@ =~= spec_step(old(self)@).0);
                }
                match pr {
                    Ok(u) => Ok(ExecutionSuccess::Ran),
                    Err(e) => Err(e),
                }
            },
        }
    }

    /// One step of `Ina`.
    #[verifier::rlimit(100)]
    fn step_ina(&mut self, b: BinOp, t: OpType) -> (r: Executed)
        requires
            old(self)@.cur_op() == Ok::<Op, ExecutionError>(Op::Ina(b, t)),
            old(self).wf(),
        ensures
            (final(self)@, r) == spec_step(old(self)@),
            final(self).wf(),
    {
        let res: Result<bool, ExecutionError> = match t {
            OpType::U8 => match self.bin_vals::<u8>(b) {
                Ok(vv) => Ok({ let (x, y) = vv; x.bit_and(y).is_zero() }),
                Err(e) => Err(e),
            },
            OpType::I8 => match self.bin_vals::<i8>(b) {
                Ok(vv) => Ok({ let (x, y) = vv; x.bit_and(y).is_zero() }),
                Err(e) => Err(e),
            },
            OpType::U16 => match self.bin_vals::<u16>(b) {
                Ok(vv) => Ok({ let (x, y) = vv; x.bit_and(y).is_zero() }),
                Err(e) => Err(e),
            },
            OpType::I16 => match self.bin_vals::<i16>(b) {
                Ok(vv) => Ok({ let (x, y) = vv; x.bit_and(y).is_zero() }),
                Err(e) => Err(e),
            },
            OpType::U32 => match self.bin_vals::<u32>(b) {
                Ok(vv) => Ok({ let (x, y) = vv; x.bit_and(y).is_zero() }),
                Err(e) => Err(e),
            },
            OpType::I32 => match self.bin_vals::<i32>(b) {
                Ok(vv) => Ok({ let (x, y) = vv; x.bit_and(y).is_zero() }),
                Err(e) => Err(e),
            },
            OpType::U64 => match self.bin_vals::<u64>(b) {
                Ok(vv) => Ok({ let (x, y) = vv; x.bit_and(y).is_zero() }),
                Err(e) => Err(e),
            },
            OpType::I64 => match self.bin_vals::<i64>(b) {
                Ok(vv) => Ok({ let (x, y) = vv; x.bit_and(y).is_zero() }),
                Err(e) => Err(e),
            },
            OpType::Uw => match self.bin_vals::<u32>(b) {
                Ok(vv) => Ok({ let (x, y) = vv; x.bit_and(y).is_zero() }),
                Err(e) => Err(e),
            },
            OpType::Iw => match self.bin_vals::<i32>(b) {
                Ok(vv) => Ok({ let (x, y) = vv; x.bit_and(y).is_zero() }),
                Err(e) => Err(e),
            },
            _ => Err(self.incorrect_here()),
        };
        proof {
            reveal(spec_step);
        }
        match res {
            Err(e) => Err(e),
            Ok(true) => {
                self.program_counter = self.program_counter.wrapping_add(1);
                proof {
                    assert(self@ =~= spec_step(old(self)@).0);
                }
                Ok(ExecutionSuccess::Ran)
            },
            Ok(false) => {
                let pr = self.pass_condition();
                proof {
                    assert(self@ =~= spec_step(old(self)@).0);
                }
                match pr {
                    Ok(u) => Ok(ExecutionSuccess::Ran),
                    Err(e) => Err(e),
                }
            },
        }
    }

    /// One step of `Ino`.
    #[verifier::rlimit(100)]
    fn step_ino(&mut self, b: BinOp, t: OpType) -> (r: Executed)
        requires
            old(self)@.cur_op() == Ok::<Op, ExecutionError>(Op::Ino(b, t)),
            old(self).wf(),
        ensures
            (final(self)@, r) == spec_step(old(self)@),
            final(self).wf(),
    {
        let res: Result<bool, ExecutionError> = match t {
            OpType::U8 => match self.bin_vals::<u8>(b) {
                Ok(vv) => Ok({ let (x, y) = vv; x.bit_or(y).is_zero() }),
                Err(e) => Err(e),
            },
            OpType::I8 => match self.bin_vals::<i8>(b) {
                Ok(vv) => Ok({ let (x, y) = vv; x.bit_or(y).is_zero() }),
                Err(e) => Err(e),
            },
            OpType::U16 => match self.bin_vals::<u16>(b) {
                Ok(vv) => Ok({ let (x, y) = vv; x.bit_or(y).is_zero() }),
                Err(e) => Err(e),
            },
            OpType::I16 => match self.bin_vals::<i16>(b) {
                Ok(vv) => Ok({ let (x, y) = vv; x.bit_or(y).is_zero() }),
                Err(e) => Err(e),
            },
            OpType::U32 => match self.bin_vals::<u32>(b) {
                Ok(vv) => Ok({ let (x, y) = vv; x.bit_or(y).is_zero() }),
                Err(e) => Err(e),
            },
            OpType::I32 => match self.bin_vals::<i32>(b) {
                Ok(vv) => Ok({ let (x, y) = vv; x.bit_or(y).is_zero() }),
                Err(e) => Err(e),
            },
            OpType::U64 => match self.bin_vals::<u64>(b) {
                Ok(vv) => Ok({ let (x, y) = vv; x.bit_or(y).is_zero() }),
                Err(e) => Err(e),
            },
            OpType::I64 => match self.bin_vals::<i64>(b) {
                Ok(vv) => Ok({ let (x, y) = vv; x.bit_or(y).is_zero() }),
                Err(e) => Err(e),
            },
            OpType::Uw => match self.bin_vals::<u32>(b) {
                Ok(vv) => Ok({ let (x, y) = vv; x.bit_or(y).is_zero() }),
                Err(e) => Err(e),
            },
            OpType::Iw => match self.bin_vals::<i32>(b) {
                Ok(vv) => Ok({ let (x, y) = vv; x.bit_or(y).is_zero() }),
                Err(e) => Err(e),
            },
            _ => Err(self.incorrect_here()),
        };
        proof {
            reveal(spec_step);
        }
        match res {
            Err(e) => Err(e),
            Ok(true) => {
                self.program_counter = self.program_counter.wrapping_add(1);
                proof {
                    assert(self@ =~= spec_step(old(self)@).0);
                }
                Ok(ExecutionSuccess::Ran)
            },
            Ok(false) => {
                let pr = self.pass_condition();
                proof {
                    assert(self@ =~= spec_step(old(self)@).0);
                }
                match pr {
                    Ok(u) => Ok(ExecutionSuccess::Ran),
                    Err(e) => Err(e),
                }
            },
        }
    }

    /// One step of `Inx`.
    #[verifier::rlimit(100)]
    fn step_inx(&mut self, b: BinOp, t: OpType) -> (r: Executed)
        requires
            old(self)@.cur_op() == Ok::<Op, ExecutionError>(Op::Inx(b, t)),
            old(self).wf(),
        ensures
            (final(self)@, r) == spec_step(old(self)@),
            final(self).wf(),
    {
        let res: Result<bool, ExecutionError> = match t {
            OpType::U8 => match self.bin_vals::<u8>(b) {
                Ok(vv) => Ok({ let (x, y) = vv; x.bit_xor(y).is_zero() }),
                Err(e) => Err(e),
            },
            OpType::I8 => match self.bin_vals::<i8>(b) {
                Ok(vv) => Ok({ let (x, y) = vv; x.bit_xor(y).is_zero() }),
                Err(e) => Err(e),
            },
            OpType::U16 => match self.bin_vals::<u16>(b) {
                Ok(vv) => Ok({ let (x, y) = vv; x.bit_xor(y).is_zero() }),
                Err(e) => Err(e),
            },
            OpType::I16 => match self.bin_vals::<i16>(b) {
                Ok(vv) => Ok({ let (x, y) = vv; x.bit_xor(y).is_zero() }),
                Err(e) => Err(e),
            },
            OpType::U32 => match self.bin_vals::<u32>(b) {
                Ok(vv) => Ok({ let (x, y) = vv; x.bit_xor(y).is_zero() }),
                Err(e) => Err(e),
            },
            OpType::I32 => match self.bin_vals::<i32>(b) {
                Ok(vv) => Ok({ let (x, y) = vv; x.bit_xor(y).is_zero() }),
                Err(e) => Err(e),
            },
            OpType::U64 => match self.bin_vals::<u64>(b) {
                Ok(vv) => Ok({ let (x, y) = vv; x.bit_xor(y).is_zero() }),
                Err(e) => Err(e),
            },
            OpType::I64 => match self.bin_vals::<i64>(b) {
                Ok(vv) => Ok({ let (x, y) = vv; x.bit_xor(y).is_zero() }),
                Err(e) => Err(e),
            },
            OpType::Uw => match self.bin_vals::<u32>(b) {
                Ok(vv) => Ok({ let (x, y) = vv; x.bit_xor(y).is_zero() }),
                Err(e) => Err(e),
            },
            OpType::Iw => match self.bin_vals::<i32>(b) {
                Ok(vv) => Ok({ let (x, y) = vv; x.bit_xor(y).is_zero() }),
                Err(e) => Err(e),
            },
            _ => Err(self.incorrect_here()),
        };
        proof {
            reveal(spec_step);
        }
        match res {
            Err(e) => Err(e),
            Ok(true) => {
                self.program_counter = self.program_counter.wrapping_add(1);
                proof {
                    assert(self@ =~= spec_step(old(self)@).0);
                }
                Ok(ExecutionSuccess::Ran)
            },
            Ok(false) => {
                let pr = self.pass_condition();
                proof {
                    assert(self@ =~= spec_step(old(self)@).0);
                }
                match pr {
                    Ok(u) => Ok(ExecutionSuccess::Ran),
                    Err(e) => Err(e),
                }
            },
        }
    }

    /// One step of `Ift`.
    #[verifier::rlimit(100)]
    fn step_ift(&mut self, u: UnOp, t: OpType) -> (r: Executed)
        requires
            old(self)@.cur_op() == Ok::<Op, ExecutionError>(Op::Ift(u, t)),
            old(self).wf(),
        ensures
            (final(self)@, r) == spec_step(old(self)@),
            final(self).wf(),
    {
        let res: Result<bool, ExecutionError> = match t {
            OpType::U8 => match self.get_un::<u8>(u) {
                Ok(vv) => Ok(!vv.is_zero()),
                Err(e) => Err(e),
            },
            OpType::I8 => match self.get_un::<i8>(u) {
                Ok(vv) => Ok(!vv.is_zero()),
                Err(e) => Err(e),
            },
            OpType::U16 => match self.get_un::<u16>(u) {
                Ok(vv) => Ok(!vv.is_zero()),
                Err(e) => Err(e),
            },
            OpType::I16 => match self.get_un::<i16>(u) {
                Ok(vv) => Ok(!vv.is_zero()),
                Err(e) => Err(e),
            },
            OpType::U32 => match self.get_un::<u32>(u) {
                Ok(vv) => Ok(!vv.is_zero()),
                Err(e) => Err(e),
            },
            OpType::I32 => match self.get_un::<i32>(u) {
                Ok(vv) => Ok(!vv.is_zero()),
                Err(e) => Err(e),
            },
            OpType::U64 => match self.get_un::<u64>(u) {
                Ok(vv) => Ok(!vv.is_zero()),
                Err(e) => Err(e),
            },
            OpType::I64 => match self.get_un::<i64>(u) {
                Ok(vv) => Ok(!vv.is_zero()),
                Err(e) => Err(e),
            },
            OpType::Uw => match self.get_un::<u32>(u) {
                Ok(vv) => Ok(!vv.is_zero()),
                Err(e) => Err(e),
            },
            OpType::Iw => match self.get_un::<i32>(u) {
                Ok(vv) => Ok(!vv.is_zero()),
                Err(e) => Err(e),
            },
            _ => Err(self.incorrect_here()),
        };
        proof {
            reveal(spec_step);
        }
        match res {
            Err(e) => Err(e),
            Ok(true) => {
                self.program_counter = self.program_counter.wrapping_add(1);
                proof {
                    assert(self@ =~= spec_step(old(self)@).0);
                }
                Ok(ExecutionSuccess::Ran)
            },
            Ok(false) => {
                let pr = self.pass_condition();
                proof {
                    assert(self@ =~= spec_step(old(self)@).0);
                }
                match pr {
                    Ok(u) => Ok(ExecutionSuccess::Ran),
                    Err(e) => Err(e),
                }
            },
        }
    }

    /// One step of `Iff`.
    #[verifier::rlimit(100)]
    fn step_iff(&mut self, u: UnOp, t: OpType) -> (r: Executed)
        requires
            old(self)@.cur_op() == Ok::<Op, ExecutionError>(Op::Iff(u, t)),
            old(self).wf(),
        ensures
            (final(self)@, r) == spec_step(old(self)@),
            final(self).wf(),
    {
        let res: Result<bool, ExecutionError> = match t {
            OpType::U8 => match self.get_un::<u8>(u) {
                Ok(vv) => Ok(vv.is_zero()),
                Err(e) => Err(e),
            },
            OpType::I8 => match self.get_un::<i8>(u) {
                Ok(vv) => Ok(vv.is_zero()),
                Err(e) => Err(e),
            },
            OpType::U16 => match self.get_un::<u16>(u) {
                Ok(vv) => Ok(vv.is_zero()),
                Err(e) => Err(e),
            },
            OpType::I16 => match self.get_un::<i16>(u) {
                Ok(vv) => Ok(vv.is_zero()),
                Err(e) => Err(e),
            },
            OpType::U32 => match self.get_un::<u32>(u) {
                Ok(vv) => Ok(vv.is_zero()),
                Err(e) => Err(e),
            },
            OpType::I32 => match self.get_un::<i32>(u) {
                Ok(vv) => Ok(vv.is_zero()),
                Err(e) => Err(e),
            },
            OpType::U64 => match self.get_un::<u64>(u) {
                Ok(vv) => Ok(vv.is_zero()),
                Err(e) => Err(e),
            },
            OpType::I64 => match self.get_un::<i64>(u) {
                Ok(vv) => Ok(vv.is_zero()),
                Err(e) => Err(e),
            },
            OpType::Uw => match self.get_un::<u32>(u) {
                Ok(vv) => Ok(vv.is_zero()),
                Err(e) => Err(e),
            },
            OpType::Iw => match self.get_un::<i32>(u) {
                Ok(vv) => Ok(vv.is_zero()),
                Err(e) => Err(e),
            },
            _ => Err(self.incorrect_here()),
        };
        proof {
            reveal(spec_step);
        }
        match res {
            Err(e) => Err(e),
            Ok(true) => {
                self.program_counter = self.program_counter.wrapping_add(1);
                proof {
                    assert(self@ =~= spec_step(old(self)@).0);
                }
                Ok(ExecutionSuccess::Ran)
            },
            Ok(false) => {
                let pr = self.pass_condition();
                proof {
                    assert(self@ =~= spec_step(old(self)@).0);
                }
                match pr {
                    Ok(u) => Ok(ExecutionSuccess::Ran),
                    Err(e) => Err(e),
                }
            },
        }
    }

    /// One step of `Nop`.
    fn step_nop(&mut self) -> (r: Executed)
        requires
            old(self)@.cur_op() == Ok::<Op, ExecutionError>(Op::Nop),
            old(self).wf(),
        ensures
            (final(self)@, r) == spec_step(old(self)@),
            final(self).wf(),
    {
        proof {
            reveal(spec_step);
        }
        self.program_counter = self.program_counter.wrapping_add(1);
        proof {
            assert(self@ =~= spec_step(old(self)@).0);
        }
        Ok(ExecutionSuccess::Ran)
    }

    /// One step of `End` or `Slp`: the read word becomes the status.
    fn step_halt(&mut self, x: Operand, sleep: bool) -> (r: Executed)
        requires
            old(self)@.cur_op() == Ok::<Op, ExecutionError>(
                if sleep {
                    Op::Slp(x)
                } else {
                    Op::End(x)
                },
            ),
            old(self).wf(),
        ensures
            (final(self)@, r) == spec_step(old(self)@),
            final(self).wf(),
    {
        proof {
            reveal(spec_step);
        }
        let val = match self.get_val::<UWord>(x) {
            Ok(v) => v,
            Err(e) => {
                return Err(e);
            },
        };
        self.program_counter = self.program_counter.wrapping_add(1);
        proof {
            assert(self@ =~= spec_step(old(self)@).0);
        }
        if sleep {
            Ok(ExecutionSuccess::Sleep(val))
        } else {
            Ok(ExecutionSuccess::End(val))
        }
    }

    /// One step of `Go`: the counter jumps to the read word.
    fn step_go(&mut self, x: Operand) -> (r: Executed)
        requires
            old(self)@.cur_op() == Ok::<Op, ExecutionError>(Op::Go(x)),
            old(self).wf(),
        ensures
            (final(self)@, r) == spec_step(old(self)@),
            final(self).wf(),
    {
        proof {
            reveal(spec_step);
        }
        let d = match self.get_val::<UWord>(x) {
            Ok(v) => v,
            Err(e) => {
                return Err(e);
            },
        };
        self.program_counter = d;
        proof {
            assert(self@ =~= spec_step(old(self)@).0);
        }
        Ok(ExecutionSuccess::Ran)
    }

    /// One step of `App`: a frame is prepared for the named function.
    fn step_app(&mut self, x: Operand) -> (r: Executed)
        requires
            old(self)@.cur_op() == Ok::<Op, ExecutionError>(Op::App(x)),
            old(self).wf(),
        ensures
            (final(self)@, r) == spec_step(old(self)@),
            final(self).wf(),
    {
        proof {
            reveal(spec_step);
        }
        let fid = match self.get_val::<UWord>(x) {
            Ok(v) => v,
            Err(e) => {
                return Err(e);
            },
        };
        match self.app(fid) {
            Ok(u) => {
                self.program_counter = self.program_counter.wrapping_add(1);
                proof {
                    assert(self@ =~= spec_step(old(self)@).0);
                }
                Ok(ExecutionSuccess::Ran)
            },
            Err(e) => {
                proof {
                    assert(self@ =~= spec_step(old(self)@).0);
                }
                Err(e)
            },
        }
    }

    /// One step of `Par`: one parameter slot of the prepared frame.
    #[verifier::rlimit(100)]
    fn step_par(&mut self, u: UnOp, t: OpType, m: ParameterMode) -> (r: Executed)
        requires
            old(self)@.cur_op() == Ok::<Op, ExecutionError>(Op::Par(u, t, m)),
            old(self).wf(),
        ensures
            (final(self)@, r) == spec_step(old(self)@),
            final(self).wf(),
    {
        let res = match t {
            OpType::U8 => self.exec_par::<u8>(u, m),
            OpType::I8 => self.exec_par::<i8>(u, m),
            OpType::U16 => self.exec_par::<u16>(u, m),
            OpType::I16 => self.exec_par::<i16>(u, m),
            OpType::U32 => self.exec_par::<u32>(u, m),
            OpType::I32 => self.exec_par::<i32>(u, m),
            OpType::U64 => self.exec_par::<u64>(u, m),
            OpType::I64 => self.exec_par::<i64>(u, m),
            OpType::Uw => self.exec_par::<u32>(u, m),
            OpType::Iw => self.exec_par::<i32>(u, m),
            OpType::F32 => self.exec_par::<u32>(u, m),
            OpType::F64 => self.exec_par::<u64>(u, m),
        };
        proof {
            reveal(spec_step);
        }
        match res {
            Ok(un) => {
                self.program_counter = self.program_counter.wrapping_add(1);
                proof {
                    assert(self@ =~= spec_step(old(self)@).0);
                }
                Ok(ExecutionSuccess::Ran)
            },
            Err(e) => {
                proof {
                    assert(self@ =~= spec_step(old(self)@).0);
                }
                Err(e)
            },
        }
    }

    /// One step of `Clf`: the prepared frame becomes the executing one.
    fn step_clf(&mut self, x: Operand) -> (r: Executed)
        requires
            old(self)@.cur_op() == Ok::<Op, ExecutionError>(Op::Clf(x)),
            old(self).wf(),
        ensures
            (final(self)@, r) == spec_step(old(self)@),
            final(self).wf(),
    {
        proof {
            reveal(spec_step);
        }
        let ra = match self.get_val::<UWord>(x) {
            Ok(v) => v,
            Err(e) => {
                return Err(e);
            },
        };
        match self.clf(ra) {
            Ok(u) => {
                proof {
                    assert(self@ =~= spec_step(old(self)@).0);
                }
                Ok(ExecutionSuccess::Ran)
            },
            Err(e) => Err(e),
        }
    }

    /// One step of `Ret`: the top frame leaves.
    fn step_ret(&mut self, u: UnOp, t: OpType) -> (r: Executed)
        requires
            old(self)@.cur_op() == Ok::<Op, ExecutionError>(Op::Ret(u, t)),
            old(self).wf(),
        ensures
            (final(self)@, r) == spec_step(old(self)@),
            final(self).wf(),
    {
        proof {
            reveal(spec_step);
        }
        match self.ret() {
            Ok(un) => {
                proof {
                    assert(self@ =~= spec_step(old(self)@).0);
                }
                Ok(ExecutionSuccess::Ran)
            },
            Err(e) => Err(e),
        }
    }

    /// One step of `Zer`: a read range is zero-filled.
    fn step_zer(&mut self, x: Operand, y: Operand) -> (r: Executed)
        requires
            old(self)@.cur_op() == Ok::<Op, ExecutionError>(Op::Zer(x, y)),
            old(self).wf(),
        ensures
            (final(self)@, r) == spec_step(old(self)@),
            final(self).wf(),
    {
        proof {
            reveal(spec_step);
        }
        let dest = match self.get_val::<UWord>(x) {
            Ok(v) => v,
            Err(e) => {
                return Err(e);
            },
        };
        let size = match self.get_val::<UWord>(y) {
            Ok(v) => v,
            Err(e) => {
                return Err(e);
            },
        };
        match self.memory.set_zeros(dest, size) {
            Ok(un) => {
                self.program_counter = self.program_counter.wrapping_add(1);
                proof {
                    assert(self@ =~= spec_step(old(self)@).0);
                }
                Ok(ExecutionSuccess::Ran)
            },
            Err(e) => {
                proof {
                    assert(self@ =~= spec_step(old(self)@).0);
                }
                Err(ExecutionError::MemoryError(e))
            },
        }
    }

    /// One step of `Cmp`: two read ranges compare; inequality skips
    /// like a false conditional.
    fn step_cmp(&mut self, x: Operand, y: Operand, z: Operand) -> (r: Executed)
        requires
            old(self)@.cur_op() == Ok::<Op, ExecutionError>(Op::Cmp(x, y, z)),
            old(self).wf(),
        ensures
            (final(self)@, r) == spec_step(old(self)@),
            final(self).wf(),
    {
        proof {
            reveal(spec_step);
        }
        let a = match self.get_val::<UWord>(x) {
            Ok(v) => v,
            Err(e) => {
                return Err(e);
            },
        };
        let b = match self.get_val::<UWord>(y) {
            Ok(v) => v,
            Err(e) => {
                return Err(e);
            },
        };
        let size = match self.get_val::<UWord>(z) {
            Ok(v) => v,
            Err(e) => {
                return Err(e);
            },
        };
        match self.memory.compare(a, b, size) {
            Err(e) => Err(ExecutionError::MemoryError(e)),
            Ok(true) => {
                self.program_counter = self.program_counter.wrapping_add(1);
                proof {
                    assert(self@ =~= spec_step(old(self)@).0);
                }
                Ok(ExecutionSuccess::Ran)
            },
            Ok(false) => {
                let pr = self.pass_condition();
                proof {
                    assert(self@ =~= spec_step(old(self)@).0);
                }
                match pr {
                    Ok(u) => Ok(ExecutionSuccess::Ran),
                    Err(e) => Err(e),
                }
            },
        }
    }

    /// One step of `Cpy`: a read range is copied.
    fn step_cpy(&mut self, x: Operand, y: Operand, z: Operand) -> (r: Executed)
        requires
            old(self)@.cur_op() == Ok::<Op, ExecutionError>(Op::Cpy(x, y, z)),
            old(self).wf(),
        ensures
            (final(self)@, r) == spec_step(old(self)@),
            final(self).wf(),
    {
        proof {
            reveal(spec_step);
        }
        let dest = match self.get_val::<UWord>(x) {
            Ok(v) => v,
            Err(e) => {
                return Err(e);
            },
        };
        let src = match self.get_val::<UWord>(y) {
            Ok(v) => v,
            Err(e) => {
                return Err(e);
            },
        };
        let size = match self.get_val::<UWord>(z) {
            Ok(v) => v,
            Err(e) => {
                return Err(e);
            },
        };
        match self.memory.copy(dest, src, size) {
            Ok(un) => {
                self.program_counter = self.program_counter.wrapping_add(1);
                proof {
                    assert(self@ =~= spec_step(old(self)@).0);
                }
                Ok(ExecutionSuccess::Ran)
            },
            Err(e) => {
                proof {
                    assert(self@ =~= spec_step(old(self)@).0);
                }
                Err(ExecutionError::MemoryError(e))
            },
        }
    }

    /// The step taken when no instruction is current.
    fn step_stuck(&mut self) -> (r: Executed)
        requires
            old(self)@.cur_op() is Err,
            old(self).wf(),
        ensures
            (final(self)@, r) == spec_step(old(self)@),
            final(self).wf(),
    {
        proof {
            reveal(spec_step);
        }
        match self.current_op() {
            Err(e) => Err(e),
            Ok(op) => {
                proof {
                    assert(false);
                }
                Err(ExecutionError::EndOfProgram)
            },
        }
    }

    /// The step taken on a file instruction: the plain stepper has no
    /// file table, so the instruction surfaces unexecuted.
    fn step_io(&mut self, op: Op) -> (r: Executed)
        requires
            old(self)@.cur_op() == Ok::<Op, ExecutionError>(op),
            op is In || op is Out || op is Fls || op is Sfd || op is Gfd,
            old(self).wf(),
        ensures
            (final(self)@, r) == spec_step(old(self)@),
            final(self).wf(),
    {
        proof {
            reveal(spec_step);
        }
        Err(ExecutionError::IncorrectOperation(op))
    }

    /// One step of the instructions that read and write data.
    #[verifier::rlimit(100)]
    fn execute_data(&mut self, op: Op) -> (r: Executed)
        requires
            old(self)@.cur_op() == Ok::<Op, ExecutionError>(op),
            old(self).wf(),
            op is Nop || op is End || op is Slp || op is Mov || op is Cnv || op is Add
                || op is Sub || op is Mul || op is Div || op is Mod || op is Shl || op is Shr
                || op is And || op is Or || op is Xor || op is Not || op is Neg || op is Inc
                || op is Dec,
        ensures
            (final(self)@, r) == spec_step(old(self)@),
            final(self).wf(),
    {
        match op {
            Op::Nop => self.step_nop(),
            Op::End(x) => self.step_halt(x, false),
            Op::Slp(x) => self.step_halt(x, true),
            Op::Mov(b, t) => self.step_mov(b, t),
            Op::Cnv(x, y, t, u) => self.step_cnv(x, y, t, u),
            Op::Add(b, t, m) => self.step_add(b, t, m),
            Op::Sub(b, t, m) => self.step_sub(b, t, m),
            Op::Mul(b, t, m) => self.step_mul(b, t, m),
            Op::Div(b, t) => self.step_div(b, t),
            Op::Mod(b, t) => self.step_rem(b, t),
            Op::Shl(x, y, t) => self.step_shl(x, y, t),
            Op::Shr(x, y, t) => self.step_shr(x, y, t),
            Op::And(b, t) => self.step_and(b, t),
            Op::Or(b, t) => self.step_or(b, t),
            Op::Xor(b, t) => self.step_xor(b, t),
            Op::Not(u, t) => self.step_not(u, t),
            Op::Neg(u, t, m) => self.step_neg(u, t, m),
            Op::Inc(u, t, m) => self.step_inc(u, t, m),
            Op::Dec(u, t, m) => self.step_dec(u, t, m),
            _ => {
                proof {
                    assert(false);
                }
                Err(ExecutionError::EndOfProgram)
            },
        }
    }

    /// One step of the conditional instructions and the jump.
    #[verifier::rlimit(100)]
    fn execute_branch(&mut self, op: Op) -> (r: Executed)
        requires
            old(self)@.cur_op() == Ok::<Op, ExecutionError>(op),
            old(self).wf(),
            op is Go || op is Ift || op is Iff || op is Ife || op is Ifl || op is Ifg
                || op is Ine || op is Inl || op is Ing || op is Ifa || op is Ifo || op is Ifx
                || op is Ina || op is Ino || op is Inx,
        ensures
            (final(self)@, r) == spec_step(old(self)@),
            final(self).wf(),
    {
        match op {
            Op::Go(x) => self.step_go(x),
            Op::Ift(u, t) => self.step_ift(u, t),
            Op::Iff(u, t) => self.step_iff(u, t),
            Op::Ife(b, t) => self.step_ife(b, t),
            Op::Ifl(b, t) => self.step_ifl(b, t),
            Op::Ifg(b, t) => self.step_ifg(b, t),
            Op::Ine(b, t) => self.step_ine(b, t),
            Op::Inl(b, t) => self.step_inl(b, t),
            Op::Ing(b, t) => self.step_ing(b, t),
            Op::Ifa(b, t) => self.step_ifa(b, t),
            Op::Ifo(b, t) => self.step_ifo(b, t),
            Op::Ifx(b, t) => self.step_ifx(b, t),
            Op::Ina(b, t) => self.step_ina(b, t),
            Op::Ino(b, t) => self.step_ino(b, t),
            Op::Inx(b, t) => self.step_inx(b, t),
            _ => {
                proof {
                    assert(false);
                }
                Err(ExecutionError::EndOfProgram)
            },
        }
    }

    /// One step of the call protocol, the bulk-memory moves and the
    /// file instructions.
    #[verifier::rlimit(100)]
    fn execute_flow(&mut self, op: Op) -> (r: Executed)
        requires
            old(self)@.cur_op() == Ok::<Op, ExecutionError>(op),
            old(self).wf(),
            op is App || op is Par || op is Clf || op is Ret || op is Zer || op is Cmp
                || op is Cpy || op is In || op is Out || op is Fls || op is Sfd || op is Gfd,
        ensures
            (final(self)@, r) == spec_step(old(self)@),
            final(self).wf(),
    {
        match op {
            Op::App(x) => self.step_app(x),
            Op::Par(u, t, m) => self.step_par(u, t, m),
            Op::Clf(x) => self.step_clf(x),
            Op::Ret(u, t) => self.step_ret(u, t),
            Op::Zer(x, y) => self.step_zer(x, y),
            Op::Cmp(x, y, z) => self.step_cmp(x, y, z),
            Op::Cpy(x, y, z) => self.step_cpy(x, y, z),
            _ => self.step_io(op),
        }
    }

    /// Performs exactly one instruction.  The file instructions are
    /// rejected here: a stepper with a file table is the driver's
    /// affair, and they surface the instruction unexecuted.
    pub fn execute(&mut self) -> (r: Executed)
        requires
            old(self).wf(),
        ensures
            (final(self)@, r) == spec_step(old(self)@),
            final(self).wf(),
    {
        let op = match self.current_op() {
            Ok(op) => op,
            Err(e) => {
                return self.step_stuck();
            },
        };
        let is_data = match op {
            Op::Nop | Op::End(..) | Op::Slp(..) | Op::Mov(..) | Op::Cnv(..) | Op::Add(..)
                | Op::Sub(..) | Op::Mul(..) | Op::Div(..) | Op::Mod(..) | Op::Shl(..)
                | Op::Shr(..) | Op::And(..) | Op::Or(..) | Op::Xor(..) | Op::Not(..)
                | Op::Neg(..) | Op::Inc(..) | Op::Dec(..) => true,
            _ => false,
        };
        if is_data {
            self.execute_data(op)
        } else {
            let is_branch = match op {
                Op::Go(..) | Op::Ift(..) | Op::Iff(..) | Op::Ife(..) | Op::Ifl(..) | Op::Ifg(..)
                    | Op::Ine(..) | Op::Inl(..) | Op::Ing(..) | Op::Ifa(..) | Op::Ifo(..)
                    | Op::Ifx(..) | Op::Ina(..) | Op::Ino(..) | Op::Inx(..) => true,
                _ => false,
            };
            if is_branch {
                self.execute_branch(op)
            } else {
                self.execute_flow(op)
            }
        }
    }
}

} // verus!

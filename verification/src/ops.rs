//! Instructions and their parts: operands, offset-carrying operand
//! groups, numeric type tags, modes and offset-presence variants.

use vstd::prelude::*;

use crate::UWord;

verus! {

/// The reserved-tag decode failures: a field of the wire format held a
/// value outside its closed set.
#[derive(Debug, Eq, PartialEq, Structural, Clone, Copy)]
pub enum UndefinedOperation {
    OpType,
    Kind,
    Variant,
    ArithmeticMode,
    ParameterMode,
}

/// A single operand: a word payload and the rule that resolves it
/// against the current frame.
#[derive(Copy, Clone, Debug, Eq, PartialEq, Structural)]
pub enum Operand {
    /// Local variable at frame base + n.
    Loc(UWord),
    /// Indirect access: the word at local n is dereferenced.
    Ind(UWord),
    /// Caller slot at return address + n.
    Ret(UWord),
    /// Immediate constant value.
    Val(UWord),
    /// The address frame base + n as an immediate value.
    Ref(UWord),
    /// Global at the reserved heap prefix + n.
    Glb(UWord),
    /// Absent operand.
    Emp,
}

/// The kind tag of an operand on the wire.
pub open spec fn operand_kind(o: Operand) -> u8 {
    match o {
        Operand::Loc(_) => 0,
        Operand::Ind(_) => 1,
        Operand::Ret(_) => 2,
        Operand::Val(_) => 3,
        Operand::Ref(_) => 4,
        Operand::Glb(_) => 5,
        Operand::Emp => 6,
    }
}

/// The word payload of an operand, if it has one.
pub open spec fn operand_word(o: Operand) -> Option<UWord> {
    match o {
        Operand::Loc(v) => Some(v),
        Operand::Ind(v) => Some(v),
        Operand::Ret(v) => Some(v),
        Operand::Val(v) => Some(v),
        Operand::Ref(v) => Some(v),
        Operand::Glb(v) => Some(v),
        Operand::Emp => None,
    }
}

/// The operand of kind tag `kind` with payload `val`, for valid tags.
pub open spec fn operand_from_parts(val: UWord, kind: u8) -> Operand {
    match kind {
        0 => Operand::Loc(val),
        1 => Operand::Ind(val),
        2 => Operand::Ret(val),
        3 => Operand::Val(val),
        4 => Operand::Ref(val),
        5 => Operand::Glb(val),
        _ => Operand::Emp,
    }
}

impl Operand {
    /// Builds the operand for a kind tag read off the wire; tags above 6
    /// are rejected.
    pub fn new(val: UWord, kind: u8) -> (r: Result<Self, UndefinedOperation>)
        ensures
            kind <= 6 ==> r == Result::<Self, UndefinedOperation>::Ok(
                operand_from_parts(val, kind),
            ),
            kind > 6 ==> r == Result::<Self, UndefinedOperation>::Err(UndefinedOperation::Kind),
    {
        match kind {
            0 => Ok(Operand::Loc(val)),
            1 => Ok(Operand::Ind(val)),
            2 => Ok(Operand::Ret(val)),
            3 => Ok(Operand::Val(val)),
            4 => Ok(Operand::Ref(val)),
            5 => Ok(Operand::Glb(val)),
            6 => Ok(Operand::Emp),
            _ => Err(UndefinedOperation::Kind),
        }
    }

    /// The kind tag this operand carries on the wire.
    pub fn as_byte(&self) -> (r: u8)
        ensures
            r == operand_kind(*self),
    {
        match self {
            Operand::Loc(_) => 0,
            Operand::Ind(_) => 1,
            Operand::Ret(_) => 2,
            Operand::Val(_) => 3,
            Operand::Ref(_) => 4,
            Operand::Glb(_) => 5,
            Operand::Emp => 6,
        }
    }

    /// The word payload, `None` for the absent operand.
    pub fn get(self) -> (r: Option<UWord>)
        ensures
            r == operand_word(self),
    {
        match self {
            Operand::Loc(v) => Some(v),
            Operand::Ind(v) => Some(v),
            Operand::Ret(v) => Some(v),
            Operand::Val(v) => Some(v),
            Operand::Ref(v) => Some(v),
            Operand::Glb(v) => Some(v),
            Operand::Emp => None,
        }
    }

    /// The operand's payload passed through `f`, its kind kept; the
    /// absent operand is returned untouched.
    pub fn map<G: FnOnce(UWord) -> UWord>(self, f: G) -> (r: Self)
        requires
            forall|v: UWord| f.requires((v,)),
        ensures
            self is Emp ==> r == self,
            !(self is Emp) ==> exists|w: UWord|
                {
                    &&& #[trigger] f.ensures((operand_word(self)->Some_0,), w)
                    &&& r == spec_with_word(self, w)
                },
    {
        match self.get() {
            Some(v) => self.with_word(f(v)),
            None => self,
        }
    }

    /// The same kind of operand with payload `w`; the absent operand
    /// stays absent.
    pub fn with_word(self, w: UWord) -> (r: Self)
        ensures
            r == spec_with_word(self, w),
    {
        match self {
            Operand::Loc(_) => Operand::Loc(w),
            Operand::Ind(_) => Operand::Ind(w),
            Operand::Ret(_) => Operand::Ret(w),
            Operand::Val(_) => Operand::Val(w),
            Operand::Ref(_) => Operand::Ref(w),
            Operand::Glb(_) => Operand::Glb(w),
            Operand::Emp => Operand::Emp,
        }
    }
}

/// Word addition, wrapping at the word's width.
pub open spec fn spec_wrap_word(a: UWord, b: UWord) -> UWord {
    if a + b > UWord::MAX {
        (a + b - 0x1_0000_0000) as UWord
    } else {
        (a + b) as UWord
    }
}

/// `o` with its payload replaced by `w` (kind kept, `Emp` kept).
pub open spec fn spec_with_word(o: Operand, w: UWord) -> Operand {
    match o {
        Operand::Emp => Operand::Emp,
        _ => operand_from_parts(w, operand_kind(o)),
    }
}

/// One operand with an optional offset operand.
#[derive(Copy, Clone, Debug, Eq, PartialEq, Structural)]
pub struct UnOp {
    pub x: Operand,
    pub x_offset: Option<Operand>,
}

impl UnOp {
    pub fn new(x: Operand) -> (r: Self)
        ensures
            r == (UnOp { x, x_offset: None }),
    {
        Self { x, x_offset: None }
    }

    pub fn with_x_offset(self, x_offset: Operand) -> (r: Self)
        ensures
            r == (UnOp { x: self.x, x_offset: Some(x_offset) }),
    {
        Self { x: self.x, x_offset: Some(x_offset) }
    }

    /// `with_x_offset` under the name the offset-presence pattern uses.
    pub fn with_first(self, offset: Operand) -> (r: Self)
        ensures
            r == (UnOp { x: self.x, x_offset: Some(offset) }),
    {
        self.with_x_offset(offset)
    }

    /// The offset-presence pattern of this group.
    pub fn variant(&self) -> (r: Variant)
        ensures
            r == un_op_variant(*self),
    {
        match self.x_offset {
            None => Variant::NoOffset,
            Some(_) => Variant::First,
        }
    }

    /// The base operand.
    pub fn x(&self) -> (r: Operand)
        ensures
            r == self.x,
    {
        self.x
    }
}

/// The offset-presence pattern of a one-operand group.
pub open spec fn un_op_variant(u: UnOp) -> Variant {
    match u.x_offset {
        None => Variant::NoOffset,
        Some(_) => Variant::First,
    }
}

/// Two operands, each with an optional offset operand.
#[derive(Copy, Clone, Debug, Eq, PartialEq, Structural)]
pub struct BinOp {
    pub x: Operand,
    pub x_offset: Option<Operand>,
    pub y: Operand,
    pub y_offset: Option<Operand>,
}

impl BinOp {
    pub fn new(x: Operand, y: Operand) -> (r: Self)
        ensures
            r == (BinOp { x, x_offset: None, y, y_offset: None }),
    {
        Self { x, x_offset: None, y, y_offset: None }
    }

    pub fn with_x_offset(self, x_offset: Operand) -> (r: Self)
        ensures
            r == (BinOp { x_offset: Some(x_offset), ..self }),
    {
        Self { x_offset: Some(x_offset), ..self }
    }

    pub fn with_y_offset(self, y_offset: Operand) -> (r: Self)
        ensures
            r == (BinOp { y_offset: Some(y_offset), ..self }),
    {
        Self { y_offset: Some(y_offset), ..self }
    }

    /// `with_x_offset` under the name the offset-presence pattern uses.
    pub fn with_first(self, offset: Operand) -> (r: Self)
        ensures
            r == (BinOp { x_offset: Some(offset), ..self }),
    {
        self.with_x_offset(offset)
    }

    /// `with_y_offset` under the name the offset-presence pattern uses.
    pub fn with_second(self, offset: Operand) -> (r: Self)
        ensures
            r == (BinOp { y_offset: Some(offset), ..self }),
    {
        self.with_y_offset(offset)
    }

    /// Both offsets at once, in operand order.
    pub fn with_both(self, x_offset: Operand, y_offset: Operand) -> (r: Self)
        ensures
            r == (BinOp { x_offset: Some(x_offset), y_offset: Some(y_offset), ..self }),
    {
        Self { x_offset: Some(x_offset), y_offset: Some(y_offset), ..self }
    }

    /// The offset-presence pattern of this group.
    pub fn variant(&self) -> (r: Variant)
        ensures
            r == bin_op_variant(*self),
    {
        match (self.x_offset, self.y_offset) {
            (None, None) => Variant::NoOffset,
            (Some(_), None) => Variant::First,
            (None, Some(_)) => Variant::Second,
            (Some(_), Some(_)) => Variant::Both,
        }
    }
}

/// The offset-presence pattern of a two-operand group.
pub open spec fn bin_op_variant(b: BinOp) -> Variant {
    match (b.x_offset, b.y_offset) {
        (Option::None, Option::None) => Variant::NoOffset,
        (Option::Some(_), Option::None) => Variant::First,
        (Option::None, Option::Some(_)) => Variant::Second,
        (Option::Some(_), Option::Some(_)) => Variant::Both,
    }
}

/// One decoded instruction.
#[derive(Copy, Clone, Debug, Eq, PartialEq, Structural)]
pub enum Op {
    Nop,
    End(Operand),
    Slp(Operand),
    Mov(BinOp, OpType),
    Cnv(Operand, Operand, OpType, OpType),
    Add(BinOp, OpType, ArithmeticMode),
    Sub(BinOp, OpType, ArithmeticMode),
    Mul(BinOp, OpType, ArithmeticMode),
    Div(BinOp, OpType),
    Mod(BinOp, OpType),
    Shl(Operand, Operand, OpType),
    Shr(Operand, Operand, OpType),
    And(BinOp, OpType),
    Or(BinOp, OpType),
    Xor(BinOp, OpType),
    Not(UnOp, OpType),
    Neg(UnOp, OpType, ArithmeticMode),
    Inc(UnOp, OpType, ArithmeticMode),
    Dec(UnOp, OpType, ArithmeticMode),
    Go(Operand),
    Ift(UnOp, OpType),
    Iff(UnOp, OpType),
    Ife(BinOp, OpType),
    Ifl(BinOp, OpType),
    Ifg(BinOp, OpType),
    Ine(BinOp, OpType),
    Inl(BinOp, OpType),
    Ing(BinOp, OpType),
    Ifa(BinOp, OpType),
    Ifo(BinOp, OpType),
    Ifx(BinOp, OpType),
    Ina(BinOp, OpType),
    Ino(BinOp, OpType),
    Inx(BinOp, OpType),
    App(Operand),
    Par(UnOp, OpType, ParameterMode),
    Clf(Operand),
    Ret(UnOp, OpType),
    In(BinOp),
    Out(UnOp),
    Fls,
    Sfd(Operand),
    Gfd(Operand),
    Zer(Operand, Operand),
    Cmp(Operand, Operand, Operand),
    Cpy(Operand, Operand, Operand),
}

/// Whether an instruction takes part in conditional-chain skipping.
pub open spec fn spec_is_conditional(op: Op) -> bool {
    match op {
        Op::Ift(..) | Op::Iff(..) | Op::Ife(..) | Op::Ifl(..) | Op::Ifg(..) | Op::Ine(..)
            | Op::Inl(..) | Op::Ing(..) | Op::Ifa(..) | Op::Ifo(..) | Op::Ifx(..) | Op::Ina(..)
            | Op::Ino(..) | Op::Inx(..) | Op::Cmp(..) => true,
        _ => false,
    }
}

/// The opcode byte of an instruction.
pub open spec fn spec_op_code(op: Op) -> u8 {
    match op {
        Op::Nop => crate::op_codes::NOP,
        Op::End(..) => crate::op_codes::END,
        Op::Slp(..) => crate::op_codes::SLP,
        Op::Mov(..) => crate::op_codes::SET,
        Op::Cnv(..) => crate::op_codes::CNV,
        Op::Add(..) => crate::op_codes::ADD,
        Op::Sub(..) => crate::op_codes::SUB,
        Op::Mul(..) => crate::op_codes::MUL,
        Op::Div(..) => crate::op_codes::DIV,
        Op::Mod(..) => crate::op_codes::MOD,
        Op::Shl(..) => crate::op_codes::SHL,
        Op::Shr(..) => crate::op_codes::SHR,
        Op::And(..) => crate::op_codes::AND,
        Op::Or(..) => crate::op_codes::OR,
        Op::Xor(..) => crate::op_codes::XOR,
        Op::Not(..) => crate::op_codes::NOT,
        Op::Neg(..) => crate::op_codes::NEG,
        Op::Inc(..) => crate::op_codes::INC,
        Op::Dec(..) => crate::op_codes::DEC,
        Op::Go(..) => crate::op_codes::GO,
        Op::Ift(..) => crate::op_codes::IFT,
        Op::Iff(..) => crate::op_codes::IFF,
        Op::Ife(..) => crate::op_codes::IFE,
        Op::Ifl(..) => crate::op_codes::IFL,
        Op::Ifg(..) => crate::op_codes::IFG,
        Op::Ine(..) => crate::op_codes::INE,
        Op::Inl(..) => crate::op_codes::INL,
        Op::Ing(..) => crate::op_codes::ING,
        Op::Ifa(..) => crate::op_codes::IFA,
        Op::Ifo(..) => crate::op_codes::IFO,
        Op::Ifx(..) => crate::op_codes::IFX,
        Op::Ina(..) => crate::op_codes::INA,
        Op::Ino(..) => crate::op_codes::INO,
        Op::Inx(..) => crate::op_codes::INX,
        Op::App(..) => crate::op_codes::APP,
        Op::Par(..) => crate::op_codes::PAR,
        Op::Clf(..) => crate::op_codes::CLF,
        Op::Ret(..) => crate::op_codes::RET,
        Op::In(..) => crate::op_codes::IN,
        Op::Out(..) => crate::op_codes::OUT,
        Op::Fls => crate::op_codes::FLS,
        Op::Sfd(..) => crate::op_codes::SFD,
        Op::Gfd(..) => crate::op_codes::GFD,
        Op::Zer(..) => crate::op_codes::ZER,
        Op::Cmp(..) => crate::op_codes::CMP,
        Op::Cpy(..) => crate::op_codes::CPY,
    }
}

impl Op {
    /// Whether a false conditional skipping forward steps over this
    /// instruction as part of the chain.
    pub fn is_conditional(&self) -> (r: bool)
        ensures
            r == spec_is_conditional(*self),
    {
        match self {
            Op::Ift(..) | Op::Iff(..) | Op::Ife(..) | Op::Ifl(..) | Op::Ifg(..) | Op::Ine(..)
                | Op::Inl(..) | Op::Ing(..) | Op::Ifa(..) | Op::Ifo(..) | Op::Ifx(..)
                | Op::Ina(..) | Op::Ino(..) | Op::Inx(..) | Op::Cmp(..) => true,
            _ => false,
        }
    }

    /// The opcode byte this instruction encodes under.
    pub fn op_code(&self) -> (r: u8)
        ensures
            r == spec_op_code(*self),
    {
        match self {
            Op::Nop => crate::op_codes::NOP,
            Op::End(..) => crate::op_codes::END,
            Op::Slp(..) => crate::op_codes::SLP,
            Op::Mov(..) => crate::op_codes::SET,
            Op::Cnv(..) => crate::op_codes::CNV,
            Op::Add(..) => crate::op_codes::ADD,
            Op::Sub(..) => crate::op_codes::SUB,
            Op::Mul(..) => crate::op_codes::MUL,
            Op::Div(..) => crate::op_codes::DIV,
            Op::Mod(..) => crate::op_codes::MOD,
            Op::Shl(..) => crate::op_codes::SHL,
            Op::Shr(..) => crate::op_codes::SHR,
            Op::And(..) => crate::op_codes::AND,
            Op::Or(..) => crate::op_codes::OR,
            Op::Xor(..) => crate::op_codes::XOR,
            Op::Not(..) => crate::op_codes::NOT,
            Op::Neg(..) => crate::op_codes::NEG,
            Op::Inc(..) => crate::op_codes::INC,
            Op::Dec(..) => crate::op_codes::DEC,
            Op::Go(..) => crate::op_codes::GO,
            Op::Ift(..) => crate::op_codes::IFT,
            Op::Iff(..) => crate::op_codes::IFF,
            Op::Ife(..) => crate::op_codes::IFE,
            Op::Ifl(..) => crate::op_codes::IFL,
            Op::Ifg(..) => crate::op_codes::IFG,
            Op::Ine(..) => crate::op_codes::INE,
            Op::Inl(..) => crate::op_codes::INL,
            Op::Ing(..) => crate::op_codes::ING,
            Op::Ifa(..) => crate::op_codes::IFA,
            Op::Ifo(..) => crate::op_codes::IFO,
            Op::Ifx(..) => crate::op_codes::IFX,
            Op::Ina(..) => crate::op_codes::INA,
            Op::Ino(..) => crate::op_codes::INO,
            Op::Inx(..) => crate::op_codes::INX,
            Op::App(..) => crate::op_codes::APP,
            Op::Par(..) => crate::op_codes::PAR,
            Op::Clf(..) => crate::op_codes::CLF,
            Op::Ret(..) => crate::op_codes::RET,
            Op::In(..) => crate::op_codes::IN,
            Op::Out(..) => crate::op_codes::OUT,
            Op::Fls => crate::op_codes::FLS,
            Op::Sfd(..) => crate::op_codes::SFD,
            Op::Gfd(..) => crate::op_codes::GFD,
            Op::Zer(..) => crate::op_codes::ZER,
            Op::Cmp(..) => crate::op_codes::CMP,
            Op::Cpy(..) => crate::op_codes::CPY,
        }
    }
}

/// The twelve numeric types a typed instruction can name.
#[derive(Copy, Clone, Debug, Eq, PartialEq, Structural)]
pub enum OpType {
    U8,
    I8,
    U16,
    I16,
    U32,
    I32,
    U64,
    I64,
    Uw,
    Iw,
    F32,
    F64,
}

/// The type built from a wire tag; tags 10, 12 and everything above 13
/// are reserved.
pub open spec fn op_type_from_tag(value: u8) -> Option<OpType> {
    match value {
        0 => Some(OpType::U8),
        1 => Some(OpType::I8),
        2 => Some(OpType::U16),
        3 => Some(OpType::I16),
        4 => Some(OpType::U32),
        5 => Some(OpType::I32),
        6 => Some(OpType::U64),
        7 => Some(OpType::I64),
        8 => Some(OpType::Uw),
        9 => Some(OpType::Iw),
        11 => Some(OpType::F32),
        13 => Some(OpType::F64),
        _ => None,
    }
}

/// The wire tag of a numeric type.
pub open spec fn op_type_tag(t: OpType) -> u8 {
    match t {
        OpType::U8 => 0,
        OpType::I8 => 1,
        OpType::U16 => 2,
        OpType::I16 => 3,
        OpType::U32 => 4,
        OpType::I32 => 5,
        OpType::U64 => 6,
        OpType::I64 => 7,
        OpType::Uw => 8,
        OpType::Iw => 9,
        OpType::F32 => 11,
        OpType::F64 => 13,
    }
}

/// The size of a numeric type in bytes; the word types have the word's
/// size.
pub open spec fn op_type_size(t: OpType) -> UWord {
    match t {
        OpType::U8 => 1,
        OpType::I8 => 1,
        OpType::U16 => 2,
        OpType::I16 => 2,
        OpType::U32 => 4,
        OpType::I32 => 4,
        OpType::U64 => 8,
        OpType::I64 => 8,
        OpType::Uw => 4,
        OpType::Iw => 4,
        OpType::F32 => 4,
        OpType::F64 => 8,
    }
}

impl OpType {
    /// Reads a type tag; the reserved tags are rejected.
    pub fn new(value: u8) -> (r: Result<Self, UndefinedOperation>)
        ensures
            r matches Ok(t) ==> op_type_from_tag(value) == Some(t),
            r is Err <==> op_type_from_tag(value) is None,
            r is Err ==> r == Result::<Self, UndefinedOperation>::Err(UndefinedOperation::OpType),
    {
        match value {
            0 => Ok(OpType::U8),
            1 => Ok(OpType::I8),
            2 => Ok(OpType::U16),
            3 => Ok(OpType::I16),
            4 => Ok(OpType::U32),
            5 => Ok(OpType::I32),
            6 => Ok(OpType::U64),
            7 => Ok(OpType::I64),
            8 => Ok(OpType::Uw),
            9 => Ok(OpType::Iw),
            11 => Ok(OpType::F32),
            13 => Ok(OpType::F64),
            _ => Err(UndefinedOperation::OpType),
        }
    }

    /// The wire tag of this type.
    pub fn as_byte(&self) -> (r: u8)
        ensures
            r == op_type_tag(*self),
    {
        match self {
            OpType::U8 => 0,
            OpType::I8 => 1,
            OpType::U16 => 2,
            OpType::I16 => 3,
            OpType::U32 => 4,
            OpType::I32 => 5,
            OpType::U64 => 6,
            OpType::I64 => 7,
            OpType::Uw => 8,
            OpType::Iw => 9,
            OpType::F32 => 11,
            OpType::F64 => 13,
        }
    }

    /// The size of a value of this type in bytes.
    pub fn size(&self) -> (r: UWord)
        ensures
            r == op_type_size(*self),
    {
        match self {
            OpType::U8 => 1,
            OpType::I8 => 1,
            OpType::U16 => 2,
            OpType::I16 => 2,
            OpType::U32 => 4,
            OpType::I32 => 4,
            OpType::U64 => 8,
            OpType::I64 => 8,
            OpType::Uw => 4,
            OpType::Iw => 4,
            OpType::F32 => 4,
            OpType::F64 => 8,
        }
    }
}

/// A raw two-bit mode field, before an opcode decides whether it is an
/// arithmetic or a parameter mode.
#[derive(Copy, Clone, Debug, Eq, PartialEq, Structural)]
pub struct Mode(pub u8);

impl Mode {
    /// Reads the field as an arithmetic mode.
    pub fn into_arithmetic(self) -> (r: Result<ArithmeticMode, UndefinedOperation>)
        ensures
            self.0 <= 3 ==> (r matches Ok(m) && arithmetic_mode_from_tag(self.0) == Some(m)),
            self.0 > 3 ==> r == Result::<ArithmeticMode, UndefinedOperation>::Err(
                UndefinedOperation::ArithmeticMode,
            ),
    {
        ArithmeticMode::new(self.0)
    }

    /// Reads the field as a parameter mode.
    pub fn into_parameter(self) -> (r: Result<ParameterMode, UndefinedOperation>)
        ensures
            self.0 <= 2 ==> (r matches Ok(m) && parameter_mode_from_tag(self.0) == Some(m)),
            self.0 > 2 ==> r == Result::<ParameterMode, UndefinedOperation>::Err(
                UndefinedOperation::ParameterMode,
            ),
    {
        ParameterMode::new(self.0)
    }
}

/// How arithmetic treats a result that does not fit its type.
#[derive(Copy, Clone, Debug, Eq, PartialEq, Structural)]
pub enum ArithmeticMode {
    /// Two's-complement wrap-around.
    Wrap,
    /// Clamp to the type's extremes.
    Sat,
    /// Compute in the next wider type.
    Wide,
    /// Trap with an overflow error.
    Hand,
}

pub open spec fn arithmetic_mode_from_tag(value: u8) -> Option<ArithmeticMode> {
    match value {
        0 => Some(ArithmeticMode::Wrap),
        1 => Some(ArithmeticMode::Sat),
        2 => Some(ArithmeticMode::Wide),
        3 => Some(ArithmeticMode::Hand),
        _ => None,
    }
}

pub open spec fn arithmetic_mode_tag(m: ArithmeticMode) -> u8 {
    match m {
        ArithmeticMode::Wrap => 0,
        ArithmeticMode::Sat => 1,
        ArithmeticMode::Wide => 2,
        ArithmeticMode::Hand => 3,
    }
}

impl ArithmeticMode {
    pub fn new(value: u8) -> (r: Result<Self, UndefinedOperation>)
        ensures
            value <= 3 ==> (r matches Ok(m) && arithmetic_mode_from_tag(value) == Some(m)),
            value > 3 ==> r == Result::<Self, UndefinedOperation>::Err(
                UndefinedOperation::ArithmeticMode,
            ),
    {
        match value {
            0 => Ok(ArithmeticMode::Wrap),
            1 => Ok(ArithmeticMode::Sat),
            2 => Ok(ArithmeticMode::Wide),
            3 => Ok(ArithmeticMode::Hand),
            _ => Err(UndefinedOperation::ArithmeticMode),
        }
    }

    pub fn as_byte(&self) -> (r: u8)
        ensures
            r == arithmetic_mode_tag(*self),
    {
        match self {
            ArithmeticMode::Wrap => 0,
            ArithmeticMode::Sat => 1,
            ArithmeticMode::Wide => 2,
            ArithmeticMode::Hand => 3,
        }
    }

    pub fn as_mode(&self) -> (r: Mode)
        ensures
            r == Mode(arithmetic_mode_tag(*self)),
    {
        Mode(self.as_byte())
    }
}

impl Default for ArithmeticMode {
    fn default() -> (r: Self)
        ensures
            r == ArithmeticMode::Wrap,
    {
        ArithmeticMode::Wrap
    }
}

/// How a `Par` instruction fills one parameter slot.
#[derive(Copy, Clone, Debug, Eq, PartialEq, Structural)]
pub enum ParameterMode {
    /// Copy the value read through the operand.
    Mov,
    /// Leave the slot as it is.
    Emp,
    /// Zero the slot.
    Zer,
}

pub open spec fn parameter_mode_from_tag(value: u8) -> Option<ParameterMode> {
    match value {
        0 => Some(ParameterMode::Mov),
        1 => Some(ParameterMode::Emp),
        2 => Some(ParameterMode::Zer),
        _ => None,
    }
}

pub open spec fn parameter_mode_tag(m: ParameterMode) -> u8 {
    match m {
        ParameterMode::Mov => 0,
        ParameterMode::Emp => 1,
        ParameterMode::Zer => 2,
    }
}

impl ParameterMode {
    pub fn new(value: u8) -> (r: Result<Self, UndefinedOperation>)
        ensures
            value <= 2 ==> (r matches Ok(m) && parameter_mode_from_tag(value) == Some(m)),
            value > 2 ==> r == Result::<Self, UndefinedOperation>::Err(
                UndefinedOperation::ParameterMode,
            ),
    {
        match value {
            0 => Ok(ParameterMode::Mov),
            1 => Ok(ParameterMode::Emp),
            2 => Ok(ParameterMode::Zer),
            _ => Err(UndefinedOperation::ParameterMode),
        }
    }

    pub fn as_byte(&self) -> (r: u8)
        ensures
            r == parameter_mode_tag(*self),
    {
        match self {
            ParameterMode::Mov => 0,
            ParameterMode::Emp => 1,
            ParameterMode::Zer => 2,
        }
    }

    pub fn as_mode(&self) -> (r: Mode)
        ensures
            r == Mode(parameter_mode_tag(*self)),
    {
        Mode(self.as_byte())
    }
}

impl Default for ParameterMode {
    fn default() -> (r: Self)
        ensures
            r == ParameterMode::Mov,
    {
        ParameterMode::Mov
    }
}

/// Which offset operands a `UnOp` or `BinOp` carries.
#[derive(Copy, Clone, Debug, Eq, PartialEq, Structural)]
pub enum Variant {
    /// No offsets.
    NoOffset,
    /// Only the first operand has an offset.
    First,
    /// Only the second operand has an offset.
    Second,
    /// Both operands have offsets.
    Both,
}

pub open spec fn variant_from_tag(value: u8) -> Option<Variant> {
    match value {
        0 => Some(Variant::NoOffset),
        1 => Some(Variant::First),
        2 => Some(Variant::Second),
        3 => Some(Variant::Both),
        _ => None,
    }
}

pub open spec fn variant_tag(v: Variant) -> u8 {
    match v {
        Variant::NoOffset => 0,
        Variant::First => 1,
        Variant::Second => 2,
        Variant::Both => 3,
    }
}

impl Variant {
    pub fn new(value: u8) -> (r: Result<Self, UndefinedOperation>)
        ensures
            value <= 3 ==> (r matches Ok(v) && variant_from_tag(value) == Some(v)),
            value > 3 ==> r == Result::<Self, UndefinedOperation>::Err(UndefinedOperation::Variant),
    {
        match value {
            0 => Ok(Variant::NoOffset),
            1 => Ok(Variant::First),
            2 => Ok(Variant::Second),
            3 => Ok(Variant::Both),
            _ => Err(UndefinedOperation::Variant),
        }
    }

    pub fn as_byte(&self) -> (r: u8)
        ensures
            r == variant_tag(*self),
    {
        match self {
            Variant::NoOffset => 0,
            Variant::First => 1,
            Variant::Second => 2,
            Variant::Both => 3,
        }
    }
}

impl Default for Variant {
    fn default() -> (r: Self)
        ensures
            r == Variant::NoOffset,
    {
        Variant::NoOffset
    }
}

} // verus!

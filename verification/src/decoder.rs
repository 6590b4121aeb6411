//! The instruction decoder: the exact inverse of the encoder, stated
//! first as spec functions over byte sequences and then implemented
//! over byte slices with a cursor.

use vstd::prelude::*;

use crate::bytes::le_to_nat;
use crate::ops::ArithmeticMode;
use crate::ops::Mode;
use crate::ops::{
    arithmetic_mode_from_tag, op_type_from_tag, operand_from_parts, parameter_mode_from_tag,
    variant_from_tag, BinOp, Op, OpType, Operand, UnOp, UndefinedOperation, Variant,
};
use crate::primary::le_value_of_slice;
use crate::UWord;

verus! {

broadcast use crate::bytes::lemma_nat_to_le_len_auto;

/// What decoding can fail with.
#[derive(Copy, Clone, Debug, Eq, PartialEq, Structural)]
pub enum DecodeError {
    /// The stream ended in the middle of an instruction.
    UnexpectedEnd,
    /// The opcode byte is not assigned.
    UnknownOpCode,
    /// A tag field held a reserved value.
    UndefinedOperation(UndefinedOperation),
    /// A one-operand group named an offset pattern it cannot carry.
    IncorrectVariant,
}

/// The word read from at most four little-endian bytes.
pub open spec fn le_word(s: Seq<u8>) -> UWord {
    (le_to_nat(s) % 0x1_0000_0000) as UWord
}

/// How one operand is read at `pos`.
pub open spec fn spec_decode_operand(s: Seq<u8>, pos: int) -> Result<
    (Operand, int),
    DecodeError,
> {
    if !(0 <= pos < s.len()) {
        Err(DecodeError::UnexpectedEnd)
    } else {
        let m = s[pos] as int;
        if m < 0x80 {
            Ok((Operand::Loc(m as UWord), pos + 1))
        } else {
            let kind = (m - 0x80) / 16;
            let n = (m - 0x80) % 16 + 1;
            if kind == 6 {
                Ok((Operand::Emp, pos + 1))
            } else if kind == 7 {
                Err(DecodeError::UndefinedOperation(UndefinedOperation::Kind))
            } else if pos + 1 + n > s.len() {
                Err(DecodeError::UnexpectedEnd)
            } else {
                let k = if n <= 4 {
                    n
                } else {
                    4
                };
                let v = le_word(s.subrange(pos + 1, pos + 1 + k));
                Ok((operand_from_parts(v, kind as u8), pos + 1 + n))
            }
        }
    }
}

/// How a packed metadata byte is read at `pos`.
pub open spec fn spec_decode_meta(s: Seq<u8>, pos: int) -> Result<
    ((OpType, u8, Variant), int),
    DecodeError,
> {
    if !(0 <= pos < s.len()) {
        Err(DecodeError::UnexpectedEnd)
    } else {
        let b = s[pos] as int;
        match op_type_from_tag((b % 16) as u8) {
            None => Err(DecodeError::UndefinedOperation(UndefinedOperation::OpType)),
            Some(t) => match variant_from_tag((b / 64) as u8) {
                None => Err(DecodeError::UndefinedOperation(UndefinedOperation::Variant)),
                Some(var) => Ok(((t, ((b / 16) % 4) as u8, var), pos + 1)),
            },
        }
    }
}

/// How the two-type byte of a conversion is read at `pos`.
pub open spec fn spec_decode_cnv_meta(s: Seq<u8>, pos: int) -> Result<
    ((OpType, OpType), int),
    DecodeError,
> {
    if !(0 <= pos < s.len()) {
        Err(DecodeError::UnexpectedEnd)
    } else {
        let b = s[pos] as int;
        match op_type_from_tag((b % 16) as u8) {
            None => Err(DecodeError::UndefinedOperation(UndefinedOperation::OpType)),
            Some(t) => match op_type_from_tag((b / 16) as u8) {
                None => Err(DecodeError::UndefinedOperation(UndefinedOperation::OpType)),
                Some(u) => Ok(((t, u), pos + 1)),
            },
        }
    }
}

/// How a type-only metadata byte is read at `pos`: the high bits are
/// ignored.
pub open spec fn spec_decode_type(s: Seq<u8>, pos: int) -> Result<(OpType, int), DecodeError> {
    if !(0 <= pos < s.len()) {
        Err(DecodeError::UnexpectedEnd)
    } else {
        let b = s[pos] as int;
        match op_type_from_tag((b % 16) as u8) {
            None => Err(DecodeError::UndefinedOperation(UndefinedOperation::OpType)),
            Some(t) => Ok((t, pos + 1)),
        }
    }
}

/// How a one-operand group is read under a given offset pattern.
pub open spec fn spec_decode_un(s: Seq<u8>, pos: int, var: Variant) -> Result<
    (UnOp, int),
    DecodeError,
> {
    match spec_decode_operand(s, pos) {
        Err(e) => Err(e),
        Ok((x, p1)) => match var {
            Variant::NoOffset => Ok((UnOp { x, x_offset: None }, p1)),
            Variant::First => match spec_decode_operand(s, p1) {
                Err(e) => Err(e),
                Ok((o, p2)) => Ok((UnOp { x, x_offset: Some(o) }, p2)),
            },
            _ => Err(DecodeError::IncorrectVariant),
        },
    }
}

/// How a two-operand group is read under a given offset pattern: both
/// base operands, then the offsets the pattern names.
pub open spec fn spec_decode_bin(s: Seq<u8>, pos: int, var: Variant) -> Result<
    (BinOp, int),
    DecodeError,
> {
    match spec_decode_operand(s, pos) {
        Err(e) => Err(e),
        Ok((x, p1)) => match spec_decode_operand(s, p1) {
            Err(e) => Err(e),
            Ok((y, p2)) => match var {
                Variant::NoOffset => Ok((BinOp { x, x_offset: None, y, y_offset: None }, p2)),
                Variant::First => match spec_decode_operand(s, p2) {
                    Err(e) => Err(e),
                    Ok((xo, p3)) => Ok(
                        (BinOp { x, x_offset: Some(xo), y, y_offset: None }, p3),
                    ),
                },
                Variant::Second => match spec_decode_operand(s, p2) {
                    Err(e) => Err(e),
                    Ok((yo, p3)) => Ok(
                        (BinOp { x, x_offset: None, y, y_offset: Some(yo) }, p3),
                    ),
                },
                Variant::Both => match spec_decode_operand(s, p2) {
                    Err(e) => Err(e),
                    Ok((xo, p3)) => match spec_decode_operand(s, p3) {
                        Err(e) => Err(e),
                        Ok((yo, p4)) => Ok(
                            (BinOp { x, x_offset: Some(xo), y, y_offset: Some(yo) }, p4),
                        ),
                    },
                },
            },
        },
    }
}

/// A meta byte and two-operand group, with the mode field read as an
/// arithmetic mode.
pub open spec fn spec_decode_bin_arith(s: Seq<u8>, pos: int) -> Result<
    ((BinOp, OpType, crate::ops::ArithmeticMode), int),
    DecodeError,
> {
    match spec_decode_meta(s, pos) {
        Err(e) => Err(e),
        Ok(((t, mode, var), p1)) => match spec_decode_bin(s, p1, var) {
            Err(e) => Err(e),
            Ok((b, p2)) => match arithmetic_mode_from_tag(mode) {
                None => Err(
                    DecodeError::UndefinedOperation(UndefinedOperation::ArithmeticMode),
                ),
                Some(m) => Ok(((b, t, m), p2)),
            },
        },
    }
}

/// A meta byte and two-operand group whose mode field is ignored.
pub open spec fn spec_decode_bin_plain(s: Seq<u8>, pos: int) -> Result<
    ((BinOp, OpType), int),
    DecodeError,
> {
    match spec_decode_meta(s, pos) {
        Err(e) => Err(e),
        Ok(((t, mode, var), p1)) => match spec_decode_bin(s, p1, var) {
            Err(e) => Err(e),
            Ok((b, p2)) => Ok(((b, t), p2)),
        },
    }
}

/// A meta byte and one-operand group, with the mode field read as an
/// arithmetic mode.
pub open spec fn spec_decode_un_arith(s: Seq<u8>, pos: int) -> Result<
    ((UnOp, OpType, crate::ops::ArithmeticMode), int),
    DecodeError,
> {
    match spec_decode_meta(s, pos) {
        Err(e) => Err(e),
        Ok(((t, mode, var), p1)) => match spec_decode_un(s, p1, var) {
            Err(e) => Err(e),
            Ok((u, p2)) => match arithmetic_mode_from_tag(mode) {
                None => Err(
                    DecodeError::UndefinedOperation(UndefinedOperation::ArithmeticMode),
                ),
                Some(m) => Ok(((u, t, m), p2)),
            },
        },
    }
}

/// A meta byte and one-operand group whose mode field is ignored.
pub open spec fn spec_decode_un_plain(s: Seq<u8>, pos: int) -> Result<
    ((UnOp, OpType), int),
    DecodeError,
> {
    match spec_decode_meta(s, pos) {
        Err(e) => Err(e),
        Ok(((t, mode, var), p1)) => match spec_decode_un(s, p1, var) {
            Err(e) => Err(e),
            Ok((u, p2)) => Ok(((u, t), p2)),
        },
    }
}

/// How one whole instruction is read at `pos`.
#[verifier::opaque]
pub open spec fn spec_decode_op(s: Seq<u8>, pos: int) -> Result<(Op, int), DecodeError> {
    if !(0 <= pos < s.len()) {
        Err(DecodeError::UnexpectedEnd)
    } else {
        let code = s[pos];
        let p = pos + 1;
        if code == crate::op_codes::NOP {
            Ok((Op::Nop, p))
        } else if code == crate::op_codes::END {
            match spec_decode_operand(s, p) {
                Err(e) => Err(e),
                Ok((x, p1)) => Ok((Op::End(x), p1)),
            }
        } else if code == crate::op_codes::SLP {
            match spec_decode_operand(s, p) {
                Err(e) => Err(e),
                Ok((x, p1)) => Ok((Op::Slp(x), p1)),
            }
        } else if code == crate::op_codes::SET {
            match spec_decode_bin_plain(s, p) {
                Err(e) => Err(e),
                Ok(((b, t), p1)) => Ok((Op::Mov(b, t), p1)),
            }
        } else if code == crate::op_codes::CNV {
            match spec_decode_cnv_meta(s, p) {
                Err(e) => Err(e),
                Ok(((t, u), p1)) => match spec_decode_operand(s, p1) {
                    Err(e) => Err(e),
                    Ok((x, p2)) => match spec_decode_operand(s, p2) {
                        Err(e) => Err(e),
                        Ok((y, p3)) => Ok((Op::Cnv(x, y, t, u), p3)),
                    },
                },
            }
        } else if code == crate::op_codes::ADD {
            match spec_decode_bin_arith(s, p) {
                Err(e) => Err(e),
                Ok(((b, t, m), p1)) => Ok((Op::Add(b, t, m), p1)),
            }
        } else if code == crate::op_codes::SUB {
            match spec_decode_bin_arith(s, p) {
                Err(e) => Err(e),
                Ok(((b, t, m), p1)) => Ok((Op::Sub(b, t, m), p1)),
            }
        } else if code == crate::op_codes::MUL {
            match spec_decode_bin_arith(s, p) {
                Err(e) => Err(e),
                Ok(((b, t, m), p1)) => Ok((Op::Mul(b, t, m), p1)),
            }
        } else if code == crate::op_codes::DIV {
            match spec_decode_bin_plain(s, p) {
                Err(e) => Err(e),
                Ok(((b, t), p1)) => Ok((Op::Div(b, t), p1)),
            }
        } else if code == crate::op_codes::MOD {
            match spec_decode_bin_plain(s, p) {
                Err(e) => Err(e),
                Ok(((b, t), p1)) => Ok((Op::Mod(b, t), p1)),
            }
        } else if code == crate::op_codes::SHL {
            match spec_decode_type(s, p) {
                Err(e) => Err(e),
                Ok((t, p1)) => match spec_decode_operand(s, p1) {
                    Err(e) => Err(e),
                    Ok((x, p2)) => match spec_decode_operand(s, p2) {
                        Err(e) => Err(e),
                        Ok((y, p3)) => Ok((Op::Shl(x, y, t), p3)),
                    },
                },
            }
        } else if code == crate::op_codes::SHR {
            match spec_decode_type(s, p) {
                Err(e) => Err(e),
                Ok((t, p1)) => match spec_decode_operand(s, p1) {
                    Err(e) => Err(e),
                    Ok((x, p2)) => match spec_decode_operand(s, p2) {
                        Err(e) => Err(e),
                        Ok((y, p3)) => Ok((Op::Shr(x, y, t), p3)),
                    },
                },
            }
        } else if code == crate::op_codes::AND {
            match spec_decode_bin_plain(s, p) {
                Err(e) => Err(e),
                Ok(((b, t), p1)) => Ok((Op::And(b, t), p1)),
            }
        } else if code == crate::op_codes::OR {
            match spec_decode_bin_plain(s, p) {
                Err(e) => Err(e),
                Ok(((b, t), p1)) => Ok((Op::Or(b, t), p1)),
            }
        } else if code == crate::op_codes::XOR {
            match spec_decode_bin_plain(s, p) {
                Err(e) => Err(e),
                Ok(((b, t), p1)) => Ok((Op::Xor(b, t), p1)),
            }
        } else if code == crate::op_codes::NOT {
            match spec_decode_un_plain(s, p) {
                Err(e) => Err(e),
                Ok(((u, t), p1)) => Ok((Op::Not(u, t), p1)),
            }
        } else if code == crate::op_codes::NEG {
            match spec_decode_un_arith(s, p) {
                Err(e) => Err(e),
                Ok(((u, t, m), p1)) => Ok((Op::Neg(u, t, m), p1)),
            }
        } else if code == crate::op_codes::INC {
            match spec_decode_un_arith(s, p) {
                Err(e) => Err(e),
                Ok(((u, t, m), p1)) => Ok((Op::Inc(u, t, m), p1)),
            }
        } else if code == crate::op_codes::DEC {
            match spec_decode_un_arith(s, p) {
                Err(e) => Err(e),
                Ok(((u, t, m), p1)) => Ok((Op::Dec(u, t, m), p1)),
            }
        } else if code == crate::op_codes::GO {
            match spec_decode_operand(s, p) {
                Err(e) => Err(e),
                Ok((x, p1)) => Ok((Op::Go(x), p1)),
            }
        } else if code == crate::op_codes::IFT {
            match spec_decode_un_plain(s, p) {
                Err(e) => Err(e),
                Ok(((u, t), p1)) => Ok((Op::Ift(u, t), p1)),
            }
        } else if code == crate::op_codes::IFF {
            match spec_decode_un_plain(s, p) {
                Err(e) => Err(e),
                Ok(((u, t), p1)) => Ok((Op::Iff(u, t), p1)),
            }
        } else if code == crate::op_codes::IFE {
            match spec_decode_bin_plain(s, p) {
                Err(e) => Err(e),
                Ok(((b, t), p1)) => Ok((Op::Ife(b, t), p1)),
            }
        } else if code == crate::op_codes::IFL {
            match spec_decode_bin_plain(s, p) {
                Err(e) => Err(e),
                Ok(((b, t), p1)) => Ok((Op::Ifl(b, t), p1)),
            }
        } else if code == crate::op_codes::IFG {
            match spec_decode_bin_plain(s, p) {
                Err(e) => Err(e),
                Ok(((b, t), p1)) => Ok((Op::Ifg(b, t), p1)),
            }
        } else if code == crate::op_codes::INE {
            match spec_decode_bin_plain(s, p) {
                Err(e) => Err(e),
                Ok(((b, t), p1)) => Ok((Op::Ine(b, t), p1)),
            }
        } else if code == crate::op_codes::INL {
            match spec_decode_bin_plain(s, p) {
                Err(e) => Err(e),
                Ok(((b, t), p1)) => Ok((Op::Inl(b, t), p1)),
            }
        } else if code == crate::op_codes::ING {
            match spec_decode_bin_plain(s, p) {
                Err(e) => Err(e),
                Ok(((b, t), p1)) => Ok((Op::Ing(b, t), p1)),
            }
        } else if code == crate::op_codes::IFA {
            match spec_decode_bin_plain(s, p) {
                Err(e) => Err(e),
                Ok(((b, t), p1)) => Ok((Op::Ifa(b, t), p1)),
            }
        } else if code == crate::op_codes::IFO {
            match spec_decode_bin_plain(s, p) {
                Err(e) => Err(e),
                Ok(((b, t), p1)) => Ok((Op::Ifo(b, t), p1)),
            }
        } else if code == crate::op_codes::IFX {
            match spec_decode_bin_plain(s, p) {
                Err(e) => Err(e),
                Ok(((b, t), p1)) => Ok((Op::Ifx(b, t), p1)),
            }
        } else if code == crate::op_codes::INA {
            match spec_decode_bin_plain(s, p) {
                Err(e) => Err(e),
                Ok(((b, t), p1)) => Ok((Op::Ina(b, t), p1)),
            }
        } else if code == crate::op_codes::INO {
            match spec_decode_bin_plain(s, p) {
                Err(e) => Err(e),
                Ok(((b, t), p1)) => Ok((Op::Ino(b, t), p1)),
            }
        } else if code == crate::op_codes::INX {
            match spec_decode_bin_plain(s, p) {
                Err(e) => Err(e),
                Ok(((b, t), p1)) => Ok((Op::Inx(b, t), p1)),
            }
        } else if code == crate::op_codes::APP {
            match spec_decode_operand(s, p) {
                Err(e) => Err(e),
                Ok((x, p1)) => Ok((Op::App(x), p1)),
            }
        } else if code == crate::op_codes::PAR {
            match spec_decode_meta(s, p) {
                Err(e) => Err(e),
                Ok(((t, mode, var), p1)) => match spec_decode_un(s, p1, var) {
                    Err(e) => Err(e),
                    Ok((u, p2)) => match parameter_mode_from_tag(mode) {
                        None => Err(
                            DecodeError::UndefinedOperation(UndefinedOperation::ParameterMode),
                        ),
                        Some(m) => Ok((Op::Par(u, t, m), p2)),
                    },
                },
            }
        } else if code == crate::op_codes::CLF {
            match spec_decode_operand(s, p) {
                Err(e) => Err(e),
                Ok((x, p1)) => Ok((Op::Clf(x), p1)),
            }
        } else if code == crate::op_codes::RET {
            match spec_decode_un_plain(s, p) {
                Err(e) => Err(e),
                Ok(((u, t), p1)) => Ok((Op::Ret(u, t), p1)),
            }
        } else if code == crate::op_codes::IN {
            match spec_decode_bin_plain(s, p) {
                Err(e) => Err(e),
                Ok(((b, t), p1)) => Ok((Op::In(b), p1)),
            }
        } else if code == crate::op_codes::OUT {
            match spec_decode_un_plain(s, p) {
                Err(e) => Err(e),
                Ok(((u, t), p1)) => Ok((Op::Out(u), p1)),
            }
        } else if code == crate::op_codes::FLS {
            Ok((Op::Fls, p))
        } else if code == crate::op_codes::SFD {
            match spec_decode_operand(s, p) {
                Err(e) => Err(e),
                Ok((x, p1)) => Ok((Op::Sfd(x), p1)),
            }
        } else if code == crate::op_codes::GFD {
            match spec_decode_operand(s, p) {
                Err(e) => Err(e),
                Ok((x, p1)) => Ok((Op::Gfd(x), p1)),
            }
        } else if code == crate::op_codes::ZER {
            match spec_decode_operand(s, p) {
                Err(e) => Err(e),
                Ok((x, p1)) => match spec_decode_operand(s, p1) {
                    Err(e) => Err(e),
                    Ok((y, p2)) => Ok((Op::Zer(x, y), p2)),
                },
            }
        } else if code == crate::op_codes::CMP {
            match spec_decode_operand(s, p) {
                Err(e) => Err(e),
                Ok((x, p1)) => match spec_decode_operand(s, p1) {
                    Err(e) => Err(e),
                    Ok((y, p2)) => match spec_decode_operand(s, p2) {
                        Err(e) => Err(e),
                        Ok((z, p3)) => Ok((Op::Cmp(x, y, z), p3)),
                    },
                },
            }
        } else if code == crate::op_codes::CPY {
            match spec_decode_operand(s, p) {
                Err(e) => Err(e),
                Ok((x, p1)) => match spec_decode_operand(s, p1) {
                    Err(e) => Err(e),
                    Ok((y, p2)) => match spec_decode_operand(s, p2) {
                        Err(e) => Err(e),
                        Ok((z, p3)) => Ok((Op::Cpy(x, y, z), p3)),
                    },
                },
            }
        } else {
            Err(DecodeError::UnknownOpCode)
        }
    }
}

/// Whether an executable decode result agrees with a spec one.
pub open spec fn dec_agrees<T>(
    r: Result<(T, usize), DecodeError>,
    s: Result<(T, int), DecodeError>,
) -> bool {
    match (r, s) {
        (Ok((a, p)), Ok((b, q))) => a == b && p as int == q,
        (Err(a), Err(b)) => a == b,
        _ => false,
    }
}

/// Reads one operand at `pos`.
pub fn decode_operand(bytes: &[u8], pos: usize) -> (r: Result<(Operand, usize), DecodeError>)
    ensures
        dec_agrees(r, spec_decode_operand(bytes@, pos as int)),
{
    let len = bytes.len();
    if pos >= len {
        return Err(DecodeError::UnexpectedEnd);
    }
    let m = bytes[pos];
    if m < 0x80 {
        return Ok((Operand::Loc(m as UWord), pos + 1));
    }
    let rest = m - 0x80;
    let kind = rest / 16;
    let n = (rest % 16 + 1) as usize;
    if kind == 6 {
        return Ok((Operand::Emp, pos + 1));
    }
    if kind == 7 {
        return Err(DecodeError::UndefinedOperation(UndefinedOperation::Kind));
    }
    if n > len - (pos + 1) {
        return Err(DecodeError::UnexpectedEnd);
    }
    let k = if n <= 4 {
        n
    } else {
        4
    };
    let payload = vstd::slice::slice_subrange(bytes, pos + 1, pos + 1 + k);
    let wide = le_value_of_slice(payload);
    let v = (wide % 0x1_0000_0000) as UWord;
    proof {
        assert(v == le_word(bytes@.subrange(pos + 1, pos + 1 + k as int)));
    }
    match Operand::new(v, kind) {
        Ok(o) => Ok((o, pos + 1 + n)),
        Err(_) => Err(DecodeError::UndefinedOperation(UndefinedOperation::Kind)),
    }
}

/// Reads a packed metadata byte at `pos`.
pub fn decode_meta(bytes: &[u8], pos: usize) -> (r: Result<((OpType, u8, Variant), usize), DecodeError>)
    ensures
        dec_agrees(r, spec_decode_meta(bytes@, pos as int)),
{
    if pos >= bytes.len() {
        return Err(DecodeError::UnexpectedEnd);
    }
    let b = bytes[pos];
    let t = match OpType::new(b % 16) {
        Ok(t) => t,
        Err(_) => {
            return Err(DecodeError::UndefinedOperation(UndefinedOperation::OpType));
        },
    };
    let mode = (b / 16) % 4;
    let var = match Variant::new(b / 64) {
        Ok(v) => v,
        Err(_) => {
            return Err(DecodeError::UndefinedOperation(UndefinedOperation::Variant));
        },
    };
    Ok(((t, mode, var), pos + 1))
}

/// Reads the two-type byte of a conversion at `pos`.
pub fn decode_cnv_meta(bytes: &[u8], pos: usize) -> (r: Result<((OpType, OpType), usize), DecodeError>)
    ensures
        dec_agrees(r, spec_decode_cnv_meta(bytes@, pos as int)),
{
    if pos >= bytes.len() {
        return Err(DecodeError::UnexpectedEnd);
    }
    let b = bytes[pos];
    let t = match OpType::new(b % 16) {
        Ok(t) => t,
        Err(_) => {
            return Err(DecodeError::UndefinedOperation(UndefinedOperation::OpType));
        },
    };
    let u = match OpType::new(b / 16) {
        Ok(u) => u,
        Err(_) => {
            return Err(DecodeError::UndefinedOperation(UndefinedOperation::OpType));
        },
    };
    Ok(((t, u), pos + 1))
}

/// Reads a type-only metadata byte at `pos`.
pub fn decode_type(bytes: &[u8], pos: usize) -> (r: Result<(OpType, usize), DecodeError>)
    ensures
        dec_agrees(r, spec_decode_type(bytes@, pos as int)),
{
    if pos >= bytes.len() {
        return Err(DecodeError::UnexpectedEnd);
    }
    let b = bytes[pos];
    match OpType::new(b % 16) {
        Ok(t) => Ok((t, pos + 1)),
        Err(_) => Err(DecodeError::UndefinedOperation(UndefinedOperation::OpType)),
    }
}

/// Reads a one-operand group under the given offset pattern.
pub fn decode_un(bytes: &[u8], pos: usize, var: Variant) -> (r: Result<(UnOp, usize), DecodeError>)
    ensures
        dec_agrees(r, spec_decode_un(bytes@, pos as int, var)),
{
    let (x, p1) = match decode_operand(bytes, pos) {
        Ok(v) => v,
        Err(e) => {
            return Err(e);
        },
    };
    match var {
        Variant::NoOffset => Ok((UnOp { x, x_offset: None }, p1)),
        Variant::First => match decode_operand(bytes, p1) {
            Ok((o, p2)) => Ok((UnOp { x, x_offset: Some(o) }, p2)),
            Err(e) => Err(e),
        },
        _ => Err(DecodeError::IncorrectVariant),
    }
}

/// Reads a two-operand group under the given offset pattern.
pub fn decode_bin(bytes: &[u8], pos: usize, var: Variant) -> (r: Result<(BinOp, usize), DecodeError>)
    ensures
        dec_agrees(r, spec_decode_bin(bytes@, pos as int, var)),
{
    let (x, p1) = match decode_operand(bytes, pos) {
        Ok(v) => v,
        Err(e) => {
            return Err(e);
        },
    };
    let (y, p2) = match decode_operand(bytes, p1) {
        Ok(v) => v,
        Err(e) => {
            return Err(e);
        },
    };
    match var {
        Variant::NoOffset => Ok((BinOp { x, x_offset: None, y, y_offset: None }, p2)),
        Variant::First => match decode_operand(bytes, p2) {
            Ok((xo, p3)) => Ok((BinOp { x, x_offset: Some(xo), y, y_offset: None }, p3)),
            Err(e) => Err(e),
        },
        Variant::Second => match decode_operand(bytes, p2) {
            Ok((yo, p3)) => Ok((BinOp { x, x_offset: None, y, y_offset: Some(yo) }, p3)),
            Err(e) => Err(e),
        },
        Variant::Both => match decode_operand(bytes, p2) {
            Err(e) => Err(e),
            Ok((xo, p3)) => match decode_operand(bytes, p3) {
                Ok((yo, p4)) => Ok(
                    (BinOp { x, x_offset: Some(xo), y, y_offset: Some(yo) }, p4),
                ),
                Err(e) => Err(e),
            },
        },
    }
}

/// Reads a meta byte and two-operand group with an arithmetic mode.
pub fn decode_bin_arith(bytes: &[u8], pos: usize) -> (r: Result<
    ((BinOp, OpType, crate::ops::ArithmeticMode), usize),
    DecodeError,
>)
    ensures
        dec_agrees(r, spec_decode_bin_arith(bytes@, pos as int)),
{
    let ((t, mode, var), p1) = match decode_meta(bytes, pos) {
        Ok(v) => v,
        Err(e) => {
            return Err(e);
        },
    };
    let (b, p2) = match decode_bin(bytes, p1, var) {
        Ok(v) => v,
        Err(e) => {
            return Err(e);
        },
    };
    match Mode(mode).into_arithmetic() {
        Ok(m) => Ok(((b, t, m), p2)),
        Err(_) => Err(DecodeError::UndefinedOperation(UndefinedOperation::ArithmeticMode)),
    }
}

/// Reads a meta byte and two-operand group, ignoring the mode field.
pub fn decode_bin_plain(bytes: &[u8], pos: usize) -> (r: Result<
    ((BinOp, OpType), usize),
    DecodeError,
>)
    ensures
        dec_agrees(r, spec_decode_bin_plain(bytes@, pos as int)),
{
    let ((t, _mode, var), p1) = match decode_meta(bytes, pos) {
        Ok(v) => v,
        Err(e) => {
            return Err(e);
        },
    };
    match decode_bin(bytes, p1, var) {
        Ok((b, p2)) => Ok(((b, t), p2)),
        Err(e) => Err(e),
    }
}

/// Reads a meta byte and one-operand group with an arithmetic mode.
pub fn decode_un_arith(bytes: &[u8], pos: usize) -> (r: Result<
    ((UnOp, OpType, crate::ops::ArithmeticMode), usize),
    DecodeError,
>)
    ensures
        dec_agrees(r, spec_decode_un_arith(bytes@, pos as int)),
{
    let ((t, mode, var), p1) = match decode_meta(bytes, pos) {
        Ok(v) => v,
        Err(e) => {
            return Err(e);
        },
    };
    let (u, p2) = match decode_un(bytes, p1, var) {
        Ok(v) => v,
        Err(e) => {
            return Err(e);
        },
    };
    match Mode(mode).into_arithmetic() {
        Ok(m) => Ok(((u, t, m), p2)),
        Err(_) => Err(DecodeError::UndefinedOperation(UndefinedOperation::ArithmeticMode)),
    }
}

/// Reads a meta byte and one-operand group, ignoring the mode field.
pub fn decode_un_plain(bytes: &[u8], pos: usize) -> (r: Result<
    ((UnOp, OpType), usize),
    DecodeError,
>)
    ensures
        dec_agrees(r, spec_decode_un_plain(bytes@, pos as int)),
{
    let ((t, _mode, var), p1) = match decode_meta(bytes, pos) {
        Ok(v) => v,
        Err(e) => {
            return Err(e);
        },
    };
    match decode_un(bytes, p1, var) {
        Ok((u, p2)) => Ok(((u, t), p2)),
        Err(e) => Err(e),
    }
}

/// Reads the instructions in one opcode range.
#[verifier::rlimit(100)]
fn decode_op_low(bytes: &[u8], pos: usize) -> (r: Result<(Op, usize), DecodeError>)
    requires
        pos < bytes@.len(),
        bytes@[pos as int] <= 0x0F,
    ensures
        dec_agrees(r, spec_decode_op(bytes@, pos as int)),
{
    proof {
        reveal(spec_decode_op);
    }
    let code = bytes[pos];
    let p = pos + 1;
    if code == crate::op_codes::NOP {
        return Ok((Op::Nop, p));
    }
    if code == crate::op_codes::END {
        return match decode_operand(bytes, p) {
            Ok((x, p1)) => Ok((Op::End(x), p1)),
            Err(e) => Err(e),
        };
    }
    if code == crate::op_codes::SLP {
        return match decode_operand(bytes, p) {
            Ok((x, p1)) => Ok((Op::Slp(x), p1)),
            Err(e) => Err(e),
        };
    }
    if code == crate::op_codes::SET {
        return match decode_bin_plain(bytes, p) {
            Ok(((b, t), p1)) => Ok((Op::Mov(b, t), p1)),
            Err(e) => Err(e),
        };
    }
    if code == crate::op_codes::CNV {
        let ((t, u), p1) = match decode_cnv_meta(bytes, p) {
            Ok(v) => v,
            Err(e) => {
                return Err(e);
            },
        };
        let (x, p2) = match decode_operand(bytes, p1) {
            Ok(v) => v,
            Err(e) => {
                return Err(e);
            },
        };
        return match decode_operand(bytes, p2) {
            Ok((y, p3)) => Ok((Op::Cnv(x, y, t, u), p3)),
            Err(e) => Err(e),
        };
    }
    if code == crate::op_codes::ADD {
        return match decode_bin_arith(bytes, p) {
            Ok(((b, t, m), p1)) => Ok((Op::Add(b, t, m), p1)),
            Err(e) => Err(e),
        };
    }
    if code == crate::op_codes::SUB {
        return match decode_bin_arith(bytes, p) {
            Ok(((b, t, m), p1)) => Ok((Op::Sub(b, t, m), p1)),
            Err(e) => Err(e),
        };
    }
    if code == crate::op_codes::MUL {
        return match decode_bin_arith(bytes, p) {
            Ok(((b, t, m), p1)) => Ok((Op::Mul(b, t, m), p1)),
            Err(e) => Err(e),
        };
    }
    if code == crate::op_codes::DIV {
        return match decode_bin_plain(bytes, p) {
            Ok(((b, t), p1)) => Ok((Op::Div(b, t), p1)),
            Err(e) => Err(e),
        };
    }
    if code == crate::op_codes::MOD {
        return match decode_bin_plain(bytes, p) {
            Ok(((b, t), p1)) => Ok((Op::Mod(b, t), p1)),
            Err(e) => Err(e),
        };
    }
    if code == crate::op_codes::SHL {
        let (t, p1) = match decode_type(bytes, p) {
            Ok(v) => v,
            Err(e) => {
                return Err(e);
            },
        };
        let (x, p2) = match decode_operand(bytes, p1) {
            Ok(v) => v,
            Err(e) => {
                return Err(e);
            },
        };
        return match decode_operand(bytes, p2) {
            Ok((y, p3)) => Ok((Op::Shl(x, y, t), p3)),
            Err(e) => Err(e),
        };
    }
    if code == crate::op_codes::SHR {
        let (t, p1) = match decode_type(bytes, p) {
            Ok(v) => v,
            Err(e) => {
                return Err(e);
            },
        };
        let (x, p2) = match decode_operand(bytes, p1) {
            Ok(v) => v,
            Err(e) => {
                return Err(e);
            },
        };
        return match decode_operand(bytes, p2) {
            Ok((y, p3)) => Ok((Op::Shr(x, y, t), p3)),
            Err(e) => Err(e),
        };
    }
    if code == crate::op_codes::AND {
        return match decode_bin_plain(bytes, p) {
            Ok(((b, t), p1)) => Ok((Op::And(b, t), p1)),
            Err(e) => Err(e),
        };
    }
    if code == crate::op_codes::OR {
        return match decode_bin_plain(bytes, p) {
            Ok(((b, t), p1)) => Ok((Op::Or(b, t), p1)),
            Err(e) => Err(e),
        };
    }
    if code == crate::op_codes::XOR {
        return match decode_bin_plain(bytes, p) {
            Ok(((b, t), p1)) => Ok((Op::Xor(b, t), p1)),
            Err(e) => Err(e),
        };
    }
    if code == crate::op_codes::NOT {
        return match decode_un_plain(bytes, p) {
            Ok(((u, t), p1)) => Ok((Op::Not(u, t), p1)),
            Err(e) => Err(e),
        };
    }
    Err(DecodeError::UnknownOpCode)
}

/// Reads the instructions in one opcode range.
#[verifier::rlimit(100)]
fn decode_op_mid(bytes: &[u8], pos: usize) -> (r: Result<(Op, usize), DecodeError>)
    requires
        pos < bytes@.len(),
        0x10 <= bytes@[pos as int] <= 0x21,
    ensures
        dec_agrees(r, spec_decode_op(bytes@, pos as int)),
{
    proof {
        reveal(spec_decode_op);
    }
    let code = bytes[pos];
    let p = pos + 1;
    if code == crate::op_codes::NEG {
        return match decode_un_arith(bytes, p) {
            Ok(((u, t, m), p1)) => Ok((Op::Neg(u, t, m), p1)),
            Err(e) => Err(e),
        };
    }
    if code == crate::op_codes::INC {
        return match decode_un_arith(bytes, p) {
            Ok(((u, t, m), p1)) => Ok((Op::Inc(u, t, m), p1)),
            Err(e) => Err(e),
        };
    }
    if code == crate::op_codes::DEC {
        return match decode_un_arith(bytes, p) {
            Ok(((u, t, m), p1)) => Ok((Op::Dec(u, t, m), p1)),
            Err(e) => Err(e),
        };
    }
    if code == crate::op_codes::GO {
        return match decode_operand(bytes, p) {
            Ok((x, p1)) => Ok((Op::Go(x), p1)),
            Err(e) => Err(e),
        };
    }
    if code == crate::op_codes::IFT {
        return match decode_un_plain(bytes, p) {
            Ok(((u, t), p1)) => Ok((Op::Ift(u, t), p1)),
            Err(e) => Err(e),
        };
    }
    if code == crate::op_codes::IFF {
        return match decode_un_plain(bytes, p) {
            Ok(((u, t), p1)) => Ok((Op::Iff(u, t), p1)),
            Err(e) => Err(e),
        };
    }
    if code == crate::op_codes::IFE {
        return match decode_bin_plain(bytes, p) {
            Ok(((b, t), p1)) => Ok((Op::Ife(b, t), p1)),
            Err(e) => Err(e),
        };
    }
    if code == crate::op_codes::IFL {
        return match decode_bin_plain(bytes, p) {
            Ok(((b, t), p1)) => Ok((Op::Ifl(b, t), p1)),
            Err(e) => Err(e),
        };
    }
    if code == crate::op_codes::IFG {
        return match decode_bin_plain(bytes, p) {
            Ok(((b, t), p1)) => Ok((Op::Ifg(b, t), p1)),
            Err(e) => Err(e),
        };
    }
    if code == crate::op_codes::INE {
        return match decode_bin_plain(bytes, p) {
            Ok(((b, t), p1)) => Ok((Op::Ine(b, t), p1)),
            Err(e) => Err(e),
        };
    }
    if code == crate::op_codes::INL {
        return match decode_bin_plain(bytes, p) {
            Ok(((b, t), p1)) => Ok((Op::Inl(b, t), p1)),
            Err(e) => Err(e),
        };
    }
    if code == crate::op_codes::ING {
        return match decode_bin_plain(bytes, p) {
            Ok(((b, t), p1)) => Ok((Op::Ing(b, t), p1)),
            Err(e) => Err(e),
        };
    }
    if code == crate::op_codes::IFA {
        return match decode_bin_plain(bytes, p) {
            Ok(((b, t), p1)) => Ok((Op::Ifa(b, t), p1)),
            Err(e) => Err(e),
        };
    }
    if code == crate::op_codes::IFO {
        return match decode_bin_plain(bytes, p) {
            Ok(((b, t), p1)) => Ok((Op::Ifo(b, t), p1)),
            Err(e) => Err(e),
        };
    }
    if code == crate::op_codes::IFX {
        return match decode_bin_plain(bytes, p) {
            Ok(((b, t), p1)) => Ok((Op::Ifx(b, t), p1)),
            Err(e) => Err(e),
        };
    }
    if code == crate::op_codes::INA {
        return match decode_bin_plain(bytes, p) {
            Ok(((b, t), p1)) => Ok((Op::Ina(b, t), p1)),
            Err(e) => Err(e),
        };
    }
    if code == crate::op_codes::INO {
        return match decode_bin_plain(bytes, p) {
            Ok(((b, t), p1)) => Ok((Op::Ino(b, t), p1)),
            Err(e) => Err(e),
        };
    }
    if code == crate::op_codes::INX {
        return match decode_bin_plain(bytes, p) {
            Ok(((b, t), p1)) => Ok((Op::Inx(b, t), p1)),
            Err(e) => Err(e),
        };
    }
    Err(DecodeError::UnknownOpCode)
}

/// Reads the instructions in one opcode range.
#[verifier::rlimit(100)]
fn decode_op_high(bytes: &[u8], pos: usize) -> (r: Result<(Op, usize), DecodeError>)
    requires
        pos < bytes@.len(),
        0x22 <= bytes@[pos as int],
    ensures
        dec_agrees(r, spec_decode_op(bytes@, pos as int)),
{
    proof {
        reveal(spec_decode_op);
    }
    let code = bytes[pos];
    let p = pos + 1;
    if code == crate::op_codes::APP {
        return match decode_operand(bytes, p) {
            Ok((x, p1)) => Ok((Op::App(x), p1)),
            Err(e) => Err(e),
        };
    }
    if code == crate::op_codes::PAR {
        let ((t, mode, var), p1) = match decode_meta(bytes, p) {
            Ok(v) => v,
            Err(e) => {
                return Err(e);
            },
        };
        let (u, p2) = match decode_un(bytes, p1, var) {
            Ok(v) => v,
            Err(e) => {
                return Err(e);
            },
        };
        return match Mode(mode).into_parameter() {
            Ok(m) => Ok((Op::Par(u, t, m), p2)),
            Err(_) => Err(DecodeError::UndefinedOperation(UndefinedOperation::ParameterMode)),
        };
    }
    if code == crate::op_codes::CLF {
        return match decode_operand(bytes, p) {
            Ok((x, p1)) => Ok((Op::Clf(x), p1)),
            Err(e) => Err(e),
        };
    }
    if code == crate::op_codes::RET {
        return match decode_un_plain(bytes, p) {
            Ok(((u, t), p1)) => Ok((Op::Ret(u, t), p1)),
            Err(e) => Err(e),
        };
    }
    if code == crate::op_codes::IN {
        return match decode_bin_plain(bytes, p) {
            Ok(((b, _t), p1)) => Ok((Op::In(b), p1)),
            Err(e) => Err(e),
        };
    }
    if code == crate::op_codes::OUT {
        return match decode_un_plain(bytes, p) {
            Ok(((u, _t), p1)) => Ok((Op::Out(u), p1)),
            Err(e) => Err(e),
        };
    }
    if code == crate::op_codes::FLS {
        return Ok((Op::Fls, p));
    }
    if code == crate::op_codes::SFD {
        return match decode_operand(bytes, p) {
            Ok((x, p1)) => Ok((Op::Sfd(x), p1)),
            Err(e) => Err(e),
        };
    }
    if code == crate::op_codes::GFD {
        return match decode_operand(bytes, p) {
            Ok((x, p1)) => Ok((Op::Gfd(x), p1)),
            Err(e) => Err(e),
        };
    }
    if code == crate::op_codes::ZER {
        let (x, p1) = match decode_operand(bytes, p) {
            Ok(v) => v,
            Err(e) => {
                return Err(e);
            },
        };
        return match decode_operand(bytes, p1) {
            Ok((y, p2)) => Ok((Op::Zer(x, y), p2)),
            Err(e) => Err(e),
        };
    }
    if code == crate::op_codes::CMP {
        let (x, p1) = match decode_operand(bytes, p) {
            Ok(v) => v,
            Err(e) => {
                return Err(e);
            },
        };
        let (y, p2) = match decode_operand(bytes, p1) {
            Ok(v) => v,
            Err(e) => {
                return Err(e);
            },
        };
        return match decode_operand(bytes, p2) {
            Ok((z, p3)) => Ok((Op::Cmp(x, y, z), p3)),
            Err(e) => Err(e),
        };
    }
    if code == crate::op_codes::CPY {
        let (x, p1) = match decode_operand(bytes, p) {
            Ok(v) => v,
            Err(e) => {
                return Err(e);
            },
        };
        let (y, p2) = match decode_operand(bytes, p1) {
            Ok(v) => v,
            Err(e) => {
                return Err(e);
            },
        };
        return match decode_operand(bytes, p2) {
            Ok((z, p3)) => Ok((Op::Cpy(x, y, z), p3)),
            Err(e) => Err(e),
        };
    }
    Err(DecodeError::UnknownOpCode)
}

/// Reads one whole instruction at `pos`.
pub fn decode_op(bytes: &[u8], pos: usize) -> (r: Result<(Op, usize), DecodeError>)
    ensures
        dec_agrees(r, spec_decode_op(bytes@, pos as int)),
{
    proof {
        reveal(spec_decode_op);
    }
    if pos >= bytes.len() {
        return Err(DecodeError::UnexpectedEnd);
    }
    let code = bytes[pos];
    if code <= 0x0F {
        decode_op_low(bytes, pos)
    } else if code <= 0x21 {
        decode_op_mid(bytes, pos)
    } else {
        decode_op_high(bytes, pos)
    }
}


/// A concatenation read at `pos` splits into its two parts.
pub proof fn lemma_subrange_split(s: Seq<u8>, pos: int, a: Seq<u8>, b: Seq<u8>)
    requires
        0 <= pos,
        pos + a.len() + b.len() <= s.len(),
        s.subrange(pos, pos + a.len() + b.len()) == a + b,
    ensures
        s.subrange(pos, pos + a.len() as int) == a,
        s.subrange(pos + a.len(), pos + a.len() + b.len()) == b,
{
    assert forall|i: int| 0 <= i < a.len() implies s.subrange(pos, pos + a.len() as int)[i] == a[i]
        by {
        assert(s.subrange(pos, pos + a.len() + b.len())[i] == (a + b)[i]);
    }
    assert(s.subrange(pos, pos + a.len() as int) =~= a);
    assert forall|i: int| 0 <= i < b.len() implies s.subrange(
        pos + a.len(),
        pos + a.len() + b.len(),
    )[i] == b[i] by {
        assert(s.subrange(pos, pos + a.len() + b.len())[i + a.len()] == (a + b)[i + a.len()]);
        assert(s.subrange(pos, pos + a.len() + b.len())[i + a.len()] == s[pos + a.len() + i]);
        assert(s.subrange(pos + a.len(), pos + a.len() + b.len())[i] == s[pos + a.len() + i]);
    }
    assert(s.subrange(pos + a.len(), pos + a.len() + b.len()) =~= b);
}

/// A minimally encoded operand reads back as itself wherever its
/// bytes sit.
pub proof fn lemma_operand_decodes_at(o: Operand, s: Seq<u8>, pos: int)
    requires
        0 <= pos,
        pos + crate::encoder::operand_bytes(o).len() <= s.len(),
        s.subrange(pos, pos + crate::encoder::operand_bytes(o).len()) == crate::encoder::operand_bytes(o),
    ensures
        spec_decode_operand(s, pos) == Ok::<(Operand, int), DecodeError>(
            (o, pos + crate::encoder::operand_bytes(o).len()),
        ),
{
    let ob = crate::encoder::operand_bytes(o);
    crate::bytes::lemma_pow256_values();
    assert(s[pos] == ob[0]) by {
        assert(s.subrange(pos, pos + ob.len())[0] == ob[0]);
    }
    match crate::ops::operand_word(o) {
        Some(v) => {
            if o is Loc && v <= 0x7F {
                assert(ob[0] == v as u8);
            } else {
                let n = crate::encoder::min_len(v);
                let kind = crate::ops::operand_kind(o);
                let m = crate::encoder::long_meta(kind, n);
                assert(kind <= 5);
                assert(1 <= n <= 4);
                assert(m == 0x80 + kind * 16 + (n - 1));
                assert(((m - 0x80) as int) / 16 == kind && ((m - 0x80) as int) % 16 == n - 1)
                    by (nonlinear_arith)
                    requires
                        m == 0x80 + kind * 16 + (n - 1),
                        kind <= 5,
                        1 <= n <= 4,
                ;
                let payload = crate::bytes::nat_to_le(v as nat, n);
                assert(ob =~= seq![m] + payload);
                lemma_subrange_split(s, pos, seq![m], payload);
                assert(s.subrange(pos + 1, pos + 1 + n as int) == payload);
                assert((v as nat) < crate::bytes::pow256(n));
                crate::bytes::lemma_le_roundtrip_small(v as nat, n);
                assert(le_word(payload) == v);
                assert(crate::ops::operand_from_parts(v, kind as u8) == o);
            }
        },
        None => {
            assert(ob[0] == 0xE0);
            assert((0xE0 - 0x80) / 16 == 6);
        },
    }
}

/// A packed metadata byte reads back wherever it sits.
pub proof fn lemma_meta_decodes_at(t: OpType, mode: u8, var: Variant, s: Seq<u8>, pos: int)
    requires
        mode <= 3,
        0 <= pos < s.len(),
        s[pos] == crate::encoder::meta_byte(t, mode, var),
    ensures
        spec_decode_meta(s, pos) == Ok::<((OpType, u8, Variant), int), DecodeError>(
            ((t, mode, var), pos + 1),
        ),
{
    let tag = crate::ops::op_type_tag(t);
    let vt = crate::ops::variant_tag(var);
    let b = crate::encoder::meta_byte(t, mode, var);
    assert(tag <= 13);
    assert(vt <= 3);
    assert(b == vt * 64 + mode * 16 + tag);
    assert((b as int) % 16 == tag && ((b as int) / 16) % 4 == mode && (b as int) / 64 == vt)
        by (nonlinear_arith)
        requires
            b == vt * 64 + mode * 16 + tag,
            tag <= 13,
            mode <= 3,
            vt <= 3,
    ;
    assert(crate::ops::op_type_from_tag(tag) == Some(t));
    assert(crate::ops::variant_from_tag(vt) == Some(var));
}

/// A one-operand group reads back under its own offset pattern.
pub proof fn lemma_un_decodes_at(u: UnOp, s: Seq<u8>, pos: int)
    requires
        0 <= pos,
        pos + crate::encoder::un_op_bytes(u).len() <= s.len(),
        s.subrange(pos, pos + crate::encoder::un_op_bytes(u).len())
            == crate::encoder::un_op_bytes(u),
    ensures
        spec_decode_un(s, pos, crate::ops::un_op_variant(u)) == Ok::<(UnOp, int), DecodeError>(
            (u, pos + crate::encoder::un_op_bytes(u).len()),
        ),
{
    let xb = crate::encoder::operand_bytes(u.x);
    match u.x_offset {
        Some(o) => {
            let ob = crate::encoder::operand_bytes(o);
            assert(crate::encoder::un_op_bytes(u) == xb + ob);
            lemma_subrange_split(s, pos, xb, ob);
            lemma_operand_decodes_at(u.x, s, pos);
            lemma_operand_decodes_at(o, s, pos + xb.len());
        },
        None => {
            lemma_operand_decodes_at(u.x, s, pos);
        },
    }
}

/// A two-operand group reads back under its own offset pattern.
pub proof fn lemma_bin_decodes_at(b: BinOp, s: Seq<u8>, pos: int)
    requires
        0 <= pos,
        pos + crate::encoder::bin_op_bytes(b).len() <= s.len(),
        s.subrange(pos, pos + crate::encoder::bin_op_bytes(b).len())
            == crate::encoder::bin_op_bytes(b),
    ensures
        spec_decode_bin(s, pos, crate::ops::bin_op_variant(b)) == Ok::<(BinOp, int), DecodeError>(
            (b, pos + crate::encoder::bin_op_bytes(b).len()),
        ),
{
    let xb = crate::encoder::operand_bytes(b.x);
    let yb = crate::encoder::operand_bytes(b.y);
    let offs = match (b.x_offset, b.y_offset) {
        (Option::None, Option::None) => Seq::<u8>::empty(),
        (Option::Some(xo), Option::None) => crate::encoder::operand_bytes(xo),
        (Option::None, Option::Some(yo)) => crate::encoder::operand_bytes(yo),
        (Option::Some(xo), Option::Some(yo)) => crate::encoder::operand_bytes(xo)
            + crate::encoder::operand_bytes(yo),
    };
    assert(crate::encoder::bin_op_bytes(b) == xb + yb + offs);
    assert(xb + yb + offs =~= xb + (yb + offs));
    lemma_subrange_split(s, pos, xb, yb + offs);
    lemma_operand_decodes_at(b.x, s, pos);
    lemma_subrange_split(s, pos + xb.len(), yb, offs);
    lemma_operand_decodes_at(b.y, s, pos + xb.len());
    let p2 = pos + xb.len() + yb.len();
    match (b.x_offset, b.y_offset) {
        (Option::None, Option::None) => {},
        (Option::Some(xo), Option::None) => {
            lemma_operand_decodes_at(xo, s, p2);
        },
        (Option::None, Option::Some(yo)) => {
            lemma_operand_decodes_at(yo, s, p2);
        },
        (Option::Some(xo), Option::Some(yo)) => {
            let xob = crate::encoder::operand_bytes(xo);
            let yob = crate::encoder::operand_bytes(yo);
            lemma_subrange_split(s, p2, xob, yob);
            lemma_operand_decodes_at(xo, s, p2);
            lemma_operand_decodes_at(yo, s, p2 + xob.len());
        },
    }
}

/// A meta byte followed by a two-operand group reads back.
pub proof fn lemma_meta_bin_decodes_at(b: BinOp, t: OpType, mode: u8, s: Seq<u8>, pos: int)
    requires
        mode <= 3,
        0 <= pos,
        pos + crate::encoder::meta_bin_bytes(b, t, mode).len() <= s.len(),
        s.subrange(pos, pos + crate::encoder::meta_bin_bytes(b, t, mode).len())
            == crate::encoder::meta_bin_bytes(b, t, mode),
    ensures
        spec_decode_bin_plain(s, pos) == Ok::<((BinOp, OpType), int), DecodeError>(
            ((b, t), pos + crate::encoder::meta_bin_bytes(b, t, mode).len()),
        ),
        spec_decode_bin_arith(s, pos) == (match crate::ops::arithmetic_mode_from_tag(mode) {
            Some(m) => Ok::<((BinOp, OpType, ArithmeticMode), int), DecodeError>(
                ((b, t, m), pos + crate::encoder::meta_bin_bytes(b, t, mode).len()),
            ),
            None => Err(DecodeError::UndefinedOperation(
                crate::ops::UndefinedOperation::ArithmeticMode,
            )),
        }),
{
    let mb = seq![crate::encoder::meta_byte(t, mode, crate::ops::bin_op_variant(b))];
    let body = crate::encoder::bin_op_bytes(b);
    assert(crate::encoder::meta_bin_bytes(b, t, mode) == mb + body);
    lemma_subrange_split(s, pos, mb, body);
    assert(s[pos] == mb[0]) by {
        assert(s.subrange(pos, pos + 1)[0] == mb[0]);
    }
    lemma_meta_decodes_at(t, mode, crate::ops::bin_op_variant(b), s, pos);
    lemma_bin_decodes_at(b, s, pos + 1);
}

/// A meta byte followed by a one-operand group reads back.
pub proof fn lemma_meta_un_decodes_at(u: UnOp, t: OpType, mode: u8, s: Seq<u8>, pos: int)
    requires
        mode <= 3,
        0 <= pos,
        pos + crate::encoder::meta_un_bytes(u, t, mode).len() <= s.len(),
        s.subrange(pos, pos + crate::encoder::meta_un_bytes(u, t, mode).len())
            == crate::encoder::meta_un_bytes(u, t, mode),
    ensures
        spec_decode_un_plain(s, pos) == Ok::<((UnOp, OpType), int), DecodeError>(
            ((u, t), pos + crate::encoder::meta_un_bytes(u, t, mode).len()),
        ),
        spec_decode_un_arith(s, pos) == (match crate::ops::arithmetic_mode_from_tag(mode) {
            Some(m) => Ok::<((UnOp, OpType, ArithmeticMode), int), DecodeError>(
                ((u, t, m), pos + crate::encoder::meta_un_bytes(u, t, mode).len()),
            ),
            None => Err(DecodeError::UndefinedOperation(
                crate::ops::UndefinedOperation::ArithmeticMode,
            )),
        }),
{
    let mb = seq![crate::encoder::meta_byte(t, mode, crate::ops::un_op_variant(u))];
    let body = crate::encoder::un_op_bytes(u);
    assert(crate::encoder::meta_un_bytes(u, t, mode) == mb + body);
    lemma_subrange_split(s, pos, mb, body);
    assert(s[pos] == mb[0]) by {
        assert(s.subrange(pos, pos + 1)[0] == mb[0]);
    }
    lemma_meta_decodes_at(t, mode, crate::ops::un_op_variant(u), s, pos);
    lemma_un_decodes_at(u, s, pos + 1);
}




/// One instruction range of the round trip.
#[verifier::rlimit(100)]
#[verifier::spinoff_prover]
proof fn lemma_round_trip_g0(op: Op)
    requires
        op is Nop,
    ensures
        spec_decode_op(crate::encoder::encode_bytes(op), 0) == Ok::<(Op, int), DecodeError>(
            (op, crate::encoder::encode_bytes(op).len() as int),
        ),
{
    reveal(spec_decode_op);
    reveal(crate::encoder::encode_bytes);
    let s = crate::encoder::encode_bytes(op);
    match op {
        Op::Nop => {
                    let payload = Seq::<u8>::empty();
                    assert(s.subrange(0, s.len() as int) =~= s);
                    lemma_subrange_split(s, 0, seq![crate::ops::spec_op_code(op)], payload);
                },
        _ => {
            assert(false);
        },
    }
}

/// One instruction range of the round trip.
#[verifier::rlimit(100)]
#[verifier::spinoff_prover]
proof fn lemma_round_trip_g1(op: Op)
    requires
        op is End,
    ensures
        spec_decode_op(crate::encoder::encode_bytes(op), 0) == Ok::<(Op, int), DecodeError>(
            (op, crate::encoder::encode_bytes(op).len() as int),
        ),
{
    reveal(spec_decode_op);
    reveal(crate::encoder::encode_bytes);
    let s = crate::encoder::encode_bytes(op);
    match op {
        Op::End(x) => {
                    let payload = crate::encoder::operand_bytes(x);
                    assert(s.subrange(0, s.len() as int) =~= s);
                    lemma_subrange_split(s, 0, seq![crate::ops::spec_op_code(op)], payload);
                    lemma_operand_decodes_at(x, s, 1);
                },
        _ => {
            assert(false);
        },
    }
}

/// One instruction range of the round trip.
#[verifier::rlimit(100)]
#[verifier::spinoff_prover]
proof fn lemma_round_trip_g2(op: Op)
    requires
        op is Slp,
    ensures
        spec_decode_op(crate::encoder::encode_bytes(op), 0) == Ok::<(Op, int), DecodeError>(
            (op, crate::encoder::encode_bytes(op).len() as int),
        ),
{
    reveal(spec_decode_op);
    reveal(crate::encoder::encode_bytes);
    let s = crate::encoder::encode_bytes(op);
    match op {
        Op::Slp(x) => {
                    let payload = crate::encoder::operand_bytes(x);
                    assert(s.subrange(0, s.len() as int) =~= s);
                    lemma_subrange_split(s, 0, seq![crate::ops::spec_op_code(op)], payload);
                    lemma_operand_decodes_at(x, s, 1);
                },
        _ => {
            assert(false);
        },
    }
}

/// One instruction range of the round trip.
#[verifier::rlimit(100)]
#[verifier::spinoff_prover]
proof fn lemma_round_trip_g3(op: Op)
    requires
        op is Mov,
    ensures
        spec_decode_op(crate::encoder::encode_bytes(op), 0) == Ok::<(Op, int), DecodeError>(
            (op, crate::encoder::encode_bytes(op).len() as int),
        ),
{
    reveal(spec_decode_op);
    reveal(crate::encoder::encode_bytes);
    let s = crate::encoder::encode_bytes(op);
    match op {
        Op::Mov(b, t) => {
                    let payload = crate::encoder::meta_bin_bytes(b, t, 0);
                    assert(s.subrange(0, s.len() as int) =~= s);
                    lemma_subrange_split(s, 0, seq![crate::ops::spec_op_code(op)], payload);
                    lemma_meta_bin_decodes_at(b, t, 0, s, 1);
                },
        _ => {
            assert(false);
        },
    }
}

/// One instruction range of the round trip.
#[verifier::rlimit(100)]
#[verifier::spinoff_prover]
proof fn lemma_round_trip_g4(op: Op)
    requires
        op is Cnv,
    ensures
        spec_decode_op(crate::encoder::encode_bytes(op), 0) == Ok::<(Op, int), DecodeError>(
            (op, crate::encoder::encode_bytes(op).len() as int),
        ),
{
    reveal(spec_decode_op);
    reveal(crate::encoder::encode_bytes);
    let s = crate::encoder::encode_bytes(op);
    match op {
        Op::Cnv(x, y, t, u) => {
                    let payload = seq![crate::encoder::cnv_meta_byte(t, u)] + crate::encoder::operand_bytes(x) + crate::encoder::operand_bytes(y);
                    assert(s.subrange(0, s.len() as int) =~= s);
                    lemma_subrange_split(s, 0, seq![crate::ops::spec_op_code(op)], payload);
                    let mb = seq![crate::encoder::cnv_meta_byte(t, u)];
                    let xb = crate::encoder::operand_bytes(x);
                    let yb = crate::encoder::operand_bytes(y);
                    assert(payload =~= mb + (xb + yb));
                    lemma_subrange_split(s, 1, mb, xb + yb);
                    assert(s[1] == mb[0]) by {
                        assert(s.subrange(1, 2)[0] == mb[0]);
                    }
                    let tag = crate::ops::op_type_tag(t);
                    let ug = crate::ops::op_type_tag(u);
                    assert(tag <= 13 && ug <= 13);
                    assert(((mb[0] as int) % 16 == tag && (mb[0] as int) / 16 == ug)) by (nonlinear_arith)
                        requires
                            mb[0] == tag + ug * 16,
                            tag <= 13,
                            ug <= 13,
                    ;
                    assert(crate::ops::op_type_from_tag(tag) == Some(t));
                    assert(crate::ops::op_type_from_tag(ug) == Some(u));
                    lemma_subrange_split(s, 2, xb, yb);
                    lemma_operand_decodes_at(x, s, 2);
                    lemma_operand_decodes_at(y, s, 2 + xb.len() as int);
                },
        _ => {
            assert(false);
        },
    }
}

/// One instruction range of the round trip.
#[verifier::rlimit(100)]
#[verifier::spinoff_prover]
proof fn lemma_round_trip_g5(op: Op)
    requires
        op is Add,
    ensures
        spec_decode_op(crate::encoder::encode_bytes(op), 0) == Ok::<(Op, int), DecodeError>(
            (op, crate::encoder::encode_bytes(op).len() as int),
        ),
{
    reveal(spec_decode_op);
    reveal(crate::encoder::encode_bytes);
    let s = crate::encoder::encode_bytes(op);
    match op {
        Op::Add(b, t, m) => {
                    let payload = crate::encoder::meta_bin_bytes(b, t, crate::ops::arithmetic_mode_tag(m));
                    assert(s.subrange(0, s.len() as int) =~= s);
                    lemma_subrange_split(s, 0, seq![crate::ops::spec_op_code(op)], payload);
                    lemma_meta_bin_decodes_at(b, t, crate::ops::arithmetic_mode_tag(m), s, 1);
                },
        _ => {
            assert(false);
        },
    }
}

/// One instruction range of the round trip.
#[verifier::rlimit(100)]
#[verifier::spinoff_prover]
proof fn lemma_round_trip_g6(op: Op)
    requires
        op is Sub,
    ensures
        spec_decode_op(crate::encoder::encode_bytes(op), 0) == Ok::<(Op, int), DecodeError>(
            (op, crate::encoder::encode_bytes(op).len() as int),
        ),
{
    reveal(spec_decode_op);
    reveal(crate::encoder::encode_bytes);
    let s = crate::encoder::encode_bytes(op);
    match op {
        Op::Sub(b, t, m) => {
                    let payload = crate::encoder::meta_bin_bytes(b, t, crate::ops::arithmetic_mode_tag(m));
                    assert(s.subrange(0, s.len() as int) =~= s);
                    lemma_subrange_split(s, 0, seq![crate::ops::spec_op_code(op)], payload);
                    lemma_meta_bin_decodes_at(b, t, crate::ops::arithmetic_mode_tag(m), s, 1);
                },
        _ => {
            assert(false);
        },
    }
}

/// One instruction range of the round trip.
#[verifier::rlimit(100)]
#[verifier::spinoff_prover]
proof fn lemma_round_trip_g7(op: Op)
    requires
        op is Mul,
    ensures
        spec_decode_op(crate::encoder::encode_bytes(op), 0) == Ok::<(Op, int), DecodeError>(
            (op, crate::encoder::encode_bytes(op).len() as int),
        ),
{
    reveal(spec_decode_op);
    reveal(crate::encoder::encode_bytes);
    let s = crate::encoder::encode_bytes(op);
    match op {
        Op::Mul(b, t, m) => {
                    let payload = crate::encoder::meta_bin_bytes(b, t, crate::ops::arithmetic_mode_tag(m));
                    assert(s.subrange(0, s.len() as int) =~= s);
                    lemma_subrange_split(s, 0, seq![crate::ops::spec_op_code(op)], payload);
                    lemma_meta_bin_decodes_at(b, t, crate::ops::arithmetic_mode_tag(m), s, 1);
                },
        _ => {
            assert(false);
        },
    }
}

/// One instruction range of the round trip.
#[verifier::rlimit(100)]
#[verifier::spinoff_prover]
proof fn lemma_round_trip_g8(op: Op)
    requires
        op is Div,
    ensures
        spec_decode_op(crate::encoder::encode_bytes(op), 0) == Ok::<(Op, int), DecodeError>(
            (op, crate::encoder::encode_bytes(op).len() as int),
        ),
{
    reveal(spec_decode_op);
    reveal(crate::encoder::encode_bytes);
    let s = crate::encoder::encode_bytes(op);
    match op {
        Op::Div(b, t) => {
                    let payload = crate::encoder::meta_bin_bytes(b, t, 0);
                    assert(s.subrange(0, s.len() as int) =~= s);
                    lemma_subrange_split(s, 0, seq![crate::ops::spec_op_code(op)], payload);
                    lemma_meta_bin_decodes_at(b, t, 0, s, 1);
                },
        _ => {
            assert(false);
        },
    }
}

/// One instruction range of the round trip.
#[verifier::rlimit(100)]
#[verifier::spinoff_prover]
proof fn lemma_round_trip_g9(op: Op)
    requires
        op is Mod,
    ensures
        spec_decode_op(crate::encoder::encode_bytes(op), 0) == Ok::<(Op, int), DecodeError>(
            (op, crate::encoder::encode_bytes(op).len() as int),
        ),
{
    reveal(spec_decode_op);
    reveal(crate::encoder::encode_bytes);
    let s = crate::encoder::encode_bytes(op);
    match op {
        Op::Mod(b, t) => {
                    let payload = crate::encoder::meta_bin_bytes(b, t, 0);
                    assert(s.subrange(0, s.len() as int) =~= s);
                    lemma_subrange_split(s, 0, seq![crate::ops::spec_op_code(op)], payload);
                    lemma_meta_bin_decodes_at(b, t, 0, s, 1);
                },
        _ => {
            assert(false);
        },
    }
}

/// One instruction range of the round trip.
#[verifier::rlimit(100)]
#[verifier::spinoff_prover]
proof fn lemma_round_trip_g10(op: Op)
    requires
        op is Shl,
    ensures
        spec_decode_op(crate::encoder::encode_bytes(op), 0) == Ok::<(Op, int), DecodeError>(
            (op, crate::encoder::encode_bytes(op).len() as int),
        ),
{
    reveal(spec_decode_op);
    reveal(crate::encoder::encode_bytes);
    let s = crate::encoder::encode_bytes(op);
    match op {
        Op::Shl(x, y, t) => {
                    let payload = seq![crate::ops::op_type_tag(t)] + crate::encoder::operand_bytes(x) + crate::encoder::operand_bytes(y);
                    assert(s.subrange(0, s.len() as int) =~= s);
                    lemma_subrange_split(s, 0, seq![crate::ops::spec_op_code(op)], payload);
                    let mb = seq![crate::ops::op_type_tag(t)];
                    let xb = crate::encoder::operand_bytes(x);
                    let yb = crate::encoder::operand_bytes(y);
                    assert(payload =~= mb + (xb + yb));
                    lemma_subrange_split(s, 1, mb, xb + yb);
                    assert(s[1] == mb[0]) by {
                        assert(s.subrange(1, 2)[0] == mb[0]);
                    }
                    let tag = crate::ops::op_type_tag(t);
                    assert(tag <= 13);
                    assert((tag as int) % 16 == tag) by (nonlinear_arith)
                        requires
                            tag <= 13,
                    ;
                    assert(crate::ops::op_type_from_tag(tag) == Some(t));
                    lemma_subrange_split(s, 2, xb, yb);
                    lemma_operand_decodes_at(x, s, 2);
                    lemma_operand_decodes_at(y, s, 2 + xb.len() as int);
                },
        _ => {
            assert(false);
        },
    }
}

/// One instruction range of the round trip.
#[verifier::rlimit(100)]
#[verifier::spinoff_prover]
proof fn lemma_round_trip_g11(op: Op)
    requires
        op is Shr,
    ensures
        spec_decode_op(crate::encoder::encode_bytes(op), 0) == Ok::<(Op, int), DecodeError>(
            (op, crate::encoder::encode_bytes(op).len() as int),
        ),
{
    reveal(spec_decode_op);
    reveal(crate::encoder::encode_bytes);
    let s = crate::encoder::encode_bytes(op);
    match op {
        Op::Shr(x, y, t) => {
                    let payload = seq![crate::ops::op_type_tag(t)] + crate::encoder::operand_bytes(x) + crate::encoder::operand_bytes(y);
                    assert(s.subrange(0, s.len() as int) =~= s);
                    lemma_subrange_split(s, 0, seq![crate::ops::spec_op_code(op)], payload);
                    let mb = seq![crate::ops::op_type_tag(t)];
                    let xb = crate::encoder::operand_bytes(x);
                    let yb = crate::encoder::operand_bytes(y);
                    assert(payload =~= mb + (xb + yb));
                    lemma_subrange_split(s, 1, mb, xb + yb);
                    assert(s[1] == mb[0]) by {
                        assert(s.subrange(1, 2)[0] == mb[0]);
                    }
                    let tag = crate::ops::op_type_tag(t);
                    assert(tag <= 13);
                    assert((tag as int) % 16 == tag) by (nonlinear_arith)
                        requires
                            tag <= 13,
                    ;
                    assert(crate::ops::op_type_from_tag(tag) == Some(t));
                    lemma_subrange_split(s, 2, xb, yb);
                    lemma_operand_decodes_at(x, s, 2);
                    lemma_operand_decodes_at(y, s, 2 + xb.len() as int);
                },
        _ => {
            assert(false);
        },
    }
}

/// One instruction range of the round trip.
#[verifier::rlimit(100)]
#[verifier::spinoff_prover]
proof fn lemma_round_trip_g12(op: Op)
    requires
        op is And,
    ensures
        spec_decode_op(crate::encoder::encode_bytes(op), 0) == Ok::<(Op, int), DecodeError>(
            (op, crate::encoder::encode_bytes(op).len() as int),
        ),
{
    reveal(spec_decode_op);
    reveal(crate::encoder::encode_bytes);
    let s = crate::encoder::encode_bytes(op);
    match op {
        Op::And(b, t) => {
                    let payload = crate::encoder::meta_bin_bytes(b, t, 0);
                    assert(s.subrange(0, s.len() as int) =~= s);
                    lemma_subrange_split(s, 0, seq![crate::ops::spec_op_code(op)], payload);
                    lemma_meta_bin_decodes_at(b, t, 0, s, 1);
                },
        _ => {
            assert(false);
        },
    }
}

/// One instruction range of the round trip.
#[verifier::rlimit(100)]
#[verifier::spinoff_prover]
proof fn lemma_round_trip_g13(op: Op)
    requires
        op is Or,
    ensures
        spec_decode_op(crate::encoder::encode_bytes(op), 0) == Ok::<(Op, int), DecodeError>(
            (op, crate::encoder::encode_bytes(op).len() as int),
        ),
{
    reveal(spec_decode_op);
    reveal(crate::encoder::encode_bytes);
    let s = crate::encoder::encode_bytes(op);
    match op {
        Op::Or(b, t) => {
                    let payload = crate::encoder::meta_bin_bytes(b, t, 0);
                    assert(s.subrange(0, s.len() as int) =~= s);
                    lemma_subrange_split(s, 0, seq![crate::ops::spec_op_code(op)], payload);
                    lemma_meta_bin_decodes_at(b, t, 0, s, 1);
                },
        _ => {
            assert(false);
        },
    }
}

/// One instruction range of the round trip.
#[verifier::rlimit(100)]
#[verifier::spinoff_prover]
proof fn lemma_round_trip_g14(op: Op)
    requires
        op is Xor,
    ensures
        spec_decode_op(crate::encoder::encode_bytes(op), 0) == Ok::<(Op, int), DecodeError>(
            (op, crate::encoder::encode_bytes(op).len() as int),
        ),
{
    reveal(spec_decode_op);
    reveal(crate::encoder::encode_bytes);
    let s = crate::encoder::encode_bytes(op);
    match op {
        Op::Xor(b, t) => {
                    let payload = crate::encoder::meta_bin_bytes(b, t, 0);
                    assert(s.subrange(0, s.len() as int) =~= s);
                    lemma_subrange_split(s, 0, seq![crate::ops::spec_op_code(op)], payload);
                    lemma_meta_bin_decodes_at(b, t, 0, s, 1);
                },
        _ => {
            assert(false);
        },
    }
}

/// One instruction range of the round trip.
#[verifier::rlimit(100)]
#[verifier::spinoff_prover]
proof fn lemma_round_trip_g15(op: Op)
    requires
        op is Not,
    ensures
        spec_decode_op(crate::encoder::encode_bytes(op), 0) == Ok::<(Op, int), DecodeError>(
            (op, crate::encoder::encode_bytes(op).len() as int),
        ),
{
    reveal(spec_decode_op);
    reveal(crate::encoder::encode_bytes);
    let s = crate::encoder::encode_bytes(op);
    match op {
        Op::Not(u, t) => {
                    let payload = crate::encoder::meta_un_bytes(u, t, 0);
                    assert(s.subrange(0, s.len() as int) =~= s);
                    lemma_subrange_split(s, 0, seq![crate::ops::spec_op_code(op)], payload);
                    lemma_meta_un_decodes_at(u, t, 0, s, 1);
                },
        _ => {
            assert(false);
        },
    }
}

/// One instruction range of the round trip.
#[verifier::rlimit(100)]
#[verifier::spinoff_prover]
proof fn lemma_round_trip_g16(op: Op)
    requires
        op is Neg,
    ensures
        spec_decode_op(crate::encoder::encode_bytes(op), 0) == Ok::<(Op, int), DecodeError>(
            (op, crate::encoder::encode_bytes(op).len() as int),
        ),
{
    reveal(spec_decode_op);
    reveal(crate::encoder::encode_bytes);
    let s = crate::encoder::encode_bytes(op);
    match op {
        Op::Neg(u, t, m) => {
                    let payload = crate::encoder::meta_un_bytes(u, t, crate::ops::arithmetic_mode_tag(m));
                    assert(s.subrange(0, s.len() as int) =~= s);
                    lemma_subrange_split(s, 0, seq![crate::ops::spec_op_code(op)], payload);
                    lemma_meta_un_decodes_at(u, t, crate::ops::arithmetic_mode_tag(m), s, 1);
                },
        _ => {
            assert(false);
        },
    }
}

/// One instruction range of the round trip.
#[verifier::rlimit(100)]
#[verifier::spinoff_prover]
proof fn lemma_round_trip_g17(op: Op)
    requires
        op is Inc,
    ensures
        spec_decode_op(crate::encoder::encode_bytes(op), 0) == Ok::<(Op, int), DecodeError>(
            (op, crate::encoder::encode_bytes(op).len() as int),
        ),
{
    reveal(spec_decode_op);
    reveal(crate::encoder::encode_bytes);
    let s = crate::encoder::encode_bytes(op);
    match op {
        Op::Inc(u, t, m) => {
                    let payload = crate::encoder::meta_un_bytes(u, t, crate::ops::arithmetic_mode_tag(m));
                    assert(s.subrange(0, s.len() as int) =~= s);
                    lemma_subrange_split(s, 0, seq![crate::ops::spec_op_code(op)], payload);
                    lemma_meta_un_decodes_at(u, t, crate::ops::arithmetic_mode_tag(m), s, 1);
                },
        _ => {
            assert(false);
        },
    }
}

/// One instruction range of the round trip.
#[verifier::rlimit(100)]
#[verifier::spinoff_prover]
proof fn lemma_round_trip_g18(op: Op)
    requires
        op is Dec,
    ensures
        spec_decode_op(crate::encoder::encode_bytes(op), 0) == Ok::<(Op, int), DecodeError>(
            (op, crate::encoder::encode_bytes(op).len() as int),
        ),
{
    reveal(spec_decode_op);
    reveal(crate::encoder::encode_bytes);
    let s = crate::encoder::encode_bytes(op);
    match op {
        Op::Dec(u, t, m) => {
                    let payload = crate::encoder::meta_un_bytes(u, t, crate::ops::arithmetic_mode_tag(m));
                    assert(s.subrange(0, s.len() as int) =~= s);
                    lemma_subrange_split(s, 0, seq![crate::ops::spec_op_code(op)], payload);
                    lemma_meta_un_decodes_at(u, t, crate::ops::arithmetic_mode_tag(m), s, 1);
                },
        _ => {
            assert(false);
        },
    }
}

/// One instruction range of the round trip.
#[verifier::rlimit(100)]
#[verifier::spinoff_prover]
proof fn lemma_round_trip_g19(op: Op)
    requires
        op is Go,
    ensures
        spec_decode_op(crate::encoder::encode_bytes(op), 0) == Ok::<(Op, int), DecodeError>(
            (op, crate::encoder::encode_bytes(op).len() as int),
        ),
{
    reveal(spec_decode_op);
    reveal(crate::encoder::encode_bytes);
    let s = crate::encoder::encode_bytes(op);
    match op {
        Op::Go(x) => {
                    let payload = crate::encoder::operand_bytes(x);
                    assert(s.subrange(0, s.len() as int) =~= s);
                    lemma_subrange_split(s, 0, seq![crate::ops::spec_op_code(op)], payload);
                    lemma_operand_decodes_at(x, s, 1);
                },
        _ => {
            assert(false);
        },
    }
}

/// One instruction range of the round trip.
#[verifier::rlimit(100)]
#[verifier::spinoff_prover]
proof fn lemma_round_trip_g20(op: Op)
    requires
        op is Ift,
    ensures
        spec_decode_op(crate::encoder::encode_bytes(op), 0) == Ok::<(Op, int), DecodeError>(
            (op, crate::encoder::encode_bytes(op).len() as int),
        ),
{
    reveal(spec_decode_op);
    reveal(crate::encoder::encode_bytes);
    let s = crate::encoder::encode_bytes(op);
    match op {
        Op::Ift(u, t) => {
                    let payload = crate::encoder::meta_un_bytes(u, t, 0);
                    assert(s.subrange(0, s.len() as int) =~= s);
                    lemma_subrange_split(s, 0, seq![crate::ops::spec_op_code(op)], payload);
                    lemma_meta_un_decodes_at(u, t, 0, s, 1);
                },
        _ => {
            assert(false);
        },
    }
}

/// One instruction range of the round trip.
#[verifier::rlimit(100)]
#[verifier::spinoff_prover]
proof fn lemma_round_trip_g21(op: Op)
    requires
        op is Iff,
    ensures
        spec_decode_op(crate::encoder::encode_bytes(op), 0) == Ok::<(Op, int), DecodeError>(
            (op, crate::encoder::encode_bytes(op).len() as int),
        ),
{
    reveal(spec_decode_op);
    reveal(crate::encoder::encode_bytes);
    let s = crate::encoder::encode_bytes(op);
    match op {
        Op::Iff(u, t) => {
                    let payload = crate::encoder::meta_un_bytes(u, t, 0);
                    assert(s.subrange(0, s.len() as int) =~= s);
                    lemma_subrange_split(s, 0, seq![crate::ops::spec_op_code(op)], payload);
                    lemma_meta_un_decodes_at(u, t, 0, s, 1);
                },
        _ => {
            assert(false);
        },
    }
}

/// One instruction range of the round trip.
#[verifier::rlimit(100)]
#[verifier::spinoff_prover]
proof fn lemma_round_trip_g22(op: Op)
    requires
        op is Ife,
    ensures
        spec_decode_op(crate::encoder::encode_bytes(op), 0) == Ok::<(Op, int), DecodeError>(
            (op, crate::encoder::encode_bytes(op).len() as int),
        ),
{
    reveal(spec_decode_op);
    reveal(crate::encoder::encode_bytes);
    let s = crate::encoder::encode_bytes(op);
    match op {
        Op::Ife(b, t) => {
                    let payload = crate::encoder::meta_bin_bytes(b, t, 0);
                    assert(s.subrange(0, s.len() as int) =~= s);
                    lemma_subrange_split(s, 0, seq![crate::ops::spec_op_code(op)], payload);
                    lemma_meta_bin_decodes_at(b, t, 0, s, 1);
                },
        _ => {
            assert(false);
        },
    }
}

/// One instruction range of the round trip.
#[verifier::rlimit(100)]
#[verifier::spinoff_prover]
proof fn lemma_round_trip_g23(op: Op)
    requires
        op is Ifl,
    ensures
        spec_decode_op(crate::encoder::encode_bytes(op), 0) == Ok::<(Op, int), DecodeError>(
            (op, crate::encoder::encode_bytes(op).len() as int),
        ),
{
    reveal(spec_decode_op);
    reveal(crate::encoder::encode_bytes);
    let s = crate::encoder::encode_bytes(op);
    match op {
        Op::Ifl(b, t) => {
                    let payload = crate::encoder::meta_bin_bytes(b, t, 0);
                    assert(s.subrange(0, s.len() as int) =~= s);
                    lemma_subrange_split(s, 0, seq![crate::ops::spec_op_code(op)], payload);
                    lemma_meta_bin_decodes_at(b, t, 0, s, 1);
                },
        _ => {
            assert(false);
        },
    }
}

/// One instruction range of the round trip.
#[verifier::rlimit(100)]
#[verifier::spinoff_prover]
proof fn lemma_round_trip_g24(op: Op)
    requires
        op is Ifg,
    ensures
        spec_decode_op(crate::encoder::encode_bytes(op), 0) == Ok::<(Op, int), DecodeError>(
            (op, crate::encoder::encode_bytes(op).len() as int),
        ),
{
    reveal(spec_decode_op);
    reveal(crate::encoder::encode_bytes);
    let s = crate::encoder::encode_bytes(op);
    match op {
        Op::Ifg(b, t) => {
                    let payload = crate::encoder::meta_bin_bytes(b, t, 0);
                    assert(s.subrange(0, s.len() as int) =~= s);
                    lemma_subrange_split(s, 0, seq![crate::ops::spec_op_code(op)], payload);
                    lemma_meta_bin_decodes_at(b, t, 0, s, 1);
                },
        _ => {
            assert(false);
        },
    }
}

/// One instruction range of the round trip.
#[verifier::rlimit(100)]
#[verifier::spinoff_prover]
proof fn lemma_round_trip_g25(op: Op)
    requires
        op is Ine,
    ensures
        spec_decode_op(crate::encoder::encode_bytes(op), 0) == Ok::<(Op, int), DecodeError>(
            (op, crate::encoder::encode_bytes(op).len() as int),
        ),
{
    reveal(spec_decode_op);
    reveal(crate::encoder::encode_bytes);
    let s = crate::encoder::encode_bytes(op);
    match op {
        Op::Ine(b, t) => {
                    let payload = crate::encoder::meta_bin_bytes(b, t, 0);
                    assert(s.subrange(0, s.len() as int) =~= s);
                    lemma_subrange_split(s, 0, seq![crate::ops::spec_op_code(op)], payload);
                    lemma_meta_bin_decodes_at(b, t, 0, s, 1);
                },
        _ => {
            assert(false);
        },
    }
}

/// One instruction range of the round trip.
#[verifier::rlimit(100)]
#[verifier::spinoff_prover]
proof fn lemma_round_trip_g26(op: Op)
    requires
        op is Inl,
    ensures
        spec_decode_op(crate::encoder::encode_bytes(op), 0) == Ok::<(Op, int), DecodeError>(
            (op, crate::encoder::encode_bytes(op).len() as int),
        ),
{
    reveal(spec_decode_op);
    reveal(crate::encoder::encode_bytes);
    let s = crate::encoder::encode_bytes(op);
    match op {
        Op::Inl(b, t) => {
                    let payload = crate::encoder::meta_bin_bytes(b, t, 0);
                    assert(s.subrange(0, s.len() as int) =~= s);
                    lemma_subrange_split(s, 0, seq![crate::ops::spec_op_code(op)], payload);
                    lemma_meta_bin_decodes_at(b, t, 0, s, 1);
                },
        _ => {
            assert(false);
        },
    }
}

/// One instruction range of the round trip.
#[verifier::rlimit(100)]
#[verifier::spinoff_prover]
proof fn lemma_round_trip_g27(op: Op)
    requires
        op is Ing,
    ensures
        spec_decode_op(crate::encoder::encode_bytes(op), 0) == Ok::<(Op, int), DecodeError>(
            (op, crate::encoder::encode_bytes(op).len() as int),
        ),
{
    reveal(spec_decode_op);
    reveal(crate::encoder::encode_bytes);
    let s = crate::encoder::encode_bytes(op);
    match op {
        Op::Ing(b, t) => {
                    let payload = crate::encoder::meta_bin_bytes(b, t, 0);
                    assert(s.subrange(0, s.len() as int) =~= s);
                    lemma_subrange_split(s, 0, seq![crate::ops::spec_op_code(op)], payload);
                    lemma_meta_bin_decodes_at(b, t, 0, s, 1);
                },
        _ => {
            assert(false);
        },
    }
}

/// One instruction range of the round trip.
#[verifier::rlimit(100)]
#[verifier::spinoff_prover]
proof fn lemma_round_trip_g28(op: Op)
    requires
        op is Ifa,
    ensures
        spec_decode_op(crate::encoder::encode_bytes(op), 0) == Ok::<(Op, int), DecodeError>(
            (op, crate::encoder::encode_bytes(op).len() as int),
        ),
{
    reveal(spec_decode_op);
    reveal(crate::encoder::encode_bytes);
    let s = crate::encoder::encode_bytes(op);
    match op {
        Op::Ifa(b, t) => {
                    let payload = crate::encoder::meta_bin_bytes(b, t, 0);
                    assert(s.subrange(0, s.len() as int) =~= s);
                    lemma_subrange_split(s, 0, seq![crate::ops::spec_op_code(op)], payload);
                    lemma_meta_bin_decodes_at(b, t, 0, s, 1);
                },
        _ => {
            assert(false);
        },
    }
}

/// One instruction range of the round trip.
#[verifier::rlimit(100)]
#[verifier::spinoff_prover]
proof fn lemma_round_trip_g29(op: Op)
    requires
        op is Ifo,
    ensures
        spec_decode_op(crate::encoder::encode_bytes(op), 0) == Ok::<(Op, int), DecodeError>(
            (op, crate::encoder::encode_bytes(op).len() as int),
        ),
{
    reveal(spec_decode_op);
    reveal(crate::encoder::encode_bytes);
    let s = crate::encoder::encode_bytes(op);
    match op {
        Op::Ifo(b, t) => {
                    let payload = crate::encoder::meta_bin_bytes(b, t, 0);
                    assert(s.subrange(0, s.len() as int) =~= s);
                    lemma_subrange_split(s, 0, seq![crate::ops::spec_op_code(op)], payload);
                    lemma_meta_bin_decodes_at(b, t, 0, s, 1);
                },
        _ => {
            assert(false);
        },
    }
}

/// One instruction range of the round trip.
#[verifier::rlimit(100)]
#[verifier::spinoff_prover]
proof fn lemma_round_trip_g30(op: Op)
    requires
        op is Ifx,
    ensures
        spec_decode_op(crate::encoder::encode_bytes(op), 0) == Ok::<(Op, int), DecodeError>(
            (op, crate::encoder::encode_bytes(op).len() as int),
        ),
{
    reveal(spec_decode_op);
    reveal(crate::encoder::encode_bytes);
    let s = crate::encoder::encode_bytes(op);
    match op {
        Op::Ifx(b, t) => {
                    let payload = crate::encoder::meta_bin_bytes(b, t, 0);
                    assert(s.subrange(0, s.len() as int) =~= s);
                    lemma_subrange_split(s, 0, seq![crate::ops::spec_op_code(op)], payload);
                    lemma_meta_bin_decodes_at(b, t, 0, s, 1);
                },
        _ => {
            assert(false);
        },
    }
}

/// One instruction range of the round trip.
#[verifier::rlimit(100)]
#[verifier::spinoff_prover]
proof fn lemma_round_trip_g31(op: Op)
    requires
        op is Ina,
    ensures
        spec_decode_op(crate::encoder::encode_bytes(op), 0) == Ok::<(Op, int), DecodeError>(
            (op, crate::encoder::encode_bytes(op).len() as int),
        ),
{
    reveal(spec_decode_op);
    reveal(crate::encoder::encode_bytes);
    let s = crate::encoder::encode_bytes(op);
    match op {
        Op::Ina(b, t) => {
                    let payload = crate::encoder::meta_bin_bytes(b, t, 0);
                    assert(s.subrange(0, s.len() as int) =~= s);
                    lemma_subrange_split(s, 0, seq![crate::ops::spec_op_code(op)], payload);
                    lemma_meta_bin_decodes_at(b, t, 0, s, 1);
                },
        _ => {
            assert(false);
        },
    }
}

/// One instruction range of the round trip.
#[verifier::rlimit(100)]
#[verifier::spinoff_prover]
proof fn lemma_round_trip_g32(op: Op)
    requires
        op is Ino,
    ensures
        spec_decode_op(crate::encoder::encode_bytes(op), 0) == Ok::<(Op, int), DecodeError>(
            (op, crate::encoder::encode_bytes(op).len() as int),
        ),
{
    reveal(spec_decode_op);
    reveal(crate::encoder::encode_bytes);
    let s = crate::encoder::encode_bytes(op);
    match op {
        Op::Ino(b, t) => {
                    let payload = crate::encoder::meta_bin_bytes(b, t, 0);
                    assert(s.subrange(0, s.len() as int) =~= s);
                    lemma_subrange_split(s, 0, seq![crate::ops::spec_op_code(op)], payload);
                    lemma_meta_bin_decodes_at(b, t, 0, s, 1);
                },
        _ => {
            assert(false);
        },
    }
}

/// One instruction range of the round trip.
#[verifier::rlimit(100)]
#[verifier::spinoff_prover]
proof fn lemma_round_trip_g33(op: Op)
    requires
        op is Inx,
    ensures
        spec_decode_op(crate::encoder::encode_bytes(op), 0) == Ok::<(Op, int), DecodeError>(
            (op, crate::encoder::encode_bytes(op).len() as int),
        ),
{
    reveal(spec_decode_op);
    reveal(crate::encoder::encode_bytes);
    let s = crate::encoder::encode_bytes(op);
    match op {
        Op::Inx(b, t) => {
                    let payload = crate::encoder::meta_bin_bytes(b, t, 0);
                    assert(s.subrange(0, s.len() as int) =~= s);
                    lemma_subrange_split(s, 0, seq![crate::ops::spec_op_code(op)], payload);
                    lemma_meta_bin_decodes_at(b, t, 0, s, 1);
                },
        _ => {
            assert(false);
        },
    }
}

/// One instruction range of the round trip.
#[verifier::rlimit(100)]
#[verifier::spinoff_prover]
proof fn lemma_round_trip_g34(op: Op)
    requires
        op is App,
    ensures
        spec_decode_op(crate::encoder::encode_bytes(op), 0) == Ok::<(Op, int), DecodeError>(
            (op, crate::encoder::encode_bytes(op).len() as int),
        ),
{
    reveal(spec_decode_op);
    reveal(crate::encoder::encode_bytes);
    let s = crate::encoder::encode_bytes(op);
    match op {
        Op::App(x) => {
                    let payload = crate::encoder::operand_bytes(x);
                    assert(s.subrange(0, s.len() as int) =~= s);
                    lemma_subrange_split(s, 0, seq![crate::ops::spec_op_code(op)], payload);
                    lemma_operand_decodes_at(x, s, 1);
                },
        _ => {
            assert(false);
        },
    }
}

/// One instruction range of the round trip.
#[verifier::rlimit(100)]
#[verifier::spinoff_prover]
proof fn lemma_round_trip_g35(op: Op)
    requires
        op is Par,
    ensures
        spec_decode_op(crate::encoder::encode_bytes(op), 0) == Ok::<(Op, int), DecodeError>(
            (op, crate::encoder::encode_bytes(op).len() as int),
        ),
{
    reveal(spec_decode_op);
    reveal(crate::encoder::encode_bytes);
    let s = crate::encoder::encode_bytes(op);
    match op {
        Op::Par(u, t, m) => {
                    let payload = crate::encoder::meta_un_bytes(u, t, crate::ops::parameter_mode_tag(m));
                    assert(s.subrange(0, s.len() as int) =~= s);
                    lemma_subrange_split(s, 0, seq![crate::ops::spec_op_code(op)], payload);
                    lemma_meta_un_decodes_at(u, t, crate::ops::parameter_mode_tag(m), s, 1);
                },
        _ => {
            assert(false);
        },
    }
}

/// One instruction range of the round trip.
#[verifier::rlimit(100)]
#[verifier::spinoff_prover]
proof fn lemma_round_trip_g36(op: Op)
    requires
        op is Clf,
    ensures
        spec_decode_op(crate::encoder::encode_bytes(op), 0) == Ok::<(Op, int), DecodeError>(
            (op, crate::encoder::encode_bytes(op).len() as int),
        ),
{
    reveal(spec_decode_op);
    reveal(crate::encoder::encode_bytes);
    let s = crate::encoder::encode_bytes(op);
    match op {
        Op::Clf(x) => {
                    let payload = crate::encoder::operand_bytes(x);
                    assert(s.subrange(0, s.len() as int) =~= s);
                    lemma_subrange_split(s, 0, seq![crate::ops::spec_op_code(op)], payload);
                    lemma_operand_decodes_at(x, s, 1);
                },
        _ => {
            assert(false);
        },
    }
}

/// One instruction range of the round trip.
#[verifier::rlimit(100)]
#[verifier::spinoff_prover]
proof fn lemma_round_trip_g37(op: Op)
    requires
        op is Ret,
    ensures
        spec_decode_op(crate::encoder::encode_bytes(op), 0) == Ok::<(Op, int), DecodeError>(
            (op, crate::encoder::encode_bytes(op).len() as int),
        ),
{
    reveal(spec_decode_op);
    reveal(crate::encoder::encode_bytes);
    let s = crate::encoder::encode_bytes(op);
    match op {
        Op::Ret(u, t) => {
                    let payload = crate::encoder::meta_un_bytes(u, t, 0);
                    assert(s.subrange(0, s.len() as int) =~= s);
                    lemma_subrange_split(s, 0, seq![crate::ops::spec_op_code(op)], payload);
                    lemma_meta_un_decodes_at(u, t, 0, s, 1);
                },
        _ => {
            assert(false);
        },
    }
}

/// One instruction range of the round trip.
#[verifier::rlimit(100)]
#[verifier::spinoff_prover]
proof fn lemma_round_trip_g38(op: Op)
    requires
        op is In,
    ensures
        spec_decode_op(crate::encoder::encode_bytes(op), 0) == Ok::<(Op, int), DecodeError>(
            (op, crate::encoder::encode_bytes(op).len() as int),
        ),
{
    reveal(spec_decode_op);
    reveal(crate::encoder::encode_bytes);
    let s = crate::encoder::encode_bytes(op);
    match op {
        Op::In(b) => {
                    let payload = crate::encoder::meta_bin_bytes(b, OpType::U8, 0);
                    assert(s.subrange(0, s.len() as int) =~= s);
                    lemma_subrange_split(s, 0, seq![crate::ops::spec_op_code(op)], payload);
                    lemma_meta_bin_decodes_at(b, OpType::U8, 0, s, 1);
                },
        _ => {
            assert(false);
        },
    }
}

/// One instruction range of the round trip.
#[verifier::rlimit(100)]
#[verifier::spinoff_prover]
proof fn lemma_round_trip_g39(op: Op)
    requires
        op is Out,
    ensures
        spec_decode_op(crate::encoder::encode_bytes(op), 0) == Ok::<(Op, int), DecodeError>(
            (op, crate::encoder::encode_bytes(op).len() as int),
        ),
{
    reveal(spec_decode_op);
    reveal(crate::encoder::encode_bytes);
    let s = crate::encoder::encode_bytes(op);
    match op {
        Op::Out(u) => {
                    let payload = crate::encoder::meta_un_bytes(u, OpType::U8, 0);
                    assert(s.subrange(0, s.len() as int) =~= s);
                    lemma_subrange_split(s, 0, seq![crate::ops::spec_op_code(op)], payload);
                    lemma_meta_un_decodes_at(u, OpType::U8, 0, s, 1);
                },
        _ => {
            assert(false);
        },
    }
}

/// One instruction range of the round trip.
#[verifier::rlimit(100)]
#[verifier::spinoff_prover]
proof fn lemma_round_trip_g40(op: Op)
    requires
        op is Fls,
    ensures
        spec_decode_op(crate::encoder::encode_bytes(op), 0) == Ok::<(Op, int), DecodeError>(
            (op, crate::encoder::encode_bytes(op).len() as int),
        ),
{
    reveal(spec_decode_op);
    reveal(crate::encoder::encode_bytes);
    let s = crate::encoder::encode_bytes(op);
    match op {
        Op::Fls => {
                    let payload = Seq::<u8>::empty();
                    assert(s.subrange(0, s.len() as int) =~= s);
                    lemma_subrange_split(s, 0, seq![crate::ops::spec_op_code(op)], payload);
                },
        _ => {
            assert(false);
        },
    }
}

/// One instruction range of the round trip.
#[verifier::rlimit(100)]
#[verifier::spinoff_prover]
proof fn lemma_round_trip_g41(op: Op)
    requires
        op is Sfd,
    ensures
        spec_decode_op(crate::encoder::encode_bytes(op), 0) == Ok::<(Op, int), DecodeError>(
            (op, crate::encoder::encode_bytes(op).len() as int),
        ),
{
    reveal(spec_decode_op);
    reveal(crate::encoder::encode_bytes);
    let s = crate::encoder::encode_bytes(op);
    match op {
        Op::Sfd(x) => {
                    let payload = crate::encoder::operand_bytes(x);
                    assert(s.subrange(0, s.len() as int) =~= s);
                    lemma_subrange_split(s, 0, seq![crate::ops::spec_op_code(op)], payload);
                    lemma_operand_decodes_at(x, s, 1);
                },
        _ => {
            assert(false);
        },
    }
}

/// One instruction range of the round trip.
#[verifier::rlimit(100)]
#[verifier::spinoff_prover]
proof fn lemma_round_trip_g42(op: Op)
    requires
        op is Gfd,
    ensures
        spec_decode_op(crate::encoder::encode_bytes(op), 0) == Ok::<(Op, int), DecodeError>(
            (op, crate::encoder::encode_bytes(op).len() as int),
        ),
{
    reveal(spec_decode_op);
    reveal(crate::encoder::encode_bytes);
    let s = crate::encoder::encode_bytes(op);
    match op {
        Op::Gfd(x) => {
                    let payload = crate::encoder::operand_bytes(x);
                    assert(s.subrange(0, s.len() as int) =~= s);
                    lemma_subrange_split(s, 0, seq![crate::ops::spec_op_code(op)], payload);
                    lemma_operand_decodes_at(x, s, 1);
                },
        _ => {
            assert(false);
        },
    }
}

/// One instruction range of the round trip.
#[verifier::rlimit(100)]
#[verifier::spinoff_prover]
proof fn lemma_round_trip_g43(op: Op)
    requires
        op is Zer,
    ensures
        spec_decode_op(crate::encoder::encode_bytes(op), 0) == Ok::<(Op, int), DecodeError>(
            (op, crate::encoder::encode_bytes(op).len() as int),
        ),
{
    reveal(spec_decode_op);
    reveal(crate::encoder::encode_bytes);
    let s = crate::encoder::encode_bytes(op);
    match op {
        Op::Zer(x, y) => {
                    let payload = crate::encoder::operand_bytes(x) + crate::encoder::operand_bytes(y);
                    assert(s.subrange(0, s.len() as int) =~= s);
                    lemma_subrange_split(s, 0, seq![crate::ops::spec_op_code(op)], payload);
                    let xb = crate::encoder::operand_bytes(x);
                    let yb = crate::encoder::operand_bytes(y);
                    lemma_subrange_split(s, 1, xb, yb);
                    lemma_operand_decodes_at(x, s, 1);
                    lemma_operand_decodes_at(y, s, 1 + xb.len() as int);
                },
        _ => {
            assert(false);
        },
    }
}

/// One instruction range of the round trip.
#[verifier::rlimit(100)]
#[verifier::spinoff_prover]
proof fn lemma_round_trip_g44(op: Op)
    requires
        op is Cmp,
    ensures
        spec_decode_op(crate::encoder::encode_bytes(op), 0) == Ok::<(Op, int), DecodeError>(
            (op, crate::encoder::encode_bytes(op).len() as int),
        ),
{
    reveal(spec_decode_op);
    reveal(crate::encoder::encode_bytes);
    let s = crate::encoder::encode_bytes(op);
    match op {
        Op::Cmp(x, y, z) => {
                    let payload = crate::encoder::operand_bytes(x) + crate::encoder::operand_bytes(y) + crate::encoder::operand_bytes(z);
                    assert(s.subrange(0, s.len() as int) =~= s);
                    lemma_subrange_split(s, 0, seq![crate::ops::spec_op_code(op)], payload);
                    let xb = crate::encoder::operand_bytes(x);
                    let yb = crate::encoder::operand_bytes(y);
                    let zb = crate::encoder::operand_bytes(z);
                    assert(payload =~= xb + (yb + zb));
                    lemma_subrange_split(s, 1, xb, yb + zb);
                    lemma_operand_decodes_at(x, s, 1);
                    lemma_subrange_split(s, 1 + xb.len() as int, yb, zb);
                    lemma_operand_decodes_at(y, s, 1 + xb.len() as int);
                    lemma_operand_decodes_at(z, s, 1 + xb.len() as int + yb.len() as int);
                },
        _ => {
            assert(false);
        },
    }
}

/// One instruction range of the round trip.
#[verifier::rlimit(100)]
#[verifier::spinoff_prover]
proof fn lemma_round_trip_g45(op: Op)
    requires
        op is Cpy,
    ensures
        spec_decode_op(crate::encoder::encode_bytes(op), 0) == Ok::<(Op, int), DecodeError>(
            (op, crate::encoder::encode_bytes(op).len() as int),
        ),
{
    reveal(spec_decode_op);
    reveal(crate::encoder::encode_bytes);
    let s = crate::encoder::encode_bytes(op);
    match op {
        Op::Cpy(x, y, z) => {
                    let payload = crate::encoder::operand_bytes(x) + crate::encoder::operand_bytes(y) + crate::encoder::operand_bytes(z);
                    assert(s.subrange(0, s.len() as int) =~= s);
                    lemma_subrange_split(s, 0, seq![crate::ops::spec_op_code(op)], payload);
                    let xb = crate::encoder::operand_bytes(x);
                    let yb = crate::encoder::operand_bytes(y);
                    let zb = crate::encoder::operand_bytes(z);
                    assert(payload =~= xb + (yb + zb));
                    lemma_subrange_split(s, 1, xb, yb + zb);
                    lemma_operand_decodes_at(x, s, 1);
                    lemma_subrange_split(s, 1 + xb.len() as int, yb, zb);
                    lemma_operand_decodes_at(y, s, 1 + xb.len() as int);
                    lemma_operand_decodes_at(z, s, 1 + xb.len() as int + yb.len() as int);
                },
        _ => {
            assert(false);
        },
    }
}

/// The codec round trip: every constructible instruction decodes back
/// from its own encoding, consuming exactly its bytes.
pub proof fn lemma_codec_round_trip(op: Op)
    ensures
        spec_decode_op(crate::encoder::encode_bytes(op), 0) == Ok::<(Op, int), DecodeError>(
            (op, crate::encoder::encode_bytes(op).len() as int),
        ),
{
    match op {
        Op::Nop => lemma_round_trip_g0(op),
        Op::End(..) => lemma_round_trip_g1(op),
        Op::Slp(..) => lemma_round_trip_g2(op),
        Op::Mov(..) => lemma_round_trip_g3(op),
        Op::Cnv(..) => lemma_round_trip_g4(op),
        Op::Add(..) => lemma_round_trip_g5(op),
        Op::Sub(..) => lemma_round_trip_g6(op),
        Op::Mul(..) => lemma_round_trip_g7(op),
        Op::Div(..) => lemma_round_trip_g8(op),
        Op::Mod(..) => lemma_round_trip_g9(op),
        Op::Shl(..) => lemma_round_trip_g10(op),
        Op::Shr(..) => lemma_round_trip_g11(op),
        Op::And(..) => lemma_round_trip_g12(op),
        Op::Or(..) => lemma_round_trip_g13(op),
        Op::Xor(..) => lemma_round_trip_g14(op),
        Op::Not(..) => lemma_round_trip_g15(op),
        Op::Neg(..) => lemma_round_trip_g16(op),
        Op::Inc(..) => lemma_round_trip_g17(op),
        Op::Dec(..) => lemma_round_trip_g18(op),
        Op::Go(..) => lemma_round_trip_g19(op),
        Op::Ift(..) => lemma_round_trip_g20(op),
        Op::Iff(..) => lemma_round_trip_g21(op),
        Op::Ife(..) => lemma_round_trip_g22(op),
        Op::Ifl(..) => lemma_round_trip_g23(op),
        Op::Ifg(..) => lemma_round_trip_g24(op),
        Op::Ine(..) => lemma_round_trip_g25(op),
        Op::Inl(..) => lemma_round_trip_g26(op),
        Op::Ing(..) => lemma_round_trip_g27(op),
        Op::Ifa(..) => lemma_round_trip_g28(op),
        Op::Ifo(..) => lemma_round_trip_g29(op),
        Op::Ifx(..) => lemma_round_trip_g30(op),
        Op::Ina(..) => lemma_round_trip_g31(op),
        Op::Ino(..) => lemma_round_trip_g32(op),
        Op::Inx(..) => lemma_round_trip_g33(op),
        Op::App(..) => lemma_round_trip_g34(op),
        Op::Par(..) => lemma_round_trip_g35(op),
        Op::Clf(..) => lemma_round_trip_g36(op),
        Op::Ret(..) => lemma_round_trip_g37(op),
        Op::In(..) => lemma_round_trip_g38(op),
        Op::Out(..) => lemma_round_trip_g39(op),
        Op::Fls => lemma_round_trip_g40(op),
        Op::Sfd(..) => lemma_round_trip_g41(op),
        Op::Gfd(..) => lemma_round_trip_g42(op),
        Op::Zer(..) => lemma_round_trip_g43(op),
        Op::Cmp(..) => lemma_round_trip_g44(op),
        Op::Cpy(..) => lemma_round_trip_g45(op),
    }
}

} // verus!


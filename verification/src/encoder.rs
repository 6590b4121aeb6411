//! The instruction encoder, and the wire format stated as spec
//! functions.
//!
//! An instruction is one opcode byte followed by the metadata byte and
//! operand encodings its opcode dictates.  An operand is one byte
//! (short form: a small local) or a meta byte introducing one to
//! sixteen little-endian value bytes (long form).  The encoder always
//! emits the shortest form that holds the value.

use vstd::prelude::*;

use crate::bytes::nat_to_le;
use crate::primary::le_bytes_of;
use crate::ops::{
    arithmetic_mode_tag, bin_op_variant, op_type_tag, operand_kind, operand_word,
    parameter_mode_tag, spec_op_code, un_op_variant, variant_tag, BinOp, Mode, Op, OpType, Operand,
    UnOp, Variant,
};
use crate::UWord;

verus! {

broadcast use crate::bytes::lemma_nat_to_le_len_auto;

/// The fewest little-endian bytes that hold `v`; zero still takes one
/// byte.
pub open spec fn min_len(v: UWord) -> nat {
    if v < 0x100 {
        1
    } else if v < 0x1_0000 {
        2
    } else if v < 0x100_0000 {
        3
    } else {
        4
    }
}

/// The long-form meta byte: the high bit, the kind tag, and the count
/// of value bytes less one.
pub open spec fn long_meta(kind: u8, n: nat) -> u8 {
    (0x80 + kind * 16 + (n - 1)) as u8
}

/// The wire bytes of one operand.
pub open spec fn operand_bytes(o: Operand) -> Seq<u8> {
    match operand_word(o) {
        Some(v) => if o is Loc && v <= 0x7F {
            seq![v as u8]
        } else {
            seq![long_meta(operand_kind(o), min_len(v))] + nat_to_le(v as nat, min_len(v))
        },
        None => seq![long_meta(operand_kind(o), 1)],
    }
}

/// The packed metadata byte: variant, mode, and numeric type tag.
pub open spec fn meta_byte(t: OpType, mode: u8, var: Variant) -> u8 {
    (variant_tag(var) * 64 + mode * 16 + op_type_tag(t)) as u8
}

/// The packed two-type byte of a conversion: source low, target high.
pub open spec fn cnv_meta_byte(t: OpType, u: OpType) -> u8 {
    (op_type_tag(t) + op_type_tag(u) * 16) as u8
}

/// The operand bytes of a one-operand group: the base operand, then
/// its offset when present.
pub open spec fn un_op_bytes(u: UnOp) -> Seq<u8> {
    match u.x_offset {
        Some(o) => operand_bytes(u.x) + operand_bytes(o),
        None => operand_bytes(u.x),
    }
}

/// The operand bytes of a two-operand group: both base operands, then
/// the offsets that are present, first's before second's.
pub open spec fn bin_op_bytes(b: BinOp) -> Seq<u8> {
    let offs = match (b.x_offset, b.y_offset) {
        (Option::None, Option::None) => Seq::<u8>::empty(),
        (Option::Some(xo), Option::None) => operand_bytes(xo),
        (Option::None, Option::Some(yo)) => operand_bytes(yo),
        (Option::Some(xo), Option::Some(yo)) => operand_bytes(xo) + operand_bytes(yo),
    };
    operand_bytes(b.x) + operand_bytes(b.y) + offs
}

/// A meta byte and a one-operand group, as typed instructions carry
/// them.
pub open spec fn meta_un_bytes(u: UnOp, t: OpType, mode: u8) -> Seq<u8> {
    seq![meta_byte(t, mode, un_op_variant(u))] + un_op_bytes(u)
}

/// A meta byte and a two-operand group.
pub open spec fn meta_bin_bytes(b: BinOp, t: OpType, mode: u8) -> Seq<u8> {
    seq![meta_byte(t, mode, bin_op_variant(b))] + bin_op_bytes(b)
}

/// The full wire bytes of one instruction.
#[verifier::opaque]
pub open spec fn encode_bytes(op: Op) -> Seq<u8> {
    seq![spec_op_code(op)] + match op {
        Op::Nop => Seq::<u8>::empty(),
        Op::End(x) => operand_bytes(x),
        Op::Slp(x) => operand_bytes(x),
        Op::Mov(b, t) => meta_bin_bytes(b, t, 0),
        Op::Cnv(x, y, t, u) => seq![cnv_meta_byte(t, u)] + operand_bytes(x) + operand_bytes(y),
        Op::Add(b, t, m) => meta_bin_bytes(b, t, arithmetic_mode_tag(m)),
        Op::Sub(b, t, m) => meta_bin_bytes(b, t, arithmetic_mode_tag(m)),
        Op::Mul(b, t, m) => meta_bin_bytes(b, t, arithmetic_mode_tag(m)),
        Op::Div(b, t) => meta_bin_bytes(b, t, 0),
        Op::Mod(b, t) => meta_bin_bytes(b, t, 0),
        Op::Shl(x, y, t) => seq![op_type_tag(t)] + operand_bytes(x) + operand_bytes(y),
        Op::Shr(x, y, t) => seq![op_type_tag(t)] + operand_bytes(x) + operand_bytes(y),
        Op::And(b, t) => meta_bin_bytes(b, t, 0),
        Op::Or(b, t) => meta_bin_bytes(b, t, 0),
        Op::Xor(b, t) => meta_bin_bytes(b, t, 0),
        Op::Not(u, t) => meta_un_bytes(u, t, 0),
        Op::Neg(u, t, m) => meta_un_bytes(u, t, arithmetic_mode_tag(m)),
        Op::Inc(u, t, m) => meta_un_bytes(u, t, arithmetic_mode_tag(m)),
        Op::Dec(u, t, m) => meta_un_bytes(u, t, arithmetic_mode_tag(m)),
        Op::Go(x) => operand_bytes(x),
        Op::Ift(u, t) => meta_un_bytes(u, t, 0),
        Op::Iff(u, t) => meta_un_bytes(u, t, 0),
        Op::Ife(b, t) => meta_bin_bytes(b, t, 0),
        Op::Ifl(b, t) => meta_bin_bytes(b, t, 0),
        Op::Ifg(b, t) => meta_bin_bytes(b, t, 0),
        Op::Ine(b, t) => meta_bin_bytes(b, t, 0),
        Op::Inl(b, t) => meta_bin_bytes(b, t, 0),
        Op::Ing(b, t) => meta_bin_bytes(b, t, 0),
        Op::Ifa(b, t) => meta_bin_bytes(b, t, 0),
        Op::Ifo(b, t) => meta_bin_bytes(b, t, 0),
        Op::Ifx(b, t) => meta_bin_bytes(b, t, 0),
        Op::Ina(b, t) => meta_bin_bytes(b, t, 0),
        Op::Ino(b, t) => meta_bin_bytes(b, t, 0),
        Op::Inx(b, t) => meta_bin_bytes(b, t, 0),
        Op::App(x) => operand_bytes(x),
        Op::Par(u, t, m) => meta_un_bytes(u, t, parameter_mode_tag(m)),
        Op::Clf(x) => operand_bytes(x),
        Op::Ret(u, t) => meta_un_bytes(u, t, 0),
        Op::In(b) => meta_bin_bytes(b, OpType::U8, 0),
        Op::Out(u) => meta_un_bytes(u, OpType::U8, 0),
        Op::Fls => Seq::<u8>::empty(),
        Op::Sfd(x) => operand_bytes(x),
        Op::Gfd(x) => operand_bytes(x),
        Op::Zer(x, y) => operand_bytes(x) + operand_bytes(y),
        Op::Cmp(x, y, z) => operand_bytes(x) + operand_bytes(y) + operand_bytes(z),
        Op::Cpy(x, y, z) => operand_bytes(x) + operand_bytes(y) + operand_bytes(z),
    }
}

/// Appends the wire bytes of one operand.
fn encode_operand(o: Operand, buf: &mut Vec<u8>)
    ensures
        final(buf)@ == old(buf)@ + operand_bytes(o),
{
    let ghost pre = buf@;
    match o.get() {
        Some(v) => {
            let is_loc = matches!(o, Operand::Loc(_));
            if is_loc && v <= 0x7F {
                buf.push(v as u8);
                proof {
                    assert(buf@ =~= pre + operand_bytes(o));
                }
            } else {
                let n: u8 = if v < 0x100 {
                    1
                } else if v < 0x1_0000 {
                    2
                } else if v < 0x100_0000 {
                    3
                } else {
                    4
                };
                let meta: u8 = 0x80 + o.as_byte() * 16 + (n - 1);
                buf.push(meta);
                let mut tail = le_bytes_of(v as u128, n as usize);
                buf.append(&mut tail);
                proof {
                    assert(buf@ =~= pre + operand_bytes(o));
                }
            }
        },
        None => {
            let meta: u8 = 0x80 + o.as_byte() * 16;
            buf.push(meta);
            proof {
                assert(buf@ =~= pre + operand_bytes(o));
            }
        },
    }
}

/// Appends the packed metadata byte.
fn encode_meta(t: OpType, mode: u8, var: Variant, buf: &mut Vec<u8>)
    requires
        mode <= 3,
    ensures
        final(buf)@ == old(buf)@ + seq![meta_byte(t, mode, var)],
{
    let ghost pre = buf@;
    let meta: u8 = var.as_byte() * 64 + mode * 16 + t.as_byte();
    buf.push(meta);
    proof {
        assert(buf@ =~= pre + seq![meta_byte(t, mode, var)]);
    }
}

/// Appends a meta byte and a one-operand group.
fn encode_meta_un(u: UnOp, t: OpType, mode: u8, buf: &mut Vec<u8>)
    requires
        mode <= 3,
    ensures
        final(buf)@ == old(buf)@ + meta_un_bytes(u, t, mode),
{
    let ghost pre = buf@;
    encode_meta(t, mode, u.variant(), buf);
    encode_operand(u.x(), buf);
    match u.x_offset {
        Some(o) => {
            encode_operand(o, buf);
        },
        None => {},
    }
    proof {
        assert(buf@ =~= pre + meta_un_bytes(u, t, mode));
    }
}

/// Appends a meta byte and a two-operand group.
fn encode_meta_bin(b: BinOp, t: OpType, mode: u8, buf: &mut Vec<u8>)
    requires
        mode <= 3,
    ensures
        final(buf)@ == old(buf)@ + meta_bin_bytes(b, t, mode),
{
    let ghost pre = buf@;
    let ghost mb = seq![meta_byte(t, mode, bin_op_variant(b))];
    let ghost xb = operand_bytes(b.x);
    let ghost yb = operand_bytes(b.y);
    encode_meta(t, mode, b.variant(), buf);
    encode_operand(b.x, buf);
    encode_operand(b.y, buf);
    proof {
        crate::bytes::lemma_add_assoc(pre, mb, xb);
        crate::bytes::lemma_add_assoc(pre, mb + xb, yb);
        crate::bytes::lemma_add_assoc(mb, xb, yb);
    }
    match (b.x_offset, b.y_offset) {
        (None, None) => {
            proof {
                crate::bytes::lemma_add_empty(xb + yb);
            }
        },
        (Some(xo), None) => {
            encode_operand(xo, buf);
            proof {
                let ob = operand_bytes(xo);
                crate::bytes::lemma_add_assoc(pre, mb + (xb + yb), ob);
                crate::bytes::lemma_add_assoc(mb, xb + yb, ob);
                crate::bytes::lemma_add_assoc(xb, yb, ob);
                assert(xb + yb + ob == bin_op_bytes(b));
            }
        },
        (None, Some(yo)) => {
            encode_operand(yo, buf);
            proof {
                let ob = operand_bytes(yo);
                crate::bytes::lemma_add_assoc(pre, mb + (xb + yb), ob);
                crate::bytes::lemma_add_assoc(mb, xb + yb, ob);
                crate::bytes::lemma_add_assoc(xb, yb, ob);
                assert(xb + yb + ob == bin_op_bytes(b));
            }
        },
        (Some(xo), Some(yo)) => {
            encode_operand(xo, buf);
            encode_operand(yo, buf);
            proof {
                let xob = operand_bytes(xo);
                let yob = operand_bytes(yo);
                crate::bytes::lemma_add_assoc(pre, mb + (xb + yb), xob);
                crate::bytes::lemma_add_assoc(pre, mb + (xb + yb) + xob, yob);
                crate::bytes::lemma_add_assoc(mb, xb + yb, xob);
                crate::bytes::lemma_add_assoc(mb, xb + yb + xob, yob);
                crate::bytes::lemma_add_assoc(xb, yb, xob);
                crate::bytes::lemma_add_assoc(xb, yb + xob, yob);
                crate::bytes::lemma_add_assoc(yb, xob, yob);
                assert(xb + (yb + (xob + yob)) == bin_op_bytes(b));
            }
        },
    }
}

/// Appends the wire bytes of instructions in one opcode range.
#[verifier::rlimit(100)]
fn encode_op_low(op: Op, buf: &mut Vec<u8>)
    requires
        op is Nop || op is End || op is Slp || op is Mov || op is Cnv || op is Add || op is Sub || op is Mul || op is Div || op is Mod || op is Shl || op is Shr || op is And || op is Or || op is Xor || op is Not,
    ensures
        final(buf)@ == old(buf)@ + encode_bytes(op),
{
    let ghost pre = buf@;
    buf.push(op.op_code());
    match op {
        Op::Nop => {
            proof {
                reveal(encode_bytes);
                assert(buf@ =~= pre + encode_bytes(op));
            }
        },
        Op::End(x) => {
            encode_operand(x, buf);
            proof {
                reveal(encode_bytes);
                assert(buf@ =~= pre + encode_bytes(op));
            }
        },
        Op::Slp(x) => {
            encode_operand(x, buf);
            proof {
                reveal(encode_bytes);
                assert(buf@ =~= pre + encode_bytes(op));
            }
        },
        Op::Mov(b, t) => {
            encode_meta_bin(b, t, 0, buf);
            proof {
                reveal(encode_bytes);
                assert(buf@ =~= pre + encode_bytes(op));
            }
        },
        Op::Cnv(x, y, t, u) => {
            let meta: u8 = t.as_byte() + u.as_byte() * 16;
            buf.push(meta);
            encode_operand(x, buf);
            encode_operand(y, buf);
            proof {
                reveal(encode_bytes);
                assert(buf@ =~= pre + encode_bytes(op));
            }
        },
        Op::Add(b, t, m) => {
            encode_meta_bin(b, t, m.as_byte(), buf);
            proof {
                reveal(encode_bytes);
                assert(buf@ =~= pre + encode_bytes(op));
            }
        },
        Op::Sub(b, t, m) => {
            encode_meta_bin(b, t, m.as_byte(), buf);
            proof {
                reveal(encode_bytes);
                assert(buf@ =~= pre + encode_bytes(op));
            }
        },
        Op::Mul(b, t, m) => {
            encode_meta_bin(b, t, m.as_byte(), buf);
            proof {
                reveal(encode_bytes);
                assert(buf@ =~= pre + encode_bytes(op));
            }
        },
        Op::Div(b, t) => {
            encode_meta_bin(b, t, 0, buf);
            proof {
                reveal(encode_bytes);
                assert(buf@ =~= pre + encode_bytes(op));
            }
        },
        Op::Mod(b, t) => {
            encode_meta_bin(b, t, 0, buf);
            proof {
                reveal(encode_bytes);
                assert(buf@ =~= pre + encode_bytes(op));
            }
        },
        Op::Shl(x, y, t) => {
            buf.push(t.as_byte());
            encode_operand(x, buf);
            encode_operand(y, buf);
            proof {
                reveal(encode_bytes);
                assert(buf@ =~= pre + encode_bytes(op));
            }
        },
        Op::Shr(x, y, t) => {
            buf.push(t.as_byte());
            encode_operand(x, buf);
            encode_operand(y, buf);
            proof {
                reveal(encode_bytes);
                assert(buf@ =~= pre + encode_bytes(op));
            }
        },
        Op::And(b, t) => {
            encode_meta_bin(b, t, 0, buf);
            proof {
                reveal(encode_bytes);
                assert(buf@ =~= pre + encode_bytes(op));
            }
        },
        Op::Or(b, t) => {
            encode_meta_bin(b, t, 0, buf);
            proof {
                reveal(encode_bytes);
                assert(buf@ =~= pre + encode_bytes(op));
            }
        },
        Op::Xor(b, t) => {
            encode_meta_bin(b, t, 0, buf);
            proof {
                reveal(encode_bytes);
                assert(buf@ =~= pre + encode_bytes(op));
            }
        },
        Op::Not(u, t) => {
            encode_meta_un(u, t, 0, buf);
            proof {
                reveal(encode_bytes);
                assert(buf@ =~= pre + encode_bytes(op));
            }
        },        _ => {
            proof {
                assert(false);
            }
        },
    }
}

/// Appends the wire bytes of instructions in one opcode range.
#[verifier::rlimit(100)]
fn encode_op_mid(op: Op, buf: &mut Vec<u8>)
    requires
        op is Neg || op is Inc || op is Dec || op is Go || op is Ift || op is Iff || op is Ife || op is Ifl || op is Ifg || op is Ine || op is Inl || op is Ing || op is Ifa || op is Ifo || op is Ifx || op is Ina,
    ensures
        final(buf)@ == old(buf)@ + encode_bytes(op),
{
    let ghost pre = buf@;
    buf.push(op.op_code());
    match op {
        Op::Neg(u, t, m) => {
            encode_meta_un(u, t, m.as_byte(), buf);
            proof {
                reveal(encode_bytes);
                assert(buf@ =~= pre + encode_bytes(op));
            }
        },
        Op::Inc(u, t, m) => {
            encode_meta_un(u, t, m.as_byte(), buf);
            proof {
                reveal(encode_bytes);
                assert(buf@ =~= pre + encode_bytes(op));
            }
        },
        Op::Dec(u, t, m) => {
            encode_meta_un(u, t, m.as_byte(), buf);
            proof {
                reveal(encode_bytes);
                assert(buf@ =~= pre + encode_bytes(op));
            }
        },
        Op::Go(x) => {
            encode_operand(x, buf);
            proof {
                reveal(encode_bytes);
                assert(buf@ =~= pre + encode_bytes(op));
            }
        },
        Op::Ift(u, t) => {
            encode_meta_un(u, t, 0, buf);
            proof {
                reveal(encode_bytes);
                assert(buf@ =~= pre + encode_bytes(op));
            }
        },
        Op::Iff(u, t) => {
            encode_meta_un(u, t, 0, buf);
            proof {
                reveal(encode_bytes);
                assert(buf@ =~= pre + encode_bytes(op));
            }
        },
        Op::Ife(b, t) => {
            encode_meta_bin(b, t, 0, buf);
            proof {
                reveal(encode_bytes);
                assert(buf@ =~= pre + encode_bytes(op));
            }
        },
        Op::Ifl(b, t) => {
            encode_meta_bin(b, t, 0, buf);
            proof {
                reveal(encode_bytes);
                assert(buf@ =~= pre + encode_bytes(op));
            }
        },
        Op::Ifg(b, t) => {
            encode_meta_bin(b, t, 0, buf);
            proof {
                reveal(encode_bytes);
                assert(buf@ =~= pre + encode_bytes(op));
            }
        },
        Op::Ine(b, t) => {
            encode_meta_bin(b, t, 0, buf);
            proof {
                reveal(encode_bytes);
                assert(buf@ =~= pre + encode_bytes(op));
            }
        },
        Op::Inl(b, t) => {
            encode_meta_bin(b, t, 0, buf);
            proof {
                reveal(encode_bytes);
                assert(buf@ =~= pre + encode_bytes(op));
            }
        },
        Op::Ing(b, t) => {
            encode_meta_bin(b, t, 0, buf);
            proof {
                reveal(encode_bytes);
                assert(buf@ =~= pre + encode_bytes(op));
            }
        },
        Op::Ifa(b, t) => {
            encode_meta_bin(b, t, 0, buf);
            proof {
                reveal(encode_bytes);
                assert(buf@ =~= pre + encode_bytes(op));
            }
        },
        Op::Ifo(b, t) => {
            encode_meta_bin(b, t, 0, buf);
            proof {
                reveal(encode_bytes);
                assert(buf@ =~= pre + encode_bytes(op));
            }
        },
        Op::Ifx(b, t) => {
            encode_meta_bin(b, t, 0, buf);
            proof {
                reveal(encode_bytes);
                assert(buf@ =~= pre + encode_bytes(op));
            }
        },
        Op::Ina(b, t) => {
            encode_meta_bin(b, t, 0, buf);
            proof {
                reveal(encode_bytes);
                assert(buf@ =~= pre + encode_bytes(op));
            }
        },        _ => {
            proof {
                assert(false);
            }
        },
    }
}

/// Appends the wire bytes of instructions in one opcode range.
#[verifier::rlimit(100)]
fn encode_op_high(op: Op, buf: &mut Vec<u8>)
    requires
        op is Ino || op is Inx || op is App || op is Par || op is Clf || op is Ret || op is In || op is Out || op is Fls || op is Sfd || op is Gfd || op is Zer || op is Cmp || op is Cpy,
    ensures
        final(buf)@ == old(buf)@ + encode_bytes(op),
{
    let ghost pre = buf@;
    buf.push(op.op_code());
    match op {
        Op::Ino(b, t) => {
            encode_meta_bin(b, t, 0, buf);
            proof {
                reveal(encode_bytes);
                assert(buf@ =~= pre + encode_bytes(op));
            }
        },
        Op::Inx(b, t) => {
            encode_meta_bin(b, t, 0, buf);
            proof {
                reveal(encode_bytes);
                assert(buf@ =~= pre + encode_bytes(op));
            }
        },
        Op::App(x) => {
            encode_operand(x, buf);
            proof {
                reveal(encode_bytes);
                assert(buf@ =~= pre + encode_bytes(op));
            }
        },
        Op::Par(u, t, m) => {
            encode_meta_un(u, t, m.as_byte(), buf);
            proof {
                reveal(encode_bytes);
                assert(buf@ =~= pre + encode_bytes(op));
            }
        },
        Op::Clf(x) => {
            encode_operand(x, buf);
            proof {
                reveal(encode_bytes);
                assert(buf@ =~= pre + encode_bytes(op));
            }
        },
        Op::Ret(u, t) => {
            encode_meta_un(u, t, 0, buf);
            proof {
                reveal(encode_bytes);
                assert(buf@ =~= pre + encode_bytes(op));
            }
        },
        Op::In(b) => {
            encode_meta_bin(b, OpType::U8, 0, buf);
            proof {
                reveal(encode_bytes);
                assert(buf@ =~= pre + encode_bytes(op));
            }
        },
        Op::Out(u) => {
            encode_meta_un(u, OpType::U8, 0, buf);
            proof {
                reveal(encode_bytes);
                assert(buf@ =~= pre + encode_bytes(op));
            }
        },
        Op::Fls => {
            proof {
                reveal(encode_bytes);
                assert(buf@ =~= pre + encode_bytes(op));
            }
        },
        Op::Sfd(x) => {
            encode_operand(x, buf);
            proof {
                reveal(encode_bytes);
                assert(buf@ =~= pre + encode_bytes(op));
            }
        },
        Op::Gfd(x) => {
            encode_operand(x, buf);
            proof {
                reveal(encode_bytes);
                assert(buf@ =~= pre + encode_bytes(op));
            }
        },
        Op::Zer(x, y) => {
            encode_operand(x, buf);
            encode_operand(y, buf);
            proof {
                reveal(encode_bytes);
                assert(buf@ =~= pre + encode_bytes(op));
            }
        },
        Op::Cmp(x, y, z) => {
            encode_operand(x, buf);
            encode_operand(y, buf);
            encode_operand(z, buf);
            proof {
                reveal(encode_bytes);
                assert(buf@ =~= pre + encode_bytes(op));
            }
        },
        Op::Cpy(x, y, z) => {
            encode_operand(x, buf);
            encode_operand(y, buf);
            encode_operand(z, buf);
            proof {
                reveal(encode_bytes);
                assert(buf@ =~= pre + encode_bytes(op));
            }
        },
        _ => {
            proof {
                assert(false);
            }
        },
    }
}

/// Appends the full wire bytes of one instruction.
pub fn encode_op(op: Op, buf: &mut Vec<u8>)
    ensures
        final(buf)@ == old(buf)@ + encode_bytes(op),
{
    match op {
        Op::Nop | Op::End(..) | Op::Slp(..) | Op::Mov(..) | Op::Cnv(..) | Op::Add(..)
            | Op::Sub(..) | Op::Mul(..) | Op::Div(..) | Op::Mod(..) | Op::Shl(..) | Op::Shr(..)
            | Op::And(..) | Op::Or(..) | Op::Xor(..) | Op::Not(..) => encode_op_low(op, buf),
        Op::Neg(..) | Op::Inc(..) | Op::Dec(..) | Op::Go(..) | Op::Ift(..) | Op::Iff(..)
            | Op::Ife(..) | Op::Ifl(..) | Op::Ifg(..) | Op::Ine(..) | Op::Inl(..) | Op::Ing(..)
            | Op::Ifa(..) | Op::Ifo(..) | Op::Ifx(..) | Op::Ina(..) => encode_op_mid(op, buf),
        _ => encode_op_high(op, buf),
    }
}

/// Encodes one instruction into a fresh buffer.
pub fn encode_to_vec(op: Op) -> (r: Vec<u8>)
    ensures
        r@ == encode_bytes(op),
{
    let mut buf: Vec<u8> = Vec::new();
    encode_op(op, &mut buf);
    proof {
        assert(buf@ =~= encode_bytes(op));
    }
    buf
}

} // verus!

use stackvm::decoder::{decode_op, DecodeError};
use stackvm::encoder::encode_to_vec;
use stackvm::op_codes::{ADD, APP, CNV, CPY, DIV, FLS, IFA, IFE, INC, MOD, OUT, PAR, RET, SET, SHL};
use stackvm::ops::{ArithmeticMode, BinOp, Op, OpType, Operand, ParameterMode, UnOp};

fn decode_all(code: &[u8]) -> (Result<(Op, usize), DecodeError>, bool) {
    let r = decode_op(code, 0);
    let consumed = match &r {
        Ok((_, p)) => *p == code.len(),
        Err(_) => true,
    };
    (r, consumed)
}

#[test]
fn decode_unexpected_end() {
    let code = [INC];
    let (actual, _) = decode_all(&code);
    assert!(matches!(actual, Err(DecodeError::UnexpectedEnd)));
}

#[test]
fn decode_unknown_op_code() {
    let code = [0xFF_u8, 0b0100_0010, 12, 0b1100_0000, 8];
    let (actual, _) = decode_all(&code);
    assert!(matches!(actual, Err(DecodeError::UnknownOpCode)));
}

#[test]
fn decode_incorrect_variant() {
    let code = [INC, 0b1000_0010, 12, 0b1100_0000, 8, 0];
    let (actual, _) = decode_all(&code);
    assert!(matches!(actual, Err(DecodeError::IncorrectVariant)));
}

#[test]
fn decode_un_short() {
    let code = [INC, 0b0011_0011, 16];
    let expected = Op::Inc(UnOp::new(Operand::Loc(16)), OpType::I16, ArithmeticMode::Hand);
    let (actual, consumed) = decode_all(&code);
    assert_eq!(actual, Ok((expected, code.len())));
    assert!(consumed);
}

#[test]
fn decode_un_long() {
    let code = [INC, 0b0011_0011, 0b1001_0000, 16];
    let expected = Op::Inc(UnOp::new(Operand::Ind(16)), OpType::I16, ArithmeticMode::Hand);
    let (actual, _) = decode_all(&code);
    assert_eq!(actual, Ok((expected, code.len())));
}

#[test]
fn decode_un_first_offset() {
    let code = [INC, 0b0100_0011, 0b1001_0000, 16, 0b1100_0000, 1];
    let expected = Op::Inc(
        UnOp::new(Operand::Ind(16)).with_first(Operand::Ref(1)),
        OpType::I16,
        ArithmeticMode::default(),
    );
    let (actual, _) = decode_all(&code);
    assert_eq!(actual, Ok((expected, code.len())));
}

#[test]
fn decode_bin_short() {
    let code = [SET, 0b0000_0011, 8, 16];
    let expected = Op::Mov(BinOp::new(Operand::Loc(8), Operand::Loc(16)), OpType::I16);
    let (actual, _) = decode_all(&code);
    assert_eq!(actual, Ok((expected, code.len())));
}

#[test]
fn decode_bin_long() {
    let code = [ADD, 0b0000_0100, 0b1000_0001, 8, 0, 0b1001_0000, 16];
    let expected = Op::Add(
        BinOp::new(Operand::Loc(8), Operand::Ind(16)),
        OpType::U32,
        ArithmeticMode::default(),
    );
    let (actual, _) = decode_all(&code);
    assert_eq!(actual, Ok((expected, code.len())));
}

#[test]
fn decode_bin_first_offset() {
    let code = [SET, 0b0101_0100, 0b1010_0000, 8, 0b1100_0000, 16, 0b1011_0000, 5];
    let expected = Op::Mov(
        BinOp::new(Operand::Ret(8), Operand::Ref(16)).with_x_offset(Operand::Val(5)),
        OpType::U32,
    );
    let (actual, _) = decode_all(&code);
    assert_eq!(actual, Ok((expected, code.len())));
}

#[test]
fn decode_bin_second_offset() {
    let code = [DIV, 0b1000_0100, 0b1010_0000, 8, 0b1100_0000, 16, 0b1011_0000, 5];
    let expected = Op::Div(
        BinOp::new(Operand::Ret(8), Operand::Ref(16)).with_y_offset(Operand::Val(5)),
        OpType::U32,
    );
    let (actual, _) = decode_all(&code);
    assert_eq!(actual, Ok((expected, code.len())));
}

#[test]
fn decode_bin_both_offset() {
    let code = [
        MOD, 0b1100_0100, 0b1010_0000, 8, 0b1100_0000, 16, 0b1011_0000, 5, 0b1011_0000, 6,
    ];
    let expected = Op::Mod(
        BinOp::new(Operand::Ret(8), Operand::Ref(16))
            .with_x_offset(Operand::Val(5))
            .with_y_offset(Operand::Val(6)),
        OpType::U32,
    );
    let (actual, _) = decode_all(&code);
    assert_eq!(actual, Ok((expected, code.len())));
}

#[test]
fn decode_cnv() {
    let code = [CNV, 0b0010_0000, 12, 9];
    let expected = Op::Cnv(Operand::Loc(12), Operand::Loc(9), OpType::U8, OpType::U16);
    let (actual, _) = decode_all(&code);
    assert_eq!(actual, Ok((expected, code.len())));
}

#[test]
fn decode_shl() {
    let code = [SHL, 0b0000_0100, 12, 9];
    let expected = Op::Shl(Operand::Loc(12), Operand::Loc(9), OpType::U32);
    let (actual, _) = decode_all(&code);
    assert_eq!(actual, Ok((expected, code.len())));
}

#[test]
fn decode_ife() {
    let code = [IFE, 0b0100_0010, 12, 0b1100_0000, 8, 0b1100_0011, 4, 0, 0, 0];
    let expected = Op::Ife(
        BinOp::new(Operand::Loc(12), Operand::Ref(8)).with_x_offset(Operand::Ref(4)),
        OpType::U16,
    );
    let (actual, _) = decode_all(&code);
    assert_eq!(actual, Ok((expected, code.len())));
}

#[test]
fn decode_ifa() {
    let code = [IFA, 0b0000_0100, 12, 0b1100_0000, 8];
    let expected = Op::Ifa(BinOp::new(Operand::Loc(12), Operand::Ref(8)), OpType::U32);
    let (actual, _) = decode_all(&code);
    assert_eq!(actual, Ok((expected, code.len())));
}

#[test]
fn decode_app() {
    let code = [APP, 0b1100_0000, 8];
    let expected = Op::App(Operand::Ref(8));
    let (actual, _) = decode_all(&code);
    assert_eq!(actual, Ok((expected, code.len())));
}

#[test]
fn decode_par() {
    let code = [PAR, 0b0101_1011, 0b1100_0000, 8, 0b1011_0000, 6];
    let expected = Op::Par(
        UnOp::new(Operand::Ref(8)).with_x_offset(Operand::Val(6)),
        OpType::F32,
        ParameterMode::Emp,
    );
    let (actual, _) = decode_all(&code);
    assert_eq!(actual, Ok((expected, code.len())));
}

#[test]
fn decode_ret() {
    let code = [RET, 0b0000_0000, 16];
    let expected = Op::Ret(UnOp::new(Operand::Loc(16)), OpType::U8);
    let (actual, _) = decode_all(&code);
    assert_eq!(actual, Ok((expected, code.len())));
}

#[test]
fn decode_fls() {
    let code = [FLS];
    let (actual, _) = decode_all(&code);
    assert_eq!(actual, Ok((Op::Fls, code.len())));
}

#[test]
fn encode_short() {
    let op = Op::End(Operand::Loc(12));
    let buf = encode_to_vec(op);
    assert_eq!(buf, vec![stackvm::op_codes::END, 12]);
}

#[test]
fn encode_long() {
    let op = Op::End(Operand::Ind(12));
    let buf = encode_to_vec(op);
    assert_eq!(buf, vec![stackvm::op_codes::END, 0b1001_0000, 12]);

    let op = Op::End(Operand::Val(256));
    let buf = encode_to_vec(op);
    assert_eq!(buf, vec![stackvm::op_codes::END, 0b1011_0001, 0, 1]);
}

#[test]
fn encode_un_first_offset() {
    let op = Op::Inc(
        UnOp::new(Operand::Ind(16)).with_first(Operand::Ref(1)),
        OpType::I16,
        ArithmeticMode::default(),
    );
    let buf = encode_to_vec(op);
    assert_eq!(buf, vec![INC, 0b0100_0011, 0b1001_0000, 16, 0b1100_0000, 1]);
}

#[test]
fn encode_first_offset() {
    let op = Op::Inc(
        UnOp::new(Operand::Ind(16)).with_x_offset(Operand::Ref(1)),
        OpType::I16,
        ArithmeticMode::default(),
    );
    let buf = encode_to_vec(op);
    assert_eq!(buf, vec![INC, 0b0100_0011, 0b1001_0000, 16, 0b1100_0000, 1]);
}

#[test]
fn encode_bin_short() {
    let op = Op::Mov(BinOp::new(Operand::Loc(8), Operand::Loc(16)), OpType::I16);
    let buf = encode_to_vec(op);
    assert_eq!(buf, vec![SET, 0b0000_0011, 8, 16]);
}

#[test]
fn encode_bin_long() {
    let op = Op::Add(
        BinOp::new(Operand::Loc(256), Operand::Ind(257)),
        OpType::U32,
        ArithmeticMode::default(),
    );
    let buf = encode_to_vec(op);
    assert_eq!(buf, vec![ADD, 0b0000_0100, 0b1000_0001, 0, 1, 0b1001_0001, 1, 1]);
}

#[test]
fn encode_bin_second_offset() {
    let op = Op::Div(
        BinOp::new(Operand::Ret(8), Operand::Ref(16)).with_second(Operand::Val(5)),
        OpType::U32,
    );
    let buf = encode_to_vec(op);
    assert_eq!(buf, vec![DIV, 0b1000_0100, 0b1010_0000, 8, 0b1100_0000, 16, 0b1011_0000, 5]);
}

#[test]
fn encode_cnv() {
    let op = Op::Cnv(Operand::Loc(12), Operand::Loc(9), OpType::U8, OpType::U16);
    let buf = encode_to_vec(op);
    assert_eq!(buf, vec![CNV, 0b0010_0000, 12, 9]);
}

#[test]
fn encode_shl() {
    let op = Op::Shl(Operand::Loc(12), Operand::Loc(9), OpType::U32);
    let buf = encode_to_vec(op);
    assert_eq!(buf, vec![SHL, 0b0000_0100, 12, 9]);
}

#[test]
fn encode_ife() {
    let op = Op::Ife(
        BinOp::new(Operand::Loc(12), Operand::Ref(8)).with_first(Operand::Ref(4)),
        OpType::U16,
    );
    let buf = encode_to_vec(op);
    assert_eq!(buf, vec![IFE, 0b0100_0010, 12, 0b1100_0000, 8, 0b1100_0000, 4]);
}

#[test]
fn encode_app() {
    let op = Op::App(Operand::Ref(8));
    let buf = encode_to_vec(op);
    assert_eq!(buf, vec![APP, 0b1100_0000, 8]);
}

#[test]
fn encode_par() {
    let op = Op::Par(
        UnOp::new(Operand::Ref(8)).with_first(Operand::Val(6)),
        OpType::F32,
        ParameterMode::Emp,
    );
    let buf = encode_to_vec(op);
    assert_eq!(buf, vec![PAR, 0b0101_1011, 0b1100_0000, 8, 0b1011_0000, 6]);
}

#[test]
fn encode_ret() {
    let op = Op::Ret(UnOp::new(Operand::Loc(16)), OpType::U8);
    let buf = encode_to_vec(op);
    assert_eq!(buf, vec![RET, 0b0000_0000, 16]);
}

#[test]
fn encode_out() {
    let op = Op::Out(UnOp::new(Operand::Loc(0)).with_first(Operand::Loc(1)));
    let buf = encode_to_vec(op);
    assert_eq!(buf, vec![OUT, 0b0100_0000, 0, 1]);
}

#[test]
fn encode_fls() {
    let op = Op::Fls;
    let buf = encode_to_vec(op);
    assert_eq!(buf, vec![FLS]);
}

#[test]
fn encode_cpy() {
    let op = Op::Cpy(Operand::Loc(0), Operand::Loc(1), Operand::Val(12));
    let buf = encode_to_vec(op);
    assert_eq!(buf, vec![CPY, 0, 1, 0b1011_0000, 12]);
}

#[test]
fn short_form_boundary() {
    assert_eq!(encode_to_vec(Op::End(Operand::Loc(0x7F))), vec![stackvm::op_codes::END, 0x7F]);
    assert_eq!(
        encode_to_vec(Op::End(Operand::Loc(0x80))),
        vec![stackvm::op_codes::END, 0x80, 0x80],
    );
}

#[test]
fn meta_byte_packing() {
    let op = Op::Add(
        BinOp::new(Operand::Loc(1), Operand::Loc(2)),
        OpType::I32,
        ArithmeticMode::Wide,
    );
    let buf = encode_to_vec(op);
    assert_eq!(buf[1], (0 << 6) | (2 << 4) | 5);
    let bad_type = [ADD, 0b0000_1010, 1, 2];
    assert!(matches!(
        decode_op(&bad_type, 0),
        Err(DecodeError::UndefinedOperation(stackvm::ops::UndefinedOperation::OpType)),
    ));
    let reserved = [ADD, 0b0000_1100, 1, 2];
    assert!(matches!(
        decode_op(&reserved, 0),
        Err(DecodeError::UndefinedOperation(stackvm::ops::UndefinedOperation::OpType)),
    ));
}

#[test]
fn codec_round_trip() {
    let ops = vec![
        Op::Nop,
        Op::End(Operand::Val(0)),
        Op::Slp(Operand::Glb(77)),
        Op::Mov(BinOp::new(Operand::Loc(8), Operand::Val(0)), OpType::I64),
        Op::Cnv(Operand::Loc(12), Operand::Loc(9), OpType::I64, OpType::U8),
        Op::Add(
            BinOp::new(Operand::Ret(8), Operand::Ref(16))
                .with_x_offset(Operand::Val(5))
                .with_y_offset(Operand::Val(6)),
            OpType::U64,
            ArithmeticMode::Hand,
        ),
        Op::Sub(BinOp::new(Operand::Ind(1), Operand::Emp), OpType::I8, ArithmeticMode::Sat),
        Op::Mul(BinOp::new(Operand::Loc(0), Operand::Val(7)), OpType::U16, ArithmeticMode::Wide),
        Op::Div(BinOp::new(Operand::Loc(0), Operand::Val(0x1234_5678)), OpType::I32),
        Op::Mod(BinOp::new(Operand::Loc(0), Operand::Val(3)), OpType::Uw),
        Op::Shl(Operand::Loc(0), Operand::Val(1), OpType::Iw),
        Op::Shr(Operand::Loc(0), Operand::Val(200), OpType::U8),
        Op::And(BinOp::new(Operand::Loc(0), Operand::Loc(4)), OpType::U32),
        Op::Or(BinOp::new(Operand::Loc(0), Operand::Loc(4)), OpType::U32),
        Op::Xor(BinOp::new(Operand::Loc(0), Operand::Loc(4)), OpType::U32),
        Op::Not(UnOp::new(Operand::Loc(0)), OpType::U32),
        Op::Neg(UnOp::new(Operand::Loc(0)), OpType::I32, ArithmeticMode::Wrap),
        Op::Inc(UnOp::new(Operand::Loc(0)).with_first(Operand::Loc(4)), OpType::U8, ArithmeticMode::Sat),
        Op::Dec(UnOp::new(Operand::Loc(0)), OpType::I16, ArithmeticMode::Hand),
        Op::Go(Operand::Val(3)),
        Op::Ift(UnOp::new(Operand::Loc(200)), OpType::F64),
        Op::Iff(UnOp::new(Operand::Emp), OpType::F32),
        Op::Ife(BinOp::new(Operand::Loc(0), Operand::Val(65536)), OpType::U32),
        Op::Ifl(BinOp::new(Operand::Loc(0), Operand::Val(1)), OpType::I8),
        Op::Ina(BinOp::new(Operand::Loc(0), Operand::Val(0xFF)), OpType::U64),
        Op::App(Operand::Val(1)),
        Op::Par(UnOp::new(Operand::Loc(4)), OpType::U32, ParameterMode::Mov),
        Op::Par(UnOp::new(Operand::Emp), OpType::I64, ParameterMode::Zer),
        Op::Clf(Operand::Val(0)),
        Op::Ret(UnOp::new(Operand::Emp), OpType::U8),
        Op::In(BinOp::new(Operand::Loc(0), Operand::Loc(2))),
        Op::Out(UnOp::new(Operand::Loc(0))),
        Op::Fls,
        Op::Sfd(Operand::Val(2)),
        Op::Gfd(Operand::Loc(0)),
        Op::Zer(Operand::Loc(0), Operand::Val(8)),
        Op::Cmp(Operand::Loc(0), Operand::Loc(8), Operand::Val(8)),
        Op::Cpy(Operand::Loc(0), Operand::Loc(1), Operand::Val(12)),
    ];
    for op in ops {
        let buf = encode_to_vec(op);
        let decoded = decode_op(&buf, 0);
        assert_eq!(decoded, Ok((op, buf.len())));
    }
}

#[test]
fn in_out_round_trip() {
    let op = Op::In(BinOp::new(Operand::Loc(0), Operand::Loc(2)).with_first(Operand::Loc(1)));
    let buf = encode_to_vec(op);
    assert_eq!(buf, vec![stackvm::op_codes::IN, 0b0100_0000, 0, 2, 1]);
    assert_eq!(decode_op(&buf, 0), Ok((op, buf.len())));

    let op = Op::Out(UnOp::new(Operand::Loc(0)).with_first(Operand::Loc(1)));
    let buf = encode_to_vec(op);
    assert_eq!(decode_op(&buf, 0), Ok((op, buf.len())));
}

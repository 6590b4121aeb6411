use stackvm::executor::{
    Executed, ExecutionError, ExecutionSuccess, Executor, Function,
};
use stackvm::memory::MemoryError;
use stackvm::ops::{ArithmeticMode, BinOp, Op, OpType, Operand, ParameterMode, UnOp};
use stackvm::UWord;

#[test]
fn executor_set_get_val() {
    let functions = [Function { frame_size: 8, program: &[Op::Nop] }];

    let mut exe = Executor::new(&functions);
    exe.call(0, 0).unwrap();
    exe.call(0, 0).unwrap();

    assert_eq!(exe.set_val(Operand::Loc(0), 8), Ok(()));
    assert_eq!(exe.get_val::<u64>(Operand::Loc(0)), Ok(8));

    assert_eq!(exe.set_val(Operand::Ind(0), 8), Ok(()));
    assert_eq!(exe.get_val::<u64>(Operand::Ind(0)), Ok(8));

    assert_eq!(exe.set_val(Operand::Ret(0), 3), Ok(()));
    assert_eq!(exe.get_val::<u64>(Operand::Ret(0)), Ok(3));

    assert_eq!(
        exe.set_val(Operand::Val(7), 0),
        Err(ExecutionError::IncorrectOperation(Op::Nop)),
    );
    assert_eq!(exe.get_val::<u64>(Operand::Val(8)), Ok(8));

    assert_eq!(
        exe.set_val(Operand::Ref(0), 0),
        Err(ExecutionError::IncorrectOperation(Op::Nop)),
    );
    assert_eq!(exe.get_val::<u64>(Operand::Ref(0)), Ok(8));

    assert_eq!(
        exe.set_val(Operand::Emp, 0),
        Err(ExecutionError::IncorrectOperation(Op::Nop)),
    );
    assert_eq!(
        exe.get_val::<u64>(Operand::Emp),
        Err(ExecutionError::IncorrectOperation(Op::Nop)),
    );
}

#[test]
fn executor_set() {
    let fb = f32::to_le_bytes(0.123);
    let float = u32::from_le_bytes(fb);

    let functions = [Function {
        frame_size: 4,
        program: &[
            Op::Mov(BinOp::new(Operand::Loc(0), Operand::Val(12)), OpType::I32),
            Op::Mov(BinOp::new(Operand::Val(0), Operand::Val(12)), OpType::I32),
            Op::Mov(BinOp::new(Operand::Emp, Operand::Val(12)), OpType::I32),
            Op::Mov(BinOp::new(Operand::Loc(1), Operand::Val(32)), OpType::I8),
            Op::Mov(BinOp::new(Operand::Loc(0), Operand::Val(float)), OpType::F32),
        ],
    }];

    let mut exe = Executor::new(&functions);
    exe.call(0, 0).unwrap();

    assert_eq!(exe.execute(), Executed::Ok(ExecutionSuccess::Ran));
    assert_eq!(exe.get_val::<i32>(Operand::Loc(0)), Ok(12));

    assert_eq!(
        exe.execute(),
        Executed::Err(ExecutionError::IncorrectOperation(
            Op::Mov(BinOp::new(Operand::Val(0), Operand::Val(12)), OpType::I32),
        )),
    );
    exe.program_counter += 1;

    assert_eq!(
        exe.execute(),
        Executed::Err(ExecutionError::IncorrectOperation(
            Op::Mov(BinOp::new(Operand::Emp, Operand::Val(12)), OpType::I32),
        )),
    );
    exe.program_counter += 1;

    assert_eq!(exe.execute(), Executed::Ok(ExecutionSuccess::Ran));
    assert_eq!(exe.get_val::<i8>(Operand::Loc(1)), Ok(32));

    assert_eq!(exe.execute(), Executed::Ok(ExecutionSuccess::Ran));
    assert_eq!(exe.get_val::<u32>(Operand::Loc(0)), Ok(float));
}

#[test]
fn executor_cnv() {
    let functions = [Function {
        frame_size: 8,
        program: &[
            Op::Mov(BinOp::new(Operand::Loc(0), Operand::Val(2)), OpType::I64),
            Op::Cnv(Operand::Loc(0), Operand::Loc(0), OpType::I64, OpType::U8),
        ],
    }];

    let mut exe = Executor::new(&functions);
    exe.call(0, 0).unwrap();

    assert_eq!(exe.execute(), Executed::Ok(ExecutionSuccess::Ran));
    assert_eq!(exe.execute(), Executed::Ok(ExecutionSuccess::Ran));
    assert_eq!(exe.get_val::<u8>(Operand::Loc(0)), Ok(2));
}

#[test]
fn executor_shl() {
    let functions = [Function {
        frame_size: 8,
        program: &[
            Op::Mov(BinOp::new(Operand::Loc(0), Operand::Val(2)), OpType::U32),
            Op::Shl(Operand::Loc(0), Operand::Val(1), OpType::U32),
        ],
    }];

    let mut exe = Executor::new(&functions);
    exe.call(0, 0).unwrap();

    assert_eq!(exe.execute(), Executed::Ok(ExecutionSuccess::Ran));
    assert_eq!(exe.execute(), Executed::Ok(ExecutionSuccess::Ran));
    assert_eq!(exe.get_val::<u32>(Operand::Loc(0)), Ok(4));
}

#[test]
fn executor_shr() {
    let functions = [Function {
        frame_size: 9,
        program: &[
            Op::Mov(BinOp::new(Operand::Loc(0), Operand::Val(2)), OpType::U32),
            Op::Mov(BinOp::new(Operand::Loc(8), Operand::Val(1)), OpType::U8),
            Op::Shr(Operand::Loc(0), Operand::Loc(8), OpType::U32),
        ],
    }];

    let mut exe = Executor::new(&functions);
    exe.call(0, 0).unwrap();

    assert_eq!(exe.execute(), Executed::Ok(ExecutionSuccess::Ran));
    assert_eq!(exe.execute(), Executed::Ok(ExecutionSuccess::Ran));
    assert_eq!(exe.execute(), Executed::Ok(ExecutionSuccess::Ran));
    assert_eq!(exe.get_val::<u32>(Operand::Loc(0)), Ok(1));
}

#[test]
fn executor_add() {
    let functions = [Function {
        frame_size: 8,
        program: &[
            Op::Add(
                BinOp::new(Operand::Loc(0), Operand::Val(12)),
                OpType::I32,
                ArithmeticMode::Wrap,
            ),
            Op::Add(
                BinOp::new(Operand::Loc(0), Operand::Val(u32::MAX as UWord)),
                OpType::I32,
                ArithmeticMode::Wrap,
            ),
            Op::Add(
                BinOp::new(Operand::Loc(0), Operand::Val(i32::MAX as UWord)),
                OpType::I32,
                ArithmeticMode::Sat,
            ),
            Op::Add(
                BinOp::new(Operand::Loc(0), Operand::Val(i32::MAX as UWord)),
                OpType::I32,
                ArithmeticMode::Wide,
            ),
            Op::Mov(BinOp::new(Operand::Loc(0), Operand::Val(1)), OpType::I32),
            Op::Add(
                BinOp::new(Operand::Loc(0), Operand::Val(i32::MAX as UWord)),
                OpType::I32,
                ArithmeticMode::Hand,
            ),
        ],
    }];

    let mut exe = Executor::new(&functions);
    exe.call(0, 0).unwrap();

    assert_eq!(exe.execute(), Executed::Ok(ExecutionSuccess::Ran));
    assert_eq!(exe.get_val::<i32>(Operand::Loc(0)), Ok(12));

    assert_eq!(exe.execute(), Executed::Ok(ExecutionSuccess::Ran));
    assert_eq!(exe.get_val::<i32>(Operand::Loc(0)), Ok(11));

    assert_eq!(exe.execute(), Executed::Ok(ExecutionSuccess::Ran));
    assert_eq!(exe.get_val::<i32>(Operand::Loc(0)), Ok(i32::MAX));

    assert_eq!(exe.execute(), Executed::Ok(ExecutionSuccess::Ran));
    assert_eq!(exe.get_val::<i64>(Operand::Loc(0)), Ok(i32::MAX as i64 * 2));

    assert_eq!(exe.execute(), Executed::Ok(ExecutionSuccess::Ran));
    assert_eq!(exe.execute(), Executed::Err(ExecutionError::OperationOverflow));
}

#[test]
fn executor_mul() {
    let functions = [Function {
        frame_size: 8,
        program: &[
            Op::Mov(BinOp::new(Operand::Loc(0), Operand::Val(8)), OpType::I32),
            Op::Mov(BinOp::new(Operand::Loc(4), Operand::Val(5)), OpType::I32),
            Op::Mul(
                BinOp::new(Operand::Loc(0), Operand::Val(2)),
                OpType::I32,
                ArithmeticMode::default(),
            ),
            Op::Mul(
                BinOp::new(Operand::Loc(4), Operand::Val(2)),
                OpType::I32,
                ArithmeticMode::default(),
            ),
        ],
    }];

    let mut exe = Executor::new(&functions);
    exe.call(0, 0).unwrap();

    assert_eq!(exe.execute(), Executed::Ok(ExecutionSuccess::Ran));
    assert_eq!(exe.execute(), Executed::Ok(ExecutionSuccess::Ran));
    assert_eq!(exe.execute(), Executed::Ok(ExecutionSuccess::Ran));
    assert_eq!(exe.get_val::<i32>(Operand::Loc(0)), Ok(16));
    assert_eq!(exe.execute(), Executed::Ok(ExecutionSuccess::Ran));
    assert_eq!(exe.get_val::<i32>(Operand::Loc(4)), Ok(10));
}

#[test]
fn executor_div() {
    let functions = [Function {
        frame_size: 8,
        program: &[
            Op::Mov(BinOp::new(Operand::Loc(0), Operand::Val(8)), OpType::I32),
            Op::Mov(BinOp::new(Operand::Loc(4), Operand::Val(5)), OpType::I32),
            Op::Div(BinOp::new(Operand::Loc(0), Operand::Val(2)), OpType::I32),
            Op::Div(BinOp::new(Operand::Loc(4), Operand::Val(2)), OpType::I32),
            Op::Div(BinOp::new(Operand::Loc(0), Operand::Val(0)), OpType::I32),
        ],
    }];

    let mut exe = Executor::new(&functions);
    exe.call(0, 0).unwrap();

    assert_eq!(exe.execute(), Executed::Ok(ExecutionSuccess::Ran));
    assert_eq!(exe.execute(), Executed::Ok(ExecutionSuccess::Ran));
    assert_eq!(exe.execute(), Executed::Ok(ExecutionSuccess::Ran));
    assert_eq!(exe.get_val::<i32>(Operand::Loc(0)), Ok(4));
    assert_eq!(exe.execute(), Executed::Ok(ExecutionSuccess::Ran));
    assert_eq!(exe.get_val::<i32>(Operand::Loc(4)), Ok(2));
    let pc_before = exe.program_counter;
    assert_eq!(exe.execute(), Executed::Err(ExecutionError::DivisionByZero));
    assert_eq!(exe.program_counter, pc_before);
}

#[test]
fn executor_go() {
    let functions = [Function {
        frame_size: 4,
        program: &[
            Op::Inc(UnOp::new(Operand::Loc(0)), OpType::U32, ArithmeticMode::default()),
            Op::Go(Operand::Val(0)),
        ],
    }];

    let mut exe = Executor::new(&functions);
    exe.call(0, 0).unwrap();

    assert_eq!(exe.execute(), Executed::Ok(ExecutionSuccess::Ran));
    assert_eq!(exe.get_val::<u32>(Operand::Loc(0)), Ok(1));
    assert_eq!(exe.execute(), Executed::Ok(ExecutionSuccess::Ran));
    assert_eq!(exe.execute(), Executed::Ok(ExecutionSuccess::Ran));
    assert_eq!(exe.get_val::<u32>(Operand::Loc(0)), Ok(2));
    assert_eq!(exe.execute(), Executed::Ok(ExecutionSuccess::Ran));
    assert_eq!(exe.execute(), Executed::Ok(ExecutionSuccess::Ran));
    assert_eq!(exe.get_val::<u32>(Operand::Loc(0)), Ok(3));
}

#[test]
fn executor_ift() {
    let functions = [Function {
        frame_size: 1,
        program: &[
            Op::Mov(BinOp::new(Operand::Loc(0), Operand::Val(1)), OpType::U8),
            Op::Ift(UnOp::new(Operand::Loc(0)), OpType::U8),
            Op::Mov(BinOp::new(Operand::Loc(0), Operand::Val(2)), OpType::U8),
        ],
    }];

    let mut exe = Executor::new(&functions);
    exe.call(0, 0).unwrap();

    assert_eq!(exe.execute(), Executed::Ok(ExecutionSuccess::Ran));
    assert_eq!(exe.get_val::<u8>(Operand::Loc(0)), Ok(1));
    assert_eq!(exe.execute(), Executed::Ok(ExecutionSuccess::Ran));
    assert_eq!(exe.execute(), Executed::Ok(ExecutionSuccess::Ran));
    assert_eq!(exe.get_val::<u8>(Operand::Loc(0)), Ok(2));
}

#[test]
fn executor_iff() {
    let functions = [Function {
        frame_size: 1,
        program: &[
            Op::Mov(BinOp::new(Operand::Loc(0), Operand::Val(1)), OpType::U8),
            Op::Iff(UnOp::new(Operand::Loc(0)), OpType::U8),
            Op::Mov(BinOp::new(Operand::Loc(0), Operand::Val(2)), OpType::U8),
        ],
    }];

    let mut exe = Executor::new(&functions);
    exe.call(0, 0).unwrap();

    assert_eq!(exe.execute(), Executed::Ok(ExecutionSuccess::Ran));
    assert_eq!(exe.get_val::<u8>(Operand::Loc(0)), Ok(1));
    assert_eq!(exe.execute(), Executed::Ok(ExecutionSuccess::Ran));
    assert_eq!(exe.get_val::<u8>(Operand::Loc(0)), Ok(1));
    assert_eq!(exe.execute(), Executed::Err(ExecutionError::EndOfProgram));
}

#[test]
fn executor_ife() {
    let functions = [Function {
        frame_size: 8,
        program: &[
            Op::Mov(BinOp::new(Operand::Loc(0), Operand::Val(32)), OpType::U32),
            Op::Mov(BinOp::new(Operand::Loc(4), Operand::Val(32)), OpType::U32),
            Op::Ife(BinOp::new(Operand::Loc(0), Operand::Loc(4)), OpType::U32),
            Op::Mov(BinOp::new(Operand::Loc(0), Operand::Val(1)), OpType::U32),
        ],
    }];

    let mut exe = Executor::new(&functions);
    exe.call(0, 0).unwrap();

    assert_eq!(exe.execute(), Executed::Ok(ExecutionSuccess::Ran));
    assert_eq!(exe.execute(), Executed::Ok(ExecutionSuccess::Ran));
    assert_eq!(exe.get_val::<u32>(Operand::Loc(0)), Ok(32));
    assert_eq!(exe.get_val::<u32>(Operand::Loc(4)), Ok(32));
    assert_eq!(exe.execute(), Executed::Ok(ExecutionSuccess::Ran));
    assert_eq!(exe.execute(), Executed::Ok(ExecutionSuccess::Ran));
    assert_eq!(exe.get_val::<u32>(Operand::Loc(0)), Ok(1));
}

#[test]
fn executor_ifa() {
    let functions = [Function {
        frame_size: 8,
        program: &[
            Op::Mov(BinOp::new(Operand::Loc(0), Operand::Val(32)), OpType::U32),
            Op::Mov(BinOp::new(Operand::Loc(4), Operand::Val(2)), OpType::U32),
            Op::Ifa(BinOp::new(Operand::Loc(0), Operand::Loc(4)), OpType::U32),
            Op::Mov(BinOp::new(Operand::Loc(0), Operand::Val(1)), OpType::U32),
        ],
    }];

    let mut exe = Executor::new(&functions);
    exe.call(0, 0).unwrap();

    assert_eq!(exe.execute(), Executed::Ok(ExecutionSuccess::Ran));
    assert_eq!(exe.execute(), Executed::Ok(ExecutionSuccess::Ran));
    assert_eq!(exe.get_val::<u32>(Operand::Loc(0)), Ok(32));
    assert_eq!(exe.get_val::<u32>(Operand::Loc(4)), Ok(2));
    assert_eq!(exe.execute(), Executed::Ok(ExecutionSuccess::Ran));
    assert_eq!(exe.execute(), Executed::Err(ExecutionError::EndOfProgram));
}

#[test]
fn executor_ina() {
    let functions = [Function {
        frame_size: 8,
        program: &[
            Op::Mov(BinOp::new(Operand::Loc(0), Operand::Val(32)), OpType::U32),
            Op::Mov(BinOp::new(Operand::Loc(4), Operand::Val(2)), OpType::U32),
            Op::Ina(BinOp::new(Operand::Loc(0), Operand::Loc(4)), OpType::U32),
            Op::Mov(BinOp::new(Operand::Loc(0), Operand::Val(1)), OpType::U32),
        ],
    }];

    let mut exe = Executor::new(&functions);
    exe.call(0, 0).unwrap();

    assert_eq!(exe.execute(), Executed::Ok(ExecutionSuccess::Ran));
    assert_eq!(exe.execute(), Executed::Ok(ExecutionSuccess::Ran));
    assert_eq!(exe.get_val::<u32>(Operand::Loc(0)), Ok(32));
    assert_eq!(exe.get_val::<u32>(Operand::Loc(4)), Ok(2));
    assert_eq!(exe.execute(), Executed::Ok(ExecutionSuccess::Ran));
    assert_eq!(exe.execute(), Executed::Ok(ExecutionSuccess::Ran));
    assert_eq!(exe.get_val::<u32>(Operand::Loc(0)), Ok(1));
}

#[test]
fn executor_call_fn() {
    let functions = [
        Function {
            frame_size: 4,
            program: &[
                Op::App(Operand::Val(1)),
                Op::Par(UnOp::new(Operand::Val(2)), OpType::I32, ParameterMode::default()),
                Op::Clf(Operand::Val(0)),
                Op::Ret(UnOp::new(Operand::Emp), OpType::U8),
            ],
        },
        Function {
            frame_size: 8,
            program: &[
                Op::Mov(BinOp::new(Operand::Loc(4), Operand::Val(3)), OpType::I32),
                Op::Add(
                    BinOp::new(Operand::Ret(0), Operand::Loc(0)),
                    OpType::I32,
                    ArithmeticMode::default(),
                ),
                Op::Add(
                    BinOp::new(Operand::Ret(0), Operand::Loc(4)),
                    OpType::I32,
                    ArithmeticMode::default(),
                ),
                Op::Ret(UnOp::new(Operand::Emp), OpType::U8),
            ],
        },
    ];

    let mut exe = Executor::new(&functions);
    exe.call(0, 0).unwrap();

    assert_eq!(exe.execute(), Executed::Ok(ExecutionSuccess::Ran));
    assert_eq!(exe.execute(), Executed::Ok(ExecutionSuccess::Ran));
    assert_eq!(exe.execute(), Executed::Ok(ExecutionSuccess::Ran));
    assert_eq!(exe.call_stack.len(), 2);

    assert_eq!(exe.execute(), Executed::Ok(ExecutionSuccess::Ran));
    assert_eq!(exe.execute(), Executed::Ok(ExecutionSuccess::Ran));
    assert_eq!(exe.execute(), Executed::Ok(ExecutionSuccess::Ran));
    assert_eq!(exe.execute(), Executed::Ok(ExecutionSuccess::Ran));
    assert_eq!(exe.call_stack.len(), 1);

    assert_eq!(exe.get_val::<i32>(Operand::Loc(0)), Ok(5));

    assert_eq!(exe.execute(), Executed::Ok(ExecutionSuccess::Ran));
    assert!(exe.call_stack.is_empty());
}

#[test]
fn executor_gcd() {
    let functions = [
        Function {
            frame_size: 12,
            program: &[
                Op::Mov(BinOp::new(Operand::Loc(4), Operand::Val(234)), OpType::U32),
                Op::Mov(BinOp::new(Operand::Loc(8), Operand::Val(533)), OpType::U32),
                Op::App(Operand::Val(1)),
                Op::Par(UnOp::new(Operand::Loc(4)), OpType::U32, ParameterMode::default()),
                Op::Par(UnOp::new(Operand::Loc(8)), OpType::U32, ParameterMode::default()),
                Op::Clf(Operand::Val(0)),
                Op::End(Operand::Val(0)),
            ],
        },
        Function {
            frame_size: 12,
            program: &[
                Op::Mov(BinOp::new(Operand::Loc(8), Operand::Loc(0)), OpType::U32),
                Op::Mod(BinOp::new(Operand::Loc(8), Operand::Loc(4)), OpType::U32),
                Op::Mov(BinOp::new(Operand::Loc(0), Operand::Loc(4)), OpType::U32),
                Op::Mov(BinOp::new(Operand::Loc(4), Operand::Loc(8)), OpType::U32),
                Op::Ift(UnOp::new(Operand::Loc(4)), OpType::U32),
                Op::Go(Operand::Val(0)),
                Op::Mov(BinOp::new(Operand::Ret(0), Operand::Loc(0)), OpType::U32),
                Op::Ret(UnOp::new(Operand::Emp), OpType::U8),
            ],
        },
    ];

    let mut exe = Executor::new(&functions);
    exe.call(0, 0).unwrap();

    let mut executed = Executed::Ok(ExecutionSuccess::Ran);
    while let Executed::Ok(ExecutionSuccess::Ran) = executed {
        executed = exe.execute();
    }

    assert_eq!(executed, Executed::Ok(ExecutionSuccess::End(0)));
    assert_eq!(exe.get_val::<u32>(Operand::Loc(0)), Ok(13));
}

#[test]
fn vm_set_and_read() {
    let functions = [Function {
        frame_size: 4,
        program: &[Op::Mov(BinOp::new(Operand::Loc(0), Operand::Val(12)), OpType::I32)],
    }];
    let mut exe = Executor::new(&functions);
    exe.call(0, 0).unwrap();
    assert_eq!(exe.execute(), Executed::Ok(ExecutionSuccess::Ran));
    assert_eq!(exe.get_val::<i32>(Operand::Loc(0)), Ok(12));
}

#[test]
fn vm_wide_add() {
    let functions = [Function {
        frame_size: 8,
        program: &[Op::Add(
            BinOp::new(Operand::Loc(0), Operand::Val(i32::MAX as UWord)),
            OpType::I32,
            ArithmeticMode::Wide,
        )],
    }];
    let mut exe = Executor::new(&functions);
    exe.call(0, 0).unwrap();
    assert_eq!(exe.execute(), Executed::Ok(ExecutionSuccess::Ran));
    assert_eq!(exe.get_val::<i64>(Operand::Loc(0)), Ok(i32::MAX as i64));
}

#[test]
fn vm_hand_overflow() {
    let functions = [Function {
        frame_size: 4,
        program: &[
            Op::Mov(BinOp::new(Operand::Loc(0), Operand::Val(1)), OpType::I32),
            Op::Add(
                BinOp::new(Operand::Loc(0), Operand::Val(i32::MAX as UWord)),
                OpType::I32,
                ArithmeticMode::Hand,
            ),
        ],
    }];
    let mut exe = Executor::new(&functions);
    exe.call(0, 0).unwrap();
    assert_eq!(exe.execute(), Executed::Ok(ExecutionSuccess::Ran));
    assert_eq!(exe.execute(), Executed::Err(ExecutionError::OperationOverflow));
}

#[test]
fn vm_conditional_chain() {
    // a chain of two conditionals: a false head skips the whole body.
    let program = [
        Op::Mov(BinOp::new(Operand::Loc(0), Operand::Val(0)), OpType::U8),
        Op::Ift(UnOp::new(Operand::Loc(0)), OpType::U8),
        Op::Ift(UnOp::new(Operand::Loc(0)), OpType::U8),
        Op::Mov(BinOp::new(Operand::Loc(1), Operand::Val(9)), OpType::U8),
        Op::Mov(BinOp::new(Operand::Loc(2), Operand::Val(7)), OpType::U8),
    ];
    let functions = [Function { frame_size: 4, program: &program }];
    let mut exe = Executor::new(&functions);
    exe.call(0, 0).unwrap();
    assert_eq!(exe.execute(), Executed::Ok(ExecutionSuccess::Ran));
    assert_eq!(exe.execute(), Executed::Ok(ExecutionSuccess::Ran));
    // the false head lands past the chain and its one-instruction body
    assert_eq!(exe.program_counter, 4);
    assert_eq!(exe.execute(), Executed::Ok(ExecutionSuccess::Ran));
    assert_eq!(exe.get_val::<u8>(Operand::Loc(1)), Ok(0));
    assert_eq!(exe.get_val::<u8>(Operand::Loc(2)), Ok(7));
}

#[test]
fn vm_unknown_function() {
    let functions = [Function { frame_size: 4, program: &[Op::Nop] }];
    let mut exe = Executor::new(&functions);
    assert_eq!(exe.call(3, 0), Err(ExecutionError::UnknownFunction));
}

#[test]
fn vm_segmentation_fault() {
    let functions = [Function {
        frame_size: 4,
        program: &[Op::Mov(BinOp::new(Operand::Loc(100), Operand::Val(1)), OpType::U8)],
    }];
    let mut exe = Executor::new(&functions);
    exe.call(0, 0).unwrap();
    assert_eq!(
        exe.execute(),
        Executed::Err(ExecutionError::MemoryError(MemoryError::SegmentationFault(100, 1))),
    );
}

#[test]
fn vm_bulk_memory() {
    let functions = [Function {
        frame_size: 16,
        program: &[
            Op::Mov(BinOp::new(Operand::Loc(0), Operand::Val(0xABCD)), OpType::U32),
            Op::Cpy(Operand::Ref(8), Operand::Ref(0), Operand::Val(4)),
            Op::Cmp(Operand::Ref(0), Operand::Ref(8), Operand::Val(4)),
            Op::Mov(BinOp::new(Operand::Loc(4), Operand::Val(1)), OpType::U8),
            Op::Zer(Operand::Ref(8), Operand::Val(4)),
        ],
    }];
    let mut exe = Executor::new(&functions);
    exe.call(0, 0).unwrap();
    assert_eq!(exe.execute(), Executed::Ok(ExecutionSuccess::Ran));
    assert_eq!(exe.execute(), Executed::Ok(ExecutionSuccess::Ran));
    assert_eq!(exe.get_val::<u32>(Operand::Loc(8)), Ok(0xABCD));
    // equal ranges: the comparison falls through to the body
    assert_eq!(exe.execute(), Executed::Ok(ExecutionSuccess::Ran));
    assert_eq!(exe.execute(), Executed::Ok(ExecutionSuccess::Ran));
    assert_eq!(exe.get_val::<u8>(Operand::Loc(4)), Ok(1));
    assert_eq!(exe.execute(), Executed::Ok(ExecutionSuccess::Ran));
    assert_eq!(exe.get_val::<u32>(Operand::Loc(8)), Ok(0));
}

#[test]
fn vm_globals() {
    let functions = [Function {
        frame_size: 4,
        program: &[
            Op::Mov(BinOp::new(Operand::Glb(0), Operand::Val(7)), OpType::U32),
            Op::Mov(BinOp::new(Operand::Loc(0), Operand::Glb(0)), OpType::U32),
        ],
    }];
    let mut exe = Executor::new(&functions);
    exe.memory.reserve_global(8).unwrap();
    exe.call(0, 0).unwrap();
    assert_eq!(exe.execute(), Executed::Ok(ExecutionSuccess::Ran));
    assert_eq!(exe.execute(), Executed::Ok(ExecutionSuccess::Ran));
    assert_eq!(exe.get_val::<u32>(Operand::Loc(0)), Ok(7));
    assert_eq!(exe.get_val::<u32>(Operand::Glb(4)), Ok(0));
}

#[test]
fn vm_saturating_and_neg() {
    let functions = [Function {
        frame_size: 4,
        program: &[
            Op::Mov(BinOp::new(Operand::Loc(0), Operand::Val(200)), OpType::U8),
            Op::Add(BinOp::new(Operand::Loc(0), Operand::Val(100)), OpType::U8, ArithmeticMode::Sat),
            Op::Neg(UnOp::new(Operand::Loc(0)), OpType::U8, ArithmeticMode::Wrap),
        ],
    }];
    let mut exe = Executor::new(&functions);
    exe.call(0, 0).unwrap();
    assert_eq!(exe.execute(), Executed::Ok(ExecutionSuccess::Ran));
    assert_eq!(exe.execute(), Executed::Ok(ExecutionSuccess::Ran));
    assert_eq!(exe.get_val::<u8>(Operand::Loc(0)), Ok(255));
    assert_eq!(exe.execute(), Executed::Ok(ExecutionSuccess::Ran));
    assert_eq!(exe.get_val::<u8>(Operand::Loc(0)), Ok(1));
}

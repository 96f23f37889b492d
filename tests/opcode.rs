use firstlang::opcode::{convert_two_u8s_to_usize, make_op, OpCode};

#[test]
fn make_op_constant() {
    assert_eq!(vec![0x01, 255, 254], make_op(OpCode::OpConstant(65534)));
}

#[test]
fn make_op_pop() {
    assert_eq!(vec![0x02], make_op(OpCode::OpPop));
}

#[test]
fn make_op_add() {
    assert_eq!(vec![0x03], make_op(OpCode::OpAdd));
}

#[test]
fn two_bytes_make_an_index() {
    assert_eq!(convert_two_u8s_to_usize(255, 254), 65534);
    assert_eq!(convert_two_u8s_to_usize(0, 7), 7);
    assert_eq!(make_op(OpCode::OpMinus), vec![0x0B]);
}

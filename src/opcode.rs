//! The instruction encoding of a small stack machine for arithmetic expressions.
use vstd::prelude::*;

verus! {

/// An instruction of the stack machine.
#[derive(Debug, Copy, Clone)]
pub enum OpCode {
    /// Push the constant at this index of the constant table.
    OpConstant(u16),
    OpPop,
    OpAdd,
    OpSub,
    OpPlus,
    OpMinus,
}

/// The bytes that encode `op`: a one-byte code, followed for `OpConstant` by its index
/// in two bytes, most significant first.
pub open spec fn op_bytes(op: OpCode) -> Seq<u8> {
    match op {
        OpCode::OpConstant(arg) => seq![0x01u8, (arg / 256) as u8, (arg % 256) as u8],
        OpCode::OpPop => seq![0x02u8],
        OpCode::OpAdd => seq![0x03u8],
        OpCode::OpSub => seq![0x04u8],
        OpCode::OpPlus => seq![0x0Au8],
        OpCode::OpMinus => seq![0x0Bu8],
    }
}

/// The two bytes of `integer`, most significant first.
fn convert_u16_to_two_u8s(integer: u16) -> (r: [u8; 2])
    ensures
        r@ == seq![(integer / 256) as u8, (integer % 256) as u8],
{
    let r = [(integer / 256) as u8, (integer % 256) as u8];
    assert(r@ =~= seq![(integer / 256) as u8, (integer % 256) as u8]);
    r
}

/// The number whose two bytes, most significant first, are `int1` and `int2`.
pub fn convert_two_u8s_to_usize(int1: u8, int2: u8) -> (r: usize)
    ensures
        r == int1 * 256 + int2,
{
    (int1 as usize) * 256 + int2 as usize
}

/// A one-byte code followed by the two bytes of `data`.
fn make_three_byte_op(code: u8, data: u16) -> (r: Vec<u8>)
    ensures
        r@ == seq![code, (data / 256) as u8, (data % 256) as u8],
{
    let bytes = convert_u16_to_two_u8s(data);
    let mut output = vec![code];
    output.push(bytes[0]);
    output.push(bytes[1]);
    assert(output@ =~= seq![code, (data / 256) as u8, (data % 256) as u8]);
    output
}

/// The encoding of `op`.
pub fn make_op(op: OpCode) -> (r: Vec<u8>)
    ensures
        r@ == op_bytes(op),
{
    let r = match op {
        OpCode::OpConstant(arg) => make_three_byte_op(0x01, arg),
        OpCode::OpPop => vec![0x02],
        OpCode::OpAdd => vec![0x03],
        OpCode::OpSub => vec![0x04],
        OpCode::OpPlus => vec![0x0A],
        OpCode::OpMinus => vec![0x0B],
    };
    assert(r@ =~= op_bytes(op));
    r
}

} // verus!

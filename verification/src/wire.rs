//! The instruction payload codec.
//!
//! A request arrives with an opaque payload whose first byte — the operation
//! code region — says which operation it asks for and which layout applies to
//! the rest. The layout is byte-stable: a code byte, then the operation's
//! fields in little-endian order. Nothing in a payload is interpreted before
//! its code byte matched, and a payload whose length does not fit its code is
//! refused whole.

use vstd::prelude::*;

use crate::ops::{Operation, OperationModel};

verus! {

/// Operation code of `SetMessage`: the rest of the payload is the message.
pub const OP_SET_MESSAGE: u8 = 1;

/// Operation code of `SetFee`: two little-endian fee bytes follow.
pub const OP_SET_FEE: u8 = 2;

/// Operation code of `Withdraw`: eight little-endian amount bytes follow.
pub const OP_WITHDRAW: u8 = 3;

/// Operation code of `Deposit`: eight little-endian amount bytes follow.
pub const OP_DEPOSIT: u8 = 4;

/// Operation code of `TogglePause`: nothing follows.
pub const OP_TOGGLE_PAUSE: u8 = 5;

/// The value of two little-endian bytes.
pub open spec fn le2_value(b0: u8, b1: u8) -> u16 {
    (b0 + 256 * b1) as u16
}

/// The value of eight little-endian bytes.
pub open spec fn le8_value(bs: Seq<u8>) -> u64
    recommends
        bs.len() == 8,
{
    (bs[0] + 256 * bs[1] + 65536 * bs[2] + 16777216 * bs[3] + 4294967296 * bs[4]
        + 1099511627776 * bs[5] + 281474976710656 * bs[6] + 72057594037927936 * bs[7]) as u64
}

/// What a payload asks for: the operation its code byte and layout encode, or
/// `None` for an unknown code or a length that does not fit the code.
pub open spec fn payload_model(p: Seq<u8>) -> Option<OperationModel> {
    if p.len() == 0 {
        None
    } else if p[0] == OP_SET_MESSAGE {
        Some(OperationModel::SetMessage { content: p.subrange(1, p.len() as int) })
    } else if p[0] == OP_SET_FEE {
        if p.len() == 3 {
            Some(OperationModel::SetFee { fee_bps: le2_value(p[1], p[2]) })
        } else {
            None
        }
    } else if p[0] == OP_WITHDRAW {
        if p.len() == 9 {
            Some(OperationModel::Withdraw { amount: le8_value(p.subrange(1, 9)) })
        } else {
            None
        }
    } else if p[0] == OP_DEPOSIT {
        if p.len() == 9 {
            Some(OperationModel::Deposit { amount: le8_value(p.subrange(1, 9)) })
        } else {
            None
        }
    } else if p[0] == OP_TOGGLE_PAUSE {
        if p.len() == 1 {
            Some(OperationModel::TogglePause)
        } else {
            None
        }
    } else {
        None
    }
}

/// Eight little-endian bytes read from `p` starting at `at`.
fn read_le8(p: &Vec<u8>, at: usize) -> (r: u64)
    requires
        at + 8 <= p@.len(),
    ensures
        r == le8_value(p@.subrange(at as int, at + 8)),
{
    let n = p.len();
    proof {
        // `n` is a machine word, so the indices `at + 1` … `at + 7` fit one too.
        assert(at + 8 <= n);
    }
    let b0 = p[at] as u64;
    let b1 = p[at + 1] as u64;
    let b2 = p[at + 2] as u64;
    let b3 = p[at + 3] as u64;
    let b4 = p[at + 4] as u64;
    let b5 = p[at + 5] as u64;
    let b6 = p[at + 6] as u64;
    let b7 = p[at + 7] as u64;
    let r = b0 + 256 * b1 + 65536 * b2 + 16777216 * b3 + 4294967296 * b4 + 1099511627776 * b5
        + 281474976710656 * b6 + 72057594037927936 * b7;
    proof {
        let bs = p@.subrange(at as int, at + 8);
        assert(bs[0] == p@[at as int] && bs[1] == p@[at + 1] && bs[2] == p@[at + 2] && bs[3] == p@[
            at + 3
        ] && bs[4] == p@[at + 4] && bs[5] == p@[at + 5] && bs[6] == p@[at + 6] && bs[7] == p@[at
            + 7]);
    }
    r
}

/// Append eight little-endian bytes holding `x` to `out`.
fn push_le8(out: &mut Vec<u8>, x: u64)
    ensures
        final(out)@.len() == old(out)@.len() + 8,
        final(out)@.subrange(0, old(out)@.len() as int) == old(out)@,
        le8_value(final(out)@.subrange(old(out)@.len() as int, final(out)@.len() as int)) == x,
{
    let ghost pre = out@;
    let d0 = (x % 256) as u8;
    let q1 = x / 256;
    let d1 = (q1 % 256) as u8;
    let q2 = q1 / 256;
    let d2 = (q2 % 256) as u8;
    let q3 = q2 / 256;
    let d3 = (q3 % 256) as u8;
    let q4 = q3 / 256;
    let d4 = (q4 % 256) as u8;
    let q5 = q4 / 256;
    let d5 = (q5 % 256) as u8;
    let q6 = q5 / 256;
    let d6 = (q6 % 256) as u8;
    let d7 = (q6 / 256) as u8;
    out.push(d0);
    out.push(d1);
    out.push(d2);
    out.push(d3);
    out.push(d4);
    out.push(d5);
    out.push(d6);
    out.push(d7);
    proof {
        assert(out@.subrange(0, pre.len() as int) =~= pre);
        let bs = out@.subrange(pre.len() as int, out@.len() as int);
        assert(bs =~= seq![d0, d1, d2, d3, d4, d5, d6, d7]);
        assert(q6 / 256 < 256);
        assert(x == d0 + 256 * (q1 as int));
        assert(x == d0 + 256 * d1 + 65536 * (q2 as int));
        assert(x == d0 + 256 * d1 + 65536 * d2 + 16777216 * (q3 as int));
        assert(x == d0 + 256 * d1 + 65536 * d2 + 16777216 * d3 + 4294967296 * (q4 as int));
        assert(x == d0 + 256 * d1 + 65536 * d2 + 16777216 * d3 + 4294967296 * d4 + 1099511627776 * (
        q5 as int));
        assert(x == d0 + 256 * d1 + 65536 * d2 + 16777216 * d3 + 4294967296 * d4 + 1099511627776
            * d5 + 281474976710656 * (q6 as int));
        assert(x == d0 + 256 * d1 + 65536 * d2 + 16777216 * d3 + 4294967296 * d4 + 1099511627776
            * d5 + 281474976710656 * d6 + 72057594037927936 * d7);
        assert(le8_value(bs) == x);
    }
}

/// Read the operation a payload asks for. Nothing past the code byte is
/// interpreted unless the length fits the code's layout.
pub fn decode_payload(p: &Vec<u8>) -> (r: Option<Operation>)
    ensures
        r matches Some(op) ==> payload_model(p@) == Some(op@),
        r is None ==> payload_model(p@) is None,
{
    if p.len() == 0 {
        return None;
    }
    let code = p[0];
    if code == OP_SET_MESSAGE {
        let mut content: Vec<u8> = Vec::new();
        let mut i: usize = 1;
        while i < p.len()
            invariant
                1 <= i <= p@.len(),
                content@ =~= p@.subrange(1, i as int),
            decreases p@.len() - i,
        {
            content.push(p[i]);
            i += 1;
        }
        proof {
            assert(content@ =~= p@.subrange(1, p@.len() as int));
        }
        Some(Operation::SetMessage { content })
    } else if code == OP_SET_FEE {
        if p.len() == 3 {
            Some(Operation::SetFee { fee_bps: (p[1] as u16) + 256 * (p[2] as u16) })
        } else {
            None
        }
    } else if code == OP_WITHDRAW {
        if p.len() == 9 {
            Some(Operation::Withdraw { amount: read_le8(p, 1) })
        } else {
            None
        }
    } else if code == OP_DEPOSIT {
        if p.len() == 9 {
            Some(Operation::Deposit { amount: read_le8(p, 1) })
        } else {
            None
        }
    } else if code == OP_TOGGLE_PAUSE {
        if p.len() == 1 {
            Some(Operation::TogglePause)
        } else {
            None
        }
    } else {
        None
    }
}

/// Write an operation as a payload. Law: the codec round-trips — what
/// `encode_payload` writes, `payload_model` (and so `decode_payload`) reads
/// back as the same operation.
pub fn encode_payload(op: &Operation) -> (r: Vec<u8>)
    ensures
        payload_model(r@) == Some(op@),
{
    match op {
        Operation::SetMessage { content } => {
            let mut out: Vec<u8> = Vec::new();
            out.push(OP_SET_MESSAGE);
            let mut i: usize = 0;
            while i < content.len()
                invariant
                    i <= content@.len(),
                    out@.len() == i + 1,
                    out@[0] == OP_SET_MESSAGE,
                    out@.subrange(1, out@.len() as int) =~= content@.subrange(0, i as int),
                decreases content@.len() - i,
            {
                out.push(content[i]);
                i += 1;
            }
            proof {
                assert(out@.subrange(1, out@.len() as int) =~= content@);
            }
            out
        },
        Operation::SetFee { fee_bps } => {
            let mut out: Vec<u8> = Vec::new();
            out.push(OP_SET_FEE);
            out.push((fee_bps % 256) as u8);
            out.push((fee_bps / 256) as u8);
            proof {
                assert(out@ =~= seq![OP_SET_FEE, (*fee_bps % 256) as u8, (*fee_bps / 256) as u8]);
                assert(*fee_bps / 256 < 256);
                assert(le2_value((*fee_bps % 256) as u8, (*fee_bps / 256) as u8) == *fee_bps);
            }
            out
        },
        Operation::Withdraw { amount } => {
            let mut out: Vec<u8> = Vec::new();
            out.push(OP_WITHDRAW);
            let ghost head = out@;
            push_le8(&mut out, *amount);
            proof {
                assert(head =~= seq![OP_WITHDRAW]);
                assert(out@[0] == out@.subrange(0, 1)[0]);
                assert(out@[0] == OP_WITHDRAW);
                assert(out@.subrange(1, 9) == out@.subrange(1int, out@.len() as int));
            }
            out
        },
        Operation::Deposit { amount } => {
            let mut out: Vec<u8> = Vec::new();
            out.push(OP_DEPOSIT);
            let ghost head = out@;
            push_le8(&mut out, *amount);
            proof {
                assert(head =~= seq![OP_DEPOSIT]);
                assert(out@[0] == out@.subrange(0, 1)[0]);
                assert(out@[0] == OP_DEPOSIT);
                assert(out@.subrange(1, 9) == out@.subrange(1int, out@.len() as int));
            }
            out
        },
        Operation::TogglePause => {
            let mut out: Vec<u8> = Vec::new();
            out.push(OP_TOGGLE_PAUSE);
            proof {
                assert(out@ =~= seq![OP_TOGGLE_PAUSE]);
            }
            out
        },
    }
}

} // verus!

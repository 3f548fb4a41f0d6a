use vstd::prelude::*;

verus! {

pub const OP_0: u8 = 0x00;
pub const OP_1: u8 = 0x51;
pub const OP_IF: u8 = 0x63;
pub const OP_ELSE: u8 = 0x67;
pub const OP_ENDIF: u8 = 0x68;
pub const OP_DROP: u8 = 0x75;
pub const OP_OVER: u8 = 0x78;
pub const OP_EQUAL: u8 = 0x87;
pub const OP_EQUALVERIFY: u8 = 0x88;
pub const OP_HASH160: u8 = 0xa9;
pub const OP_CHECKSIG: u8 = 0xac;
pub const OP_CHECKLOCKTIMEVERIFY: u8 = 0xb1;

/// Largest length of data that one push opcode byte can announce by itself.
pub const MAX_DIRECT_PUSH: usize = 75;

/// Largest value a script integer can hold (a signed 32-bit integer).
pub const MAX_SCRIPT_INT: u32 = 0x7fff_ffff;

/// One token of a script: an opcode, pushed bytes, a pushed integer or a pushed boolean.
#[derive(Debug, Clone)]
pub enum ScriptOp {
    Code(u8),
    Push(Vec<u8>),
    Int(u32),
    Bool(bool),
}

/// The mathematical value of a script token.
pub enum OpView {
    Code(u8),
    Push(Seq<u8>),
    Int(u32),
    Bool(bool),
}

impl View for ScriptOp {
    type V = OpView;

    open spec fn view(&self) -> OpView {
        match self {
            ScriptOp::Code(c) => OpView::Code(*c),
            ScriptOp::Push(d) => OpView::Push(d@),
            ScriptOp::Int(n) => OpView::Int(*n),
            ScriptOp::Bool(b) => OpView::Bool(*b),
        }
    }
}

pub open spec fn ops_view(s: Seq<ScriptOp>) -> Seq<OpView> {
    s.map_values(|o: ScriptOp| o@)
}

/// Minimal little-endian bytes of a natural number (empty for zero).
pub open spec fn le_bytes(n: nat) -> Seq<u8>
    decreases n,
{
    if n == 0 {
        seq![]
    } else {
        seq![(n % 256) as u8] + le_bytes(n / 256)
    }
}

/// Minimal script-number encoding of a non-negative integer: its little-endian
/// bytes, with a zero byte added where the top byte would read as a sign.
pub open spec fn script_num(n: nat) -> Seq<u8> {
    let b = le_bytes(n);
    if b.len() > 0 && b.last() >= 0x80 {
        b.push(0)
    } else {
        b
    }
}

/// The serialized form of one token.
pub open spec fn op_bytes(o: OpView) -> Seq<u8> {
    match o {
        OpView::Code(c) => seq![c],
        OpView::Push(d) => seq![d.len() as u8] + d,
        OpView::Bool(b) => seq![if b { OP_1 } else { OP_0 }],
        OpView::Int(n) => if n == 0 {
            seq![OP_0]
        } else if n <= 16 {
            seq![(OP_1 - 1 + n) as u8]
        } else {
            seq![script_num(n as nat).len() as u8] + script_num(n as nat)
        },
    }
}

/// The serialized form of a sequence of tokens.
pub open spec fn ops_bytes(s: Seq<OpView>) -> Seq<u8>
    decreases s.len(),
{
    if s.len() == 0 {
        seq![]
    } else {
        ops_bytes(s.drop_last()) + op_bytes(s.last())
    }
}

/// A token that the serializer writes in the form `op_bytes` gives.
pub open spec fn op_serializable(o: OpView) -> bool {
    match o {
        OpView::Push(d) => 1 <= d.len() <= MAX_DIRECT_PUSH,
        OpView::Int(n) => n <= MAX_SCRIPT_INT,
        _ => true,
    }
}

pub open spec fn ops_serializable(s: Seq<OpView>) -> bool {
    forall|i: int| 0 <= i < s.len() ==> op_serializable(#[trigger] s[i])
}


/// Minimal script-number bytes of `n`.
pub fn script_num_bytes(n: u32) -> (r: Vec<u8>)
    ensures
        r@ == script_num(n as nat),
{
    let mut v: Vec<u8> = Vec::new();
    let mut m: u32 = n;
    while m > 0
        invariant
            le_bytes(n as nat) == v@ + le_bytes(m as nat),
        decreases m,
    {
        let b: u8 = (m % 256) as u8;
        proof {
            assert(le_bytes(m as nat) == seq![b] + le_bytes((m / 256) as nat));
            assert(v@.push(b) + le_bytes((m / 256) as nat) =~= v@ + (seq![b] + le_bytes(
                (m / 256) as nat,
            )));
        }
        v.push(b);
        m = m / 256;
    }
    proof {
        assert(le_bytes(0) == Seq::<u8>::empty());
        assert(v@ + Seq::<u8>::empty() =~= v@);
    }
    if v.len() > 0 && v[v.len() - 1] >= 0x80 {
        v.push(0);
    }
    v
}

/// Appends the serialized form of `o` to `out`.
pub fn write_op(o: &ScriptOp, out: &mut Vec<u8>)
    requires
        op_serializable(o@),
    ensures
        final(out)@ == old(out)@ + op_bytes(o@),
{
    match o {
        ScriptOp::Code(c) => {
            out.push(*c);
            assert(final(out)@ =~= old(out)@ + op_bytes(o@));
        },
        ScriptOp::Push(d) => {
            let len: u8 = d.len() as u8;
            out.push(len);
            let mut i: usize = 0;
            while i < d.len()
                invariant
                    0 <= i <= d@.len(),
                    len == d@.len() as u8,
                    out@ == old(out)@ + seq![len] + d@.take(i as int),
                decreases d@.len() - i,
            {
                out.push(d[i]);
                assert(d@.take(i as int + 1) =~= d@.take(i as int).push(d@[i as int]));
                i = i + 1;
            }
            assert(d@.take(d@.len() as int) =~= d@);
            assert(final(out)@ =~= old(out)@ + op_bytes(o@));
        },
        ScriptOp::Bool(b) => {
            out.push(if *b { OP_1 } else { OP_0 });
            assert(final(out)@ =~= old(out)@ + op_bytes(o@));
        },
        ScriptOp::Int(n) => {
            if *n == 0 {
                out.push(OP_0);
                assert(final(out)@ =~= old(out)@ + op_bytes(o@));
            } else if *n <= 16 {
                out.push(OP_1 - 1 + (*n as u8));
                assert(final(out)@ =~= old(out)@ + op_bytes(o@));
            } else {
                let e = script_num_bytes(*n);
                let ghost start = out@;
                out.push(e.len() as u8);
                let mut i: usize = 0;
                while i < e.len()
                    invariant
                        0 <= i <= e@.len(),
                        out@ == start + seq![e@.len() as u8] + e@.take(i as int),
                    decreases e@.len() - i,
                {
                    out.push(e[i]);
                    assert(e@.take(i as int + 1) =~= e@.take(i as int).push(e@[i as int]));
                    i = i + 1;
                }
                assert(e@.take(e@.len() as int) =~= e@);
                assert(final(out)@ =~= old(out)@ + op_bytes(o@));
            }
        },
    }
}

/// Serializes a sequence of tokens into script bytes.
pub fn serialize_ops(ops: &Vec<ScriptOp>) -> (r: Vec<u8>)
    requires
        ops_serializable(ops_view(ops@)),
    ensures
        r@ == ops_bytes(ops_view(ops@)),
{
    let mut out: Vec<u8> = Vec::new();
    let mut i: usize = 0;
    while i < ops.len()
        invariant
            0 <= i <= ops@.len(),
            ops_serializable(ops_view(ops@)),
            out@ == ops_bytes(ops_view(ops@).take(i as int)),
        decreases ops@.len() - i,
    {
        assert(op_serializable(ops_view(ops@)[i as int]));
        write_op(&ops[i], &mut out);
        proof {
            let t = ops_view(ops@).take(i as int + 1);
            assert(t.drop_last() =~= ops_view(ops@).take(i as int));
            assert(t.last() == ops[i as int]@);
        }
        i = i + 1;
    }
    assert(ops_view(ops@).take(ops@.len() as int) =~= ops_view(ops@));
    out
}

} // verus!

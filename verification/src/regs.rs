//! Register programs: the I2C register writes that a chip operation performs,
//! as data, with their meaning on a 256-byte register file.

use vstd::prelude::*;

verus! {

/// PiSugar 3 write protection register; 0x29 opens it, 0 closes it.
pub const WRITE_ENABLE_REG: u8 = 0x0B;

/// Value that opens the PiSugar 3 write protection.
pub const WRITE_ENABLE_KEY: u8 = 0x29;

/// One register transaction.
#[derive(Clone, Copy, Debug, PartialEq, Eq)]
pub enum RegOp {
    /// Write `value` to `reg`.
    Write { reg: u8, value: u8 },
    /// Read `reg`, keep the bits of `keep`, set the bits of `set`, write it back.
    Update { reg: u8, keep: u8, set: u8 },
    /// Write the seven bytes of `data` to consecutive registers from `start`.
    BlockWrite { start: u8, data: [u8; 7] },
    /// Write `value` to `reg` with the PiSugar 3 write protection opened
    /// before and closed after, even when the write fails.
    ProtectedWrite { reg: u8, value: u8 },
    /// Read `reg`, keep `keep`, set `set`, and write it back as a protected write.
    ProtectedUpdate { reg: u8, keep: u8, set: u8 },
}

/// The value an update writes for a register that held `old`.
pub open spec fn updated(old: u8, keep: u8, set: u8) -> u8 {
    (old & keep) | set
}

/// Register file after a protected write of `value` to `reg`.
pub open spec fn protected_write(regs: Seq<u8>, reg: u8, value: u8) -> Seq<u8> {
    regs.update(WRITE_ENABLE_REG as int, WRITE_ENABLE_KEY).update(reg as int, value).update(
        WRITE_ENABLE_REG as int,
        0,
    )
}

/// Register file after one transaction.
pub open spec fn apply_op(regs: Seq<u8>, op: RegOp) -> Seq<u8> {
    match op {
        RegOp::Write { reg, value } => regs.update(reg as int, value),
        RegOp::Update { reg, keep, set } => regs.update(reg as int, updated(regs[reg as int], keep, set)),
        RegOp::BlockWrite { start, data } => Seq::new(
            regs.len(),
            |i: int|
                if start <= i < start + data@.len() {
                    data@[i - start]
                } else {
                    regs[i]
                },
        ),
        RegOp::ProtectedWrite { reg, value } => protected_write(regs, reg, value),
        RegOp::ProtectedUpdate { reg, keep, set } => protected_write(
            regs,
            reg,
            updated(regs[reg as int], keep, set),
        ),
    }
}

/// Register file after a whole program, first transaction first.
pub open spec fn run(regs: Seq<u8>, ops: Seq<RegOp>) -> Seq<u8>
    decreases ops.len(),
{
    if ops.len() == 0 {
        regs
    } else {
        run(apply_op(regs, ops[0]), ops.drop_first())
    }
}

/// A register file of the 256 addresses of a chip.
pub open spec fn is_register_file(regs: Seq<u8>) -> bool {
    regs.len() == 256
}

/// The value to write back for an update of a register that read `old`.
pub fn update_value(old: u8, keep: u8, set: u8) -> (v: u8)
    ensures
        v == updated(old, keep, set),
{
    (old & keep) | set
}

/// Running two programs one after the other is running their concatenation.
pub proof fn lemma_run_append(regs: Seq<u8>, a: Seq<RegOp>, b: Seq<RegOp>)
    ensures
        run(regs, a + b) == run(run(regs, a), b),
    decreases a.len(),
{
    if a.len() == 0 {
        assert(a + b =~= b);
    } else {
        assert((a + b).drop_first() =~= a.drop_first() + b);
        lemma_run_append(apply_op(regs, a[0]), a.drop_first(), b);
    }
}

/// Every transaction keeps the size of the register file.
pub proof fn lemma_run_len(regs: Seq<u8>, ops: Seq<RegOp>)
    requires
        is_register_file(regs),
    ensures
        is_register_file(run(regs, ops)),
    decreases ops.len(),
{
    if ops.len() > 0 {
        assert(is_register_file(apply_op(regs, ops[0])));
        lemma_run_len(apply_op(regs, ops[0]), ops.drop_first());
    }
}

/// A program of one transaction.
pub proof fn lemma_run_one(regs: Seq<u8>, a: RegOp)
    ensures
        run(regs, seq![a]) == apply_op(regs, a),
{
    reveal_with_fuel(run, 2);
    assert(seq![a].drop_first() =~= Seq::<RegOp>::empty());
}

/// A program of two transactions.
pub proof fn lemma_run_two(regs: Seq<u8>, a: RegOp, b: RegOp)
    ensures
        run(regs, seq![a, b]) == apply_op(apply_op(regs, a), b),
{
    reveal_with_fuel(run, 3);
    assert(seq![a, b].drop_first() =~= seq![b]);
    assert(seq![b].drop_first() =~= Seq::<RegOp>::empty());
}

} // verus!

verus! {

/// A program of a single transaction.
pub fn single(op: RegOp) -> (ops: Vec<RegOp>)
    ensures
        ops@ == seq![op],
{
    let mut ops: Vec<RegOp> = Vec::new();
    ops.push(op);
    assert(ops@ =~= seq![op]);
    ops
}

/// Append the program `b` to the program `a`.
pub fn append_ops(a: &mut Vec<RegOp>, b: &Vec<RegOp>)
    ensures
        final(a)@ == old(a)@ + b@,
{
    let ghost start = a@;
    let mut i: usize = 0;
    while i < b.len()
        invariant
            i <= b@.len(),
            a@ == start + b@.take(i as int),
        decreases b@.len() - i,
    {
        a.push(b[i]);
        i = i + 1;
        assert(a@ =~= start + b@.take(i as int));
    }
    assert(b@.take(i as int) =~= b@);
}

/// A protected update changes the updated register and leaves the write
/// protection closed; no other register changes.
pub proof fn lemma_protected_update(regs: Seq<u8>, reg: u8, keep: u8, set: u8)
    requires
        is_register_file(regs),
        reg != WRITE_ENABLE_REG,
    ensures
        ({
            let r = run(regs, seq![RegOp::ProtectedUpdate { reg, keep, set }]);
            &&& is_register_file(r)
            &&& r[reg as int] == updated(regs[reg as int], keep, set)
            &&& r[WRITE_ENABLE_REG as int] == 0
            &&& forall|i: int| 0 <= i < 256 && i != reg && i != WRITE_ENABLE_REG ==> #[trigger] r[i] == regs[i]
        }),
{
    lemma_run_one(regs, RegOp::ProtectedUpdate { reg, keep, set });
}

/// A protected write stores the value and leaves the write protection closed;
/// no other register changes.
pub proof fn lemma_protected_write(regs: Seq<u8>, reg: u8, value: u8)
    requires
        is_register_file(regs),
        reg != WRITE_ENABLE_REG,
    ensures
        ({
            let r = apply_op(regs, RegOp::ProtectedWrite { reg, value });
            &&& is_register_file(r)
            &&& r[reg as int] == value
            &&& r[WRITE_ENABLE_REG as int] == 0
            &&& forall|i: int| 0 <= i < 256 && i != reg && i != WRITE_ENABLE_REG ==> #[trigger] r[i] == regs[i]
        }),
{
}

/// Running a program is running its first transaction, then the rest.
pub proof fn lemma_run_cons(regs: Seq<u8>, a: RegOp, rest: Seq<RegOp>)
    ensures
        run(regs, seq![a] + rest) == run(apply_op(regs, a), rest),
{
    assert((seq![a] + rest).drop_first() =~= rest);
}

/// A program of three transactions.
pub proof fn lemma_run_three(regs: Seq<u8>, a: RegOp, b: RegOp, c: RegOp)
    ensures
        run(regs, seq![a, b, c]) == apply_op(apply_op(apply_op(regs, a), b), c),
{
    assert(seq![a, b, c] =~= seq![a] + seq![b, c]);
    lemma_run_cons(regs, a, seq![b, c]);
    lemma_run_two(apply_op(regs, a), b, c);
}

} // verus!

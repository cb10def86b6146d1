use vstd::prelude::*;

use crate::machine::{
    flag, lemma_zn_reflects, with_zn, wrap8,
    zn_reflects, CpuError, Machine, StepOutcome, FLAG_N, FLAG_Z,
};
use crate::opcodes::opcode_table;

verus! {

/// Loading any byte `v` into A, X or Y puts `v` in the register, sets Z
/// exactly when `v` is zero and N exactly when bit 7 of `v` is set, and
/// leaves every other bit of the status byte as it was.
pub proof fn lemma_load_sets_zero_and_negative(m: Machine, v: u8)
    ensures
        m.set_a_zn(v).a == v,
        m.set_x_zn(v).x == v,
        m.set_y_zn(v).y == v,
        m.set_a_zn(v).status == with_zn(m.status, v),
        m.set_x_zn(v).status == with_zn(m.status, v),
        m.set_y_zn(v).status == with_zn(m.status, v),
        zn_reflects(with_zn(m.status, v), m.status, v),
{
    lemma_zn_reflects(m.status, v);
}

/// A pull right after a push gives back the pushed byte and the stack
/// pointer from before the push; so PHA then PLA leaves A and the stack
/// pointer as they were.
pub proof fn lemma_push_then_pop(m: Machine, b: u8)
    requires
        m.wf(),
    ensures
        m.push(b).pop().1 == b,
        m.push(b).pop().0.sp == m.sp,
        ({
            let (pulled, v) = m.push(m.a).pop();
            &&& pulled.set_a_zn(v).a == m.a
            &&& pulled.set_a_zn(v).sp == m.sp
        }),
{
}

/// Three pushes move the stack pointer down by three, wrapping inside the
/// stack page; three pulls then give the bytes back last first and restore
/// the stack pointer.
pub proof fn lemma_three_pushes_three_pops(m: Machine, b1: u8, b2: u8, b3: u8)
    requires
        m.wf(),
    ensures
        ({
            let pushed = m.push(b1).push(b2).push(b3);
            let (p1, v1) = pushed.pop();
            let (p2, v2) = p1.pop();
            let (p3, v3) = p2.pop();
            &&& pushed.sp == wrap8(m.sp - 3)
            &&& v1 == b3
            &&& v2 == b2
            &&& v3 == b1
            &&& p3.sp == m.sp
        }),
{
}

/// INX from 0xFF wraps X to 0x00 and sets Z; DEX from 0x00 wraps X to 0xFF
/// and sets N.
pub proof fn lemma_index_wraparound(m: Machine)
    ensures
        m.x == 0xFF ==> {
            let n = m.set_x_zn(wrap8(m.x + 1));
            n.x == 0 && flag(n.status, FLAG_Z)
        },
        m.x == 0 ==> {
            let n = m.set_x_zn(wrap8(m.x - 1));
            n.x == 0xFF && flag(n.status, FLAG_N)
        },
{
    lemma_zn_reflects(m.status, 0);
    lemma_zn_reflects(m.status, 0xFF);
}

/// A byte with no descriptor stops execution: the step reports it with its
/// address and leaves the machine as it was, and so does a run.
pub proof fn lemma_unsupported_opcode_halts(m: Machine, fuel: nat)
    requires
        opcode_table(m.read(m.pc)) is None,
        fuel > 0,
    ensures
        m.step_spec() == (m, Err::<StepOutcome, CpuError>(
            CpuError::UnsupportedOpcode { opcode: m.read(m.pc), pc: m.pc },
        )),
        m.run_spec(fuel) == m.step_spec(),
{
}

} // verus!

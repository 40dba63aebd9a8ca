//! Global laws of the core, stated and proved once over the spec model that
//! the executable functions' contracts use.

use vstd::prelude::*;

use crate::cpu::Cpu;
use crate::opcodes::page0::{psh_bundle, psh_byte, psh_word, pul_a, pul_b, pul_bundle, pul_cc, pul_dp, pul_other, pul_pc, pul_x, pul_y};
use crate::registers::{lemma_cc_round_trip, lemma_with_a, lemma_with_b, Registers};
use crate::words::{hi8, lemma_wadd_wsub, lemma_word_split, lemma_wsub_neq, lemma_wsub_wsub, lo8, wadd, wsub};

verus! {

/// How many bytes a push bundle has moved once the PC slot is done, and so
/// on down to the CC slot: each stage's stack-pointer offset below the
/// starting pointer.
pub open spec fn psh_off_pc(mask: u8) -> u16 {
    if mask & 0x80 != 0 {
        2
    } else {
        0
    }
}

pub open spec fn psh_off_other(mask: u8) -> u16 {
    (psh_off_pc(mask) + (if mask & 0x40 != 0 {
        2u16
    } else {
        0u16
    })) as u16
}

pub open spec fn psh_off_y(mask: u8) -> u16 {
    (psh_off_other(mask) + (if mask & 0x20 != 0 {
        2u16
    } else {
        0u16
    })) as u16
}

pub open spec fn psh_off_x(mask: u8) -> u16 {
    (psh_off_y(mask) + (if mask & 0x10 != 0 {
        2u16
    } else {
        0u16
    })) as u16
}

pub open spec fn psh_off_dp(mask: u8) -> u16 {
    (psh_off_x(mask) + (if mask & 0x08 != 0 {
        1u16
    } else {
        0u16
    })) as u16
}

pub open spec fn psh_off_b(mask: u8) -> u16 {
    (psh_off_dp(mask) + (if mask & 0x04 != 0 {
        1u16
    } else {
        0u16
    })) as u16
}

pub open spec fn psh_off_a(mask: u8) -> u16 {
    (psh_off_b(mask) + (if mask & 0x02 != 0 {
        1u16
    } else {
        0u16
    })) as u16
}

pub open spec fn psh_off_cc(mask: u8) -> u16 {
    (psh_off_a(mask) + (if mask & 0x01 != 0 {
        1u16
    } else {
        0u16
    })) as u16
}

/// How a push bundle's chain lays the selected registers out in memory:
/// each stage's stack pointer, and the byte each pull will find. Stated over
/// the chain's stages, handed in by the caller.
#[verifier::rlimit(100)]
#[verifier::spinoff_prover]
proof fn lemma_psh_chain_ptrs(
    reg: Registers,
    m0: spec_fn(u16) -> u8,
    mask: u8,
    t1: (Registers, spec_fn(u16) -> u8, int),
    t2: (Registers, spec_fn(u16) -> u8, int),
    t3: (Registers, spec_fn(u16) -> u8, int),
    t4: (Registers, spec_fn(u16) -> u8, int),
    t5: (Registers, spec_fn(u16) -> u8, int),
    t6: (Registers, spec_fn(u16) -> u8, int),
    t7: (Registers, spec_fn(u16) -> u8, int),
    t8: (Registers, spec_fn(u16) -> u8, int),
)
    requires
        t1 == psh_word((reg, m0, 0int), true, mask & 0x80 != 0, reg.pc),
        t2 == psh_word(t1, true, mask & 0x40 != 0, reg.u),
        t3 == psh_word(t2, true, mask & 0x20 != 0, reg.y),
        t4 == psh_word(t3, true, mask & 0x10 != 0, reg.x),
        t5 == psh_byte(t4, true, mask & 0x08 != 0, reg.dp),
        t6 == psh_byte(t5, true, mask & 0x04 != 0, reg.spec_b()),
        t7 == psh_byte(t6, true, mask & 0x02 != 0, reg.spec_a()),
        t8 == psh_byte(t7, true, mask & 0x01 != 0, reg.cc.as_byte()),
    ensures
        t1.0.s == wsub(reg.s, psh_off_pc(mask)),
        t2.0.s == wsub(reg.s, psh_off_other(mask)),
        t3.0.s == wsub(reg.s, psh_off_y(mask)),
        t4.0.s == wsub(reg.s, psh_off_x(mask)),
        t5.0.s == wsub(reg.s, psh_off_dp(mask)),
        t6.0.s == wsub(reg.s, psh_off_b(mask)),
        t7.0.s == wsub(reg.s, psh_off_a(mask)),
        t8.0.s == wsub(reg.s, psh_off_cc(mask)),
{
    let s0 = reg.s;
    let o1 = psh_off_pc(mask);
    let o2 = psh_off_other(mask);
    let o3 = psh_off_y(mask);
    let o4 = psh_off_x(mask);
    let o5 = psh_off_dp(mask);
    let o6 = psh_off_b(mask);
    let o7 = psh_off_a(mask);
    let o8 = psh_off_cc(mask);
    assert(t1.0.s == wsub(s0, o1)) by {
        lemma_wsub_wsub(s0, 0, 2);
    }
    assert(t2.0.s == wsub(s0, o2)) by {
        lemma_wsub_wsub(s0, o1, 2);
    }
    assert(t3.0.s == wsub(s0, o3)) by {
        lemma_wsub_wsub(s0, o2, 2);
    }
    assert(t4.0.s == wsub(s0, o4)) by {
        lemma_wsub_wsub(s0, o3, 2);
    }
    assert(t5.0.s == wsub(s0, o5)) by {
        lemma_wsub_wsub(s0, o4, 1);
    }
    assert(t6.0.s == wsub(s0, o6)) by {
        lemma_wsub_wsub(s0, o5, 1);
    }
    assert(t7.0.s == wsub(s0, o7)) by {
        lemma_wsub_wsub(s0, o6, 1);
    }
    assert(t8.0.s == wsub(s0, o8)) by {
        lemma_wsub_wsub(s0, o7, 1);
    }

}

/// A pushed CC byte sits at the final stack pointer.
#[verifier::rlimit(100)]
#[verifier::spinoff_prover]
proof fn lemma_psh_cc_lookup(
    reg: Registers,
    m0: spec_fn(u16) -> u8,
    mask: u8,
    t1: (Registers, spec_fn(u16) -> u8, int),
    t2: (Registers, spec_fn(u16) -> u8, int),
    t3: (Registers, spec_fn(u16) -> u8, int),
    t4: (Registers, spec_fn(u16) -> u8, int),
    t5: (Registers, spec_fn(u16) -> u8, int),
    t6: (Registers, spec_fn(u16) -> u8, int),
    t7: (Registers, spec_fn(u16) -> u8, int),
    t8: (Registers, spec_fn(u16) -> u8, int),
)
    requires
        t1 == psh_word((reg, m0, 0int), true, mask & 0x80 != 0, reg.pc),
        t2 == psh_word(t1, true, mask & 0x40 != 0, reg.u),
        t3 == psh_word(t2, true, mask & 0x20 != 0, reg.y),
        t4 == psh_word(t3, true, mask & 0x10 != 0, reg.x),
        t5 == psh_byte(t4, true, mask & 0x08 != 0, reg.dp),
        t6 == psh_byte(t5, true, mask & 0x04 != 0, reg.spec_b()),
        t7 == psh_byte(t6, true, mask & 0x02 != 0, reg.spec_a()),
        t8 == psh_byte(t7, true, mask & 0x01 != 0, reg.cc.as_byte()),
    ensures
        mask & 0x01 != 0 ==> (t8.1)(t8.0.s) == reg.cc.as_byte(),
{
    let s0 = reg.s;
    let o1 = psh_off_pc(mask);
    let o2 = psh_off_other(mask);
    let o3 = psh_off_y(mask);
    let o4 = psh_off_x(mask);
    let o5 = psh_off_dp(mask);
    let o6 = psh_off_b(mask);
    let o7 = psh_off_a(mask);
    let o8 = psh_off_cc(mask);
    lemma_psh_chain_ptrs(reg, m0, mask, t1, t2, t3, t4, t5, t6, t7, t8);
    assert(mask & 0x01 != 0 ==> (t8.1)(t8.0.s) == reg.cc.as_byte()) by {
        if mask & 0x01 != 0 {
        }
    }
}

/// A pushed A byte sits one above the CC slot.
#[verifier::rlimit(100)]
#[verifier::spinoff_prover]
proof fn lemma_psh_a_lookup(
    reg: Registers,
    m0: spec_fn(u16) -> u8,
    mask: u8,
    t1: (Registers, spec_fn(u16) -> u8, int),
    t2: (Registers, spec_fn(u16) -> u8, int),
    t3: (Registers, spec_fn(u16) -> u8, int),
    t4: (Registers, spec_fn(u16) -> u8, int),
    t5: (Registers, spec_fn(u16) -> u8, int),
    t6: (Registers, spec_fn(u16) -> u8, int),
    t7: (Registers, spec_fn(u16) -> u8, int),
    t8: (Registers, spec_fn(u16) -> u8, int),
)
    requires
        t1 == psh_word((reg, m0, 0int), true, mask & 0x80 != 0, reg.pc),
        t2 == psh_word(t1, true, mask & 0x40 != 0, reg.u),
        t3 == psh_word(t2, true, mask & 0x20 != 0, reg.y),
        t4 == psh_word(t3, true, mask & 0x10 != 0, reg.x),
        t5 == psh_byte(t4, true, mask & 0x08 != 0, reg.dp),
        t6 == psh_byte(t5, true, mask & 0x04 != 0, reg.spec_b()),
        t7 == psh_byte(t6, true, mask & 0x02 != 0, reg.spec_a()),
        t8 == psh_byte(t7, true, mask & 0x01 != 0, reg.cc.as_byte()),
    ensures
        mask & 0x02 != 0 ==> (t8.1)(t7.0.s) == reg.spec_a(),
{
    let s0 = reg.s;
    let o1 = psh_off_pc(mask);
    let o2 = psh_off_other(mask);
    let o3 = psh_off_y(mask);
    let o4 = psh_off_x(mask);
    let o5 = psh_off_dp(mask);
    let o6 = psh_off_b(mask);
    let o7 = psh_off_a(mask);
    let o8 = psh_off_cc(mask);
    lemma_psh_chain_ptrs(reg, m0, mask, t1, t2, t3, t4, t5, t6, t7, t8);
    assert(mask & 0x02 != 0 ==> (t8.1)(t7.0.s) == reg.spec_a()) by {
        if mask & 0x02 != 0 {
            lemma_wsub_neq(s0, o7, (o7 + 1) as u16);
        }
    }
}

/// A pushed B byte sits where its stage left the pointer.
#[verifier::rlimit(100)]
#[verifier::spinoff_prover]
proof fn lemma_psh_b_lookup(
    reg: Registers,
    m0: spec_fn(u16) -> u8,
    mask: u8,
    t1: (Registers, spec_fn(u16) -> u8, int),
    t2: (Registers, spec_fn(u16) -> u8, int),
    t3: (Registers, spec_fn(u16) -> u8, int),
    t4: (Registers, spec_fn(u16) -> u8, int),
    t5: (Registers, spec_fn(u16) -> u8, int),
    t6: (Registers, spec_fn(u16) -> u8, int),
    t7: (Registers, spec_fn(u16) -> u8, int),
    t8: (Registers, spec_fn(u16) -> u8, int),
)
    requires
        t1 == psh_word((reg, m0, 0int), true, mask & 0x80 != 0, reg.pc),
        t2 == psh_word(t1, true, mask & 0x40 != 0, reg.u),
        t3 == psh_word(t2, true, mask & 0x20 != 0, reg.y),
        t4 == psh_word(t3, true, mask & 0x10 != 0, reg.x),
        t5 == psh_byte(t4, true, mask & 0x08 != 0, reg.dp),
        t6 == psh_byte(t5, true, mask & 0x04 != 0, reg.spec_b()),
        t7 == psh_byte(t6, true, mask & 0x02 != 0, reg.spec_a()),
        t8 == psh_byte(t7, true, mask & 0x01 != 0, reg.cc.as_byte()),
    ensures
        mask & 0x04 != 0 ==> (t8.1)(t6.0.s) == reg.spec_b(),
{
    let s0 = reg.s;
    let o1 = psh_off_pc(mask);
    let o2 = psh_off_other(mask);
    let o3 = psh_off_y(mask);
    let o4 = psh_off_x(mask);
    let o5 = psh_off_dp(mask);
    let o6 = psh_off_b(mask);
    let o7 = psh_off_a(mask);
    let o8 = psh_off_cc(mask);
    lemma_psh_chain_ptrs(reg, m0, mask, t1, t2, t3, t4, t5, t6, t7, t8);
    assert(mask & 0x04 != 0 ==> (t8.1)(t6.0.s) == reg.spec_b()) by {
        if mask & 0x04 != 0 {
            lemma_wsub_neq(s0, o6, (o6 + 1) as u16);
            lemma_wsub_neq(s0, o6, (o7 + 1) as u16);
        }
    }
}

/// A pushed DP byte sits where its stage left the pointer.
#[verifier::rlimit(100)]
#[verifier::spinoff_prover]
proof fn lemma_psh_dp_lookup(
    reg: Registers,
    m0: spec_fn(u16) -> u8,
    mask: u8,
    t1: (Registers, spec_fn(u16) -> u8, int),
    t2: (Registers, spec_fn(u16) -> u8, int),
    t3: (Registers, spec_fn(u16) -> u8, int),
    t4: (Registers, spec_fn(u16) -> u8, int),
    t5: (Registers, spec_fn(u16) -> u8, int),
    t6: (Registers, spec_fn(u16) -> u8, int),
    t7: (Registers, spec_fn(u16) -> u8, int),
    t8: (Registers, spec_fn(u16) -> u8, int),
)
    requires
        t1 == psh_word((reg, m0, 0int), true, mask & 0x80 != 0, reg.pc),
        t2 == psh_word(t1, true, mask & 0x40 != 0, reg.u),
        t3 == psh_word(t2, true, mask & 0x20 != 0, reg.y),
        t4 == psh_word(t3, true, mask & 0x10 != 0, reg.x),
        t5 == psh_byte(t4, true, mask & 0x08 != 0, reg.dp),
        t6 == psh_byte(t5, true, mask & 0x04 != 0, reg.spec_b()),
        t7 == psh_byte(t6, true, mask & 0x02 != 0, reg.spec_a()),
        t8 == psh_byte(t7, true, mask & 0x01 != 0, reg.cc.as_byte()),
    ensures
        mask & 0x08 != 0 ==> (t8.1)(t5.0.s) == reg.dp,
{
    let s0 = reg.s;
    let o1 = psh_off_pc(mask);
    let o2 = psh_off_other(mask);
    let o3 = psh_off_y(mask);
    let o4 = psh_off_x(mask);
    let o5 = psh_off_dp(mask);
    let o6 = psh_off_b(mask);
    let o7 = psh_off_a(mask);
    let o8 = psh_off_cc(mask);
    lemma_psh_chain_ptrs(reg, m0, mask, t1, t2, t3, t4, t5, t6, t7, t8);
    assert(mask & 0x08 != 0 ==> (t8.1)(t5.0.s) == reg.dp) by {
        if mask & 0x08 != 0 {
            lemma_wsub_neq(s0, o5, (o5 + 1) as u16);
            lemma_wsub_neq(s0, o5, (o6 + 1) as u16);
            lemma_wsub_neq(s0, o5, (o7 + 1) as u16);
        }
    }
}

/// A pushed X sits, big-endian, where its stage left the pointer.
#[verifier::rlimit(100)]
#[verifier::spinoff_prover]
proof fn lemma_psh_x_lookup(
    reg: Registers,
    m0: spec_fn(u16) -> u8,
    mask: u8,
    t1: (Registers, spec_fn(u16) -> u8, int),
    t2: (Registers, spec_fn(u16) -> u8, int),
    t3: (Registers, spec_fn(u16) -> u8, int),
    t4: (Registers, spec_fn(u16) -> u8, int),
    t5: (Registers, spec_fn(u16) -> u8, int),
    t6: (Registers, spec_fn(u16) -> u8, int),
    t7: (Registers, spec_fn(u16) -> u8, int),
    t8: (Registers, spec_fn(u16) -> u8, int),
)
    requires
        t1 == psh_word((reg, m0, 0int), true, mask & 0x80 != 0, reg.pc),
        t2 == psh_word(t1, true, mask & 0x40 != 0, reg.u),
        t3 == psh_word(t2, true, mask & 0x20 != 0, reg.y),
        t4 == psh_word(t3, true, mask & 0x10 != 0, reg.x),
        t5 == psh_byte(t4, true, mask & 0x08 != 0, reg.dp),
        t6 == psh_byte(t5, true, mask & 0x04 != 0, reg.spec_b()),
        t7 == psh_byte(t6, true, mask & 0x02 != 0, reg.spec_a()),
        t8 == psh_byte(t7, true, mask & 0x01 != 0, reg.cc.as_byte()),
    ensures
        mask & 0x10 != 0 ==> (t8.1)(t4.0.s) == hi8(reg.x) && (t8.1)(wadd(t4.0.s, 1)) == lo8(reg.x),
{
    let s0 = reg.s;
    let o1 = psh_off_pc(mask);
    let o2 = psh_off_other(mask);
    let o3 = psh_off_y(mask);
    let o4 = psh_off_x(mask);
    let o5 = psh_off_dp(mask);
    let o6 = psh_off_b(mask);
    let o7 = psh_off_a(mask);
    let o8 = psh_off_cc(mask);
    lemma_psh_chain_ptrs(reg, m0, mask, t1, t2, t3, t4, t5, t6, t7, t8);
    assert(mask & 0x10 != 0 ==> (t8.1)(t4.0.s) == hi8(reg.x) && (t8.1)(wadd(t4.0.s, 1)) == lo8(reg.x)) by {
        if mask & 0x10 != 0 {
            lemma_wadd_wsub(s0, o4, 1);
            lemma_wsub_neq(s0, o4, (o4 + 1) as u16);
            lemma_wsub_neq(s0, (o4 - 1) as u16, (o4 + 1) as u16);
            lemma_wsub_neq(s0, o4, (o5 + 1) as u16);
            lemma_wsub_neq(s0, (o4 - 1) as u16, (o5 + 1) as u16);
            lemma_wsub_neq(s0, o4, (o6 + 1) as u16);
            lemma_wsub_neq(s0, (o4 - 1) as u16, (o6 + 1) as u16);
            lemma_wsub_neq(s0, o4, (o7 + 1) as u16);
            lemma_wsub_neq(s0, (o4 - 1) as u16, (o7 + 1) as u16);
        }
    }
}

/// A pushed Y sits, big-endian, where its stage left the pointer.
#[verifier::rlimit(100)]
#[verifier::spinoff_prover]
proof fn lemma_psh_y_lookup(
    reg: Registers,
    m0: spec_fn(u16) -> u8,
    mask: u8,
    t1: (Registers, spec_fn(u16) -> u8, int),
    t2: (Registers, spec_fn(u16) -> u8, int),
    t3: (Registers, spec_fn(u16) -> u8, int),
    t4: (Registers, spec_fn(u16) -> u8, int),
    t5: (Registers, spec_fn(u16) -> u8, int),
    t6: (Registers, spec_fn(u16) -> u8, int),
    t7: (Registers, spec_fn(u16) -> u8, int),
    t8: (Registers, spec_fn(u16) -> u8, int),
)
    requires
        t1 == psh_word((reg, m0, 0int), true, mask & 0x80 != 0, reg.pc),
        t2 == psh_word(t1, true, mask & 0x40 != 0, reg.u),
        t3 == psh_word(t2, true, mask & 0x20 != 0, reg.y),
        t4 == psh_word(t3, true, mask & 0x10 != 0, reg.x),
        t5 == psh_byte(t4, true, mask & 0x08 != 0, reg.dp),
        t6 == psh_byte(t5, true, mask & 0x04 != 0, reg.spec_b()),
        t7 == psh_byte(t6, true, mask & 0x02 != 0, reg.spec_a()),
        t8 == psh_byte(t7, true, mask & 0x01 != 0, reg.cc.as_byte()),
    ensures
        mask & 0x20 != 0 ==> (t8.1)(t3.0.s) == hi8(reg.y) && (t8.1)(wadd(t3.0.s, 1)) == lo8(reg.y),
{
    let s0 = reg.s;
    let o1 = psh_off_pc(mask);
    let o2 = psh_off_other(mask);
    let o3 = psh_off_y(mask);
    let o4 = psh_off_x(mask);
    let o5 = psh_off_dp(mask);
    let o6 = psh_off_b(mask);
    let o7 = psh_off_a(mask);
    let o8 = psh_off_cc(mask);
    lemma_psh_chain_ptrs(reg, m0, mask, t1, t2, t3, t4, t5, t6, t7, t8);
    assert(mask & 0x20 != 0 ==> (t8.1)(t3.0.s) == hi8(reg.y) && (t8.1)(wadd(t3.0.s, 1)) == lo8(reg.y)) by {
        if mask & 0x20 != 0 {
            lemma_wadd_wsub(s0, o3, 1);
            lemma_wsub_neq(s0, o3, (o3 + 1) as u16);
            lemma_wsub_neq(s0, o3, (o3 + 2) as u16);
            lemma_wsub_neq(s0, o3, (o4 + 1) as u16);
            lemma_wsub_neq(s0, o3, (o5 + 1) as u16);
            lemma_wsub_neq(s0, o3, (o6 + 1) as u16);
            lemma_wsub_neq(s0, o3, (o7 + 1) as u16);
            lemma_wsub_neq(s0, (o3 - 1) as u16, (o3 + 2) as u16);
            lemma_wsub_neq(s0, (o3 - 1) as u16, (o4 + 1) as u16);
            lemma_wsub_neq(s0, (o3 - 1) as u16, (o5 + 1) as u16);
            lemma_wsub_neq(s0, (o3 - 1) as u16, (o6 + 1) as u16);
            lemma_wsub_neq(s0, (o3 - 1) as u16, (o7 + 1) as u16);
        }
    }
}

/// A pushed U sits, big-endian, where its stage left the pointer.
#[verifier::rlimit(100)]
#[verifier::spinoff_prover]
proof fn lemma_psh_u_lookup(
    reg: Registers,
    m0: spec_fn(u16) -> u8,
    mask: u8,
    t1: (Registers, spec_fn(u16) -> u8, int),
    t2: (Registers, spec_fn(u16) -> u8, int),
    t3: (Registers, spec_fn(u16) -> u8, int),
    t4: (Registers, spec_fn(u16) -> u8, int),
    t5: (Registers, spec_fn(u16) -> u8, int),
    t6: (Registers, spec_fn(u16) -> u8, int),
    t7: (Registers, spec_fn(u16) -> u8, int),
    t8: (Registers, spec_fn(u16) -> u8, int),
)
    requires
        t1 == psh_word((reg, m0, 0int), true, mask & 0x80 != 0, reg.pc),
        t2 == psh_word(t1, true, mask & 0x40 != 0, reg.u),
        t3 == psh_word(t2, true, mask & 0x20 != 0, reg.y),
        t4 == psh_word(t3, true, mask & 0x10 != 0, reg.x),
        t5 == psh_byte(t4, true, mask & 0x08 != 0, reg.dp),
        t6 == psh_byte(t5, true, mask & 0x04 != 0, reg.spec_b()),
        t7 == psh_byte(t6, true, mask & 0x02 != 0, reg.spec_a()),
        t8 == psh_byte(t7, true, mask & 0x01 != 0, reg.cc.as_byte()),
    ensures
        mask & 0x40 != 0 ==> (t8.1)(t2.0.s) == hi8(reg.u) && (t8.1)(wadd(t2.0.s, 1)) == lo8(reg.u),
{
    let s0 = reg.s;
    let o1 = psh_off_pc(mask);
    let o2 = psh_off_other(mask);
    let o3 = psh_off_y(mask);
    let o4 = psh_off_x(mask);
    let o5 = psh_off_dp(mask);
    let o6 = psh_off_b(mask);
    let o7 = psh_off_a(mask);
    let o8 = psh_off_cc(mask);
    lemma_psh_chain_ptrs(reg, m0, mask, t1, t2, t3, t4, t5, t6, t7, t8);
    assert(mask & 0x40 != 0 ==> (t8.1)(t2.0.s) == hi8(reg.u) && (t8.1)(wadd(t2.0.s, 1)) == lo8(reg.u)) by {
        if mask & 0x40 != 0 {
            lemma_wadd_wsub(s0, o2, 1);
            lemma_wsub_neq(s0, o2, (o2 + 1) as u16);
            lemma_wsub_neq(s0, o2, (o2 + 2) as u16);
            lemma_wsub_neq(s0, o2, (o3 + 1) as u16);
            lemma_wsub_neq(s0, o2, (o3 + 2) as u16);
            lemma_wsub_neq(s0, o2, (o4 + 1) as u16);
            lemma_wsub_neq(s0, o2, (o5 + 1) as u16);
            lemma_wsub_neq(s0, o2, (o6 + 1) as u16);
            lemma_wsub_neq(s0, o2, (o7 + 1) as u16);
            lemma_wsub_neq(s0, (o2 - 1) as u16, (o2 + 2) as u16);
            lemma_wsub_neq(s0, (o2 - 1) as u16, (o3 + 1) as u16);
            lemma_wsub_neq(s0, (o2 - 1) as u16, (o3 + 2) as u16);
            lemma_wsub_neq(s0, (o2 - 1) as u16, (o4 + 1) as u16);
            lemma_wsub_neq(s0, (o2 - 1) as u16, (o5 + 1) as u16);
            lemma_wsub_neq(s0, (o2 - 1) as u16, (o6 + 1) as u16);
            lemma_wsub_neq(s0, (o2 - 1) as u16, (o7 + 1) as u16);
        }
    }
}

/// A pushed PC sits, big-endian, at the top of the frame.
#[verifier::rlimit(100)]
#[verifier::spinoff_prover]
proof fn lemma_psh_pc_lookup(
    reg: Registers,
    m0: spec_fn(u16) -> u8,
    mask: u8,
    t1: (Registers, spec_fn(u16) -> u8, int),
    t2: (Registers, spec_fn(u16) -> u8, int),
    t3: (Registers, spec_fn(u16) -> u8, int),
    t4: (Registers, spec_fn(u16) -> u8, int),
    t5: (Registers, spec_fn(u16) -> u8, int),
    t6: (Registers, spec_fn(u16) -> u8, int),
    t7: (Registers, spec_fn(u16) -> u8, int),
    t8: (Registers, spec_fn(u16) -> u8, int),
)
    requires
        t1 == psh_word((reg, m0, 0int), true, mask & 0x80 != 0, reg.pc),
        t2 == psh_word(t1, true, mask & 0x40 != 0, reg.u),
        t3 == psh_word(t2, true, mask & 0x20 != 0, reg.y),
        t4 == psh_word(t3, true, mask & 0x10 != 0, reg.x),
        t5 == psh_byte(t4, true, mask & 0x08 != 0, reg.dp),
        t6 == psh_byte(t5, true, mask & 0x04 != 0, reg.spec_b()),
        t7 == psh_byte(t6, true, mask & 0x02 != 0, reg.spec_a()),
        t8 == psh_byte(t7, true, mask & 0x01 != 0, reg.cc.as_byte()),
    ensures
        mask & 0x80 != 0 ==> (t8.1)(t1.0.s) == hi8(reg.pc) && (t8.1)(wadd(t1.0.s, 1)) == lo8(reg.pc),
{
    let s0 = reg.s;
    let o1 = psh_off_pc(mask);
    let o2 = psh_off_other(mask);
    let o3 = psh_off_y(mask);
    let o4 = psh_off_x(mask);
    let o5 = psh_off_dp(mask);
    let o6 = psh_off_b(mask);
    let o7 = psh_off_a(mask);
    let o8 = psh_off_cc(mask);
    lemma_psh_chain_ptrs(reg, m0, mask, t1, t2, t3, t4, t5, t6, t7, t8);
    assert(mask & 0x80 != 0 ==> (t8.1)(t1.0.s) == hi8(reg.pc) && (t8.1)(wadd(t1.0.s, 1)) == lo8(reg.pc)) by {
        if mask & 0x80 != 0 {
            lemma_wadd_wsub(s0, o1, 1);
            lemma_wsub_neq(s0, o1, (o1 + 1) as u16);
            lemma_wsub_neq(s0, o1, (o1 + 2) as u16);
            lemma_wsub_neq(s0, o1, (o2 + 1) as u16);
            lemma_wsub_neq(s0, o1, (o2 + 2) as u16);
            lemma_wsub_neq(s0, o1, (o3 + 1) as u16);
            lemma_wsub_neq(s0, o1, (o3 + 2) as u16);
            lemma_wsub_neq(s0, o1, (o4 + 1) as u16);
            lemma_wsub_neq(s0, o1, (o5 + 1) as u16);
            lemma_wsub_neq(s0, o1, (o6 + 1) as u16);
            lemma_wsub_neq(s0, o1, (o7 + 1) as u16);
            lemma_wsub_neq(s0, (o1 - 1) as u16, (o1 + 2) as u16);
            lemma_wsub_neq(s0, (o1 - 1) as u16, (o2 + 1) as u16);
            lemma_wsub_neq(s0, (o1 - 1) as u16, (o2 + 2) as u16);
            lemma_wsub_neq(s0, (o1 - 1) as u16, (o3 + 1) as u16);
            lemma_wsub_neq(s0, (o1 - 1) as u16, (o3 + 2) as u16);
            lemma_wsub_neq(s0, (o1 - 1) as u16, (o4 + 1) as u16);
            lemma_wsub_neq(s0, (o1 - 1) as u16, (o5 + 1) as u16);
            lemma_wsub_neq(s0, (o1 - 1) as u16, (o6 + 1) as u16);
            lemma_wsub_neq(s0, (o1 - 1) as u16, (o7 + 1) as u16);
        }
    }
}

/// Pushing registers with a bitmask and then pulling with the same bitmask
/// restores every selected register to its pre-push value and returns the
/// stack pointer to where it started: what PSHS writes, a matching PULS
/// reads back, whatever the rest of memory holds.
#[verifier::rlimit(100)]
#[verifier::spinoff_prover]
pub proof fn lemma_push_pull_round_trip(reg: Registers, m0: spec_fn(u16) -> u8, mask: u8)
    ensures
        ({
            let st = psh_bundle(reg, m0, true, reg.u, mask);
            let pulled = pul_bundle(st.0, st.1, true, mask);
            &&& pulled.0.s == reg.s
            &&& (mask & 0x01 != 0 ==> pulled.0.cc == reg.cc)
            &&& (mask & 0x02 != 0 ==> pulled.0.spec_a() == reg.spec_a())
            &&& (mask & 0x04 != 0 ==> pulled.0.spec_b() == reg.spec_b())
            &&& (mask & 0x08 != 0 ==> pulled.0.dp == reg.dp)
            &&& (mask & 0x10 != 0 ==> pulled.0.x == reg.x)
            &&& (mask & 0x20 != 0 ==> pulled.0.y == reg.y)
            &&& (mask & 0x40 != 0 ==> pulled.0.u == reg.u)
            &&& (mask & 0x80 != 0 ==> pulled.0.pc == reg.pc)
        }),
{
    let s0 = reg.s;
    let t1 = psh_word((reg, m0, 0int), true, mask & 0x80 != 0, reg.pc);
    let t2 = psh_word(t1, true, mask & 0x40 != 0, reg.u);
    let t3 = psh_word(t2, true, mask & 0x20 != 0, reg.y);
    let t4 = psh_word(t3, true, mask & 0x10 != 0, reg.x);
    let t5 = psh_byte(t4, true, mask & 0x08 != 0, reg.dp);
    let t6 = psh_byte(t5, true, mask & 0x04 != 0, reg.spec_b());
    let t7 = psh_byte(t6, true, mask & 0x02 != 0, reg.spec_a());
    let t8 = psh_byte(t7, true, mask & 0x01 != 0, reg.cc.as_byte());
    assert(psh_bundle(reg, m0, true, reg.u, mask) == t8);
    let o1 = psh_off_pc(mask);
    let o2 = psh_off_other(mask);
    let o3 = psh_off_y(mask);
    let o4 = psh_off_x(mask);
    let o5 = psh_off_dp(mask);
    let o6 = psh_off_b(mask);
    let o7 = psh_off_a(mask);
    let o8 = psh_off_cc(mask);
    lemma_psh_chain_ptrs(reg, m0, mask, t1, t2, t3, t4, t5, t6, t7, t8);
    lemma_psh_cc_lookup(reg, m0, mask, t1, t2, t3, t4, t5, t6, t7, t8);
    lemma_psh_a_lookup(reg, m0, mask, t1, t2, t3, t4, t5, t6, t7, t8);
    lemma_psh_b_lookup(reg, m0, mask, t1, t2, t3, t4, t5, t6, t7, t8);
    lemma_psh_dp_lookup(reg, m0, mask, t1, t2, t3, t4, t5, t6, t7, t8);
    lemma_psh_x_lookup(reg, m0, mask, t1, t2, t3, t4, t5, t6, t7, t8);
    lemma_psh_y_lookup(reg, m0, mask, t1, t2, t3, t4, t5, t6, t7, t8);
    lemma_psh_u_lookup(reg, m0, mask, t1, t2, t3, t4, t5, t6, t7, t8);
    lemma_psh_pc_lookup(reg, m0, mask, t1, t2, t3, t4, t5, t6, t7, t8);

    // Pulling the CC slot ends where the A slot was pushed, and so on: each
    // pull stage reads the byte its push stage wrote and steps back to that
    // stage's starting pointer.
    let p1 = pul_cc((t8.0, 0int), t8.1, true, mask & 0x01 != 0);
    assert(p1.0.s == t7.0.s && (mask & 0x01 != 0 ==> p1.0.cc == reg.cc) && p1.0.d == t8.0.d
        && p1.0.dp == t8.0.dp && p1.0.x == t8.0.x && p1.0.y == t8.0.y && p1.0.u == t8.0.u
        && p1.0.pc == t8.0.pc && (mask & 0x01 == 0 ==> p1.0.cc == t8.0.cc)) by {
        if mask & 0x01 != 0 {
            lemma_cc_round_trip(reg.cc);
            lemma_wadd_wsub(s0, o8, 1);
        }
    }
    let p2 = pul_a(p1, t8.1, true, mask & 0x02 != 0);
    assert(p2.0.s == t6.0.s && (mask & 0x02 != 0 ==> p2.0.spec_a() == reg.spec_a())
        && p2.0.spec_b() == p1.0.spec_b() && p2.0.cc == p1.0.cc && p2.0.dp == p1.0.dp && p2.0.x
        == p1.0.x && p2.0.y == p1.0.y && p2.0.u == p1.0.u && p2.0.pc == p1.0.pc && (mask & 0x02
        == 0 ==> p2.0.d == p1.0.d)) by {
        if mask & 0x02 != 0 {
            lemma_with_a(p1.0, reg.spec_a());
            lemma_wadd_wsub(s0, o7, 1);
        }
    }
    let p3 = pul_b(p2, t8.1, true, mask & 0x04 != 0);
    assert(p3.0.s == t5.0.s && (mask & 0x04 != 0 ==> p3.0.spec_b() == reg.spec_b())
        && p3.0.spec_a() == p2.0.spec_a() && p3.0.cc == p2.0.cc && p3.0.dp == p2.0.dp && p3.0.x
        == p2.0.x && p3.0.y == p2.0.y && p3.0.u == p2.0.u && p3.0.pc == p2.0.pc && (mask & 0x04
        == 0 ==> p3.0.d == p2.0.d)) by {
        if mask & 0x04 != 0 {
            lemma_with_b(p2.0, reg.spec_b());
            lemma_wadd_wsub(s0, o6, 1);
        }
    }
    let p4 = pul_dp(p3, t8.1, true, mask & 0x08 != 0);
    assert(p4.0.s == t4.0.s && (mask & 0x08 != 0 ==> p4.0.dp == reg.dp) && p4.0.d == p3.0.d
        && p4.0.cc == p3.0.cc && p4.0.x == p3.0.x && p4.0.y == p3.0.y && p4.0.u == p3.0.u
        && p4.0.pc == p3.0.pc && (mask & 0x08 == 0 ==> p4.0.dp == p3.0.dp)) by {
        if mask & 0x08 != 0 {
            lemma_wadd_wsub(s0, o5, 1);
        }
    }
    let p5 = pul_x(p4, t8.1, true, mask & 0x10 != 0);
    assert(p5.0.s == t3.0.s && (mask & 0x10 != 0 ==> p5.0.x == reg.x) && p5.0.d == p4.0.d
        && p5.0.cc == p4.0.cc && p5.0.dp == p4.0.dp && p5.0.y == p4.0.y && p5.0.u == p4.0.u
        && p5.0.pc == p4.0.pc && (mask & 0x10 == 0 ==> p5.0.x == p4.0.x)) by {
        if mask & 0x10 != 0 {
            lemma_word_split(reg.x);
            lemma_wadd_wsub(s0, o4, 1);
            lemma_wadd_wsub(s0, o4, 2);
        }
    }
    let p6 = pul_y(p5, t8.1, true, mask & 0x20 != 0);
    assert(p6.0.s == t2.0.s && (mask & 0x20 != 0 ==> p6.0.y == reg.y) && p6.0.d == p5.0.d
        && p6.0.cc == p5.0.cc && p6.0.dp == p5.0.dp && p6.0.x == p5.0.x && p6.0.u == p5.0.u
        && p6.0.pc == p5.0.pc && (mask & 0x20 == 0 ==> p6.0.y == p5.0.y)) by {
        if mask & 0x20 != 0 {
            lemma_word_split(reg.y);
            lemma_wadd_wsub(s0, o3, 1);
            lemma_wadd_wsub(s0, o3, 2);
        }
    }
    let p7 = pul_other(p6, t8.1, true, mask & 0x40 != 0);
    assert(p7.0.s == t1.0.s && (mask & 0x40 != 0 ==> p7.0.u == reg.u) && p7.0.d == p6.0.d
        && p7.0.cc == p6.0.cc && p7.0.dp == p6.0.dp && p7.0.x == p6.0.x && p7.0.y == p6.0.y
        && p7.0.pc == p6.0.pc && (mask & 0x40 == 0 ==> p7.0.u == p6.0.u)) by {
        if mask & 0x40 != 0 {
            lemma_word_split(reg.u);
            lemma_wadd_wsub(s0, o2, 1);
            lemma_wadd_wsub(s0, o2, 2);
        }
    }
    let p8 = pul_pc(p7, t8.1, true, mask & 0x80 != 0);
    assert(p8.0.s == reg.s && (mask & 0x80 != 0 ==> p8.0.pc == reg.pc) && p8.0.d == p7.0.d
        && p8.0.cc == p7.0.cc && p8.0.dp == p7.0.dp && p8.0.x == p7.0.x && p8.0.y == p7.0.y
        && p8.0.u == p7.0.u && (mask & 0x80 == 0 ==> p8.0.pc == p7.0.pc)) by {
        if mask & 0x80 != 0 {
            lemma_word_split(reg.pc);
            lemma_wadd_wsub(s0, o1, 1);
            lemma_wadd_wsub(s0, o1, 2);
        }
    }
    assert(pul_bundle(t8.0, t8.1, true, mask).0 == (Registers { s: p8.0.s, ..p8.0 }));}

/// An NMI can never be serviced before the first write to S: while the NMI
/// input is unarmed, no NMI is pending, and interrupt dispatch takes an NMI
/// only when one is pending.
pub proof fn lemma_nmi_needs_arming(cpu: Cpu)
    requires
        cpu.wf(),
        !cpu.nmi_armed,
    ensures
        !cpu.nmi_pending,
{
}

/// A and B are exactly the high and low halves of D, and writing one half
/// preserves the other.
pub proof fn lemma_d_halves(r: Registers, v: u8)
    ensures
        r.spec_a() == ((r.d >> 8) & 0xFF) as u8,
        r.spec_b() == (r.d & 0xFF) as u8,
        r.with_a(v).spec_a() == v && r.with_a(v).spec_b() == r.spec_b(),
        r.with_b(v).spec_b() == v && r.with_b(v).spec_a() == r.spec_a(),
{
    lemma_with_a(r, v);
    lemma_with_b(r, v);
    let d = r.d;
    assert((d >> 8) as u8 == ((d >> 8) & 0xFF) as u8 && d as u8 == (d & 0xFF) as u8)
        by (bit_vector);
}

} // verus!

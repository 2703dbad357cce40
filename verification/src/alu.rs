//! The SM83 arithmetic/logic unit at the value level: each operation as
//! a pure function from operand bytes and flags to result byte and
//! flags.  The cycle-level instruction code applies these to values read
//! over the bus.

use vstd::prelude::*;

use crate::regs::Flags;

verus! {

/// The weight of bit `k` of a byte.
pub open spec fn pow2_8(k: int) -> int {
    if k == 0 {
        1
    } else if k == 1 {
        2
    } else if k == 2 {
        4
    } else if k == 3 {
        8
    } else if k == 4 {
        16
    } else if k == 5 {
        32
    } else if k == 6 {
        64
    } else {
        128
    }
}

pub fn pow2_8_exec(k: u8) -> (r: u8)
    requires
        k < 8,
    ensures
        r as int == pow2_8(k as int),
{
    if k == 0 {
        1
    } else if k == 1 {
        2
    } else if k == 2 {
        4
    } else if k == 3 {
        8
    } else if k == 4 {
        16
    } else if k == 5 {
        32
    } else if k == 6 {
        64
    } else {
        128
    }
}

/// `ADD A, v`: sum modulo 256; `H` carries out of bit 3, `C` out of bit 7.
pub open spec fn add_spec(a: int, v: int) -> (int, Flags) {
    let r = (a + v) % 256;
    (r, Flags { z: r == 0, n: false, h: a % 16 + v % 16 > 15, c: a + v > 255 })
}

/// `ADC A, v`: sum with the carry flag added in.
pub open spec fn adc_spec(a: int, v: int, cin: bool) -> (int, Flags) {
    let ci: int = if cin {
        1
    } else {
        0
    };
    let r = (a + v + ci) % 256;
    (r, Flags { z: r == 0, n: false, h: a % 16 + v % 16 + ci > 15, c: a + v + ci > 255 })
}

/// `SUB A, v`: difference modulo 256; `H` borrows from bit 4, `C` from bit 8.
pub open spec fn sub_spec(a: int, v: int) -> (int, Flags) {
    let r = (a - v) % 256;
    let r = if r < 0 {
        r + 256
    } else {
        r
    };
    (r, Flags { z: r == 0, n: true, h: v % 16 > a % 16, c: v > a })
}

/// `SBC A, v`: difference with the carry flag borrowed in.
pub open spec fn sbc_spec(a: int, v: int, cin: bool) -> (int, Flags) {
    let ci: int = if cin {
        1
    } else {
        0
    };
    let d = a - v - ci;
    let r = if d < 0 {
        d + 256
    } else {
        d
    };
    (r, Flags { z: r == 0, n: true, h: v % 16 + ci > a % 16, c: v + ci > a })
}

/// `AND A, v`; the half-carry flag is always set.
pub open spec fn and_flags(r: int) -> Flags {
    Flags { z: r == 0, n: false, h: true, c: false }
}

/// `XOR A, v` / `OR A, v` flag pattern.
pub open spec fn logic_flags(r: int) -> Flags {
    Flags { z: r == 0, n: false, h: false, c: false }
}

/// `INC r`: increment modulo 256; carry untouched.
pub open spec fn inc_spec(v: int, fl: Flags) -> (int, Flags) {
    let r = (v + 1) % 256;
    (r, Flags { z: r == 0, n: false, h: v % 16 == 15, c: fl.c })
}

/// `DEC r`: decrement modulo 256; carry untouched.
pub open spec fn dec_spec(v: int, fl: Flags) -> (int, Flags) {
    let r = if v == 0 {
        255int
    } else {
        v - 1
    };
    (r, Flags { z: r == 0, n: true, h: v % 16 == 0, c: fl.c })
}

/// `RLC`: rotate left; the old bit 7 enters bit 0 and the carry.
pub open spec fn rlc_spec(v: int) -> (int, Flags) {
    let r = v * 2 % 256 + v / 128;
    (r, Flags { z: r == 0, n: false, h: false, c: v >= 128 })
}

/// `RRC`: rotate right; the old bit 0 enters bit 7 and the carry.
pub open spec fn rrc_spec(v: int) -> (int, Flags) {
    let r = v / 2 + v % 2 * 128;
    (r, Flags { z: r == 0, n: false, h: false, c: v % 2 == 1 })
}

/// `RL`: rotate left through the carry flag.
pub open spec fn rl_spec(v: int, cin: bool) -> (int, Flags) {
    let r = v * 2 % 256 + (if cin {
        1int
    } else {
        0
    });
    (r, Flags { z: r == 0, n: false, h: false, c: v >= 128 })
}

/// `RR`: rotate right through the carry flag.
pub open spec fn rr_spec(v: int, cin: bool) -> (int, Flags) {
    let r = v / 2 + (if cin {
        128int
    } else {
        0
    });
    (r, Flags { z: r == 0, n: false, h: false, c: v % 2 == 1 })
}

/// `SLA`: shift left, bit 7 into the carry.
pub open spec fn sla_spec(v: int) -> (int, Flags) {
    let r = v * 2 % 256;
    (r, Flags { z: r == 0, n: false, h: false, c: v >= 128 })
}

/// `SRA`: arithmetic shift right, bit 7 kept.
pub open spec fn sra_spec(v: int) -> (int, Flags) {
    let r = v / 2 + v / 128 * 128;
    (r, Flags { z: r == 0, n: false, h: false, c: v % 2 == 1 })
}

/// `SWAP`: exchange the nibbles.
pub open spec fn swap_spec(v: int) -> (int, Flags) {
    let r = v % 16 * 16 + v / 16;
    (r, Flags { z: r == 0, n: false, h: false, c: false })
}

/// `SRL`: logical shift right.
pub open spec fn srl_spec(v: int) -> (int, Flags) {
    let r = v / 2;
    (r, Flags { z: r == 0, n: false, h: false, c: v % 2 == 1 })
}

/// Whether bit `b3` of `v` is set.
pub open spec fn bit_set_spec(v: int, b3: int) -> bool {
    v / pow2_8(b3) % 2 == 1
}

/// `BIT b3, r`: `Z` is set exactly when the tested bit is clear.
pub open spec fn bit_flags_spec(v: int, b3: int, fl: Flags) -> Flags {
    Flags { z: !bit_set_spec(v, b3), n: false, h: true, c: fl.c }
}

/// `SET b3, r`: the value with bit `b3` set.
pub open spec fn set_spec(v: int, b3: int) -> int {
    if bit_set_spec(v, b3) {
        v
    } else {
        v + pow2_8(b3)
    }
}

/// `RES b3, r`: the value with bit `b3` cleared.
pub open spec fn res_spec(v: int, b3: int) -> int {
    if bit_set_spec(v, b3) {
        v - pow2_8(b3)
    } else {
        v
    }
}

/// `DAA`: decimal adjustment of the accumulator after a BCD add or
/// subtract.
pub open spec fn daa_spec(a: int, fl: Flags) -> (int, Flags) {
    let r = if fl.n {
        let adj = (if fl.h {
            6int
        } else {
            0
        }) + (if fl.c {
            0x60int
        } else {
            0
        });
        let d = a - adj;
        (if d < 0 {
            d + 256
        } else {
            d
        }, fl.c)
    } else {
        let adj = (if fl.h || a % 16 > 9 {
            6int
        } else {
            0
        }) + (if fl.c || a > 0x99 {
            0x60int
        } else {
            0
        });
        ((a + adj) % 256, fl.c || a > 0x99)
    };
    (r.0, Flags { z: r.0 == 0, n: fl.n, h: false, c: r.1 })
}

/// `ADD HL, v16`: 16-bit sum; `H` carries out of bit 11, `Z` untouched.
pub open spec fn add16_spec(hl: int, v: int, fl: Flags) -> (int, Flags) {
    let r = (hl + v) % 0x10000;
    (r, Flags { z: fl.z, n: false, h: hl % 0x1000 + v % 0x1000 > 0xFFF, c: hl + v > 0xFFFF })
}

/// The signed value of an offset byte.
pub open spec fn signed8(v: int) -> int {
    if v < 128 {
        v
    } else {
        v - 256
    }
}

/// `ADD SP, e8` and `LD HL, SP + e8`: the 16-bit sum with a signed
/// offset; the flags come from the unsigned byte adds of the low byte.
pub open spec fn addsp_spec(sp: int, v: int) -> (int, Flags) {
    let r = (sp + signed8(v)) % 0x10000;
    let r = if r < 0 {
        r + 0x10000
    } else {
        r
    };
    (
        r,
        Flags { z: false, n: false, h: sp % 16 + v % 16 > 15, c: sp % 256 + v % 256 > 255 },
    )
}

/// Setting a bit and then testing it always finds it set: after
/// `set(b3, r8); bit(b3, r8)` the `Z` flag is clear.
pub proof fn lemma_set_then_bit(v: u8, b3: u8, fl: Flags)
    requires
        b3 < 8,
    ensures
        !bit_flags_spec(set_spec(v as int, b3 as int), b3 as int, fl).z,
        0 <= set_spec(v as int, b3 as int) < 256,
{
    let p = pow2_8(b3 as int);
    let x = v as int;
    if !bit_set_spec(x, b3 as int) {
        assert(x / p % 2 == 0);
        assert((x + p) / p == x / p + 1) by {
            vstd::arithmetic::div_mod::lemma_div_plus_one(x, p);
            assert(1 + x / p == (p + x) / p);
            assert(x + p == p + x);
        }
        assert((x / p + 1) % 2 == 1);
        lemma_even_quot_bound(x, p, b3 as int);
    }
}

/// Clearing a bit and then testing it always finds it clear: after
/// `res(b3, r8); bit(b3, r8)` the `Z` flag is set.
pub proof fn lemma_res_then_bit(v: u8, b3: u8, fl: Flags)
    requires
        b3 < 8,
    ensures
        bit_flags_spec(res_spec(v as int, b3 as int), b3 as int, fl).z,
        0 <= res_spec(v as int, b3 as int) < 256,
{
    let p = pow2_8(b3 as int);
    let x = v as int;
    if bit_set_spec(x, b3 as int) {
        assert(x / p % 2 == 1);
        assert(x >= p) by {
            vstd::arithmetic::div_mod::lemma_fundamental_div_mod(x, p);
            assert(x == p * (x / p) + x % p);
            assert(x / p >= 1) by {
                if x / p <= 0 {
                    vstd::arithmetic::div_mod::lemma_div_pos_is_pos(x, p);
                }
            }
            assert(p * (x / p) >= p) by (nonlinear_arith)
                requires
                    x / p >= 1,
                    p >= 1,
            ;
            assert(x % p >= 0) by {
                vstd::arithmetic::div_mod::lemma_mod_bound(x, p);
            }
        }
        assert((x - p) / p == x / p - 1) by {
            vstd::arithmetic::div_mod::lemma_div_minus_one(x, p);
        }
        assert((x / p - 1) % 2 == 0);
    }
}

proof fn lemma_even_quot_bound(x: int, p: int, b3: int)
    requires
        0 <= x < 256,
        0 <= b3 < 8,
        p == pow2_8(b3),
        x / p % 2 == 0,
    ensures
        x + p < 256,
{
    vstd::arithmetic::div_mod::lemma_fundamental_div_mod(x, p);
    vstd::arithmetic::div_mod::lemma_mod_bound(x, p);
    assert(x == p * (x / p) + x % p);
    assert(0 <= x % p < p);
    let q = x / p;
    assert(q % 2 == 0);
    assert(q >= 0) by {
        if q < 0 {
            vstd::arithmetic::div_mod::lemma_div_pos_is_pos(x, p);
        }
    }
    let cap = 256int / p;
    assert(p * cap == 256);
    assert(q < cap) by {
        if q >= cap {
            assert(p * q >= p * cap) by (nonlinear_arith)
                requires
                    q >= cap,
                    p >= 1,
            ;
            assert(p * q <= x);
        }
    }
    assert(q <= cap - 2);
    assert(p * q <= p * (cap - 2)) by (nonlinear_arith)
        requires
            q <= cap - 2,
            p >= 1,
    ;
    assert(x < p * q + p);
    assert(p * (cap - 2) == p * cap - 2 * p) by (nonlinear_arith);
    assert(x + p < 256);
}

} // verus!

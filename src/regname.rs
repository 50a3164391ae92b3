//! Names of the general-purpose registers: the calling-convention (ABI)
//! names, the frame-pointer alias `fp`, the raw names `x0` to `x31`, and `pc`.
use vstd::prelude::*;

verus! {

/// ASCII `0`, `9` and `x`.
pub const DIGIT_ZERO: u8 = 48;
pub const DIGIT_NINE: u8 = 57;
pub const LETTER_X: u8 = 120;

/// A register that a name can denote.
#[derive(Clone, Copy, Debug, PartialEq, Eq, Structural)]
pub enum Register {
    Gpr(usize),
    Pc,
}

/// The error of a lookup by a name that denotes no register.
#[derive(Clone, Copy, Debug, PartialEq, Eq, Structural)]
pub struct UnknownRegister;

/// The ABI name of register `i`.
pub open spec fn abi_name(i: int) -> Seq<u8> {
    if i == 0 {
        seq![122u8, 101u8, 114u8, 111u8]  // "zero"
    } else if i == 1 {
        seq![114u8, 97u8]  // "ra"
    } else if i == 2 {
        seq![115u8, 112u8]  // "sp"
    } else if i == 3 {
        seq![103u8, 112u8]  // "gp"
    } else if i == 4 {
        seq![116u8, 112u8]  // "tp"
    } else if i == 5 {
        seq![116u8, 48u8]  // "t0"
    } else if i == 6 {
        seq![116u8, 49u8]  // "t1"
    } else if i == 7 {
        seq![116u8, 50u8]  // "t2"
    } else if i == 8 {
        seq![115u8, 48u8]  // "s0"
    } else if i == 9 {
        seq![115u8, 49u8]  // "s1"
    } else if i == 10 {
        seq![97u8, 48u8]  // "a0"
    } else if i == 11 {
        seq![97u8, 49u8]  // "a1"
    } else if i == 12 {
        seq![97u8, 50u8]  // "a2"
    } else if i == 13 {
        seq![97u8, 51u8]  // "a3"
    } else if i == 14 {
        seq![97u8, 52u8]  // "a4"
    } else if i == 15 {
        seq![97u8, 53u8]  // "a5"
    } else if i == 16 {
        seq![97u8, 54u8]  // "a6"
    } else if i == 17 {
        seq![97u8, 55u8]  // "a7"
    } else if i == 18 {
        seq![115u8, 50u8]  // "s2"
    } else if i == 19 {
        seq![115u8, 51u8]  // "s3"
    } else if i == 20 {
        seq![115u8, 52u8]  // "s4"
    } else if i == 21 {
        seq![115u8, 53u8]  // "s5"
    } else if i == 22 {
        seq![115u8, 54u8]  // "s6"
    } else if i == 23 {
        seq![115u8, 55u8]  // "s7"
    } else if i == 24 {
        seq![115u8, 56u8]  // "s8"
    } else if i == 25 {
        seq![115u8, 57u8]  // "s9"
    } else if i == 26 {
        seq![115u8, 49u8, 48u8]  // "s10"
    } else if i == 27 {
        seq![115u8, 49u8, 49u8]  // "s11"
    } else if i == 28 {
        seq![116u8, 51u8]  // "t3"
    } else if i == 29 {
        seq![116u8, 52u8]  // "t4"
    } else if i == 30 {
        seq![116u8, 53u8]  // "t5"
    } else if i == 31 {
        seq![116u8, 54u8]  // "t6"
    } else {
        Seq::empty()
    }
}

/// The first register from `i` on whose ABI name is `name`.
pub open spec fn abi_index_from(name: Seq<u8>, i: int) -> Option<int>
    decreases 32 - i,
{
    if i >= 32 || i < 0 {
        None
    } else if name == abi_name(i) {
        Some(i)
    } else {
        abi_index_from(name, i + 1)
    }
}

/// A lookup by ABI name finds a register index below 32.
proof fn lemma_abi_index_in_range(name: Seq<u8>, i: int)
    ensures
        abi_index_from(name, i) matches Some(j) ==> 0 <= j < 32,
    decreases 32 - i,
{
    if 0 <= i < 32 {
        lemma_abi_index_in_range(name, i + 1);
    }
}

/// Every register that a name denotes exists.
pub proof fn lemma_parse_register_in_range(name: Seq<u8>)
    ensures
        spec_parse_register(name) matches Some(Register::Gpr(i)) ==> i < 32,
{
    lemma_abi_index_in_range(name, 0);
}

pub open spec fn is_digit(c: u8) -> bool {
    DIGIT_ZERO <= c <= DIGIT_NINE
}

pub open spec fn all_digits(s: Seq<u8>) -> bool {
    forall|i: int| 0 <= i < s.len() ==> is_digit(#[trigger] s[i])
}

/// The value of a string of decimal digits.
pub open spec fn decimal(s: Seq<u8>) -> nat
    decreases s.len(),
{
    if s.len() == 0 {
        0
    } else {
        decimal(s.drop_last()) * 10 + (s.last() - DIGIT_ZERO) as nat
    }
}

/// The register that `name` denotes, if any: an ABI name, `fp` for `s0`,
/// `pc`, or `x` followed by the decimal index of a register.
pub open spec fn spec_parse_register(name: Seq<u8>) -> Option<Register> {
    match abi_index_from(name, 0) {
        Some(i) => Some(Register::Gpr(i as usize)),
        None => if name == seq![112u8, 99u8] {  // "pc"
            Some(Register::Pc)
        } else if name == seq![102u8, 112u8] {  // "fp"
            Some(Register::Gpr(8))
        } else if name.len() >= 2 && name[0] == LETTER_X && all_digits(name.drop_first()) && decimal(
            name.drop_first(),
        ) <= 31 {
            Some(Register::Gpr(decimal(name.drop_first()) as usize))
        } else {
            None
        },
    }
}

fn abi_name_bytes(i: usize) -> (r: Vec<u8>)
    ensures
        r@ == abi_name(i as int),
{
    if i == 0 {
        vec![122u8, 101u8, 114u8, 111u8]  // "zero"
    } else if i == 1 {
        vec![114u8, 97u8]  // "ra"
    } else if i == 2 {
        vec![115u8, 112u8]  // "sp"
    } else if i == 3 {
        vec![103u8, 112u8]  // "gp"
    } else if i == 4 {
        vec![116u8, 112u8]  // "tp"
    } else if i == 5 {
        vec![116u8, 48u8]  // "t0"
    } else if i == 6 {
        vec![116u8, 49u8]  // "t1"
    } else if i == 7 {
        vec![116u8, 50u8]  // "t2"
    } else if i == 8 {
        vec![115u8, 48u8]  // "s0"
    } else if i == 9 {
        vec![115u8, 49u8]  // "s1"
    } else if i == 10 {
        vec![97u8, 48u8]  // "a0"
    } else if i == 11 {
        vec![97u8, 49u8]  // "a1"
    } else if i == 12 {
        vec![97u8, 50u8]  // "a2"
    } else if i == 13 {
        vec![97u8, 51u8]  // "a3"
    } else if i == 14 {
        vec![97u8, 52u8]  // "a4"
    } else if i == 15 {
        vec![97u8, 53u8]  // "a5"
    } else if i == 16 {
        vec![97u8, 54u8]  // "a6"
    } else if i == 17 {
        vec![97u8, 55u8]  // "a7"
    } else if i == 18 {
        vec![115u8, 50u8]  // "s2"
    } else if i == 19 {
        vec![115u8, 51u8]  // "s3"
    } else if i == 20 {
        vec![115u8, 52u8]  // "s4"
    } else if i == 21 {
        vec![115u8, 53u8]  // "s5"
    } else if i == 22 {
        vec![115u8, 54u8]  // "s6"
    } else if i == 23 {
        vec![115u8, 55u8]  // "s7"
    } else if i == 24 {
        vec![115u8, 56u8]  // "s8"
    } else if i == 25 {
        vec![115u8, 57u8]  // "s9"
    } else if i == 26 {
        vec![115u8, 49u8, 48u8]  // "s10"
    } else if i == 27 {
        vec![115u8, 49u8, 49u8]  // "s11"
    } else if i == 28 {
        vec![116u8, 51u8]  // "t3"
    } else if i == 29 {
        vec![116u8, 52u8]  // "t4"
    } else if i == 30 {
        vec![116u8, 53u8]  // "t5"
    } else if i == 31 {
        vec![116u8, 54u8]  // "t6"
    } else {
        Vec::new()
    }
}

fn bytes_equal(a: &[u8], b: &[u8]) -> (r: bool)
    ensures
        r == (a@ == b@),
{
    if a.len() != b.len() {
        return false;
    }
    let mut i: usize = 0;
    while i < a.len()
        invariant
            a@.len() == b@.len(),
            i <= a.len(),
            forall|j: int| 0 <= j < i ==> a@[j] == b@[j],
        decreases a.len() - i,
    {
        if a[i] != b[i] {
            return false;
        }
        i = i + 1;
    }
    assert(a@ =~= b@);
    true
}

/// The value of a non-empty string of decimal digits, or `None` when it holds
/// another byte or exceeds 31.
fn small_decimal(s: &[u8]) -> (r: Option<usize>)
    requires
        s@.len() >= 1,
    ensures
        r == (if all_digits(s@) && decimal(s@) <= 31 {
            Some(decimal(s@) as usize)
        } else {
            None
        }),
{
    // `val` saturates at 32: past 31 the exact value no longer matters.
    let mut val: usize = 0;
    let mut i: usize = 0;
    while i < s.len()
        invariant
            i <= s@.len(),
            all_digits(s@.subrange(0, i as int)),
            val == (if decimal(s@.subrange(0, i as int)) < 32 {
                decimal(s@.subrange(0, i as int))
            } else {
                32
            }),
        decreases s.len() - i,
    {
        let c = s[i];
        if !(DIGIT_ZERO <= c && c <= DIGIT_NINE) {
            assert(!all_digits(s@)) by {
                assert(!is_digit(s@[i as int]));
            }
            return None;
        }
        let ghost prefix = s@.subrange(0, i as int);
        let ghost next = s@.subrange(0, i as int + 1);
        assert(next.drop_last() =~= prefix);
        assert(next.last() == c);
        assert(decimal(next) == decimal(prefix) * 10 + (c - DIGIT_ZERO) as nat);
        assert(all_digits(next)) by {
            assert forall|j: int| 0 <= j < next.len() implies is_digit(#[trigger] next[j]) by {
                if j < i {
                    assert(next[j] == prefix[j]);
                }
            }
        }
        if val >= 32 {
            val = 32;
        } else {
            val = val * 10 + (c - DIGIT_ZERO) as usize;
            if val > 32 {
                val = 32;
            }
        }
        i = i + 1;
    }
    assert(s@.subrange(0, s@.len() as int) =~= s@);
    if val > 31 {
        None
    } else {
        Some(val)
    }
}

/// Looks up the register that `name` denotes.
pub fn parse_register(name: &[u8]) -> (r: Option<Register>)
    ensures
        r == spec_parse_register(name@),
{
    let mut i: usize = 0;
    while i < 32
        invariant
            i <= 32,
            abi_index_from(name@, 0) == abi_index_from(name@, i as int),
        decreases 32 - i,
    {
        let n = abi_name_bytes(i);
        if bytes_equal(name, n.as_slice()) {
            return Some(Register::Gpr(i));
        }
        i = i + 1;
    }
    if name.len() == 2 && name[0] == 112u8 && name[1] == 99u8 {  // "pc"
        assert(name@ =~= seq![112u8, 99u8]);
        return Some(Register::Pc);
    }
    if name.len() == 2 && name[0] == 102u8 && name[1] == 112u8 {  // "fp"
        assert(name@ =~= seq![102u8, 112u8]);
        return Some(Register::Gpr(8));
    }
    if name.len() >= 2 && name[0] == LETTER_X {
        let digits = name.split_at(1).1;
        assert(digits@ =~= name@.drop_first());
        return match small_decimal(digits) {
            Some(v) => Some(Register::Gpr(v)),
            None => None,
        };
    }
    None
}

} // verus!

use vstd::prelude::*;

use crate::native::Valuators;

verus! {

/// Bit `i` of a valuator mask: bit `i % 8` of byte `i / 8`.
pub open spec fn mask_bit(mask: Seq<u8>, i: int) -> bool {
    (mask[i / 8] >> ((i % 8) as u8)) & 1u8 == 1u8
}

/// The set bits of `mask` below `n`, in increasing order.
pub open spec fn set_bits_below(mask: Seq<u8>, n: int) -> Seq<int>
    decreases n,
{
    if n <= 0 {
        Seq::empty()
    } else if mask_bit(mask, n - 1) {
        set_bits_below(mask, n - 1).push(n - 1)
    } else {
        set_bits_below(mask, n - 1)
    }
}

/// The active axes of a mask, in increasing order.
pub open spec fn active_axes(mask: Seq<u8>) -> Seq<int> {
    set_bits_below(mask, (mask.len() * 8) as int)
}

/// Each active axis paired with its value: the `k`-th set bit goes with the
/// `k`-th value, as far as both reach.
pub open spec fn axis_values(mask: Seq<u8>, values: Seq<i64>) -> Seq<(i32, i64)> {
    let axes = active_axes(mask);
    let n = if axes.len() < values.len() {
        axes.len()
    } else {
        values.len()
    };
    Seq::new(n as nat, |k: int| (axes[k] as i32, values[k]))
}

/// A mask short enough that every axis number fits an `i32`.
pub open spec fn mask_fits(mask: Seq<u8>) -> bool {
    mask.len() < 0x1000_0000
}

proof fn lemma_set_bits_prefix(mask: Seq<u8>, n: int, m: int)
    requires
        0 <= n <= m,
    ensures
        set_bits_below(mask, n).len() <= set_bits_below(mask, m).len(),
        forall|k: int|
            0 <= k < set_bits_below(mask, n).len() ==> set_bits_below(mask, m)[k]
                == set_bits_below(mask, n)[k],
    decreases m - n,
{
    if n < m {
        lemma_set_bits_prefix(mask, n, m - 1);
    }
}

/// Walks the mask and pairs each active axis with its value.
pub fn axis_value_pairs(v: &Valuators) -> (r: Vec<(i32, i64)>)
    requires
        mask_fits(v.mask@),
    ensures
        r@ == axis_values(v.mask@, v.values@),
{
    let ghost mask = v.mask@;
    let ghost total: int = (mask.len() * 8) as int;
    let mut r: Vec<(i32, i64)> = Vec::new();
    let mut vi: usize = 0;
    let mut byte: usize = 0;
    proof {
        lemma_set_bits_prefix(mask, 0, total);
    }
    while byte < v.mask.len()
        invariant
            mask == v.mask@,
            total == mask.len() * 8,
            mask_fits(mask),
            byte <= mask.len(),
            vi == if set_bits_below(mask, byte * 8).len() < v.values@.len() {
                set_bits_below(mask, byte * 8).len()
            } else {
                v.values@.len() as nat
            },
            r@.len() == vi,
            forall|k: int|
                0 <= k < vi ==> r@[k] == (active_axes(mask)[k] as i32, v.values@[k]),
        decreases mask.len() - byte,
    {
        let b: u8 = v.mask[byte];
        let mut bit: u8 = 0;
        while bit < 8
            invariant
                mask == v.mask@,
                total == mask.len() * 8,
                mask_fits(mask),
                byte < mask.len(),
                b == mask[byte as int],
                bit <= 8,
                vi == if set_bits_below(mask, byte * 8 + bit).len() < v.values@.len() {
                    set_bits_below(mask, byte * 8 + bit).len()
                } else {
                    v.values@.len() as nat
                },
                r@.len() == vi,
                forall|k: int|
                    0 <= k < vi ==> r@[k] == (active_axes(mask)[k] as i32, v.values@[k]),
            decreases 8 - bit,
        {
            let ghost i: int = byte * 8 + bit;
            assert(i / 8 == byte && i % 8 == bit) by (nonlinear_arith)
                requires
                    i == byte * 8 + bit,
                    bit < 8,
            ;
            if (b >> bit) & 1u8 == 1u8 {
                assert(mask_bit(mask, i));
                if vi < v.values.len() {
                    proof {
                        lemma_set_bits_prefix(mask, i + 1, total);
                        assert(set_bits_below(mask, i + 1)[vi as int] == i);
                        assert(active_axes(mask)[vi as int] == i);
                        assert(i < 0x8000_0000) by (nonlinear_arith)
                            requires
                                i == byte * 8 + bit,
                                bit < 8,
                                byte < 0x1000_0000,
                        ;
                    }
                    let axis: i32 = (byte * 8) as i32 + bit as i32;
                    r.push((axis, v.values[vi]));
                    vi = vi + 1;
                }
            } else {
                assert(!mask_bit(mask, i));
            }
            bit = bit + 1;
        }
        byte = byte + 1;
    }
    proof {
        assert(r@ =~= axis_values(mask, v.values@));
    }
    r
}

} // verus!

use crate::geometry::{f32_bits_of, F32_ONE};
use vstd::prelude::*;

verus! {

/// A color adjustment as the shaders apply it: each channel of the input
/// pixel is multiplied by its factor in `mult`, then offset by `add`.
pub open spec fn apply_adjustment(mult: Seq<int>, add: Seq<int>, pixel: Seq<int>) -> Seq<int> {
    Seq::new(4, |c: int| pixel[c] * mult[c] + add[c])
}

/// The uniform data of the default color adjustment: four factors of 1.0
/// (red, green, blue, alpha), then four offsets of 0.0.
pub open spec fn default_color_adjustment_words() -> Seq<u32> {
    Seq::new(8, |j: int| if j < 4 { F32_ONE } else { 0 })
}

/// The uniform data of the default color adjustment.
pub fn default_color_adjustments() -> (r: Vec<u32>)
    ensures
        r@ == default_color_adjustment_words(),
{
    let w = F32_ONE;
    let r = vec![w, w, w, w, 0, 0, 0, 0];
    assert(r@ =~= default_color_adjustment_words());
    r
}

/// The default color adjustment changes no pixel: whatever factors and
/// offsets its uniform data holds, applying them gives back the input.
pub proof fn lemma_default_adjustment_is_identity(
    mult: Seq<int>,
    add: Seq<int>,
    pixel: Seq<int>,
)
    requires
        mult.len() == 4,
        add.len() == 4,
        pixel.len() == 4,
        forall|c: int|
            0 <= c < 4 ==> f32_bits_of(mult[c], #[trigger] default_color_adjustment_words()[c]),
        forall|c: int|
            0 <= c < 4 ==> f32_bits_of(add[c], #[trigger] default_color_adjustment_words()[4 + c]),
    ensures
        apply_adjustment(mult, add, pixel) == pixel,
{
    assert forall|c: int| 0 <= c < 4 implies #[trigger] apply_adjustment(mult, add, pixel)[c]
        == pixel[c] by {
        assert(default_color_adjustment_words()[c] == F32_ONE);
        assert(default_color_adjustment_words()[4 + c] == 0);
        assert(mult[c] == 1 && add[c] == 0);
    }
    assert(apply_adjustment(mult, add, pixel) =~= pixel);
}

} // verus!

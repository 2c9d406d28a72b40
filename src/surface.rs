use vstd::prelude::*;

verus! {

/// Picks the surface format from the formats a surface supports, given as
/// whether each is sRGB: the first sRGB one, else the first one, and `None`
/// when the surface supports none.
pub fn pick_surface_format(srgb: &Vec<bool>) -> (r: Option<usize>)
    ensures
        r is None <==> srgb@.len() == 0,
        r matches Some(i) ==> i < srgb@.len() && {
            ||| srgb@[i as int] && forall|j: int| 0 <= j < i ==> !(#[trigger] srgb@[j])
            ||| i == 0 && forall|j: int| 0 <= j < srgb@.len() ==> !(#[trigger] srgb@[j])
        },
{
    let mut i: usize = 0;
    while i < srgb.len()
        invariant
            i <= srgb@.len(),
            forall|j: int| 0 <= j < i ==> !(#[trigger] srgb@[j]),
        decreases srgb@.len() - i,
    {
        if srgb[i] {
            return Some(i);
        }
        i = i + 1;
    }
    if srgb.len() == 0 {
        None
    } else {
        Some(0)
    }
}

} // verus!

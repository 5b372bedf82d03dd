use vstd::prelude::*;

verus! {

/// Sampling steps of an image generation request that names none.
pub fn default_steps() -> (r: u32)
    ensures
        r == 20,
{
    20
}

/// Width in pixels of a generated image when the request names none.
pub fn default_width() -> (r: u32)
    ensures
        r == 512,
{
    512
}

/// Height in pixels of a generated image when the request names none.
pub fn default_height() -> (r: u32)
    ensures
        r == 512,
{
    512
}

/// Number of images generated when the request names none.
pub fn default_n() -> (r: u32)
    ensures
        r == 1,
{
    1
}

/// Number of memories a query returns when the request names none.
pub fn default_limit() -> (r: usize)
    ensures
        r == 10,
{
    10
}

/// Number of passages a knowledge query returns when the request names none.
pub fn default_top_k() -> (r: usize)
    ensures
        r == 5,
{
    5
}

} // verus!

use vstd::prelude::*;

verus! {

/// The largest renderbuffer dimension accepted on either axis; the value of
/// the GL enumerant `MAX_RENDERBUFFER_SIZE` (0x84E8).
pub const MAX_RENDERBUFFER_SIZE: u32 = 0x84E8;

/// A width and height in physical pixels.
#[derive(Clone, Copy, Debug, PartialEq, Eq, Structural)]
pub struct RenderTargetSize {
    pub width: u32,
    pub height: u32,
}

impl RenderTargetSize {
    pub fn new(width: u32, height: u32) -> (r: RenderTargetSize)
        ensures
            r.width == width,
            r.height == height,
    {
        RenderTargetSize { width, height }
    }
}

/// `v` clamped to `[lo, hi]`.
pub open spec fn clamp_spec(v: int, lo: int, hi: int) -> int {
    if v < lo {
        lo
    } else if v > hi {
        hi
    } else {
        v
    }
}

/// The size used for the drawable: each axis clamped to
/// `[1, MAX_RENDERBUFFER_SIZE]` on its own.
pub open spec fn clamped(size: RenderTargetSize) -> RenderTargetSize {
    RenderTargetSize {
        width: clamp_spec(size.width as int, 1, MAX_RENDERBUFFER_SIZE as int) as u32,
        height: clamp_spec(size.height as int, 1, MAX_RENDERBUFFER_SIZE as int) as u32,
    }
}

/// Whether both axes already lie in `[1, MAX_RENDERBUFFER_SIZE]`.
pub open spec fn in_bounds(size: RenderTargetSize) -> bool {
    1 <= size.width <= MAX_RENDERBUFFER_SIZE && 1 <= size.height <= MAX_RENDERBUFFER_SIZE
}

fn clamp_axis(v: u32) -> (r: u32)
    ensures
        r as int == clamp_spec(v as int, 1, MAX_RENDERBUFFER_SIZE as int),
{
    if v < 1 {
        1
    } else if v > MAX_RENDERBUFFER_SIZE {
        MAX_RENDERBUFFER_SIZE
    } else {
        v
    }
}

/// Clamps a window-reported size to the bounds a drawable accepts.
pub fn clamp_render_buffer_size(size: RenderTargetSize) -> (r: RenderTargetSize)
    ensures
        r == clamped(size),
        in_bounds(r),
        in_bounds(size) ==> r == size,
{
    RenderTargetSize { width: clamp_axis(size.width), height: clamp_axis(size.height) }
}

/// Clamping is idempotent: a clamped size clamps to itself, and every
/// clamped size lies within the drawable's bounds.
pub proof fn lemma_clamp_idempotent(size: RenderTargetSize)
    ensures
        in_bounds(clamped(size)),
        clamped(clamped(size)) == clamped(size),
{
}

/// Picks the display configuration to use: the first candidate offered, in
/// the order offered. `None` means no candidate was offered, a fatal
/// condition that the caller reports before ending the run.
pub fn gen_config<T>(candidates: Vec<T>) -> (r: Option<T>)
    ensures
        candidates@.len() == 0 ==> r is None,
        candidates@.len() > 0 ==> r == Some(candidates@[0]),
{
    let mut candidates = candidates;
    if candidates.len() == 0 {
        None
    } else {
        Some(candidates.remove(0))
    }
}

} // verus!

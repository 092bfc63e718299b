use vstd::prelude::*;

verus! {

/// The byte every channel of a fresh canvas holds.
pub const CANVAS_FILL: u8 = 0xFF;

/// The number of bytes of a canvas of `width` by `height` pixels of four
/// bytes each.
pub open spec fn canvas_len(width: u32, height: u32) -> int {
    (width as int) * (height as int) * 4
}

/// A canvas of the given size: `canvas_len` bytes, each `0xFF`.
pub open spec fn is_fresh_canvas(buf: Seq<u8>, width: u32, height: u32) -> bool {
    &&& buf.len() == canvas_len(width, height)
    &&& forall|i: int| 0 <= i < buf.len() ==> buf[i] == CANVAS_FILL
}

/// The size of a canvas fits in memory addresses.
pub open spec fn canvas_fits(width: u32, height: u32) -> bool {
    canvas_len(width, height) <= usize::MAX
}

/// `std`'s `Vec::into_boxed_slice`: the boxed slice holds the same elements.
#[verifier::external_body]
fn boxed_from_vec(v: Vec<u8>) -> (b: Box<[u8]>)
    ensures
        b@ == v@,
{
    v.into_boxed_slice()
}

/// Allocates a canvas of `width` by `height` ARGB pixels with every byte set
/// to `0xFF`.
pub fn get_spell_ingredients(width: u32, height: u32) -> (buf: Box<[u8]>)
    requires
        canvas_fits(width, height),
    ensures
        is_fresh_canvas(buf@, width, height),
{
    let a: u8 = CANVAS_FILL;
    assert((width as int) * (height as int) <= (width as int) * (height as int) * 4) by (nonlinear_arith)
        requires 0 <= width, 0 <= height;
    let n: usize = (width as usize) * (height as usize) * 4;
    let mut v: Vec<u8> = Vec::new();
    let mut i: usize = 0;
    while i < n
        invariant
            i <= n,
            n == canvas_len(width, height),
            v@.len() == i,
            a == CANVAS_FILL,
            forall|k: int| 0 <= k < i ==> v@[k] == CANVAS_FILL,
        decreases n - i,
    {
        v.push(a);
        i = i + 1;
    }
    boxed_from_vec(v)
}

/// The buffer of a surface as the protocol takes it: its width, height and
/// row stride in bytes, as signed integers.
#[derive(Debug, Clone, Copy, PartialEq, Eq, Structural)]
pub struct BufferShape {
    pub width: i32,
    pub height: i32,
    pub stride: i32,
}

/// The shared memory of a surface of `width` by `height` ARGB pixels: the
/// size of its memory pool and the shape of its buffer, which is also the
/// input region the surface starts with.
#[derive(Debug, Clone, Copy, PartialEq, Eq, Structural)]
pub struct BufferLayout {
    /// Bytes of the memory pool: four per pixel.
    pub pool_len: usize,
    pub shape: BufferShape,
}

/// The row stride of a surface of the given width fits a signed 32-bit
/// integer.
pub open spec fn stride_fits(width: u32) -> bool {
    i32::MIN <= (width as i32) * 4 <= i32::MAX
}

/// The pool size of a surface of the given size fits an unsigned 32-bit
/// integer, and its stride fits too.
pub open spec fn layout_fits(width: u32, height: u32) -> bool {
    &&& canvas_len(width, height) <= u32::MAX
    &&& stride_fits(width)
}

/// The buffer shape of a surface of the given size.
pub open spec fn shape_of(width: u32, height: u32) -> BufferShape {
    BufferShape { width: width as i32, height: height as i32, stride: ((width as i32) * 4) as i32 }
}

/// The shape of the buffer of a surface of `width` by `height` pixels.
pub fn buffer_shape(width: u32, height: u32) -> (b: BufferShape)
    requires
        stride_fits(width),
    ensures
        b == shape_of(width, height),
{
    let w: i32 = width as i32;
    let h: i32 = height as i32;
    BufferShape { width: w, height: h, stride: w * 4 }
}

/// Lays out the shared memory of a surface of `width` by `height` pixels.
pub fn buffer_layout(width: u32, height: u32) -> (l: BufferLayout)
    requires
        layout_fits(width, height),
    ensures
        l.pool_len == canvas_len(width, height),
        l.shape == shape_of(width, height),
{
    assert((width as int) * (height as int) <= (width as int) * (height as int) * 4) by (nonlinear_arith)
        requires 0 <= width, 0 <= height;
    let pixels: u32 = width * height;
    let pool: u32 = pixels * 4;
    BufferLayout { pool_len: pool as usize, shape: buffer_shape(width, height) }
}

/// The two canvases a widget draws into.
#[derive(Debug)]
pub struct SharedCore {
    pub primary_buffer: Box<[u8]>,
    pub secondary_buffer: Box<[u8]>,
}

impl SharedCore {
    /// Both canvases of the core are fresh canvases of the given size.
    pub open spec fn sized(&self, width: u32, height: u32) -> bool {
        &&& is_fresh_canvas(self.primary_buffer@, width, height)
        &&& is_fresh_canvas(self.secondary_buffer@, width, height)
    }

    /// Creates both canvases for a widget of `width` by `height` pixels.
    pub fn new(width: u32, height: u32) -> (core: Self)
        requires
            canvas_fits(width, height),
        ensures
            core.sized(width, height),
    {
        SharedCore {
            primary_buffer: get_spell_ingredients(width, height),
            secondary_buffer: get_spell_ingredients(width, height),
        }
    }

    /// Replaces both canvases by fresh ones of the new size.
    pub fn resize(&mut self, width: u32, height: u32)
        requires
            canvas_fits(width, height),
        ensures
            final(self).sized(width, height),
    {
        self.primary_buffer = get_spell_ingredients(width, height);
        self.secondary_buffer = get_spell_ingredients(width, height);
    }
}

/// A resized core is indistinguishable from a core created at the new size.
pub proof fn lemma_resize_matches_new(resized: SharedCore, created: SharedCore, width: u32, height: u32)
    requires
        resized.sized(width, height),
        created.sized(width, height),
    ensures
        resized.primary_buffer@ == created.primary_buffer@,
        resized.secondary_buffer@ == created.secondary_buffer@,
{
    assert(resized.primary_buffer@ =~= created.primary_buffer@);
    assert(resized.secondary_buffer@ =~= created.secondary_buffer@);
}

} // verus!

use vstd::prelude::*;

verus! {

/// An RGB image with one byte per channel, stored row by row.
#[derive(Debug, Clone)]
pub struct Frame {
    width: u32,
    height: u32,
    pixels: Vec<u8>,
}

/// The number of bytes of a frame of the given size.
pub open spec fn frame_len(width: u32, height: u32) -> int {
    width * height * 3
}

/// The index of the red byte of pixel (x, y) in a frame of the given width.
pub open spec fn pixel_offset(width: u32, x: u32, y: u32) -> int {
    (y * width + x) * 3
}

impl Frame {
    /// Width in pixels.
    pub closed spec fn spec_width(&self) -> u32 {
        self.width
    }

    /// Height in pixels.
    pub closed spec fn spec_height(&self) -> u32 {
        self.height
    }

    /// The bytes of the image.
    pub closed spec fn spec_pixels(&self) -> Seq<u8> {
        self.pixels@
    }

    /// A frame holds three bytes for each of its pixels.
    pub open spec fn wf(&self) -> bool {
        self.spec_pixels().len() == frame_len(self.spec_width(), self.spec_height())
    }

    /// A black frame of the given size.
    pub fn new(width: u32, height: u32) -> (r: Frame)
        requires
            frame_len(width, height) <= u32::MAX,
        ensures
            r.wf(),
            r.spec_width() == width,
            r.spec_height() == height,
            r.spec_pixels() == Seq::new(frame_len(width, height) as nat, |i: int| 0u8),
    {
        assert(width * height <= width * height * 3) by (nonlinear_arith);
        let n: u32 = width * height * 3;
        let mut pixels: Vec<u8> = Vec::new();
        let mut i: u32 = 0;
        while i < n
            invariant
                i <= n,
                pixels@ == Seq::new(i as nat, |k: int| 0u8),
            decreases n - i,
        {
            pixels.push(0u8);
            i = i + 1;
        }
        Frame { width, height, pixels }
    }

    /// Width in pixels.
    pub fn width(&self) -> (r: u32)
        ensures
            r == self.spec_width(),
    {
        self.width
    }

    /// Height in pixels.
    pub fn height(&self) -> (r: u32)
        ensures
            r == self.spec_height(),
    {
        self.height
    }

    /// The bytes of the image, three per pixel.
    pub fn pixels(&self) -> (r: &[u8])
        ensures
            r@ == self.spec_pixels(),
    {
        self.pixels.as_slice()
    }

    /// The bytes of the image, for writing.
    pub fn pixels_mut(&mut self) -> (r: &mut [u8])
        ensures
            r@ == old(self).spec_pixels(),
            final(self).spec_width() == old(self).spec_width(),
            final(self).spec_height() == old(self).spec_height(),
            final(self).spec_pixels() == final(r)@,
    {
        self.pixels.as_mut_slice()
    }

    /// Writes the colour of pixel (x, y); no other byte changes.
    pub fn set_pixel(&mut self, x: u32, y: u32, red: u8, green: u8, blue: u8)
        requires
            old(self).wf(),
            x < old(self).spec_width(),
            y < old(self).spec_height(),
        ensures
            final(self).wf(),
            final(self).spec_width() == old(self).spec_width(),
            final(self).spec_height() == old(self).spec_height(),
            final(self).spec_pixels() == old(self).spec_pixels().update(
                pixel_offset(old(self).spec_width(), x, y),
                red,
            ).update(pixel_offset(old(self).spec_width(), x, y) + 1, green).update(
                pixel_offset(old(self).spec_width(), x, y) + 2,
                blue,
            ),
    {
        let w = self.width;
        let h = self.height;
        assert(y * w + x < h * w) by (nonlinear_arith)
            requires
                x < w,
                y < h,
        ;
        let len = self.pixels.len();
        assert((y * w + x) * 3 + 2 < w * h * 3) by (nonlinear_arith)
            requires
                y * w + x < h * w,
        ;
        assert(y * w <= (y * w + x) * 3) by (nonlinear_arith);
        let i: usize = ((y as usize) * (w as usize) + (x as usize)) * 3;
        self.pixels.set(i, red);
        self.pixels.set(i + 1, green);
        self.pixels.set(i + 2, blue);
    }
}

/// The renderer that traces rays on the processor.
#[derive(Debug, Clone, Copy)]
pub struct CpuRenderer;

impl CpuRenderer {
    /// Creates the renderer.
    pub fn new() -> (r: CpuRenderer)
        ensures
            r == CpuRenderer,
    {
        CpuRenderer
    }
}

impl Default for CpuRenderer {
    fn default() -> (r: CpuRenderer)
        ensures
            r == CpuRenderer,
    {
        CpuRenderer::new()
    }
}

/// The renderer meant to run on the graphics processor.
#[derive(Debug, Clone, Copy)]
pub struct GpuRenderer;

impl GpuRenderer {
    /// Creates the renderer.
    pub fn new() -> (r: GpuRenderer)
        ensures
            r == GpuRenderer,
    {
        GpuRenderer
    }
}

impl Default for GpuRenderer {
    fn default() -> (r: GpuRenderer)
        ensures
            r == GpuRenderer,
    {
        GpuRenderer::new()
    }
}

} // verus!

use vstd::prelude::*;

verus! {

/// The 32-bit value of four bytes taken in little-endian order, the byte
/// order of every host that runs the capture engine.
pub open spec fn le_word(b0: u8, b1: u8, b2: u8, b3: u8) -> u32 {
    (b0 as int + 256 * (b1 as int) + 65536 * (b2 as int) + 16777216 * (b3 as int)) as u32
}

/// A byte buffer read as consecutive 32-bit words, one per four bytes.
pub open spec fn words_le(b: Seq<u8>) -> Seq<u32> {
    Seq::new(
        b.len() / 4,
        |i: int| le_word(b[4 * i], b[4 * i + 1], b[4 * i + 2], b[4 * i + 3]),
    )
}

/// Splits a frame-size attribute into `(width, height)`: the width is held in
/// the upper 32 bits, the height in the lower 32.
pub fn unpack_frame_size(packed: u64) -> (r: (u32, u32))
    ensures
        r.0 == packed / 0x1_0000_0000,
        r.1 == packed % 0x1_0000_0000,
{
    ((packed / 0x1_0000_0000) as u32, (packed % 0x1_0000_0000) as u32)
}

/// One captured frame: its size in pixels and the locked sample's bytes.
#[derive(Debug)]
pub struct Frame {
    width: u32,
    height: u32,
    data: Vec<u8>,
}

/// A borrowed view of a frame's pixel bytes.
pub struct FrameData<'a> {
    data: &'a [u8],
}

impl Frame {
    pub closed spec fn spec_width(&self) -> u32 {
        self.width
    }

    pub closed spec fn spec_height(&self) -> u32 {
        self.height
    }

    pub closed spec fn spec_bytes(&self) -> Seq<u8> {
        self.data@
    }

    /// Builds a frame from the size the sink reported and the bytes of the
    /// locked sample buffer.
    pub fn from_parts(width: u32, height: u32, data: Vec<u8>) -> (r: Frame)
        ensures
            r.spec_width() == width,
            r.spec_height() == height,
            r.spec_bytes() == data@,
    {
        Frame { width, height, data }
    }

    /// The frame's pixel bytes.
    pub fn data(&self) -> (r: FrameData<'_>)
        ensures
            r.spec_bytes() == self.spec_bytes(),
    {
        FrameData { data: self.data.as_slice() }
    }

    /// The frame's `(width, height)` in pixels.
    pub fn size_u32(&self) -> (r: (u32, u32))
        ensures
            r == (self.spec_width(), self.spec_height()),
    {
        (self.width, self.height)
    }
}

impl<'a> FrameData<'a> {
    pub closed spec fn spec_bytes(&self) -> Seq<u8> {
        self.data@
    }

    /// The pixel bytes as they are.
    pub fn data_u8(&self) -> (r: &[u8])
        ensures
            r@ == self.spec_bytes(),
    {
        self.data
    }

    /// The pixel bytes as 32-bit pixels, four bytes each; the buffer must
    /// hold whole pixels.
    pub fn data_u32(&self) -> (r: Vec<u32>)
        requires
            self.spec_bytes().len() % 4 == 0,
        ensures
            r@ == words_le(self.spec_bytes()),
            r@.len() * 4 == self.spec_bytes().len(),
    {
        let len: usize = self.data.len();
        let n: usize = len / 4;
        let mut out: Vec<u32> = Vec::with_capacity(n);
        let mut i: usize = 0;
        while i < n
            invariant
                len == self.data@.len(),
                n == len / 4,
                i <= n,
                out@.len() == i,
                forall|k: int| 0 <= k < i ==> out@[k] == #[trigger] words_le(self.data@)[k],
            decreases n - i,
        {
            assert(4 * i + 3 < len) by (nonlinear_arith)
                requires
                    i < n,
                    n == len / 4,
            ;
            let j: usize = 4 * i;
            let b0: u8 = self.data[j];
            let b1: u8 = self.data[j + 1];
            let b2: u8 = self.data[j + 2];
            let b3: u8 = self.data[j + 3];
            let w: u32 = b0 as u32 + 256 * (b1 as u32) + 65536 * (b2 as u32) + 16777216 * (b3 as u32);
            assert(w == le_word(b0, b1, b2, b3));
            out.push(w);
            i = i + 1;
        }
        assert(out@ =~= words_le(self.data@));
        out
    }
}

} // verus!

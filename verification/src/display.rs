//! The display sink: decoded frames are repacked to the pixel layout of the
//! panel before they are written to it.

use vstd::prelude::*;
use crate::api_objects::DisplayTest;
use crate::configuration::DisplayConfig;
use crate::printfile::Layer;

verus! {

/// A decoded frame: one byte for each pixel, at the bit depth of its source.
#[derive(Clone, Debug)]
pub struct Frame {
    pub file_name: String,
    pub buffer: Vec<u8>,
    /// How long the frame is exposed, in milliseconds.
    pub exposure_time: u64,
    pub bit_depth: u8,
}

/// What the PNG image `data` decodes to: the bytes of its first frame and
/// its bit depth, or `None` where `data` is no PNG image that can be
/// decoded.
pub uninterp spec fn png_decoded(data: Seq<u8>) -> Option<(Seq<u8>, u8)>;

/// `decoded` as plain values.
pub open spec fn decoded_view(decoded: Option<(Vec<u8>, u8)>) -> Option<(Seq<u8>, u8)> {
    match decoded {
        Some((buffer, depth)) => Some((buffer@, depth)),
        None => None,
    }
}

/// Decodes a PNG image with `png::Decoder`: `read_info` reads the header,
/// `output_buffer_size` gives the size of the first frame and `next_frame`
/// decodes it. The result is what the decoder makes of these bytes and of
/// nothing else; any error of the decoder gives `None`.
#[verifier::external_body]
fn decode_png(data: &[u8]) -> (decoded: Option<(Vec<u8>, u8)>)
    ensures
        decoded_view(decoded) == png_decoded(data@),
{
    let mut reader = png::Decoder::new(data).read_info().ok()?;
    let mut buffer = vec![0; reader.output_buffer_size()];
    reader.next_frame(buffer.as_mut()).ok()?;
    Some((buffer, reader.info().bit_depth as u8))
}

impl Frame {
    /// The frame made of a decoded image, if there is one.
    pub fn from_decoded(name: String, exposure_time: u64, decoded: Option<(Vec<u8>, u8)>) -> (frame:
        Option<Frame>)
        ensures
            match (frame, decoded) {
                (Some(frame), Some((buffer, depth))) => frame.file_name == name
                    && frame.exposure_time == exposure_time && frame.buffer == buffer
                    && frame.bit_depth == depth,
                (None, None) => true,
                _ => false,
            },
    {
        match decoded {
            Some((buffer, bit_depth)) => Some(
                Frame { file_name: name, buffer, exposure_time, bit_depth },
            ),
            None => None,
        }
    }

    /// Decodes the PNG image `data` into a frame; `None` where it cannot be
    /// decoded.
    pub fn from_vec(name: String, exposure_time: u64, data: Vec<u8>) -> (frame: Option<Frame>)
        ensures
            match (frame, png_decoded(data@)) {
                (Some(frame), Some((buffer, depth))) => frame.file_name == name
                    && frame.exposure_time == exposure_time && frame.buffer@ == buffer
                    && frame.bit_depth == depth,
                (None, None) => true,
                _ => false,
            },
    {
        let decoded = decode_png(data.as_slice());
        Frame::from_decoded(name, exposure_time, decoded)
    }

    /// The frame of a layer, where there is a layer and its image can be
    /// decoded.
    pub fn from_layer(layer: Option<Layer>) -> (frame: Option<Frame>)
        ensures
            match layer {
                Some(layer) => match (frame, png_decoded(layer.data@)) {
                    (Some(frame), Some((buffer, depth))) => frame.file_name == layer.file_name
                        && frame.exposure_time == layer.exposure_time && frame.buffer@ == buffer
                        && frame.bit_depth == depth,
                    (None, None) => true,
                    _ => false,
                },
                None => frame is None,
            },
    {
        match layer {
            Some(layer) => Frame::from_vec(layer.file_name, layer.exposure_time, layer.data),
            None => None,
        }
    }
}

/// The bits of one chunk of output: the sum of the widths in `layout`.
pub open spec fn layout_width(layout: Seq<u8>) -> int
    decreases layout.len(),
{
    if layout.len() == 0 {
        0
    } else {
        layout_width(layout.drop_last()) + layout.last()
    }
}

/// Pixels of `depth` bits can be packed by `layout`: it names at least one
/// pixel, no pixel keeps more bits than it has, and nothing is moved by 64
/// bits or more. So a chunk has no more than 64 bits, and where it has 64
/// the first pixel keeps at least one of them; and a pixel loses fewer than
/// 64 bits. A pixel may keep no bit at all.
pub open spec fn layout_fits(layout: Seq<u8>, depth: u8) -> bool {
    &&& layout.len() > 0
    &&& layout_width(layout) <= 64
    &&& layout_width(layout) - layout[0] < 64
    &&& forall|j: int|
        0 <= j < layout.len() ==> #[trigger] layout[j] <= depth && depth - layout[j] < 64
}

/// Where pixel `j` of a chunk goes: the number of bits to its right, which
/// is the sum of the widths after it.
pub open spec fn shift_of(layout: Seq<u8>, j: int) -> int {
    layout_width(layout) - layout_width(layout.take(j + 1))
}

/// Pixel `j` as it stands in the chunk: cut down to its width by dropping
/// its low bits, and moved to its place.
pub open spec fn placed(pixel: u8, layout: Seq<u8>, depth: u8, j: int) -> u64 {
    ((pixel as u64) >> ((depth - layout[j]) as u64)) << (shift_of(layout, j) as u64)
}

/// The chunk made of the first `upto` pixels of `pixels`: the first pixel
/// takes the highest bits.
pub open spec fn packed(pixels: Seq<u8>, layout: Seq<u8>, depth: u8, upto: int) -> u64
    decreases upto,
{
    if upto <= 0 {
        0
    } else {
        packed(pixels, layout, depth, upto - 1) | placed(pixels[upto - 1], layout, depth, upto - 1)
    }
}

/// Byte `i` of a chunk, counted from its low end.
pub open spec fn chunk_byte(raw: u64, i: int) -> u8 {
    ((raw >> ((8 * i) as u64)) & 0xFF) as u8
}

/// The first `count` bytes of a chunk, low byte first.
pub open spec fn chunk_bytes(raw: u64, count: int) -> Seq<u8> {
    Seq::new(count as nat, |i: int| chunk_byte(raw, i))
}

/// The output for the first `chunks` groups of pixels of `buffer`: for each
/// group its chunk, as whole bytes, low byte first.
pub open spec fn repacked_chunks(buffer: Seq<u8>, layout: Seq<u8>, depth: u8, chunks: int) -> Seq<
    u8,
>
    decreases chunks,
{
    if chunks <= 0 {
        Seq::empty()
    } else {
        repacked_chunks(buffer, layout, depth, chunks - 1) + chunk_bytes(
            packed(
                buffer.subrange((chunks - 1) * layout.len(), chunks * layout.len()),
                layout,
                depth,
                layout.len() as int,
            ),
            layout_width(layout) / 8,
        )
    }
}

/// What `buffer`, with pixels of `depth` bits, is repacked to by `layout`.
/// A layout of one pixel at the depth of the source forwards the buffer as
/// it is. Any other layout packs each full group of pixels into one chunk;
/// pixels left over at the end are dropped.
pub open spec fn repacked(buffer: Seq<u8>, layout: Seq<u8>, depth: u8) -> Seq<u8> {
    if layout.len() == 1 && layout[0] == depth {
        buffer
    } else {
        repacked_chunks(buffer, layout, depth, buffer.len() as int / layout.len() as int)
    }
}

/// A buffer of `count` pixels that all have the value `value`.
pub open spec fn solid(value: u8, count: int) -> Seq<u8> {
    Seq::new(count as nat, |i: int| value)
}

/// The pixel value of a test pattern: white is all ones, and every other
/// pattern is blank.
pub open spec fn pattern_value(test: DisplayTest) -> u8 {
    match test {
        DisplayTest::White => 0xFF,
        _ => 0x00,
    }
}

/// The widths before place `j` sum to no more than all of them.
pub proof fn lemma_layout_width_prefix(layout: Seq<u8>, j: int)
    requires
        0 <= j <= layout.len(),
    ensures
        0 <= layout_width(layout.take(j)) <= layout_width(layout),
        j < layout.len() ==> layout_width(layout.take(j + 1)) == layout_width(layout.take(j))
            + layout[j],
    decreases layout.len() - j,
{
    if j == layout.len() {
        assert(layout.take(j) == layout);
        lemma_layout_width_nonnegative(layout);
    } else {
        lemma_layout_width_prefix(layout, j + 1);
        assert(layout.take(j + 1).drop_last() == layout.take(j));
        lemma_layout_width_nonnegative(layout.take(j));
    }
}

/// Every pixel is moved by no more than the first, which is moved by the
/// widths of all the others.
pub proof fn lemma_shift_bound(layout: Seq<u8>, j: int)
    requires
        0 <= j < layout.len(),
    ensures
        0 <= shift_of(layout, j) <= layout_width(layout) - layout[0],
    decreases j,
{
    lemma_layout_width_prefix(layout, j);
    lemma_layout_width_prefix(layout, j + 1);
    if j == 0 {
        assert(layout.take(0).len() == 0);
    } else {
        lemma_shift_bound(layout, j - 1);
    }
}

proof fn lemma_layout_width_nonnegative(layout: Seq<u8>)
    ensures
        0 <= layout_width(layout),
    decreases layout.len(),
{
    if layout.len() > 0 {
        lemma_layout_width_nonnegative(layout.drop_last());
    }
}

/// The output for `chunks` groups of pixels has the whole bytes of one chunk
/// for each group.
pub proof fn lemma_repacked_length(buffer: Seq<u8>, layout: Seq<u8>, depth: u8, chunks: int)
    requires
        0 <= chunks,
    ensures
        repacked_chunks(buffer, layout, depth, chunks).len() == chunks * (layout_width(layout)
            / 8),
    decreases chunks,
{
    lemma_layout_width_nonnegative(layout);
    let bytes = layout_width(layout) / 8;
    if chunks > 0 {
        lemma_repacked_length(buffer, layout, depth, chunks - 1);
        let earlier = repacked_chunks(buffer, layout, depth, chunks - 1);
        let last = chunk_bytes(
            packed(
                buffer.subrange((chunks - 1) * layout.len(), chunks * layout.len()),
                layout,
                depth,
                layout.len() as int,
            ),
            bytes,
        );
        assert(repacked_chunks(buffer, layout, depth, chunks) == earlier + last);
        assert(last.len() == bytes);
        assert((chunks - 1) * bytes + bytes == chunks * bytes) by (nonlinear_arith);
    } else {
        assert(chunks * bytes == 0) by (nonlinear_arith)
            requires
                chunks == 0,
        ;
    }
}

/// Each group of pixels makes its own bytes of the output: the bytes of
/// group `g` are those of the chunk packed from the pixels of that group, and
/// depend on no other pixel.
pub proof fn lemma_repacked_group(
    buffer: Seq<u8>,
    layout: Seq<u8>,
    depth: u8,
    chunks: int,
    g: int,
)
    requires
        0 <= g < chunks,
    ensures
        ({
            let bytes = layout_width(layout) / 8;
            &&& 0 <= g * bytes <= (g + 1) * bytes <= repacked_chunks(
                buffer,
                layout,
                depth,
                chunks,
            ).len()
            &&& repacked_chunks(buffer, layout, depth, chunks).subrange(
                g * bytes,
                (g + 1) * bytes,
            ) == chunk_bytes(
                packed(
                    buffer.subrange(g * layout.len(), (g + 1) * layout.len()),
                    layout,
                    depth,
                    layout.len() as int,
                ),
                bytes,
            )
        }),
    decreases chunks,
{
    lemma_layout_width_nonnegative(layout);
    let bytes = layout_width(layout) / 8;
    let all = repacked_chunks(buffer, layout, depth, chunks);
    let earlier = repacked_chunks(buffer, layout, depth, chunks - 1);
    let last = chunk_bytes(
        packed(
            buffer.subrange((chunks - 1) * layout.len(), chunks * layout.len()),
            layout,
            depth,
            layout.len() as int,
        ),
        bytes,
    );
    assert(all == earlier + last);
    lemma_repacked_length(buffer, layout, depth, chunks - 1);
    lemma_repacked_length(buffer, layout, depth, chunks);
    assert(0 <= g * bytes && (g + 1) * bytes == g * bytes + bytes && (g + 1) * bytes <= chunks
        * bytes && (g < chunks - 1 ==> (g + 1) * bytes <= (chunks - 1) * bytes)) by (nonlinear_arith)
        requires
            0 <= g < chunks,
            0 <= bytes,
    ;
    if g == chunks - 1 {
        assert(all.subrange(g * bytes, (g + 1) * bytes) =~= last);
    } else {
        lemma_repacked_group(buffer, layout, depth, chunks - 1, g);
        assert(all.subrange(g * bytes, (g + 1) * bytes) =~= earlier.subrange(
            g * bytes,
            (g + 1) * bytes,
        ));
    }
}

/// A buffer is repacked to itself by the layout of one pixel of eight bits,
/// when its pixels have eight bits.
pub proof fn lemma_repack_identity(buffer: Seq<u8>)
    ensures
        repacked(buffer, seq![8u8], 8) == buffer,
{
}

/// The display sink.
pub struct PrintDisplay {
    pub config: DisplayConfig,
}

impl PrintDisplay {
    /// A sink for the panel that `config` describes.
    pub fn new(config: DisplayConfig) -> (display: PrintDisplay)
        ensures
            display.config == config,
    {
        PrintDisplay { config }
    }

    /// Frames of `depth` bits can be shown: they are forwarded as they are,
    /// or the layout can pack them.
    pub open spec fn supports_spec(&self, depth: u8) -> bool {
        let layout = self.config.bit_depth@;
        (layout.len() == 1 && layout[0] == depth) || layout_fits(layout, depth)
    }

    /// Whether frames of `depth` bits can be shown.
    #[verifier::when_used_as_spec(supports_spec)]
    pub fn supports(&self, depth: u8) -> (ok: bool)
        ensures
            ok == self.supports_spec(depth),
    {
        let layout = &self.config.bit_depth;
        let n = layout.len();
        if n == 1 && layout[0] == depth {
            return true;
        }
        if n == 0 {
            return false;
        }
        let mut width: u64 = 0;
        let mut j: usize = 0;
        while j < n
            invariant
                j <= n,
                n == layout@.len(),
                n > 0,
                width == layout_width(layout@.take(j as int)),
                width <= 64,
                !(n == 1 && layout@[0] == depth),
                layout@ == self.config.bit_depth@,
                forall|i: int|
                    0 <= i < j ==> #[trigger] layout@[i] <= depth && depth - layout@[i] < 64,
            decreases n - j,
        {
            proof {
                lemma_layout_width_prefix(layout@, j as int);
                lemma_layout_width_prefix(layout@, j + 1);
            }
            if layout[j] > depth || depth - layout[j] >= 64 || width + layout[j] as u64 > 64 {
                assert(!layout_fits(layout@, depth)) by {
                    if layout_fits(layout@, depth) {
                        assert(layout@[j as int] <= depth && depth - layout@[j as int] < 64);
                    }
                }
                return false;
            }
            width = width + layout[j] as u64;
            j += 1;
        }
        assert(layout@.take(n as int) == layout@);
        proof {
            lemma_shift_bound(layout@, 0);
        }
        width - (layout[0] as u64) < 64
    }

    /// Packs one group of pixels, which starts at `base` in `buffer`, into
    /// its chunk.
    fn pack_chunk(&self, buffer: &Vec<u8>, base: usize, depth: u8, width: u64) -> (raw: u64)
        requires
            layout_fits(self.config.bit_depth@, depth),
            width == layout_width(self.config.bit_depth@),
            base + self.config.bit_depth@.len() <= buffer@.len() <= usize::MAX,
        ensures
            raw == packed(
                buffer@.subrange(base as int, base + self.config.bit_depth@.len()),
                self.config.bit_depth@,
                depth,
                self.config.bit_depth@.len() as int,
            ),
    {
        let layout = &self.config.bit_depth;
        let k = layout.len();
        let ghost pixels = buffer@.subrange(base as int, base + k);
        let mut raw: u64 = 0;
        let mut position: u64 = width;
        let mut j: usize = 0;
        while j < k
            invariant
                j <= k,
                k == layout@.len(),
                layout_fits(layout@, depth),
                width == layout_width(layout@),
                base + k <= buffer@.len() <= usize::MAX,
                pixels == buffer@.subrange(base as int, base + k),
                position == width - layout_width(layout@.take(j as int)),
                raw == packed(pixels, layout@, depth, j as int),
            decreases k - j,
        {
            proof {
                lemma_layout_width_prefix(layout@, j as int);
                lemma_layout_width_prefix(layout@, j + 1);
            }
            let difference = depth - layout[j];
            position = position - layout[j] as u64;
            assert(position == shift_of(layout@, j as int));
            proof {
                lemma_shift_bound(layout@, j as int);
            }
            let shifted: u64 = ((buffer[base + j] as u64) >> (difference as u64)) << position;
            assert(shifted == placed(pixels[j as int], layout@, depth, j as int));
            raw = raw | shifted;
            j += 1;
        }
        raw
    }

    /// Repacks a buffer of pixels of `bit_depth` bits to the layout of the
    /// panel.
    pub fn re_encode(&self, buffer: Vec<u8>, bit_depth: u8) -> (out: Vec<u8>)
        requires
            self.supports_spec(bit_depth),
        ensures
            out@ == repacked(buffer@, self.config.bit_depth@, bit_depth),
            self.config.bit_depth@ == seq![8u8] && bit_depth == 8 ==> out@ == buffer@,
            !(self.config.bit_depth@.len() == 1 && self.config.bit_depth@[0] == bit_depth)
                ==> out@.len() == (buffer@.len() as int / self.config.bit_depth@.len() as int) * (
            layout_width(self.config.bit_depth@) / 8),
    {
        let layout = &self.config.bit_depth;
        let k = layout.len();
        if k == 1 && layout[0] == bit_depth {
            return buffer;
        }
        let mut width: u64 = 0;
        let mut j: usize = 0;
        while j < k
            invariant
                j <= k,
                k == layout@.len(),
                layout_fits(layout@, bit_depth),
                width == layout_width(layout@.take(j as int)),
            decreases k - j,
        {
            proof {
                lemma_layout_width_prefix(layout@, j as int);
                lemma_layout_width_prefix(layout@, j + 1);
            }
            width = width + layout[j] as u64;
            j += 1;
        }
        assert(layout@.take(k as int) == layout@);
        let bytes: u64 = width / 8;
        let chunks = buffer.len() / k;
        let mut out: Vec<u8> = Vec::new();
        let mut c: usize = 0;
        let mut base: usize = 0;
        while c < chunks
            invariant
                c <= chunks,
                chunks == buffer@.len() as int / k as int,
                k == layout@.len(),
                k > 0,
                base == c * k,
                buffer@.len() <= usize::MAX,
                layout@ == self.config.bit_depth@,
                layout_fits(layout@, bit_depth),
                width == layout_width(layout@),
                bytes == width / 8,
                out@ == repacked_chunks(buffer@, layout@, bit_depth, c as int),
            decreases chunks - c,
        {
            assert((c + 1) * k <= buffer@.len() && (c + 1) * k == c * k + k) by (nonlinear_arith)
                requires
                    c < chunks,
                    chunks == buffer@.len() as int / k as int,
                    k > 0,
            ;
            let raw = self.pack_chunk(&buffer, base, bit_depth, width);
            let ghost before = out@;
            let mut i: u64 = 0;
            while i < bytes
                invariant
                    i <= bytes,
                    bytes <= 8,
                    out@ == before + chunk_bytes(raw, i as int),
                decreases bytes - i,
            {
                let shifted: u64 = raw >> (8 * i);
                let low: u64 = shifted & 0xFF;
                assert(low <= 0xFF) by (bit_vector)
                    requires
                        low == shifted & 0xFF,
                ;
                out.push(low as u8);
                i += 1;
                assert(out@ =~= before + chunk_bytes(raw, i as int));
            }
            base = base + k;
            c += 1;
        }
        proof {
            lemma_repacked_length(buffer@, layout@, bit_depth, chunks as int);
        }
        out
    }

    /// The bytes that show `frame` on the panel.
    pub fn display_frame(&mut self, frame: Frame) -> (out: Vec<u8>)
        requires
            old(self).supports_spec(frame.bit_depth),
        ensures
            *final(self) == *old(self),
            out@ == repacked(frame.buffer@, old(self).config.bit_depth@, frame.bit_depth),
    {
        self.display_bytes(frame.buffer, frame.bit_depth)
    }

    fn display_bytes(&mut self, buffer: Vec<u8>, bit_depth: u8) -> (out: Vec<u8>)
        requires
            old(self).supports_spec(bit_depth),
        ensures
            *final(self) == *old(self),
            out@ == repacked(buffer@, old(self).config.bit_depth@, bit_depth),
    {
        self.re_encode(buffer, bit_depth)
    }

    /// The bytes that show the test pattern `test` on the panel: a white
    /// pattern is all ones, every other pattern is blank. The pattern has
    /// one pixel of eight bits for each pixel of the screen.
    pub fn display_test(&mut self, test: DisplayTest) -> (out: Vec<u8>)
        requires
            old(self).supports_spec(8),
            old(self).config.screen_width * old(self).config.screen_height <= usize::MAX,
        ensures
            *final(self) == *old(self),
            out@ == repacked(
                solid(
                    pattern_value(test),
                    old(self).config.screen_width * old(self).config.screen_height,
                ),
                old(self).config.bit_depth@,
                8,
            ),
    {
        let test_bytes = match test {
            DisplayTest::White => self.display_test_white(),
            DisplayTest::Blank => self.display_test_blank(),
            _ => self.display_test_blank(),
        };
        self.display_bytes(test_bytes, 8)
    }

    fn display_test_white(&mut self) -> (pattern: Vec<u8>)
        requires
            old(self).config.screen_width * old(self).config.screen_height <= usize::MAX,
        ensures
            *final(self) == *old(self),
            pattern@ == solid(
                0xFF,
                old(self).config.screen_width * old(self).config.screen_height,
            ),
    {
        self.solid_pattern(0xFF)
    }

    fn display_test_blank(&mut self) -> (pattern: Vec<u8>)
        requires
            old(self).config.screen_width * old(self).config.screen_height <= usize::MAX,
        ensures
            *final(self) == *old(self),
            pattern@ == solid(
                0x00,
                old(self).config.screen_width * old(self).config.screen_height,
            ),
    {
        self.solid_pattern(0x00)
    }

    fn solid_pattern(&self, value: u8) -> (pattern: Vec<u8>)
        requires
            self.config.screen_width * self.config.screen_height <= usize::MAX,
        ensures
            pattern@ == solid(value, self.config.screen_width * self.config.screen_height),
    {
        let count: usize = ((self.config.screen_width as u64) * (
        self.config.screen_height as u64)) as usize;
        let mut pattern: Vec<u8> = Vec::new();
        let mut i: usize = 0;
        while i < count
            invariant
                i <= count,
                pattern@ == solid(value, i as int),
            decreases count - i,
        {
            pattern.push(value);
            i += 1;
            assert(pattern@ =~= solid(value, i as int));
        }
        pattern
    }
}

} // verus!

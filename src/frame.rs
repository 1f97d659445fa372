use vstd::prelude::*;

verus! {

/// Frame width in pixels.
pub const WIDTH: usize = 256;
/// Frame height in pixels.
pub const HEIGHT: usize = 240;

/// An RGB framebuffer, row-major, three bytes per pixel.
pub struct Frame {
    pub data: Vec<u8>,
}

/// Where the red byte of pixel (`x`, `y`) sits in the framebuffer.
pub open spec fn pixel_offset(x: int, y: int) -> int {
    (y * WIDTH + x) * 3
}

/// The colour of pixel (`x`, `y`) in framebuffer bytes `data`.
pub open spec fn frame_pixel(data: Seq<u8>, x: int, y: int) -> (u8, u8, u8) {
    let o = pixel_offset(x, y);
    (data[o], data[o + 1], data[o + 2])
}

/// Whether (`x`, `y`) lies inside the frame.
pub open spec fn in_frame(x: int, y: int) -> bool {
    0 <= x < WIDTH && 0 <= y < HEIGHT
}

impl Frame {
    pub open spec fn wf(&self) -> bool {
        self.data@.len() == WIDTH * HEIGHT * 3
    }

    /// A black frame.
    pub fn new() -> (r: Frame)
        ensures
            r.wf(),
            r.data@ == Seq::new((WIDTH * HEIGHT * 3) as nat, |i: int| 0u8),
    {
        let r = Frame { data: vec![0u8; WIDTH * HEIGHT * 3] };
        assert(r.data@ =~= Seq::new((WIDTH * HEIGHT * 3) as nat, |i: int| 0u8));
        r
    }

    /// Paints pixel (`x`, `y`); a pixel outside the frame is ignored.
    pub fn set_pixel(&mut self, x: usize, y: usize, rgb: (u8, u8, u8))
        requires
            old(self).wf(),
        ensures
            final(self).wf(),
            final(self).data@ == if x < WIDTH && y < HEIGHT {
                old(self).data@.update(pixel_offset(x as int, y as int), rgb.0)
                    .update(pixel_offset(x as int, y as int) + 1, rgb.1)
                    .update(pixel_offset(x as int, y as int) + 2, rgb.2)
            } else {
                old(self).data@
            },
            forall|qx: int, qy: int| #[trigger] in_frame(qx, qy) ==> frame_pixel(final(self).data@, qx, qy)
                == if qx == x && qy == y { rgb } else { frame_pixel(old(self).data@, qx, qy) },
    {
        if x < WIDTH && y < HEIGHT {
            assert(pixel_offset(x as int, y as int) + 2 < WIDTH * HEIGHT * 3) by (nonlinear_arith)
                requires
                    x < WIDTH,
                    y < HEIGHT,
            ;
            let base = (y * WIDTH + x) * 3;
            self.data.set(base, rgb.0);
            self.data.set(base + 1, rgb.1);
            self.data.set(base + 2, rgb.2);
            assert forall|qx: int, qy: int| #[trigger] in_frame(qx, qy) implies frame_pixel(self.data@, qx, qy)
                == if qx == x && qy == y { rgb } else { frame_pixel(old(self).data@, qx, qy) } by {
                assert(0 <= pixel_offset(qx, qy) && pixel_offset(qx, qy) + 2 < WIDTH * HEIGHT * 3) by (nonlinear_arith)
                    requires
                        in_frame(qx, qy),
                ;
            }
        }
    }

    /// The colour of pixel (`x`, `y`).
    pub fn get_pixel(&self, x: usize, y: usize) -> (r: (u8, u8, u8))
        requires
            self.wf(),
            x < WIDTH,
            y < HEIGHT,
        ensures
            r == (self.data@[pixel_offset(x as int, y as int)],
                self.data@[pixel_offset(x as int, y as int) + 1],
                self.data@[pixel_offset(x as int, y as int) + 2]),
    {
        assert(pixel_offset(x as int, y as int) + 2 < WIDTH * HEIGHT * 3) by (nonlinear_arith)
            requires
                x < WIDTH,
                y < HEIGHT,
        ;
        let base = (y * WIDTH + x) * 3;
        (self.data[base], self.data[base + 1], self.data[base + 2])
    }
}

/// The console's fixed 64-colour table, by index.
pub open spec fn system_color(i: u8) -> (u8, u8, u8) {
    match i % 64 {
        0 => (0x80, 0x80, 0x80),
        1 => (0x00, 0x3D, 0xA6),
        2 => (0x00, 0x12, 0xB0),
        3 => (0x44, 0x00, 0x96),
        4 => (0xA1, 0x00, 0x5E),
        5 => (0xC7, 0x00, 0x28),
        6 => (0xBA, 0x06, 0x00),
        7 => (0x8C, 0x17, 0x00),
        8 => (0x5C, 0x2F, 0x00),
        9 => (0x10, 0x45, 0x00),
        10 => (0x05, 0x4A, 0x00),
        11 => (0x00, 0x47, 0x2E),
        12 => (0x00, 0x41, 0x66),
        13 => (0x00, 0x00, 0x00),
        14 => (0x05, 0x05, 0x05),
        15 => (0x05, 0x05, 0x05),
        16 => (0xC7, 0xC7, 0xC7),
        17 => (0x00, 0x77, 0xFF),
        18 => (0x21, 0x55, 0xFF),
        19 => (0x82, 0x37, 0xFA),
        20 => (0xEB, 0x2F, 0xB5),
        21 => (0xFF, 0x29, 0x50),
        22 => (0xFF, 0x22, 0x00),
        23 => (0xD6, 0x32, 0x00),
        24 => (0xC4, 0x62, 0x00),
        25 => (0x35, 0x80, 0x00),
        26 => (0x05, 0x8F, 0x00),
        27 => (0x00, 0x8A, 0x55),
        28 => (0x00, 0x99, 0xCC),
        29 => (0x21, 0x21, 0x21),
        30 => (0x09, 0x09, 0x09),
        31 => (0x09, 0x09, 0x09),
        32 => (0xFF, 0xFF, 0xFF),
        33 => (0x0F, 0xD7, 0xFF),
        34 => (0x69, 0xA2, 0xFF),
        35 => (0xD4, 0x80, 0xFF),
        36 => (0xFF, 0x45, 0xF3),
        37 => (0xFF, 0x61, 0x8B),
        38 => (0xFF, 0x88, 0x33),
        39 => (0xFF, 0x9C, 0x12),
        40 => (0xFA, 0xBC, 0x20),
        41 => (0x9F, 0xE3, 0x0E),
        42 => (0x2B, 0xF0, 0x35),
        43 => (0x0C, 0xF0, 0xA4),
        44 => (0x05, 0xFB, 0xFF),
        45 => (0x5E, 0x5E, 0x5E),
        46 => (0x0D, 0x0D, 0x0D),
        47 => (0x0D, 0x0D, 0x0D),
        48 => (0xFF, 0xFF, 0xFF),
        49 => (0xA6, 0xFC, 0xFF),
        50 => (0xB3, 0xEC, 0xFF),
        51 => (0xDA, 0xAB, 0xEB),
        52 => (0xFF, 0xA8, 0xF9),
        53 => (0xFF, 0xAB, 0xB3),
        54 => (0xFF, 0xD2, 0xB0),
        55 => (0xFF, 0xEF, 0xA6),
        56 => (0xFF, 0xF7, 0x9C),
        57 => (0xD7, 0xE8, 0x95),
        58 => (0xA6, 0xED, 0xAF),
        59 => (0xA2, 0xF2, 0xDA),
        60 => (0x99, 0xFF, 0xFC),
        61 => (0xDD, 0xDD, 0xDD),
        62 => (0x11, 0x11, 0x11),
        _ => (0x11, 0x11, 0x11),
    }
}

/// The colour of an index into the fixed table; palette memory holds six bits, so
/// only the low six bits of `i` count.
pub fn system_palette(i: u8) -> (r: (u8, u8, u8))
    ensures
        r == system_color(i),
{
    match i % 64 {
        0 => (0x80, 0x80, 0x80),
        1 => (0x00, 0x3D, 0xA6),
        2 => (0x00, 0x12, 0xB0),
        3 => (0x44, 0x00, 0x96),
        4 => (0xA1, 0x00, 0x5E),
        5 => (0xC7, 0x00, 0x28),
        6 => (0xBA, 0x06, 0x00),
        7 => (0x8C, 0x17, 0x00),
        8 => (0x5C, 0x2F, 0x00),
        9 => (0x10, 0x45, 0x00),
        10 => (0x05, 0x4A, 0x00),
        11 => (0x00, 0x47, 0x2E),
        12 => (0x00, 0x41, 0x66),
        13 => (0x00, 0x00, 0x00),
        14 => (0x05, 0x05, 0x05),
        15 => (0x05, 0x05, 0x05),
        16 => (0xC7, 0xC7, 0xC7),
        17 => (0x00, 0x77, 0xFF),
        18 => (0x21, 0x55, 0xFF),
        19 => (0x82, 0x37, 0xFA),
        20 => (0xEB, 0x2F, 0xB5),
        21 => (0xFF, 0x29, 0x50),
        22 => (0xFF, 0x22, 0x00),
        23 => (0xD6, 0x32, 0x00),
        24 => (0xC4, 0x62, 0x00),
        25 => (0x35, 0x80, 0x00),
        26 => (0x05, 0x8F, 0x00),
        27 => (0x00, 0x8A, 0x55),
        28 => (0x00, 0x99, 0xCC),
        29 => (0x21, 0x21, 0x21),
        30 => (0x09, 0x09, 0x09),
        31 => (0x09, 0x09, 0x09),
        32 => (0xFF, 0xFF, 0xFF),
        33 => (0x0F, 0xD7, 0xFF),
        34 => (0x69, 0xA2, 0xFF),
        35 => (0xD4, 0x80, 0xFF),
        36 => (0xFF, 0x45, 0xF3),
        37 => (0xFF, 0x61, 0x8B),
        38 => (0xFF, 0x88, 0x33),
        39 => (0xFF, 0x9C, 0x12),
        40 => (0xFA, 0xBC, 0x20),
        41 => (0x9F, 0xE3, 0x0E),
        42 => (0x2B, 0xF0, 0x35),
        43 => (0x0C, 0xF0, 0xA4),
        44 => (0x05, 0xFB, 0xFF),
        45 => (0x5E, 0x5E, 0x5E),
        46 => (0x0D, 0x0D, 0x0D),
        47 => (0x0D, 0x0D, 0x0D),
        48 => (0xFF, 0xFF, 0xFF),
        49 => (0xA6, 0xFC, 0xFF),
        50 => (0xB3, 0xEC, 0xFF),
        51 => (0xDA, 0xAB, 0xEB),
        52 => (0xFF, 0xA8, 0xF9),
        53 => (0xFF, 0xAB, 0xB3),
        54 => (0xFF, 0xD2, 0xB0),
        55 => (0xFF, 0xEF, 0xA6),
        56 => (0xFF, 0xF7, 0x9C),
        57 => (0xD7, 0xE8, 0x95),
        58 => (0xA6, 0xED, 0xAF),
        59 => (0xA2, 0xF2, 0xDA),
        60 => (0x99, 0xFF, 0xFC),
        61 => (0xDD, 0xDD, 0xDD),
        62 => (0x11, 0x11, 0x11),
        _ => (0x11, 0x11, 0x11),
    }
}

} // verus!

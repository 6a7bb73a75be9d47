//! The video chip as the rest of the machine sees it: two registers, a
//! raster position that advances with the video clock, and the blanking and
//! end-of-frame signals that the position produces. Drawing is not done
//! here; command words are latched for whoever renders.

use vstd::prelude::*;

verus! {

/// The size of video memory in halfwords: 1024 columns by 512 rows.
pub const VRAM_SIZE: usize = 0x8_0000;

/// Video clock cycles in one scanline.
pub const CYCLES_PER_LINE: u32 = 3413;

/// Scanlines in one frame, blanking included.
pub const LINES_PER_FRAME: u32 = 263;

/// The first scanline of the vertical blanking interval.
pub const VBLANK_LINE: u32 = 240;

/// GPUSTAT after a reset: ready for a command word, ready to send video
/// memory, ready for a transfer block.
pub const STATUS_READY: u32 = 0x1C00_0000;

/// The size of the displayed picture in pixels.
#[derive(Clone, Copy, Debug, PartialEq, Eq)]
pub struct Resolution {
    pub width: u32,
    pub height: u32,
}

/// Everything in the video chip but video memory.
#[derive(Clone, Copy, Debug, PartialEq, Eq)]
pub struct GpuState {
    /// GPUSTAT, the word read at GP1.
    pub status: u32,
    /// GPUREAD, the word read at GP0.
    pub read: u32,
    /// The last word written to GP0.
    pub gp0: u32,
    /// The last word written to GP1.
    pub gp1: u32,
    /// The cycle within the scanline, below `CYCLES_PER_LINE`.
    pub dot: u32,
    /// The scanline within the frame, below `LINES_PER_FRAME`.
    pub line: u32,
    /// Vertical blanking began and nobody has consumed the event yet.
    pub vblank: bool,
    /// A scanline ended and nobody has consumed the event yet.
    pub hblank: bool,
    /// The last cycle was the one that completed the picture.
    pub frame_done: bool,
    /// The size of the displayed picture.
    pub resolution: Resolution,
}

impl GpuState {
    /// The raster position lies inside the frame.
    pub open spec fn wf(self) -> bool {
        self.dot < CYCLES_PER_LINE && self.line < LINES_PER_FRAME
    }

    /// The state after a reset: top left of the frame, no event outstanding,
    /// registers at their reset values, a picture of 320 by 240.
    pub open spec fn initial() -> GpuState {
        GpuState {
            status: STATUS_READY,
            read: 0,
            gp0: 0,
            gp1: 0,
            dot: 0,
            line: 0,
            vblank: false,
            hblank: false,
            frame_done: false,
            resolution: Resolution { width: 320, height: 240 },
        }
    }

    /// The scanline that follows `line`.
    pub open spec fn next_line(line: u32) -> u32 {
        if line + 1 < LINES_PER_FRAME {
            (line + 1) as u32
        } else {
            0
        }
    }

    /// The state one video clock cycle later. Inside a scanline only the
    /// position moves. At the end of a scanline the horizontal blanking event
    /// is raised; where the new scanline is `VBLANK_LINE`, the vertical one is
    /// raised too and the picture is complete. `frame_done` holds for that
    /// one cycle only.
    pub open spec fn ticked(self) -> GpuState {
        if self.dot + 1 < CYCLES_PER_LINE {
            GpuState { dot: (self.dot + 1) as u32, frame_done: false, ..self }
        } else {
            let line = Self::next_line(self.line);
            GpuState {
                dot: 0,
                line,
                hblank: true,
                vblank: self.vblank || line == VBLANK_LINE,
                frame_done: line == VBLANK_LINE,
                ..self
            }
        }
    }

    /// The number of cycles after which `frame_done` next becomes true.
    pub open spec fn cycles_to_frame_end(self) -> int {
        if self.line < VBLANK_LINE {
            (VBLANK_LINE - self.line) * CYCLES_PER_LINE - self.dot
        } else {
            (LINES_PER_FRAME - self.line + VBLANK_LINE) * CYCLES_PER_LINE - self.dot
        }
    }
}

/// A cycle either completes the picture or brings its completion one cycle
/// nearer; the distance is never below one.
pub proof fn lemma_tick_approaches_frame_end(s: GpuState)
    requires
        s.wf(),
    ensures
        s.ticked().wf(),
        s.cycles_to_frame_end() >= 1,
        s.ticked().frame_done <==> s.cycles_to_frame_end() == 1,
        !s.ticked().frame_done ==> s.ticked().cycles_to_frame_end() == s.cycles_to_frame_end() - 1,
{
}

/// The mathematical view of the video chip.
pub struct GpuView {
    pub vram: Seq<u16>,
    pub state: GpuState,
}

/// The video chip.
pub struct Gpu {
    pub vram: Vec<u16>,
    pub state: GpuState,
}

impl View for Gpu {
    type V = GpuView;

    open spec fn view(&self) -> GpuView {
        GpuView { vram: self.vram@, state: self.state }
    }
}

impl Gpu {
    /// Video memory has its full size and the raster position lies inside
    /// the frame.
    pub open spec fn wf(&self) -> bool {
        self.vram@.len() == VRAM_SIZE && self.state.wf()
    }

    /// A video chip in its reset state with video memory cleared.
    pub fn new() -> (g: Gpu)
        ensures
            g.wf(),
            g.state == GpuState::initial(),
            forall|i: int| 0 <= i < VRAM_SIZE ==> g.vram@[i] == 0,
    {
        Gpu {
            vram: vec![0u16; VRAM_SIZE],
            state: GpuState {
                status: STATUS_READY,
                read: 0,
                gp0: 0,
                gp1: 0,
                dot: 0,
                line: 0,
                vblank: false,
                hblank: false,
                frame_done: false,
                resolution: Resolution { width: 320, height: 240 },
            },
        }
    }

    /// Returns the chip to its reset state. Video memory keeps its contents.
    pub fn reset(&mut self)
        ensures
            final(self).state == GpuState::initial(),
            final(self).vram == old(self).vram,
    {
        self.state = GpuState {
            status: STATUS_READY,
            read: 0,
            gp0: 0,
            gp1: 0,
            dot: 0,
            line: 0,
            vblank: false,
            hblank: false,
            frame_done: false,
            resolution: Resolution { width: 320, height: 240 },
        };
    }

    /// Advances the chip by one video clock cycle.
    pub fn execute_cycle(&mut self)
        requires
            old(self).wf(),
        ensures
            final(self).wf(),
            final(self).state == old(self).state.ticked(),
            final(self).vram == old(self).vram,
    {
        if self.state.dot + 1 < CYCLES_PER_LINE {
            self.state.dot = self.state.dot + 1;
            self.state.frame_done = false;
        } else {
            let line = if self.state.line + 1 < LINES_PER_FRAME {
                self.state.line + 1
            } else {
                0
            };
            self.state.dot = 0;
            self.state.line = line;
            self.state.hblank = true;
            self.state.vblank = self.state.vblank || line == VBLANK_LINE;
            self.state.frame_done = line == VBLANK_LINE;
        }
    }

    /// Whether vertical blanking began since the last call; the event is
    /// consumed.
    pub fn consume_vblank(&mut self) -> (r: bool)
        ensures
            r == old(self).state.vblank,
            final(self).state == (GpuState { vblank: false, ..old(self).state }),
            final(self).vram == old(self).vram,
    {
        let r = self.state.vblank;
        self.state.vblank = false;
        r
    }

    /// Whether a scanline ended since the last call; the event is consumed.
    pub fn consume_hblank(&mut self) -> (r: bool)
        ensures
            r == old(self).state.hblank,
            final(self).state == (GpuState { hblank: false, ..old(self).state }),
            final(self).vram == old(self).vram,
    {
        let r = self.state.hblank;
        self.state.hblank = false;
        r
    }

    /// Whether the last cycle completed the picture.
    pub fn end_of_frame(&self) -> (r: bool)
        ensures
            r == self.state.frame_done,
    {
        self.state.frame_done
    }

    /// A read of GP0: GPUREAD.
    pub fn read_word_gp0(&self) -> (r: u32)
        ensures
            r == self.state.read,
    {
        self.state.read
    }

    /// A read of GP1: GPUSTAT.
    pub fn read_status_register(&self) -> (r: u32)
        ensures
            r == self.state.status,
    {
        self.state.status
    }

    /// A write to GP0: the word is latched.
    pub fn send_gp0_command(&mut self, word: u32)
        ensures
            final(self).state == (GpuState { gp0: word, ..old(self).state }),
            final(self).vram == old(self).vram,
    {
        self.state.gp0 = word;
    }

    /// A write to GP1: the word is latched.
    pub fn send_gp1_command(&mut self, word: u32)
        ensures
            final(self).state == (GpuState { gp1: word, ..old(self).state }),
            final(self).vram == old(self).vram,
    {
        self.state.gp1 = word;
    }

    /// Video memory, row by row.
    pub fn get_vram(&self) -> (r: &Vec<u16>)
        ensures
            r@ == self.vram@,
    {
        &self.vram
    }

    /// The size of the displayed picture.
    pub fn resolution(&self) -> (r: Resolution)
        ensures
            r == self.state.resolution,
    {
        self.state.resolution
    }
}

} // verus!

//! Register banks and plane memory of the emulated adapter.
//!
//! Four register banks (General, CRT, Graphics Controller, Sequencer) each
//! map a small closed set of register identifiers to an 8-bit value, and
//! four parallel byte planes hold the display memory. A single linear
//! offset addresses the same position in every plane.

use vstd::prelude::*;

verus! {

/// Number of memory planes.
pub const PLANE_COUNT: usize = 4;

/// Bytes in each plane (the adapter's 64 KiB plane size).
pub const PLANE_SIZE: usize = 65536;

/// General (miscellaneous) registers.
#[derive(Clone, Copy, PartialEq, Eq, Structural, Debug)]
pub enum GeneralReg {
    MiscOutput,
    InputStatus0,
    InputStatus1,
}

pub const GENERAL_REG_COUNT: usize = 3;

/// CRT controller registers.
#[derive(Clone, Copy, PartialEq, Eq, Structural, Debug)]
pub enum CRTReg {
    StartAddressHigh,
    StartAddressLow,
    Offset,
}

pub const CRT_REG_COUNT: usize = 3;

/// Graphics controller registers.
#[derive(Clone, Copy, PartialEq, Eq, Structural, Debug)]
pub enum GCReg {
    ReadMapSelect,
    GraphicsMode,
    BitMask,
}

pub const GC_REG_COUNT: usize = 3;

/// Sequencer registers.
#[derive(Clone, Copy, PartialEq, Eq, Structural, Debug)]
pub enum SCReg {
    Reset,
    ClockingMode,
    MapMask,
    MemoryMode,
}

pub const SC_REG_COUNT: usize = 4;

/// Error raised by a memory access that falls outside the planes.
#[derive(Clone, Copy, PartialEq, Eq, Structural, Debug)]
pub enum MemError {
    OutOfBounds,
}

pub open spec fn general_index_spec(r: GeneralReg) -> int {
    match r {
        GeneralReg::MiscOutput => 0,
        GeneralReg::InputStatus0 => 1,
        GeneralReg::InputStatus1 => 2,
    }
}

pub open spec fn crt_index_spec(r: CRTReg) -> int {
    match r {
        CRTReg::StartAddressHigh => 0,
        CRTReg::StartAddressLow => 1,
        CRTReg::Offset => 2,
    }
}

pub open spec fn gc_index_spec(r: GCReg) -> int {
    match r {
        GCReg::ReadMapSelect => 0,
        GCReg::GraphicsMode => 1,
        GCReg::BitMask => 2,
    }
}

pub open spec fn sc_index_spec(r: SCReg) -> int {
    match r {
        SCReg::Reset => 0,
        SCReg::ClockingMode => 1,
        SCReg::MapMask => 2,
        SCReg::MemoryMode => 3,
    }
}

fn general_index(r: GeneralReg) -> (i: usize)
    ensures
        i == general_index_spec(r),
        i < GENERAL_REG_COUNT,
{
    match r {
        GeneralReg::MiscOutput => 0,
        GeneralReg::InputStatus0 => 1,
        GeneralReg::InputStatus1 => 2,
    }
}

fn crt_index(r: CRTReg) -> (i: usize)
    ensures
        i == crt_index_spec(r),
        i < CRT_REG_COUNT,
{
    match r {
        CRTReg::StartAddressHigh => 0,
        CRTReg::StartAddressLow => 1,
        CRTReg::Offset => 2,
    }
}

fn gc_index(r: GCReg) -> (i: usize)
    ensures
        i == gc_index_spec(r),
        i < GC_REG_COUNT,
{
    match r {
        GCReg::ReadMapSelect => 0,
        GCReg::GraphicsMode => 1,
        GCReg::BitMask => 2,
    }
}

fn sc_index(r: SCReg) -> (i: usize)
    ensures
        i == sc_index_spec(r),
        i < SC_REG_COUNT,
{
    match r {
        SCReg::Reset => 0,
        SCReg::ClockingMode => 1,
        SCReg::MapMask => 2,
        SCReg::MemoryMode => 3,
    }
}

/// True when Map-Mask value `mask` selects plane `p` (bit `p` of `mask` set).
pub open spec fn mask_selects(mask: u8, p: int) -> bool {
    (mask >> (p as u8)) & 1u8 == 1u8
}

/// The adapter: four register banks, the current video mode, and the
/// four byte planes of display memory.
pub struct VGA {
    pub video_mode: u8,
    pub general_reg: Vec<u8>,
    pub crt_reg: Vec<u8>,
    pub gc_reg: Vec<u8>,
    pub sc_reg: Vec<u8>,
    pub planes: Vec<Vec<u8>>,
}

impl VGA {
    /// Well-formedness: every bank holds one byte per identifier and all
    /// four planes have the full plane length.
    pub open spec fn wf(self) -> bool {
        &&& self.general_reg@.len() == GENERAL_REG_COUNT
        &&& self.crt_reg@.len() == CRT_REG_COUNT
        &&& self.gc_reg@.len() == GC_REG_COUNT
        &&& self.sc_reg@.len() == SC_REG_COUNT
        &&& self.planes@.len() == PLANE_COUNT
        &&& forall|p: int| 0 <= p < PLANE_COUNT ==> (#[trigger] self.planes@[p])@.len() == PLANE_SIZE
    }

    /// The contents of plane `p` as a byte sequence.
    pub open spec fn plane(self, p: int) -> Seq<u8> {
        self.planes@[p]@
    }

    /// Current Sequencer Map-Mask value.
    pub open spec fn map_mask(self) -> u8 {
        self.sc_reg@[sc_index_spec(SCReg::MapMask)]
    }

    /// All registers and the video mode agree with `other`; only plane
    /// memory may differ.
    pub open spec fn regs_unchanged_from(self, other: VGA) -> bool {
        &&& self.video_mode == other.video_mode
        &&& self.general_reg == other.general_reg
        &&& self.crt_reg == other.crt_reg
        &&& self.gc_reg == other.gc_reg
        &&& self.sc_reg == other.sc_reg
    }

    /// Plane memory agrees with `other`.
    pub open spec fn planes_unchanged_from(self, other: VGA) -> bool {
        self.planes == other.planes
    }

    pub fn get_video_mode(&self) -> (m: u8)
        ensures
            m == self.video_mode,
    {
        self.video_mode
    }

    pub fn get_general_reg(&self, r: GeneralReg) -> (v: u8)
        requires
            self.wf(),
        ensures
            v == self.general_reg@[general_index_spec(r)],
    {
        let i = general_index(r);
        self.general_reg[i]
    }

    pub fn set_general_reg(&mut self, r: GeneralReg, v: u8)
        requires
            old(self).wf(),
        ensures
            final(self).wf(),
            final(self).general_reg@ == old(self).general_reg@.update(general_index_spec(r), v),
            final(self).video_mode == old(self).video_mode,
            final(self).crt_reg == old(self).crt_reg,
            final(self).gc_reg == old(self).gc_reg,
            final(self).sc_reg == old(self).sc_reg,
            final(self).planes_unchanged_from(*old(self)),
    {
        let i = general_index(r);
        self.general_reg[i] = v;
    }

    pub fn get_crt_data(&self, r: CRTReg) -> (v: u8)
        requires
            self.wf(),
        ensures
            v == self.crt_reg@[crt_index_spec(r)],
    {
        let i = crt_index(r);
        self.crt_reg[i]
    }

    pub fn set_crt_data(&mut self, r: CRTReg, v: u8)
        requires
            old(self).wf(),
        ensures
            final(self).wf(),
            final(self).crt_reg@ == old(self).crt_reg@.update(crt_index_spec(r), v),
            final(self).video_mode == old(self).video_mode,
            final(self).general_reg == old(self).general_reg,
            final(self).gc_reg == old(self).gc_reg,
            final(self).sc_reg == old(self).sc_reg,
            final(self).planes_unchanged_from(*old(self)),
    {
        let i = crt_index(r);
        self.crt_reg[i] = v;
    }

    pub fn get_gc_data(&self, r: GCReg) -> (v: u8)
        requires
            self.wf(),
        ensures
            v == self.gc_reg@[gc_index_spec(r)],
    {
        let i = gc_index(r);
        self.gc_reg[i]
    }

    pub fn set_gc_data(&mut self, r: GCReg, v: u8)
        requires
            old(self).wf(),
        ensures
            final(self).wf(),
            final(self).gc_reg@ == old(self).gc_reg@.update(gc_index_spec(r), v),
            final(self).video_mode == old(self).video_mode,
            final(self).general_reg == old(self).general_reg,
            final(self).crt_reg == old(self).crt_reg,
            final(self).sc_reg == old(self).sc_reg,
            final(self).planes_unchanged_from(*old(self)),
    {
        let i = gc_index(r);
        self.gc_reg[i] = v;
    }

    pub fn get_sc_data(&self, r: SCReg) -> (v: u8)
        requires
            self.wf(),
        ensures
            v == self.sc_reg@[sc_index_spec(r)],
    {
        let i = sc_index(r);
        self.sc_reg[i]
    }

    pub fn set_sc_data(&mut self, r: SCReg, v: u8)
        requires
            old(self).wf(),
        ensures
            final(self).wf(),
            final(self).sc_reg@ == old(self).sc_reg@.update(sc_index_spec(r), v),
            final(self).video_mode == old(self).video_mode,
            final(self).general_reg == old(self).general_reg,
            final(self).crt_reg == old(self).crt_reg,
            final(self).gc_reg == old(self).gc_reg,
            final(self).planes_unchanged_from(*old(self)),
    {
        let i = sc_index(r);
        self.sc_reg[i] = v;
    }

    /// Read the byte of plane `plane` at linear offset `offset`.
    pub fn raw_read_mem(&self, plane: usize, offset: usize) -> (v: u8)
        requires
            self.wf(),
            plane < PLANE_COUNT,
            offset < PLANE_SIZE,
        ensures
            v == self.plane(plane as int)[offset as int],
    {
        self.planes[plane][offset]
    }
}

impl VGA {
    /// The byte sequence of plane `p` after a single masked write of `v`
    /// at `offset`: updated when the mask selects `p`, unchanged otherwise.
    pub open spec fn plane_after_write(self, p: int, offset: int, v: u8) -> Seq<u8> {
        if mask_selects(self.map_mask(), p) {
            self.plane(p).update(offset, v)
        } else {
            self.plane(p)
        }
    }

    /// Write one byte through the addressing policy: the byte lands at
    /// `offset` in exactly the planes selected by the current Map-Mask;
    /// every other plane byte is left unchanged. An offset beyond the
    /// plane length is rejected and nothing is modified.
    pub fn write_mem(&mut self, offset: usize, v: u8) -> (r: Result<(), MemError>)
        requires
            old(self).wf(),
        ensures
            final(self).wf(),
            final(self).regs_unchanged_from(*old(self)),
            offset < PLANE_SIZE ==> {
                &&& r is Ok
                &&& forall|p: int| 0 <= p < PLANE_COUNT
                    ==> final(self).plane(p) == old(self).plane_after_write(p, offset as int, v)
            },
            offset >= PLANE_SIZE ==> {
                &&& r == Result::<(), MemError>::Err(MemError::OutOfBounds)
                &&& *final(self) == *old(self)
            },
    {
        if offset >= PLANE_SIZE {
            return Err(MemError::OutOfBounds);
        }
        let mask = self.get_sc_data(SCReg::MapMask);
        proof {
            lemma_mask_bits(mask);
        }
        if mask & 0x01 != 0 {
            self.planes[0][offset] = v;
        }
        if mask & 0x02 != 0 {
            self.planes[1][offset] = v;
        }
        if mask & 0x04 != 0 {
            self.planes[2][offset] = v;
        }
        if mask & 0x08 != 0 {
            self.planes[3][offset] = v;
        }
        proof {
            assert forall|p: int| 0 <= p < PLANE_COUNT
                implies final(self).plane(p) == old(self).plane_after_write(p, offset as int, v) by {
                assert(p == 0 || p == 1 || p == 2 || p == 3);
            }
        }
        Ok(())
    }

    /// Write a chunk of bytes at consecutive offsets, each filtered by the
    /// current Map-Mask exactly as a single-byte write would be. A chunk
    /// that would run past the end of the planes is rejected whole.
    pub fn write_mem_chunk(&mut self, offset: usize, data: &Vec<u8>) -> (r: Result<(), MemError>)
        requires
            old(self).wf(),
        ensures
            final(self).wf(),
            final(self).regs_unchanged_from(*old(self)),
            offset + data@.len() <= PLANE_SIZE ==> {
                &&& r is Ok
                &&& forall|p: int, j: int|
                    0 <= p < PLANE_COUNT && 0 <= j < PLANE_SIZE
                        ==> #[trigger] final(self).plane(p)[j] == (
                            if mask_selects(old(self).map_mask(), p)
                                && offset <= j < offset + data@.len() {
                                data@[j - offset]
                            } else {
                                old(self).plane(p)[j]
                            })
            },
            offset + data@.len() > PLANE_SIZE ==> {
                &&& r == Result::<(), MemError>::Err(MemError::OutOfBounds)
                &&& *final(self) == *old(self)
            },
    {
        if data.len() > PLANE_SIZE || offset > PLANE_SIZE - data.len() {
            return Err(MemError::OutOfBounds);
        }
        let ghost orig = *self;
        let mut i: usize = 0;
        while i < data.len()
            invariant
                self.wf(),
                orig.wf(),
                self.regs_unchanged_from(orig),
                i <= data@.len(),
                offset + data@.len() <= PLANE_SIZE,
                forall|p: int| 0 <= p < PLANE_COUNT ==> #[trigger] self.plane(p).len() == PLANE_SIZE,
                forall|p: int, j: int|
                    0 <= p < PLANE_COUNT && 0 <= j < PLANE_SIZE
                        ==> #[trigger] self.plane(p)[j] == (
                            if mask_selects(orig.map_mask(), p) && offset <= j < offset + i {
                                data@[j - offset]
                            } else {
                                orig.plane(p)[j]
                            }),
            decreases data@.len() - i,
        {
            let res = self.write_mem(offset + i, data[i]);
            proof {
                assert(res is Ok);
            }
            i += 1;
        }
        Ok(())
    }
}

/// Bit tests of the four low mask bits agree with `mask_selects`.
proof fn lemma_mask_bits(mask: u8)
    by (bit_vector)
    ensures
        (mask & 0x01 != 0) == ((mask >> 0u8) & 1u8 == 1u8),
        (mask & 0x02 != 0) == ((mask >> 1u8) & 1u8 == 1u8),
        (mask & 0x04 != 0) == ((mask >> 2u8) & 1u8 == 1u8),
        (mask & 0x08 != 0) == ((mask >> 3u8) & 1u8 == 1u8),
{
}

fn zero_vec(n: usize) -> (v: Vec<u8>)
    ensures
        v@.len() == n,
        forall|i: int| 0 <= i < n ==> v@[i] == 0u8,
{
    let mut v: Vec<u8> = Vec::new();
    let mut i: usize = 0;
    while i < n
        invariant
            i <= n,
            v@.len() == i,
            forall|j: int| 0 <= j < i ==> v@[j] == 0u8,
        decreases n - i,
    {
        v.push(0u8);
        i += 1;
    }
    v
}

/// Create an adapter in video mode `mode` with all registers and all
/// plane memory zeroed.
pub fn new(mode: u8) -> (vga: VGA)
    ensures
        vga.wf(),
        vga.video_mode == mode,
        forall|i: int| 0 <= i < GENERAL_REG_COUNT ==> vga.general_reg@[i] == 0u8,
        forall|i: int| 0 <= i < CRT_REG_COUNT ==> vga.crt_reg@[i] == 0u8,
        forall|i: int| 0 <= i < GC_REG_COUNT ==> vga.gc_reg@[i] == 0u8,
        forall|i: int| 0 <= i < SC_REG_COUNT ==> vga.sc_reg@[i] == 0u8,
        forall|p: int, j: int| 0 <= p < PLANE_COUNT && 0 <= j < PLANE_SIZE ==> vga.plane(p)[j] == 0u8,
{
    let mut planes: Vec<Vec<u8>> = Vec::new();
    let mut p: usize = 0;
    while p < PLANE_COUNT
        invariant
            p <= PLANE_COUNT,
            planes@.len() == p,
            forall|q: int| 0 <= q < p ==> (#[trigger] planes@[q])@.len() == PLANE_SIZE,
            forall|q: int, j: int| 0 <= q < p && 0 <= j < PLANE_SIZE ==> planes@[q]@[j] == 0u8,
        decreases PLANE_COUNT - p,
    {
        planes.push(zero_vec(PLANE_SIZE));
        p += 1;
    }
    VGA {
        video_mode: mode,
        general_reg: zero_vec(GENERAL_REG_COUNT),
        crt_reg: zero_vec(CRT_REG_COUNT),
        gc_reg: zero_vec(GC_REG_COUNT),
        sc_reg: zero_vec(SC_REG_COUNT),
        planes,
    }
}

} // verus!

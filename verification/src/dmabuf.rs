//! The exchange aggregate: an immutable, validated, multi-plane DMA buffer,
//! and the builder that assembles one from accumulated planes.

use vstd::prelude::*;

use crate::format::{DmabufFlags, Format, Fourcc, Modifier};

verus! {

/// One memory plane of a buffer: an owned descriptor for the backing region
/// plus the plane's position, byte layout and layout modifier.
///
/// The descriptor is an operating-system handle held as a plain integer; the
/// surrounding host owns it and must close it exactly once. On every failing
/// path of this library the plane (and so the descriptor) is handed back to
/// the caller unchanged, never silently dropped.
#[derive(Clone, Copy, Debug, PartialEq, Eq, Structural)]
pub struct Plane {
    /// Descriptor of the memory region backing this plane.
    pub fd: i32,
    /// Position of this plane within the buffer, 0-based.
    pub plane_idx: u32,
    /// Byte offset of the plane's first row inside the region.
    pub offset: u32,
    /// Bytes from one row of the plane to the next.
    pub stride: u32,
    /// Layout modifier this plane was announced with.
    pub modifier: Modifier,
}

/// An exchange-ready buffer: positive dimensions, a pixel-layout code, flags,
/// and one to four planes whose indices run contiguously from zero.
#[derive(Debug)]
pub struct Dmabuf {
    pub width: u32,
    pub height: u32,
    pub code: Fourcc,
    pub flags: DmabufFlags,
    pub planes: Vec<Plane>,
}

impl Dmabuf {
    /// The structural invariant every built buffer satisfies: positive
    /// dimensions and 1 to 4 planes, indexed contiguously from zero.
    pub open spec fn wf(self) -> bool {
        &&& 1 <= self.width
        &&& 1 <= self.height
        &&& 1 <= self.planes@.len() <= crate::MAX_PLANES
        &&& forall|i: int|
            0 <= i < self.planes@.len() ==> #[trigger] self.planes@[i].plane_idx == i as u32
    }

    /// The buffer's negotiated format: its layout code paired with the
    /// modifier its first plane was announced with.
    pub open spec fn spec_format(self) -> Format
        recommends
            self.planes@.len() >= 1,
    {
        Format { code: self.code, modifier: self.planes@[0].modifier }
    }

    pub fn format(&self) -> (r: Format)
        requires
            self.planes@.len() >= 1,
        ensures
            r == self.spec_format(),
    {
        Format { code: self.code, modifier: self.planes[0].modifier }
    }

    /// Whether the buffer carries an explicit (non-sentinel) layout modifier.
    pub fn has_modifier(&self) -> (r: bool)
        requires
            self.planes@.len() >= 1,
        ensures
            r == self.spec_format().modifier.spec_is_explicit(),
    {
        self.planes[0].modifier.is_explicit()
    }

    pub fn num_planes(&self) -> (r: usize)
        ensures
            r == self.planes@.len(),
    {
        self.planes.len()
    }
}

/// Accumulates planes and metadata, then assembles an immutable [`Dmabuf`].
///
/// Assembly does not re-check memory bounds — that is the validator's duty —
/// but it does refuse a buffer that would break the structural invariant:
/// zero planes, more than four, a gap in the plane indices, or non-positive
/// dimensions.
pub struct DmabufBuilder {
    pub width: u32,
    pub height: u32,
    pub code: Fourcc,
    pub flags: DmabufFlags,
    pub planes: Vec<Plane>,
}

impl DmabufBuilder {
    pub fn new(width: u32, height: u32, code: Fourcc, flags: DmabufFlags) -> (r: DmabufBuilder)
        ensures
            r.width == width,
            r.height == height,
            r.code == code,
            r.flags == flags,
            r.planes@ =~= Seq::<Plane>::empty(),
    {
        DmabufBuilder { width, height, code, flags, planes: Vec::new() }
    }

    pub fn add_plane(&mut self, fd: i32, plane_idx: u32, offset: u32, stride: u32, modifier: Modifier)
        ensures
            final(self).width == old(self).width,
            final(self).height == old(self).height,
            final(self).code == old(self).code,
            final(self).flags == old(self).flags,
            final(self).planes@ == old(self).planes@.push(
                Plane { fd, plane_idx, offset, stride, modifier },
            ),
    {
        self.planes.push(Plane { fd, plane_idx, offset, stride, modifier });
    }

    /// What a successful build hands out, stated field by field.
    pub open spec fn builds(self, b: Dmabuf) -> bool {
        &&& b.width == self.width
        &&& b.height == self.height
        &&& b.code == self.code
        &&& b.flags == self.flags
        &&& b.planes@ == self.planes@
    }

    /// Whether the accumulated planes satisfy the buffer invariant.
    pub open spec fn spec_can_build(self) -> bool {
        &&& 1 <= self.width
        &&& 1 <= self.height
        &&& 1 <= self.planes@.len() <= crate::MAX_PLANES
        &&& forall|i: int|
            0 <= i < self.planes@.len() ==> #[trigger] self.planes@[i].plane_idx == i as u32
    }

    /// Assembles the buffer, or refuses if the invariant would not hold.
    /// A buffer with zero planes is never constructible.
    pub fn build(self) -> (r: Option<Dmabuf>)
        ensures
            self.spec_can_build() <==> r is Some,
            r is Some ==> self.builds(r->0) && r->0.wf(),
    {
        if self.width < 1 || self.height < 1 {
            return None;
        }
        if self.planes.len() < 1 || self.planes.len() > crate::MAX_PLANES as usize {
            return None;
        }
        let mut i: usize = 0;
        while i < self.planes.len()
            invariant
                0 <= i <= self.planes@.len(),
                forall|j: int| 0 <= j < i ==> #[trigger] self.planes@[j].plane_idx == j as u32,
            decreases self.planes@.len() - i,
        {
            if self.planes[i].plane_idx != i as u32 {
                return None;
            }
            i += 1;
        }
        Some(
            Dmabuf {
                width: self.width,
                height: self.height,
                code: self.code,
                flags: self.flags,
                planes: self.planes,
            },
        )
    }
}

} // verus!

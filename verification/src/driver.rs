//! Adapters between the exchange aggregate and a driver's native buffer
//! objects: allocation policy, export (driver object to buffer) and import
//! (buffer to driver object).
//!
//! The driver itself is an external collaborator. What this core reads of a
//! driver buffer object is held as plain values in [`DriverBufferObject`];
//! the adapters decide, as verified logic, what to allocate, whether an
//! object is exportable, and which import primitive a buffer needs. The host
//! performs the driver calls these decisions describe.

use vstd::prelude::*;

use crate::dmabuf::{Dmabuf, DmabufBuilder, Plane};
use crate::format::{DmabufFlags, Format, Fourcc, Modifier};

verus! {

/// Errors during conversion of a driver buffer object to an exchange buffer.
#[derive(Clone, Copy, Debug, PartialEq, Eq, Structural)]
pub enum GbmConvertError {
    /// The device backing the buffer object was destroyed.
    DeviceDestroyed,
    /// The buffer's planes rest on multiple allocations, and only one
    /// descriptor can be exported for the whole object.
    UnsupportedBuffer,
    /// The conversion returned an invalid descriptor.
    InvalidFD,
}

/// What this core reads of a driver-native buffer object, as plain values:
/// dimensions, format, the one whole-object descriptor the driver can
/// export, and each plane's allocation handle, offset and stride. The host
/// queries the driver to fill this in; a query that fails on a torn-down
/// device surfaces as `DeviceDestroyed` there, before a value of this type
/// exists.
pub struct DriverBufferObject {
    pub width: u32,
    pub height: u32,
    pub code: Fourcc,
    pub modifier: Modifier,
    /// Descriptor for the whole object. The driver exports one per object,
    /// not one per plane; zero marks an invalid export.
    pub fd: i32,
    /// Each plane's underlying allocation handle.
    pub handles: Vec<u64>,
    pub offsets: Vec<u32>,
    pub strides: Vec<u32>,
}

impl DriverBufferObject {
    /// What the driver contract guarantees of a live object: positive
    /// dimensions and per-plane metadata of one common length, at most the
    /// plane maximum.
    pub open spec fn wf(self) -> bool {
        &&& 1 <= self.width
        &&& 1 <= self.height
        &&& self.offsets@.len() == self.handles@.len()
        &&& self.strides@.len() == self.handles@.len()
        &&& self.handles@.len() <= crate::MAX_PLANES
    }

    pub open spec fn spec_plane_count(self) -> nat {
        self.handles@.len()
    }

    pub fn width(&self) -> (r: u32)
        ensures
            r == self.width,
    {
        self.width
    }

    pub fn height(&self) -> (r: u32)
        ensures
            r == self.height,
    {
        self.height
    }

    /// The object's format: its layout code paired with its modifier.
    pub fn format(&self) -> (r: Format)
        ensures
            r == (Format { code: self.code, modifier: self.modifier }),
    {
        Format { code: self.code, modifier: self.modifier }
    }

    pub fn plane_count(&self) -> (r: usize)
        ensures
            r == self.spec_plane_count(),
    {
        self.handles.len()
    }

    /// Whether every plane rests on the same underlying allocation.
    pub open spec fn all_handles_equal(self) -> bool {
        forall|i: int|
            0 <= i < self.handles@.len() ==> #[trigger] self.handles@[i] == self.handles@[0]
    }

    /// The deterministic verdict of exporting this object: which conversion
    /// error, if any.
    pub open spec fn spec_export_err(self) -> Option<GbmConvertError> {
        if self.spec_plane_count() == 0 {
            Some(GbmConvertError::UnsupportedBuffer)
        } else if !self.all_handles_equal() {
            Some(GbmConvertError::UnsupportedBuffer)
        } else if self.fd == 0 {
            Some(GbmConvertError::InvalidFD)
        } else {
            None
        }
    }

    /// The exchange buffer a successful export hands out: the object's
    /// dimensions and format, no flags, and one plane entry per driver
    /// plane, all sharing the object's single descriptor.
    pub open spec fn exports_to(self, b: Dmabuf) -> bool {
        &&& b.width == self.width
        &&& b.height == self.height
        &&& b.code == self.code
        &&& b.flags == (DmabufFlags { y_invert: false, interlaced: false, bottom_first: false })
        &&& b.planes@ == Seq::new(
            self.spec_plane_count(),
            |i: int|
                Plane {
                    fd: self.fd,
                    plane_idx: i as u32,
                    offset: self.offsets@[i],
                    stride: self.strides@[i],
                    modifier: self.modifier,
                },
        )
    }

    /// Export adapter: turns a driver buffer object into the exchange
    /// aggregate. Only sound when all planes share one allocation, since
    /// only one whole-object descriptor can be obtained; that descriptor is
    /// then reused for every plane entry. A zero descriptor is invalid, and
    /// an object with no planes violates the driver contract and is refused
    /// defensively.
    pub fn export(&self) -> (r: Result<Dmabuf, GbmConvertError>)
        requires
            self.wf(),
        ensures
            match self.spec_export_err() {
                Some(e) => r == Err::<Dmabuf, GbmConvertError>(e),
                None => r matches Ok(b) && self.exports_to(b) && b.wf(),
            },
    {
        let n = self.handles.len();
        if n == 0 {
            return Err(GbmConvertError::UnsupportedBuffer);
        }
        let first = self.handles[0];
        let mut i: usize = 1;
        while i < n
            invariant
                1 <= i <= n,
                n == self.handles@.len(),
                first == self.handles@[0],
                forall|j: int| 0 <= j < i ==> #[trigger] self.handles@[j] == self.handles@[0],
            decreases n - i,
        {
            if self.handles[i] != first {
                return Err(GbmConvertError::UnsupportedBuffer);
            }
            i += 1;
        }
        if self.fd == 0 {
            return Err(GbmConvertError::InvalidFD);
        }
        let mut builder = DmabufBuilder::new(self.width, self.height, self.code, DmabufFlags::empty());
        let mut i: usize = 0;
        while i < n
            invariant
                self.wf(),
                i <= n,
                n == self.handles@.len(),
                builder.width == self.width,
                builder.height == self.height,
                builder.code == self.code,
                builder.flags == (DmabufFlags {
                    y_invert: false,
                    interlaced: false,
                    bottom_first: false,
                }),
                builder.planes@ =~= Seq::new(
                    i as nat,
                    |j: int|
                        Plane {
                            fd: self.fd,
                            plane_idx: j as u32,
                            offset: self.offsets@[j],
                            stride: self.strides@[j],
                            modifier: self.modifier,
                        },
                ),
            decreases n - i,
        {
            builder.add_plane(self.fd, i as u32, self.offsets[i], self.strides[i], self.modifier);
            i += 1;
        }
        match builder.build() {
            Some(b) => {
                proof {
                    assert(self.exports_to(b));
                }
                Ok(b)
            },
            None => {
                proof {
                    assert(builder.spec_can_build());
                }
                vstd::pervasive::unreached()
            },
        }
    }
}

/// Usage constraints a driver allocation or import is asked to satisfy.
#[derive(Clone, Copy, Debug, PartialEq, Eq, Structural)]
pub struct UsageFlags {
    /// The buffer may be put on screen directly.
    pub scanout: bool,
    /// The buffer may be rendered to.
    pub rendering: bool,
    /// The buffer must use the linear (untiled) layout.
    pub linear: bool,
}

/// Which driver allocation primitive to use.
#[derive(Clone, Copy, Debug, PartialEq, Eq, Structural)]
pub enum AllocationPath {
    /// Let the driver pick its own optimal layout under these usage flags.
    WithUsage(UsageFlags),
    /// Constrain creation to exactly this one modifier.
    WithModifier(Modifier),
}

/// A fully-decided request for a new driver buffer object.
#[derive(Clone, Copy, Debug, PartialEq, Eq, Structural)]
pub struct AllocationRequest {
    pub width: u32,
    pub height: u32,
    pub code: Fourcc,
    pub path: AllocationPath,
}

/// Allocator adapter policy: with no modifier preference, or with the linear
/// sentinel, ask through the usage-flag path (scanout and rendering, plus
/// linear only when explicitly linear), letting the driver pick its layout;
/// an explicit modifier constrains creation to exactly that modifier.
pub fn create_buffer(width: u32, height: u32, format: Format) -> (r: AllocationRequest)
    ensures
        r.width == width,
        r.height == height,
        r.code == format.code,
        r.path == (match format.modifier {
            Modifier::Invalid => AllocationPath::WithUsage(
                UsageFlags { scanout: true, rendering: true, linear: false },
            ),
            Modifier::Linear => AllocationPath::WithUsage(
                UsageFlags { scanout: true, rendering: true, linear: true },
            ),
            Modifier::Other(_) => AllocationPath::WithModifier(format.modifier),
        }),
{
    let path = match format.modifier {
        Modifier::Invalid => AllocationPath::WithUsage(
            UsageFlags { scanout: true, rendering: true, linear: false },
        ),
        Modifier::Linear => AllocationPath::WithUsage(
            UsageFlags { scanout: true, rendering: true, linear: true },
        ),
        Modifier::Other(_) => AllocationPath::WithModifier(format.modifier),
    };
    AllocationRequest { width, height, code: format.code, path }
}

/// The per-plane values in position, padded with a default to the
/// protocol-fixed array length the driver import expects.
pub open spec fn spec_padded<T>(values: Seq<T>, fill: T) -> Seq<T> {
    Seq::new(
        crate::MAX_PLANES as nat,
        |i: int| if i < values.len() { values[i] } else { fill },
    )
}

/// A fully-decided request for importing an exchange buffer into the driver.
#[derive(Debug)]
pub enum ImportRequest {
    /// The rich primitive: full per-plane arrays and the explicit modifier.
    WithModifiers {
        num_planes: u32,
        fds: Vec<i32>,
        width: u32,
        height: u32,
        code: Fourcc,
        usage: UsageFlags,
        strides: Vec<u32>,
        offsets: Vec<u32>,
        modifier: Modifier,
    },
    /// The simple single-plane primitive many drivers require for the
    /// common case.
    Simple { fd: i32, width: u32, height: u32, stride: u32, code: Fourcc, usage: UsageFlags },
}

impl Dmabuf {
    /// Whether importing this buffer needs the rich multi-plane primitive:
    /// an explicit modifier, more than one plane, or a first plane that does
    /// not start at the head of its region.
    pub open spec fn spec_uses_rich_import(self) -> bool
        recommends
            self.planes@.len() >= 1,
    {
        ||| self.spec_format().modifier is Other
        ||| self.planes@.len() > 1
        ||| self.planes@[0].offset != 0
    }

    /// The import request this buffer resolves to under the adapter policy.
    pub open spec fn imports_to(self, usage: UsageFlags, r: ImportRequest) -> bool
        recommends
            self.wf(),
    {
        if self.spec_uses_rich_import() {
            r matches ImportRequest::WithModifiers {
                num_planes,
                fds,
                width,
                height,
                code,
                usage: u,
                strides,
                offsets,
                modifier,
            } && {
                &&& num_planes == self.planes@.len() as u32
                &&& fds@ == spec_padded(self.planes@.map_values(|p: Plane| p.fd), 0i32)
                &&& width == self.width
                &&& height == self.height
                &&& code == self.code
                &&& u == usage
                &&& strides@ == spec_padded(self.planes@.map_values(|p: Plane| p.stride), 0u32)
                &&& offsets@ == spec_padded(self.planes@.map_values(|p: Plane| p.offset), 0u32)
                &&& modifier == self.spec_format().modifier
            }
        } else {
            r matches ImportRequest::Simple { fd, width, height, stride, code, usage: u } && {
                &&& fd == self.planes@[0].fd
                &&& width == self.width
                &&& height == self.height
                &&& stride == self.planes@[0].stride
                &&& code == self.code
                &&& u == (UsageFlags {
                    linear: usage.linear || self.spec_format().modifier is Linear,
                    scanout: usage.scanout,
                    rendering: usage.rendering,
                })
            }
        }
    }

    /// Import adapter: decides which driver import primitive this buffer
    /// needs and assembles its arguments. A buffer with an explicit
    /// modifier, several planes or a nonzero first offset takes the rich
    /// path; otherwise the simple path is used, with the linear usage flag
    /// added when the buffer's modifier is explicitly linear.
    pub fn import(&self, usage: UsageFlags) -> (r: ImportRequest)
        requires
            self.wf(),
        ensures
            self.imports_to(usage, r),
    {
        let mut fds: Vec<i32> = Vec::new();
        let mut strides: Vec<u32> = Vec::new();
        let mut offsets: Vec<u32> = Vec::new();
        let mut i: usize = 0;
        while i < crate::MAX_PLANES as usize
            invariant
                self.wf(),
                i <= crate::MAX_PLANES,
                fds@.len() == i,
                strides@.len() == i,
                offsets@.len() == i,
                forall|j: int|
                    0 <= j < i ==> #[trigger] fds@[j] == (if j < self.planes@.len() {
                        self.planes@[j].fd
                    } else {
                        0i32
                    }),
                forall|j: int|
                    0 <= j < i ==> #[trigger] strides@[j] == (if j < self.planes@.len() {
                        self.planes@[j].stride
                    } else {
                        0u32
                    }),
                forall|j: int|
                    0 <= j < i ==> #[trigger] offsets@[j] == (if j < self.planes@.len() {
                        self.planes@[j].offset
                    } else {
                        0u32
                    }),
            decreases crate::MAX_PLANES - i,
        {
            if i < self.planes.len() {
                let p = self.planes[i];
                fds.push(p.fd);
                strides.push(p.stride);
                offsets.push(p.offset);
            } else {
                fds.push(0);
                strides.push(0);
                offsets.push(0);
            }
            i += 1;
        }
        proof {
            assert(fds@ =~= spec_padded(self.planes@.map_values(|p: Plane| p.fd), 0i32));
            assert(strides@ =~= spec_padded(self.planes@.map_values(|p: Plane| p.stride), 0u32));
            assert(offsets@ =~= spec_padded(self.planes@.map_values(|p: Plane| p.offset), 0u32));
        }
        let first_offset_nonzero = self.planes[0].offset != 0;
        if self.has_modifier() || self.planes.len() > 1 || first_offset_nonzero {
            ImportRequest::WithModifiers {
                num_planes: self.planes.len() as u32,
                fds,
                width: self.width,
                height: self.height,
                code: self.code,
                usage,
                strides,
                offsets,
                modifier: self.planes[0].modifier,
            }
        } else {
            let linear = match self.planes[0].modifier {
                Modifier::Linear => true,
                _ => false,
            };
            ImportRequest::Simple {
                fd: self.planes[0].fd,
                width: self.width,
                height: self.height,
                stride: self.planes[0].stride,
                code: self.code,
                usage: UsageFlags {
                    linear: usage.linear || linear,
                    scanout: usage.scanout,
                    rendering: usage.rendering,
                },
            }
        }
    }
}

} // verus!

//! The per-request negotiation state machine and the buffer validator.
//!
//! A producer drives one [`ParamsState`] per buffer request: zero or more
//! `add` operations accumulate untrusted plane descriptors, then exactly one
//! terminal `create` or `create_immed` validates them, assembles the exchange
//! buffer and asks the consumer's validation callback for a verdict. A used
//! state refuses every further operation.

use vstd::prelude::*;

use crate::dmabuf::{Dmabuf, DmabufBuilder, Plane};
use crate::format::{DmabufFlags, Format, Fourcc, Modifier};

verus! {

/// Caller-caused protocol violations, reported to the offending connection
/// with a machine-readable code.
#[derive(Clone, Copy, Debug, PartialEq, Eq, Structural)]
pub enum ProtocolError {
    /// The negotiation object already issued its terminal operation.
    AlreadyUsed,
    /// A plane index at or beyond the fixed maximum.
    PlaneIdx,
    /// A plane index that was already added.
    PlaneSet,
    /// A terminal operation on a negotiation with zero planes.
    Incomplete,
    /// A layout code that is unknown or not advertised.
    InvalidFormat,
    /// A width or height below one.
    InvalidDimensions,
    /// Plane layout that overflows or escapes its backing region.
    OutOfBounds,
    /// An immediately created buffer turned out unusable; fatal, because the
    /// caller already holds the buffer's identity.
    InvalidWlBuffer,
}

impl ProtocolError {
    /// The machine-readable code of this violation on the wire.
    pub open spec fn spec_code(self) -> u32 {
        match self {
            ProtocolError::AlreadyUsed => 0,
            ProtocolError::PlaneIdx => 1,
            ProtocolError::PlaneSet => 2,
            ProtocolError::Incomplete => 3,
            ProtocolError::InvalidFormat => 4,
            ProtocolError::InvalidDimensions => 5,
            ProtocolError::OutOfBounds => 6,
            ProtocolError::InvalidWlBuffer => 7,
        }
    }

    pub fn code(self) -> (r: u32)
        ensures
            r == self.spec_code(),
    {
        match self {
            ProtocolError::AlreadyUsed => 0,
            ProtocolError::PlaneIdx => 1,
            ProtocolError::PlaneSet => 2,
            ProtocolError::Incomplete => 3,
            ProtocolError::InvalidFormat => 4,
            ProtocolError::InvalidDimensions => 5,
            ProtocolError::OutOfBounds => 6,
            ProtocolError::InvalidWlBuffer => 7,
        }
    }
}

/// The consumer's verdict on a finalized buffer.
///
/// The consumer implements this to decide whether a validated, assembled
/// buffer is actually importable into its renderer; returning `false`
/// rejects the buffer. The call must not block.
pub trait DmabufHandler {
    fn validate_dmabuf(&mut self, buffer: &Dmabuf) -> bool;
}

/// Relies on `nix::unistd::lseek`: seeking to the end of the region reports
/// its size, and a second seek restores the read position, so the probe is
/// non-destructive. What comes back depends on the descriptor and the state
/// of the system, so nothing is promised of the value; every caller must
/// handle every outcome.
#[verifier::external_body]
fn probe_size(fd: i32) -> (r: Option<i64>) {
    match nix::unistd::lseek(fd, 0, nix::unistd::Whence::SeekEnd) {
        Ok(size) => {
            let _ = nix::unistd::lseek(fd, 0, nix::unistd::Whence::SeekSet);
            Some(size)
        },
        Err(_) => None,
    }
}

/// Probes the size of each plane's backing region, in plane order.
fn probe_sizes(planes: &Vec<Plane>) -> (r: Vec<Option<i64>>)
    ensures
        r@.len() == planes@.len(),
{
    let mut sizes: Vec<Option<i64>> = Vec::new();
    let mut i: usize = 0;
    while i < planes.len()
        invariant
            i <= planes@.len(),
            sizes@.len() == i,
        decreases planes@.len() - i,
    {
        sizes.push(probe_size(planes[i].fd));
        i += 1;
    }
    sizes
}

/// Whether a layout code appears in the advertised format list. Only codes
/// are compared: modifiers are negotiated on the allocator and import paths,
/// not here.
pub open spec fn format_supported(supported: Seq<Format>, code: Fourcc) -> bool {
    exists|i: int| 0 <= i < supported.len() && supported[i].code == code
}

fn format_in_list(supported: &Vec<Format>, code: Fourcc) -> (r: bool)
    ensures
        r == format_supported(supported@, code),
{
    let mut i: usize = 0;
    while i < supported.len()
        invariant
            i <= supported@.len(),
            forall|j: int| 0 <= j < i ==> #[trigger] supported@[j].code != code,
        decreases supported@.len() - i,
    {
        if supported[i].code == code {
            return true;
        }
        i += 1;
    }
    false
}

/// First byte past the plane's last full row, in unbounded arithmetic.
pub open spec fn plane_end(p: Plane, height: u32) -> int {
    p.stride * height + p.offset
}

/// One plane's bounds checks against its probed region size, where a size
/// could be probed at all. Only the first plane must cover all of its rows:
/// later planes may be chroma-subsampled and reference a smaller region.
pub open spec fn plane_fits(p: Plane, height: u32, size: Option<i64>) -> bool {
    match size {
        None => true,
        Some(s) => {
            &&& p.offset as int <= s as int
            &&& p.offset + p.stride <= s as int
            &&& (p.plane_idx == 0 ==> plane_end(p, height) <= s as int)
        },
    }
}

/// The per-plane checks in plane order, short-circuiting on the first
/// violation: overflow of the plane's end, then the bounds checks.
pub open spec fn spec_check_planes(
    planes: Seq<Plane>,
    sizes: Seq<Option<i64>>,
    height: u32,
) -> Result<(), ProtocolError>
    recommends
        sizes.len() == planes.len(),
    decreases planes.len(),
{
    if planes.len() == 0 {
        Ok(())
    } else if plane_end(planes[0], height) > u32::MAX as int {
        Err(ProtocolError::OutOfBounds)
    } else if !plane_fits(planes[0], height, sizes[0]) {
        Err(ProtocolError::OutOfBounds)
    } else {
        spec_check_planes(planes.drop_first(), sizes.drop_first(), height)
    }
}

/// The validator's verdict, checks in order, short-circuiting on the first
/// failure: the format must be advertised, the dimensions positive, and
/// every plane's layout within its (probed) backing region.
pub open spec fn spec_basic_checks(
    supported: Seq<Format>,
    planes: Seq<Plane>,
    sizes: Seq<Option<i64>>,
    code: Fourcc,
    width: i32,
    height: i32,
) -> Result<(), ProtocolError> {
    if !format_supported(supported, code) {
        Err(ProtocolError::InvalidFormat)
    } else if width < 1 || height < 1 {
        Err(ProtocolError::InvalidDimensions)
    } else {
        spec_check_planes(planes, sizes, height as u32)
    }
}

/// The buffer validator: pure checks of a candidate plane set against the
/// advertised formats and the declared dimensions. `sizes[i]` is the probed
/// size of the region backing `planes[i]`, or `None` where no size could be
/// determined (such a plane passes its bounds checks vacuously).
pub fn buffer_basic_checks(
    supported: &Vec<Format>,
    planes: &Vec<Plane>,
    sizes: &Vec<Option<i64>>,
    code: Fourcc,
    width: i32,
    height: i32,
) -> (r: Result<(), ProtocolError>)
    requires
        sizes@.len() == planes@.len(),
    ensures
        r == spec_basic_checks(supported@, planes@, sizes@, code, width, height),
{
    if !format_in_list(supported, code) {
        return Err(ProtocolError::InvalidFormat);
    }
    if width < 1 || height < 1 {
        return Err(ProtocolError::InvalidDimensions);
    }
    let h = height as u32;
    let mut i: usize = 0;
    proof {
        assert(planes@.skip(0) =~= planes@);
        assert(sizes@.skip(0) =~= sizes@);
    }
    while i < planes.len()
        invariant
            i <= planes@.len(),
            sizes@.len() == planes@.len(),
            format_supported(supported@, code),
            1 <= width && 1 <= height,
            h == height as u32,
            spec_check_planes(planes@, sizes@, h) == spec_check_planes(
                planes@.skip(i as int),
                sizes@.skip(i as int),
                h,
            ),
        decreases planes@.len() - i,
    {
        proof {
            assert(planes@.skip(i as int)[0] == planes@[i as int]);
            assert(sizes@.skip(i as int)[0] == sizes@[i as int]);
            assert(planes@.skip(i as int).drop_first() =~= planes@.skip(i as int + 1));
            assert(sizes@.skip(i as int).drop_first() =~= sizes@.skip(i as int + 1));
        }
        let p = planes[i];
        let ghost rest_planes = planes@.skip(i as int);
        let ghost rest_sizes = sizes@.skip(i as int);
        proof {
            assert(plane_end(p, h) > u32::MAX as int ==> spec_check_planes(
                rest_planes,
                rest_sizes,
                h,
            ) == Err::<(), ProtocolError>(ProtocolError::OutOfBounds));
        }
        let end = match p.stride.checked_mul(h) {
            Some(rows) => match rows.checked_add(p.offset) {
                Some(e) => e,
                None => {
                    return Err(ProtocolError::OutOfBounds);
                },
            },
            None => {
                return Err(ProtocolError::OutOfBounds);
            },
        };
        proof {
            assert(end == plane_end(p, h));
            assert(!plane_fits(p, h, sizes@[i as int]) ==> spec_check_planes(
                rest_planes,
                rest_sizes,
                h,
            ) == Err::<(), ProtocolError>(ProtocolError::OutOfBounds));
            assert(plane_fits(p, h, sizes@[i as int]) ==> spec_check_planes(
                rest_planes,
                rest_sizes,
                h,
            ) == spec_check_planes(planes@.skip(i as int + 1), sizes@.skip(i as int + 1), h));
        }
        match sizes[i] {
            Some(size) => {
                if p.offset as i64 > size {
                    return Err(ProtocolError::OutOfBounds);
                }
                if p.offset as i64 + p.stride as i64 > size {
                    return Err(ProtocolError::OutOfBounds);
                }
                if p.plane_idx == 0 && end as i64 > size {
                    return Err(ProtocolError::OutOfBounds);
                }
            },
            None => {},
        }
        i += 1;
    }
    proof {
        assert(planes@.skip(planes@.len() as int) =~= Seq::<Plane>::empty());
    }
    Ok(())
}

/// One event of the supported-format advertisement a consumer sends once,
/// at registration time.
#[derive(Clone, Copy, Debug, PartialEq, Eq, Structural)]
pub enum AdvertEvent {
    /// Announces a supported layout code.
    Format { code: u32 },
    /// Announces a supported code-and-modifier pair, the modifier split into
    /// its wire halves. Only protocol versions that negotiate modifiers
    /// receive these.
    Modifier { code: u32, modifier_hi: u32, modifier_lo: u32 },
}

/// The advertisement events for one supported format: its code, and — for
/// protocol versions from 3 on, which negotiate modifiers — the code paired
/// with the modifier's wire halves.
pub open spec fn spec_advert_of(f: Format, version: u32) -> Seq<AdvertEvent> {
    if version >= 3 {
        seq![
            AdvertEvent::Format { code: f.code.spec_code() },
            AdvertEvent::Modifier {
                code: f.code.spec_code(),
                modifier_hi: crate::spec_modifier_hi(f.modifier.spec_to_u64()),
                modifier_lo: crate::spec_modifier_lo(f.modifier.spec_to_u64()),
            },
        ]
    } else {
        seq![AdvertEvent::Format { code: f.code.spec_code() }]
    }
}

/// The whole advertisement, format by format in list order.
pub open spec fn spec_advertisement(formats: Seq<Format>, version: u32) -> Seq<AdvertEvent>
    decreases formats.len(),
{
    if formats.len() == 0 {
        Seq::empty()
    } else {
        spec_advert_of(formats[0], version) + spec_advertisement(formats.drop_first(), version)
    }
}

/// Computes the advertisement a consumer sends for its supported formats:
/// every code, and on modifier-aware protocol versions every code-modifier
/// pair, in list order. The host sends these events on the wire.
pub fn advertisement(formats: &Vec<Format>, version: u32) -> (r: Vec<AdvertEvent>)
    ensures
        r@ == spec_advertisement(formats@, version),
{
    let mut events: Vec<AdvertEvent> = Vec::new();
    let mut i: usize = 0;
    proof {
        assert(formats@.skip(0) =~= formats@);
    }
    while i < formats.len()
        invariant
            i <= formats@.len(),
            events@ + spec_advertisement(formats@.skip(i as int), version) == spec_advertisement(
                formats@,
                version,
            ),
        decreases formats@.len() - i,
    {
        proof {
            assert(formats@.skip(i as int)[0] == formats@[i as int]);
            assert(formats@.skip(i as int).drop_first() =~= formats@.skip(i as int + 1));
        }
        let ghost pre = events@;
        let f = formats[i];
        let code = f.code.code();
        events.push(AdvertEvent::Format { code });
        if version >= 3 {
            let m = f.modifier.to_u64();
            events.push(
                AdvertEvent::Modifier {
                    code,
                    modifier_hi: crate::modifier_hi(m),
                    modifier_lo: crate::modifier_lo(m),
                },
            );
        }
        proof {
            assert(events@ =~= pre + spec_advert_of(formats@[i as int], version));
            assert(events@ + spec_advertisement(formats@.skip(i as int + 1), version)
                =~= spec_advertisement(formats@, version));
        }
        i += 1;
    }
    proof {
        assert(formats@.skip(formats@.len() as int) =~= Seq::<Format>::empty());
        assert(events@ =~= events@ + spec_advertisement(
            formats@.skip(formats@.len() as int),
            version,
        ));
    }
    events
}

/// Whether a plane index was already used by an accumulated plane.
pub open spec fn plane_idx_taken(pending: Seq<Plane>, plane_idx: u32) -> bool {
    exists|i: int| 0 <= i < pending.len() && pending[i].plane_idx == plane_idx
}

/// The deterministic part of a terminal create operation's outcome: the
/// protocol violation it reports, or `None` when a buffer is assembled and
/// handed to the validation callback. Shared by `create` and `create_immed`,
/// whose treatment of the violation differs but whose checks do not.
pub open spec fn spec_create_err(
    used: bool,
    pending: Seq<Plane>,
    supported: Seq<Format>,
    sizes: Seq<Option<i64>>,
    width: i32,
    height: i32,
    format_code: u32,
) -> Option<ProtocolError> {
    if used {
        Some(ProtocolError::AlreadyUsed)
    } else {
        match Fourcc::spec_from_code(format_code) {
            None => Some(ProtocolError::InvalidFormat),
            Some(code) => match spec_basic_checks(supported, pending, sizes, code, width, height) {
                Result::Err(e) => Some(e),
                Result::Ok(_) => if pending.len() == 0 {
                    Some(ProtocolError::Incomplete)
                } else {
                    None
                },
            },
        }
    }
}

/// The planes of the assembled buffer: the accumulated planes in arrival
/// order, re-indexed contiguously from zero.
pub open spec fn spec_built_planes(pending: Seq<Plane>) -> Seq<Plane> {
    Seq::new(pending.len(), |i: int| Plane { plane_idx: i as u32, ..pending[i] })
}

/// The buffer a successful terminal operation assembles, field by field.
pub open spec fn spec_builds_buffer(
    pending: Seq<Plane>,
    width: i32,
    height: i32,
    format_code: u32,
    flags: u32,
    b: Dmabuf,
) -> bool {
    &&& b.width == width as u32
    &&& b.height == height as u32
    &&& Fourcc::spec_from_code(format_code) == Some(b.code)
    &&& b.flags == DmabufFlags::spec_from_bits_truncate(flags)
    &&& b.planes@ == spec_built_planes(pending)
}

/// Outcome of a deferred `create`: rejection is graceful, the connection
/// stays open either way.
pub enum CreateOutcome {
    /// The validation callback accepted; the caller is told "created" and
    /// may start using the buffer.
    Created(Dmabuf),
    /// The validation callback rejected; the caller is told "failed" and the
    /// would-be buffer's resources are released, never exposed.
    Failed,
    /// A protocol violation; the request fails with this code and the
    /// accumulated planes revert to the caller, which must close their
    /// descriptors.
    Rejected(ProtocolError),
}

/// Outcome of an immediate `create_immed`: the caller already holds the
/// buffer's identity, so there is no graceful "failed" path — the buffer is
/// fully usable, or the violation is fatal to the caller's connection.
pub enum CreateImmedOutcome {
    /// The buffer is bound to the caller-supplied identity and usable.
    Created(Dmabuf),
    /// The identity cannot be made valid; the connection must be terminated
    /// with this code.
    Fatal(ProtocolError),
}

/// The full relation between a `create` call's inputs, the state it leaves
/// behind and its outcome, given the probed region sizes.
pub open spec fn create_outcome_matches(
    pre: ParamsState,
    post: ParamsState,
    supported: Seq<Format>,
    sizes: Seq<Option<i64>>,
    width: i32,
    height: i32,
    format_code: u32,
    flags: u32,
    r: CreateOutcome,
) -> bool {
    &&& post.used
    &&& post.max_planes == pre.max_planes
    &&& match spec_create_err(
        pre.used,
        pre.pending_planes@,
        supported,
        sizes,
        width,
        height,
        format_code,
    ) {
        Some(e) => r == CreateOutcome::Rejected(e) && post.pending_planes@
            == pre.pending_planes@,
        None => {
            &&& post.pending_planes@ =~= Seq::<Plane>::empty()
            &&& match r {
                CreateOutcome::Created(b) => spec_builds_buffer(
                    pre.pending_planes@,
                    width,
                    height,
                    format_code,
                    flags,
                    b,
                ) && b.wf(),
                CreateOutcome::Failed => true,
                CreateOutcome::Rejected(_) => false,
            }
        },
    }
}

/// The same relation for `create_immed`: the checks are identical, but every
/// violation is fatal, and a callback rejection is fatal with
/// `InvalidWlBuffer`.
pub open spec fn create_immed_outcome_matches(
    pre: ParamsState,
    post: ParamsState,
    supported: Seq<Format>,
    sizes: Seq<Option<i64>>,
    width: i32,
    height: i32,
    format_code: u32,
    flags: u32,
    r: CreateImmedOutcome,
) -> bool {
    &&& post.used
    &&& post.max_planes == pre.max_planes
    &&& match spec_create_err(
        pre.used,
        pre.pending_planes@,
        supported,
        sizes,
        width,
        height,
        format_code,
    ) {
        Some(e) => r == CreateImmedOutcome::Fatal(e) && post.pending_planes@
            == pre.pending_planes@,
        None => {
            &&& post.pending_planes@ =~= Seq::<Plane>::empty()
            &&& match r {
                CreateImmedOutcome::Created(b) => spec_builds_buffer(
                    pre.pending_planes@,
                    width,
                    height,
                    format_code,
                    flags,
                    b,
                ) && b.wf(),
                CreateImmedOutcome::Fatal(e) => e == ProtocolError::InvalidWlBuffer,
            }
        },
    }
}

/// The per-request negotiation object: accumulating until a terminal create
/// operation marks it used, after which every operation fails.
pub struct ParamsState {
    /// Planes accumulated so far, in arrival order.
    pub pending_planes: Vec<Plane>,
    /// The fixed upper bound on plane indices.
    pub max_planes: u32,
    /// Whether a terminal create operation has been issued.
    pub used: bool,
}

impl ParamsState {
    /// The accumulator's invariant: plane indices are unique and below the
    /// maximum, so it can never hold more planes than that maximum.
    pub open spec fn wf(self) -> bool {
        &&& self.max_planes <= crate::MAX_PLANES
        &&& self.pending_planes@.len() <= self.max_planes
        &&& forall|i: int, j: int|
            0 <= i < j < self.pending_planes@.len() ==> #[trigger] self.pending_planes@[i].plane_idx
                != #[trigger] self.pending_planes@[j].plane_idx
        &&& forall|i: int|
            0 <= i < self.pending_planes@.len() ==> #[trigger] self.pending_planes@[i].plane_idx
                < self.max_planes
    }

    pub fn new() -> (r: ParamsState)
        ensures
            r.pending_planes@ =~= Seq::<Plane>::empty(),
            r.max_planes == crate::MAX_PLANES,
            !r.used,
            r.wf(),
    {
        ParamsState { pending_planes: Vec::new(), max_planes: crate::MAX_PLANES, used: false }
    }

    /// Which violation an `add` of this plane index reports, if any: a used
    /// object, an index at or past the maximum, or an index already set.
    pub open spec fn spec_add_err(self, plane_idx: u32) -> Option<ProtocolError> {
        if self.used {
            Some(ProtocolError::AlreadyUsed)
        } else if plane_idx >= self.max_planes {
            Some(ProtocolError::PlaneIdx)
        } else if plane_idx_taken(self.pending_planes@, plane_idx) {
            Some(ProtocolError::PlaneSet)
        } else {
            None
        }
    }

    /// Accumulates one plane. On any violation the state is left exactly as
    /// it was — in particular, an earlier plane with the same index is
    /// retained unchanged — and ownership of the descriptor reverts to the
    /// caller.
    pub fn add(
        &mut self,
        fd: i32,
        plane_idx: u32,
        offset: u32,
        stride: u32,
        modifier: Modifier,
    ) -> (r: Result<(), ProtocolError>)
        requires
            old(self).wf(),
        ensures
            final(self).wf(),
            match old(self).spec_add_err(plane_idx) {
                Some(e) => r == Err::<(), ProtocolError>(e) && *final(self) == *old(self),
                None => {
                    &&& r == Ok::<(), ProtocolError>(())
                    &&& final(self).pending_planes@ == old(self).pending_planes@.push(
                        Plane { fd, plane_idx, offset, stride, modifier },
                    )
                    &&& final(self).used == old(self).used
                    &&& final(self).max_planes == old(self).max_planes
                },
            },
    {
        if self.used {
            return Err(ProtocolError::AlreadyUsed);
        }
        if plane_idx >= self.max_planes {
            return Err(ProtocolError::PlaneIdx);
        }
        let mut i: usize = 0;
        while i < self.pending_planes.len()
            invariant
                *self == *old(self),
                old(self).wf(),
                !old(self).used,
                plane_idx < old(self).max_planes,
                i <= self.pending_planes@.len(),
                forall|j: int|
                    0 <= j < i ==> #[trigger] self.pending_planes@[j].plane_idx != plane_idx,
            decreases self.pending_planes@.len() - i,
        {
            if self.pending_planes[i].plane_idx == plane_idx {
                proof {
                    assert(plane_idx_taken(self.pending_planes@, plane_idx)) by {
                        assert(self.pending_planes@[i as int].plane_idx == plane_idx);
                    }
                }
                return Err(ProtocolError::PlaneSet);
            }
            i += 1;
        }
        self.pending_planes.push(Plane { fd, plane_idx, offset, stride, modifier });
        proof {
            let s = self.pending_planes@;
            assert forall|a: int, b: int|
                0 <= a < b < s.len() implies #[trigger] s[a].plane_idx
                != #[trigger] s[b].plane_idx by {
                if b == s.len() - 1 {
                    assert(s[b].plane_idx == plane_idx);
                    assert(s[a] == old(self).pending_planes@[a]);
                }
            }
            crate::laws::lemma_distinct_indices_bound(s, self.max_planes);
        }
        Ok(())
    }

    /// The deferred terminal operation, with the probed region sizes handed
    /// in: decodes the format, runs the validator, assembles the buffer and
    /// asks the validation callback. Rejection by the callback is graceful.
    /// The object is used afterwards, whatever the outcome.
    pub fn create_prepared<H: DmabufHandler>(
        &mut self,
        supported: &Vec<Format>,
        handler: &mut H,
        sizes: &Vec<Option<i64>>,
        width: i32,
        height: i32,
        format_code: u32,
        flags: u32,
    ) -> (r: CreateOutcome)
        requires
            old(self).wf(),
            sizes@.len() == old(self).pending_planes@.len(),
        ensures
            final(self).wf(),
            create_outcome_matches(
                *old(self),
                *final(self),
                supported@,
                sizes@,
                width,
                height,
                format_code,
                flags,
                r,
            ),
    {
        if self.used {
            return CreateOutcome::Rejected(ProtocolError::AlreadyUsed);
        }
        self.used = true;
        let code = match Fourcc::from_code(format_code) {
            Some(c) => c,
            None => {
                return CreateOutcome::Rejected(ProtocolError::InvalidFormat);
            },
        };
        match buffer_basic_checks(supported, &self.pending_planes, sizes, code, width, height) {
            Err(e) => {
                return CreateOutcome::Rejected(e);
            },
            Ok(_) => {},
        }
        let dmabuf = match self.take_buffer(code, width, height, flags) {
            Some(b) => b,
            None => {
                return CreateOutcome::Rejected(ProtocolError::Incomplete);
            },
        };
        if handler.validate_dmabuf(&dmabuf) {
            CreateOutcome::Created(dmabuf)
        } else {
            CreateOutcome::Failed
        }
    }

    /// The immediate terminal operation: the same validation pipeline, but
    /// the buffer's identity already exists on the caller's side, so every
    /// failure — a violation or a callback rejection (`InvalidWlBuffer`) —
    /// is fatal to the caller's connection.
    pub fn create_immed_prepared<H: DmabufHandler>(
        &mut self,
        supported: &Vec<Format>,
        handler: &mut H,
        sizes: &Vec<Option<i64>>,
        width: i32,
        height: i32,
        format_code: u32,
        flags: u32,
    ) -> (r: CreateImmedOutcome)
        requires
            old(self).wf(),
            sizes@.len() == old(self).pending_planes@.len(),
        ensures
            final(self).wf(),
            create_immed_outcome_matches(
                *old(self),
                *final(self),
                supported@,
                sizes@,
                width,
                height,
                format_code,
                flags,
                r,
            ),
    {
        if self.used {
            return CreateImmedOutcome::Fatal(ProtocolError::AlreadyUsed);
        }
        self.used = true;
        let code = match Fourcc::from_code(format_code) {
            Some(c) => c,
            None => {
                return CreateImmedOutcome::Fatal(ProtocolError::InvalidFormat);
            },
        };
        match buffer_basic_checks(supported, &self.pending_planes, sizes, code, width, height) {
            Err(e) => {
                return CreateImmedOutcome::Fatal(e);
            },
            Ok(_) => {},
        }
        let dmabuf = match self.take_buffer(code, width, height, flags) {
            Some(b) => b,
            None => {
                return CreateImmedOutcome::Fatal(ProtocolError::Incomplete);
            },
        };
        if handler.validate_dmabuf(&dmabuf) {
            CreateImmedOutcome::Created(dmabuf)
        } else {
            CreateImmedOutcome::Fatal(ProtocolError::InvalidWlBuffer)
        }
    }

    /// The deferred terminal operation as driven by the wire: probes the
    /// size of each accumulated plane's backing region, then runs the same
    /// pipeline as [`Self::create_prepared`]. What the probes report depends
    /// on the state of the system, so the contract fixes the outcome for
    /// some sizes of the right count, plus everything that no probe can
    /// change: terminality, the size-independent violations, and the exact
    /// shape of any buffer handed out.
    pub fn create<H: DmabufHandler>(
        &mut self,
        supported: &Vec<Format>,
        handler: &mut H,
        width: i32,
        height: i32,
        format_code: u32,
        flags: u32,
    ) -> (r: CreateOutcome)
        requires
            old(self).wf(),
        ensures
            final(self).wf(),
            final(self).used,
            exists|sizes: Seq<Option<i64>>|
                sizes.len() == old(self).pending_planes@.len()
                    && #[trigger] create_outcome_matches(
                    *old(self),
                    *final(self),
                    supported@,
                    sizes,
                    width,
                    height,
                    format_code,
                    flags,
                    r,
                ),
            old(self).used ==> r == CreateOutcome::Rejected(ProtocolError::AlreadyUsed)
                && final(self).pending_planes@ == old(self).pending_planes@,
            !old(self).used && Fourcc::spec_from_code(format_code) is None ==> r
                == CreateOutcome::Rejected(ProtocolError::InvalidFormat),
            !old(self).used && (Fourcc::spec_from_code(format_code) matches Some(code)
                && !format_supported(supported@, code)) ==> r == CreateOutcome::Rejected(
                ProtocolError::InvalidFormat,
            ),
            !old(self).used && (Fourcc::spec_from_code(format_code) matches Some(code)
                && format_supported(supported@, code) && (width < 1 || height < 1)) ==> r
                == CreateOutcome::Rejected(ProtocolError::InvalidDimensions),
            r matches CreateOutcome::Created(b) ==> spec_builds_buffer(
                old(self).pending_planes@,
                width,
                height,
                format_code,
                flags,
                b,
            ) && b.wf() && final(self).pending_planes@ =~= Seq::<Plane>::empty(),
            r is Failed ==> final(self).pending_planes@ =~= Seq::<Plane>::empty(),
    {
        if self.used {
            // Refused before any probing: a used object's descriptors are no
            // longer this object's to touch.
            proof {
                let sizes = Seq::new(
                    old(self).pending_planes@.len(),
                    |i: int| Option::<i64>::None,
                );
                assert(create_outcome_matches(
                    *old(self),
                    *self,
                    supported@,
                    sizes,
                    width,
                    height,
                    format_code,
                    flags,
                    CreateOutcome::Rejected(ProtocolError::AlreadyUsed),
                ));
            }
            return CreateOutcome::Rejected(ProtocolError::AlreadyUsed);
        }
        let sizes = probe_sizes(&self.pending_planes);
        let r = self.create_prepared(supported, handler, &sizes, width, height, format_code, flags);
        r
    }

    /// The immediate terminal operation as driven by the wire: the same
    /// probing and pipeline as [`Self::create`], through
    /// [`Self::create_immed_prepared`], so every failure is fatal.
    pub fn create_immed<H: DmabufHandler>(
        &mut self,
        supported: &Vec<Format>,
        handler: &mut H,
        width: i32,
        height: i32,
        format_code: u32,
        flags: u32,
    ) -> (r: CreateImmedOutcome)
        requires
            old(self).wf(),
        ensures
            final(self).wf(),
            final(self).used,
            exists|sizes: Seq<Option<i64>>|
                sizes.len() == old(self).pending_planes@.len()
                    && #[trigger] create_immed_outcome_matches(
                    *old(self),
                    *final(self),
                    supported@,
                    sizes,
                    width,
                    height,
                    format_code,
                    flags,
                    r,
                ),
            old(self).used ==> r == CreateImmedOutcome::Fatal(ProtocolError::AlreadyUsed)
                && final(self).pending_planes@ == old(self).pending_planes@,
            !old(self).used && Fourcc::spec_from_code(format_code) is None ==> r
                == CreateImmedOutcome::Fatal(ProtocolError::InvalidFormat),
            !old(self).used && (Fourcc::spec_from_code(format_code) matches Some(code)
                && !format_supported(supported@, code)) ==> r == CreateImmedOutcome::Fatal(
                ProtocolError::InvalidFormat,
            ),
            !old(self).used && (Fourcc::spec_from_code(format_code) matches Some(code)
                && format_supported(supported@, code) && (width < 1 || height < 1)) ==> r
                == CreateImmedOutcome::Fatal(ProtocolError::InvalidDimensions),
            r matches CreateImmedOutcome::Created(b) ==> spec_builds_buffer(
                old(self).pending_planes@,
                width,
                height,
                format_code,
                flags,
                b,
            ) && b.wf() && final(self).pending_planes@ =~= Seq::<Plane>::empty(),
    {
        if self.used {
            // Refused before any probing, as in [`Self::create`].
            proof {
                let sizes = Seq::new(
                    old(self).pending_planes@.len(),
                    |i: int| Option::<i64>::None,
                );
                assert(create_immed_outcome_matches(
                    *old(self),
                    *self,
                    supported@,
                    sizes,
                    width,
                    height,
                    format_code,
                    flags,
                    CreateImmedOutcome::Fatal(ProtocolError::AlreadyUsed),
                ));
            }
            return CreateImmedOutcome::Fatal(ProtocolError::AlreadyUsed);
        }
        let sizes = probe_sizes(&self.pending_planes);
        let r = self.create_immed_prepared(
            supported,
            handler,
            &sizes,
            width,
            height,
            format_code,
            flags,
        );
        r
    }

    /// Moves the accumulated planes into an assembled buffer, re-indexed
    /// contiguously from zero; `None` exactly when no plane was accumulated.
    fn take_buffer(&mut self, code: Fourcc, width: i32, height: i32, flags: u32) -> (r: Option<
        Dmabuf,
    >)
        requires
            old(self).wf(),
            1 <= width,
            1 <= height,
        ensures
            final(self).used == old(self).used,
            final(self).max_planes == old(self).max_planes,
            r is Some <==> old(self).pending_planes@.len() > 0,
            r is Some ==> final(self).pending_planes@ =~= Seq::<Plane>::empty(),
            r is None ==> final(self).pending_planes@ == old(self).pending_planes@,
            r matches Some(b) ==> {
                &&& b.width == width as u32
                &&& b.height == height as u32
                &&& b.code == code
                &&& b.flags == DmabufFlags::spec_from_bits_truncate(flags)
                &&& b.planes@ == spec_built_planes(old(self).pending_planes@)
                &&& b.wf()
            },
    {
        let mut builder = DmabufBuilder::new(
            width as u32,
            height as u32,
            code,
            DmabufFlags::from_bits_truncate(flags),
        );
        let n = self.pending_planes.len();
        if n == 0 {
            return None;
        }
        let mut i: usize = 0;
        while i < n
            invariant
                old(self).wf(),
                self.pending_planes@ == old(self).pending_planes@,
                n == self.pending_planes@.len(),
                i <= n,
                builder.width == width as u32,
                builder.height == height as u32,
                builder.code == code,
                builder.flags == DmabufFlags::spec_from_bits_truncate(flags),
                builder.planes@ =~= spec_built_planes(self.pending_planes@).take(i as int),
                1 <= width,
                1 <= height,
            decreases n - i,
        {
            let p = self.pending_planes[i];
            builder.add_plane(p.fd, i as u32, p.offset, p.stride, p.modifier);
            proof {
                assert(builder.planes@ =~= spec_built_planes(self.pending_planes@).take(
                    i as int + 1,
                ));
            }
            i += 1;
        }
        self.pending_planes = Vec::new();
        proof {
            assert(builder.planes@ =~= spec_built_planes(old(self).pending_planes@));
            assert(builder.spec_can_build());
        }
        match builder.build() {
            Some(b) => Some(b),
            None => vstd::pervasive::unreached(),
        }
    }
}

} // verus!

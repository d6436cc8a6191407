//! The protocol-level guarantees this library makes, stated and proved over
//! the same specification functions its contracts use.

use vstd::prelude::*;

use crate::dmabuf::{Dmabuf, Plane};
use crate::driver::{DriverBufferObject, ImportRequest, UsageFlags};
use crate::format::{Format, Fourcc};
use crate::params::{
    format_supported, plane_end, plane_idx_taken, spec_basic_checks, spec_create_err, ParamsState,
    ProtocolError,
};

verus! {

/// Planes whose indices are pairwise distinct and all below a bound can
/// never number more than that bound: the accumulator is bounded.
pub proof fn lemma_distinct_indices_bound(s: Seq<Plane>, bound: u32)
    requires
        forall|i: int, j: int|
            0 <= i < j < s.len() ==> #[trigger] s[i].plane_idx != #[trigger] s[j].plane_idx,
        forall|i: int| 0 <= i < s.len() ==> #[trigger] s[i].plane_idx < bound,
    ensures
        s.len() <= bound,
    decreases bound,
{
    if s.len() == 0 {
    } else if bound == 0 {
        assert(s[0].plane_idx < 0);
    } else {
        let last = (bound - 1) as u32;
        if exists|k: int| 0 <= k < s.len() && #[trigger] s[k].plane_idx == last {
            let k = choose|k: int| 0 <= k < s.len() && #[trigger] s[k].plane_idx == last;
            let t = s.remove(k);
            assert forall|i: int, j: int|
                0 <= i < j < t.len() implies #[trigger] t[i].plane_idx
                != #[trigger] t[j].plane_idx by {
                let iv = if i < k {
                    i
                } else {
                    i + 1
                };
                let jv = if j < k {
                    j
                } else {
                    j + 1
                };
                assert(t[i] == s[iv]);
                assert(t[j] == s[jv]);
            }
            assert forall|i: int| 0 <= i < t.len() implies #[trigger] t[i].plane_idx < last by {
                let iv = if i < k {
                    i
                } else {
                    i + 1
                };
                assert(t[i] == s[iv]);
                assert(s[iv].plane_idx != s[k].plane_idx);
            }
            lemma_distinct_indices_bound(t, last);
        } else {
            assert forall|i: int| 0 <= i < s.len() implies #[trigger] s[i].plane_idx < last by {
                assert(s[i].plane_idx != last);
            }
            lemma_distinct_indices_bound(s, last);
        }
    }
}

/// Non-positive dimensions are always refused: a terminal create operation
/// on a fresh negotiation whose format code decodes to an advertised format
/// answers a width or height below one with exactly `InvalidDimensions`. By
/// the contracts of `create_prepared` and `create_immed_prepared`, the
/// outcome then carries that violation, no buffer is assembled, and the
/// accumulated planes are left as they were.
pub proof fn lemma_nonpositive_dimensions_refused(
    used: bool,
    pending: Seq<Plane>,
    supported: Seq<Format>,
    sizes: Seq<Option<i64>>,
    width: i32,
    height: i32,
    format_code: u32,
)
    requires
        !used,
        Fourcc::spec_from_code(format_code) is Some,
        format_supported(supported, Fourcc::spec_from_code(format_code)->0),
        width < 1 || height < 1,
    ensures
        spec_create_err(used, pending, supported, sizes, width, height, format_code) == Some(
            ProtocolError::InvalidDimensions,
        ),
{
}

/// A plane index that was already set is refused with `PlaneSet`; by the
/// contract of `add`, the state — in particular the plane first stored under
/// that index — is then retained unchanged.
pub proof fn lemma_duplicate_plane_refused(st: ParamsState, plane_idx: u32)
    requires
        !st.used,
        plane_idx < st.max_planes,
        plane_idx_taken(st.pending_planes@, plane_idx),
    ensures
        st.spec_add_err(plane_idx) == Some(ProtocolError::PlaneSet),
{
}

/// A plane index at or past the fixed maximum is refused with `PlaneIdx` on
/// any negotiation that is still accumulating.
pub proof fn lemma_plane_index_refused(st: ParamsState, plane_idx: u32)
    requires
        st.wf(),
        !st.used,
        plane_idx >= crate::MAX_PLANES,
    ensures
        st.spec_add_err(plane_idx) == Some(ProtocolError::PlaneIdx),
{
}

/// Terminality is idempotent: once a negotiation is used — and both terminal
/// operations leave it used whatever their outcome, by their `final(self)`
/// contracts — every further `add` and every further terminal operation is
/// refused with exactly `AlreadyUsed`, and changes nothing.
pub proof fn lemma_used_is_terminal(
    st: ParamsState,
    plane_idx: u32,
    supported: Seq<Format>,
    sizes: Seq<Option<i64>>,
    width: i32,
    height: i32,
    format_code: u32,
)
    requires
        st.used,
    ensures
        st.spec_add_err(plane_idx) == Some(ProtocolError::AlreadyUsed),
        spec_create_err(
            st.used,
            st.pending_planes@,
            supported,
            sizes,
            width,
            height,
            format_code,
        ) == Some(ProtocolError::AlreadyUsed),
{
}

/// Overflow in a plane's extent is a validation failure, never a wrap: when
/// the first plane's stride times the height plus its offset exceeds what
/// the protocol's 32-bit sizes can hold, the validator reports
/// `OutOfBounds`, whatever the probed region sizes were.
pub proof fn lemma_plane_overflow_refused(
    supported: Seq<Format>,
    planes: Seq<Plane>,
    sizes: Seq<Option<i64>>,
    code: Fourcc,
    width: i32,
    height: i32,
)
    requires
        format_supported(supported, code),
        1 <= width,
        1 <= height,
        planes.len() > 0,
        plane_end(planes[0], height as u32) > u32::MAX as int,
    ensures
        spec_basic_checks(supported, planes, sizes, code, width, height) == Err::<
            (),
            ProtocolError,
        >(ProtocolError::OutOfBounds),
{
}

/// The wire split of a modifier is lossless: joining the two halves that the
/// advertisement sends, as `modifier_from_parts` joins them, gives back the
/// modifier it started from.
pub proof fn lemma_modifier_wire_round_trip(m: u64)
    ensures
        (crate::spec_modifier_hi(m) as u64) * 0x1_0000_0000 + (crate::spec_modifier_lo(m) as u64)
            == m,
{
    vstd::arithmetic::div_mod::lemma_fundamental_div_mod(m as int, 0x1_0000_0000);
}

/// Round trip: exporting a driver buffer object whose two or more planes
/// share one allocation, then importing the exported buffer, asks the
/// driver for an object of the same width, height, format code and modifier
/// as the original — on these fields, export then import is the identity.
pub proof fn lemma_export_import_round_trip(
    dbo: DriverBufferObject,
    buf: Dmabuf,
    usage: UsageFlags,
    req: ImportRequest,
)
    requires
        dbo.wf(),
        2 <= dbo.spec_plane_count(),
        dbo.spec_export_err() is None,
        dbo.exports_to(buf),
        buf.imports_to(usage, req),
    ensures
        req matches ImportRequest::WithModifiers { num_planes, width, height, code, modifier, .. }
            && num_planes == dbo.spec_plane_count() && width == dbo.width && height == dbo.height
            && code == dbo.code && modifier == dbo.modifier,
{
    assert(buf.planes@.len() == dbo.spec_plane_count());
    assert(buf.planes@[0].modifier == dbo.modifier);
    assert(buf.spec_uses_rich_import());
}

} // verus!

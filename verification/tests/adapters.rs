//! Tests of the driver adapters: allocation policy, export, import, and the
//! export-then-import round trip.

use dmabuf_core::driver::{
    create_buffer, AllocationPath, DriverBufferObject, GbmConvertError, ImportRequest, UsageFlags,
};
use dmabuf_core::format::{Format, Fourcc, Modifier};

fn two_plane_object() -> DriverBufferObject {
    DriverBufferObject {
        width: 256,
        height: 128,
        code: Fourcc::Nv12,
        modifier: Modifier::Other(0x0100_0000_0000_0001),
        fd: 9,
        handles: vec![7, 7],
        offsets: vec![0, 32768],
        strides: vec![256, 256],
    }
}

#[test]
fn allocation_no_preference_uses_scanout_and_rendering() {
    let format = Format { code: Fourcc::Argb8888, modifier: Modifier::Invalid };
    let r = create_buffer(640, 480, format);
    assert_eq!(r.width, 640);
    assert_eq!(r.height, 480);
    assert_eq!(r.code, Fourcc::Argb8888);
    assert_eq!(
        r.path,
        AllocationPath::WithUsage(UsageFlags { scanout: true, rendering: true, linear: false })
    );
}

#[test]
fn allocation_linear_adds_linear_usage() {
    let format = Format { code: Fourcc::Xrgb8888, modifier: Modifier::Linear };
    let r = create_buffer(64, 64, format);
    assert_eq!(
        r.path,
        AllocationPath::WithUsage(UsageFlags { scanout: true, rendering: true, linear: true })
    );
}

#[test]
fn allocation_explicit_modifier_constrains_creation() {
    let format = Format { code: Fourcc::Xrgb8888, modifier: Modifier::Other(42) };
    let r = create_buffer(64, 64, format);
    assert_eq!(r.path, AllocationPath::WithModifier(Modifier::Other(42)));
}

#[test]
fn export_shares_the_single_descriptor_across_planes() {
    let dbo = two_plane_object();
    let buf = dbo.export().expect("export should succeed");
    assert_eq!(buf.width, 256);
    assert_eq!(buf.height, 128);
    assert_eq!(buf.code, Fourcc::Nv12);
    assert_eq!(buf.planes.len(), 2);
    assert_eq!(buf.planes[0].fd, 9);
    assert_eq!(buf.planes[1].fd, 9);
    assert_eq!(buf.planes[0].plane_idx, 0);
    assert_eq!(buf.planes[1].plane_idx, 1);
    assert_eq!(buf.planes[0].offset, 0);
    assert_eq!(buf.planes[1].offset, 32768);
    assert_eq!(buf.planes[1].stride, 256);
    assert_eq!(buf.planes[0].modifier, Modifier::Other(0x0100_0000_0000_0001));
}

#[test]
fn export_with_distinct_handles_is_unsupported() {
    let mut dbo = two_plane_object();
    dbo.handles = vec![7, 8];
    assert_eq!(dbo.export().unwrap_err(), GbmConvertError::UnsupportedBuffer);
}

#[test]
fn export_with_zero_descriptor_is_invalid_fd() {
    let mut dbo = two_plane_object();
    dbo.fd = 0;
    assert_eq!(dbo.export().unwrap_err(), GbmConvertError::InvalidFD);
}

#[test]
fn export_with_no_planes_is_unsupported() {
    let mut dbo = two_plane_object();
    dbo.handles = vec![];
    dbo.offsets = vec![];
    dbo.strides = vec![];
    assert_eq!(dbo.export().unwrap_err(), GbmConvertError::UnsupportedBuffer);
}

#[test]
fn export_then_import_round_trips_the_queried_fields() {
    let dbo = two_plane_object();
    let buf = dbo.export().expect("export should succeed");
    let usage = UsageFlags { scanout: false, rendering: true, linear: false };
    match buf.import(usage) {
        ImportRequest::WithModifiers {
            num_planes,
            fds,
            width,
            height,
            code,
            usage: u,
            strides,
            offsets,
            modifier,
        } => {
            assert_eq!(num_planes, 2);
            assert_eq!(width, dbo.width);
            assert_eq!(height, dbo.height);
            assert_eq!(code, dbo.code);
            assert_eq!(modifier, dbo.modifier);
            assert_eq!(u, usage);
            assert_eq!(fds, vec![9, 9, 0, 0]);
            assert_eq!(strides, vec![256, 256, 0, 0]);
            assert_eq!(offsets, vec![0, 32768, 0, 0]);
        },
        ImportRequest::Simple { .. } => panic!("two planes must take the rich import path"),
    }
}

#[test]
fn import_single_linear_plane_takes_the_simple_path() {
    let dbo = DriverBufferObject {
        width: 64,
        height: 64,
        code: Fourcc::Argb8888,
        modifier: Modifier::Linear,
        fd: 5,
        handles: vec![3],
        offsets: vec![0],
        strides: vec![256],
    };
    let buf = dbo.export().expect("export should succeed");
    let usage = UsageFlags { scanout: true, rendering: false, linear: false };
    match buf.import(usage) {
        ImportRequest::Simple { fd, width, height, stride, code, usage: u } => {
            assert_eq!(fd, 5);
            assert_eq!(width, 64);
            assert_eq!(height, 64);
            assert_eq!(stride, 256);
            assert_eq!(code, Fourcc::Argb8888);
            // The buffer is explicitly linear, so the linear flag is added.
            assert_eq!(u, UsageFlags { scanout: true, rendering: false, linear: true });
        },
        ImportRequest::WithModifiers { .. } => {
            panic!("a single linear plane at offset zero must take the simple path")
        },
    }
}

#[test]
fn import_nonzero_first_offset_takes_the_rich_path() {
    let dbo = DriverBufferObject {
        width: 64,
        height: 64,
        code: Fourcc::Argb8888,
        modifier: Modifier::Linear,
        fd: 5,
        handles: vec![3],
        offsets: vec![4096],
        strides: vec![256],
    };
    let buf = dbo.export().expect("export should succeed");
    let usage = UsageFlags { scanout: false, rendering: false, linear: false };
    assert!(matches!(buf.import(usage), ImportRequest::WithModifiers { .. }));
}

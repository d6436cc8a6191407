//! Scenario tests for the negotiation state machine: accumulation, the
//! terminal operations, and the validator driving them.

use dmabuf_core::dmabuf::Dmabuf;
use dmabuf_core::format::{Format, Fourcc, Modifier};
use dmabuf_core::params::{
    CreateImmedOutcome, CreateOutcome, DmabufHandler, ParamsState, ProtocolError,
};
use nix::fcntl::{open, OFlag};
use nix::sys::stat::Mode;

struct Accept;

impl DmabufHandler for Accept {
    fn validate_dmabuf(&mut self, _buffer: &Dmabuf) -> bool {
        true
    }
}

struct Reject;

impl DmabufHandler for Reject {
    fn validate_dmabuf(&mut self, _buffer: &Dmabuf) -> bool {
        false
    }
}

fn argb_formats() -> Vec<Format> {
    vec![Format { code: Fourcc::Argb8888, modifier: Modifier::Linear }]
}

/// Makes a file descriptor backed by a region of exactly `size` bytes.
fn region_fd(name: &str, size: i64) -> i32 {
    let path = format!("/tmp/{}", name);
    let fd = open(
        path.as_str(),
        OFlag::O_CREAT | OFlag::O_RDWR | OFlag::O_TRUNC,
        Mode::from_bits_truncate(0o600),
    )
    .expect("creating a backing region failed");
    let _ = nix::unistd::unlink(path.as_str());
    nix::unistd::ftruncate(fd, size).expect("sizing the backing region failed");
    fd
}

#[test]
fn zero_width_is_invalid_dimensions() {
    let formats = argb_formats();
    let mut params = ParamsState::new();
    params.add(-1, 0, 0, 64, Modifier::Linear).unwrap();
    let r = params.create(&formats, &mut Accept, 0, 16, Fourcc::Argb8888.code(), 0);
    assert!(matches!(r, CreateOutcome::Rejected(ProtocolError::InvalidDimensions)));
    assert!(params.used);
}

#[test]
fn negative_height_is_invalid_dimensions_immed() {
    let formats = argb_formats();
    let mut params = ParamsState::new();
    params.add(-1, 0, 0, 64, Modifier::Linear).unwrap();
    let r = params.create_immed(&formats, &mut Accept, 16, -1, Fourcc::Argb8888.code(), 0);
    assert!(matches!(r, CreateImmedOutcome::Fatal(ProtocolError::InvalidDimensions)));
    assert!(params.used);
}

#[test]
fn duplicate_plane_index_is_plane_set_and_first_retained() {
    let mut params = ParamsState::new();
    params.add(11, 0, 0, 64, Modifier::Linear).unwrap();
    let r = params.add(22, 0, 128, 256, Modifier::Invalid);
    assert_eq!(r, Err(ProtocolError::PlaneSet));
    assert_eq!(params.pending_planes.len(), 1);
    assert_eq!(params.pending_planes[0].fd, 11);
    assert_eq!(params.pending_planes[0].offset, 0);
    assert_eq!(params.pending_planes[0].stride, 64);
    assert_eq!(params.pending_planes[0].modifier, Modifier::Linear);
}

#[test]
fn plane_index_at_maximum_is_plane_idx() {
    let mut params = ParamsState::new();
    assert_eq!(params.add(5, 4, 0, 64, Modifier::Linear), Err(ProtocolError::PlaneIdx));
    assert_eq!(params.add(5, 1000, 0, 64, Modifier::Linear), Err(ProtocolError::PlaneIdx));
    assert_eq!(params.pending_planes.len(), 0);
}

#[test]
fn used_params_refuse_everything() {
    let formats = argb_formats();
    let mut params = ParamsState::new();
    // A failing create (no supported format match) still uses up the params.
    let r = params.create(&formats, &mut Accept, 16, 16, Fourcc::Xrgb8888.code(), 0);
    assert!(matches!(r, CreateOutcome::Rejected(ProtocolError::InvalidFormat)));
    assert!(params.used);
    assert_eq!(params.add(3, 0, 0, 64, Modifier::Linear), Err(ProtocolError::AlreadyUsed));
    let r = params.create(&formats, &mut Accept, 16, 16, Fourcc::Argb8888.code(), 0);
    assert!(matches!(r, CreateOutcome::Rejected(ProtocolError::AlreadyUsed)));
    let r = params.create_immed(&formats, &mut Accept, 16, 16, Fourcc::Argb8888.code(), 0);
    assert!(matches!(r, CreateImmedOutcome::Fatal(ProtocolError::AlreadyUsed)));
}

#[test]
fn successful_create_is_terminal_too() {
    let formats = argb_formats();
    let fd = region_fd("dmabuf_core_terminal", 4096);
    let mut params = ParamsState::new();
    params.add(fd, 0, 0, 64, Modifier::Linear).unwrap();
    let r = params.create(&formats, &mut Accept, 16, 16, Fourcc::Argb8888.code(), 0);
    assert!(matches!(r, CreateOutcome::Created(_)));
    assert_eq!(params.add(fd, 1, 0, 64, Modifier::Linear), Err(ProtocolError::AlreadyUsed));
    let _ = nix::unistd::close(fd);
}

#[test]
fn stride_overflow_is_out_of_bounds() {
    let formats = argb_formats();
    let mut params = ParamsState::new();
    params.add(-1, 0, 0, u32::MAX, Modifier::Linear).unwrap();
    let r = params.create(&formats, &mut Accept, 16, 2, Fourcc::Argb8888.code(), 0);
    assert!(matches!(r, CreateOutcome::Rejected(ProtocolError::OutOfBounds)));
}

#[test]
fn unknown_format_code_is_invalid_format() {
    let formats = argb_formats();
    let mut params = ParamsState::new();
    let r = params.create(&formats, &mut Accept, 16, 16, 0xdead_beef, 0);
    assert!(matches!(r, CreateOutcome::Rejected(ProtocolError::InvalidFormat)));
}

#[test]
fn no_planes_is_incomplete() {
    let formats = argb_formats();
    let mut params = ParamsState::new();
    let r = params.create(&formats, &mut Accept, 16, 16, Fourcc::Argb8888.code(), 0);
    assert!(matches!(r, CreateOutcome::Rejected(ProtocolError::Incomplete)));
}

#[test]
fn create_on_large_region_succeeds() {
    let formats = argb_formats();
    let fd = region_fd("dmabuf_core_large", 1024);
    let mut params = ParamsState::new();
    params.add(fd, 0, 0, 64, Modifier::Linear).unwrap();
    let r = params.create(&formats, &mut Accept, 16, 16, Fourcc::Argb8888.code(), 0);
    match r {
        CreateOutcome::Created(buf) => {
            assert_eq!(buf.width, 16);
            assert_eq!(buf.height, 16);
            assert_eq!(buf.code, Fourcc::Argb8888);
            assert_eq!(buf.planes.len(), 1);
            assert_eq!(buf.planes[0].fd, fd);
            assert_eq!(buf.planes[0].plane_idx, 0);
            assert_eq!(buf.planes[0].stride, 64);
            assert_eq!(buf.planes[0].modifier, Modifier::Linear);
        },
        _ => panic!("expected a created buffer"),
    }
    let _ = nix::unistd::close(fd);
}

#[test]
fn create_immed_on_large_region_succeeds() {
    let formats = argb_formats();
    let fd = region_fd("dmabuf_core_immed_large", 2048);
    let mut params = ParamsState::new();
    params.add(fd, 0, 0, 64, Modifier::Linear).unwrap();
    let r = params.create_immed(&formats, &mut Accept, 16, 16, Fourcc::Argb8888.code(), 0);
    match r {
        CreateImmedOutcome::Created(buf) => {
            assert_eq!(buf.width, 16);
            assert_eq!(buf.height, 16);
            assert_eq!(buf.planes.len(), 1);
        },
        CreateImmedOutcome::Fatal(e) => panic!("unexpected fatal error with code {}", e.code()),
    }
    let _ = nix::unistd::close(fd);
}

#[test]
fn planes_are_reindexed_in_arrival_order() {
    let formats = argb_formats();
    let fd = region_fd("dmabuf_core_reindex", 4096);
    let mut params = ParamsState::new();
    // Announced as plane 2 then plane 0; the built buffer re-indexes them
    // contiguously in arrival order.
    params.add(fd, 2, 1024, 32, Modifier::Linear).unwrap();
    params.add(fd, 0, 0, 64, Modifier::Linear).unwrap();
    let r = params.create(&formats, &mut Accept, 16, 16, Fourcc::Argb8888.code(), 0);
    match r {
        CreateOutcome::Created(buf) => {
            assert_eq!(buf.planes.len(), 2);
            assert_eq!(buf.planes[0].plane_idx, 0);
            assert_eq!(buf.planes[0].offset, 1024);
            assert_eq!(buf.planes[1].plane_idx, 1);
            assert_eq!(buf.planes[1].offset, 0);
        },
        _ => panic!("expected a created buffer"),
    }
    let _ = nix::unistd::close(fd);
}

#[test]
fn create_on_small_region_is_out_of_bounds() {
    let formats = argb_formats();
    let fd = region_fd("dmabuf_core_small", 512);
    let mut params = ParamsState::new();
    params.add(fd, 0, 0, 64, Modifier::Linear).unwrap();
    // end = 64 * 16 + 0 = 1024 > 512
    let r = params.create(&formats, &mut Accept, 16, 16, Fourcc::Argb8888.code(), 0);
    assert!(matches!(r, CreateOutcome::Rejected(ProtocolError::OutOfBounds)));
    let _ = nix::unistd::close(fd);
}

#[test]
fn callback_rejection_is_graceful_for_create() {
    let formats = argb_formats();
    let fd = region_fd("dmabuf_core_rejected", 4096);
    let mut params = ParamsState::new();
    params.add(fd, 0, 0, 64, Modifier::Linear).unwrap();
    let r = params.create(&formats, &mut Reject, 16, 16, Fourcc::Argb8888.code(), 0);
    assert!(matches!(r, CreateOutcome::Failed));
    assert!(params.used);
    let _ = nix::unistd::close(fd);
}

#[test]
fn callback_rejection_is_fatal_for_create_immed() {
    let formats = argb_formats();
    let fd = region_fd("dmabuf_core_rejected_immed", 4096);
    let mut params = ParamsState::new();
    params.add(fd, 0, 0, 64, Modifier::Linear).unwrap();
    let r = params.create_immed(&formats, &mut Reject, 16, 16, Fourcc::Argb8888.code(), 0);
    assert!(matches!(r, CreateImmedOutcome::Fatal(ProtocolError::InvalidWlBuffer)));
    let _ = nix::unistd::close(fd);
}

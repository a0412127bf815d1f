use pixel_buffer::{
    DisplayHandleKind, PixelBuffer, PixelBufferCreationError, PixelBufferFormatType, Platform,
    SurfaceTarget, WindowHandleKind,
};
use pixel_buffer::handle::{get_window_and_display, resolve_target};

fn x11_window() -> WindowHandleKind {
    WindowHandleKind::Xlib { window: 7 }
}

fn x11_display() -> DisplayHandleKind {
    DisplayHandleKind::Xlib { display: Some(3) }
}

fn x11_buffer(width: u32, height: u32) -> PixelBuffer {
    PixelBuffer::new(width, height, PixelBufferFormatType::BGRA, x11_window(), x11_display())
        .expect("native-format construction must succeed")
}

fn web_buffer(width: u32, height: u32) -> PixelBuffer {
    PixelBuffer::new(
        width,
        height,
        PixelBufferFormatType::RGBA,
        WindowHandleKind::Web { id: 5 },
        DisplayHandleKind::Web,
    )
    .expect("native-format construction must succeed")
}

#[test]
fn new_native_format_reports_dimensions() {
    let buf = x11_buffer(64, 48);
    assert_eq!(buf.width(), 64);
    assert_eq!(buf.height(), 48);
    assert_eq!(buf.format(), PixelBufferFormatType::BGRA);
    assert_eq!(buf.target(), SurfaceTarget::X11 { window: 7, display: 3 });
    assert_eq!(buf.platform(), Platform::X11);
}

#[test]
fn new_web_native_format_reports_dimensions() {
    let buf = web_buffer(32, 16);
    assert_eq!(buf.width(), 32);
    assert_eq!(buf.height(), 16);
    assert_eq!(buf.format(), PixelBufferFormatType::RGBA);
    assert_eq!(buf.target(), SurfaceTarget::Web { canvas_id: 5 });
    assert_eq!(buf.platform(), Platform::Web);
}

#[test]
fn row_len_and_total_extent() {
    let buf = x11_buffer(10, 7);
    assert_eq!(buf.bytes_per_pixel(), 4);
    assert_eq!(buf.bits_per_pixel(), 32);
    assert_eq!(buf.row_len(), 10 * 4);
    assert_eq!(buf.len(), buf.row_len() * 7);
    assert_eq!(buf.bytes().len(), 10 * 7 * 4);
}

#[test]
fn format_bytes_and_bits() {
    assert_eq!(PixelBufferFormatType::BGRA.bytes_per_pixel(), 4);
    assert_eq!(PixelBufferFormatType::BGR.bytes_per_pixel(), 3);
    assert_eq!(PixelBufferFormatType::RGBA.bytes_per_pixel(), 4);
    assert_eq!(PixelBufferFormatType::BGRA.bits_per_pixel(), 32);
    assert_eq!(PixelBufferFormatType::BGR.bits_per_pixel(), 24);
    assert_eq!(PixelBufferFormatType::RGBA.bits_per_pixel(), 32);
}

#[test]
fn native_formats_and_capabilities() {
    assert_eq!(Platform::X11.native_format(), PixelBufferFormatType::BGRA);
    assert_eq!(Platform::Web.native_format(), PixelBufferFormatType::RGBA);
    assert!(Platform::X11.supports(PixelBufferFormatType::BGRA));
    assert!(Platform::X11.supports(PixelBufferFormatType::BGR));
    assert!(!Platform::X11.supports(PixelBufferFormatType::RGBA));
    assert!(Platform::Web.supports(PixelBufferFormatType::RGBA));
    assert!(!Platform::Web.supports(PixelBufferFormatType::BGRA));
    assert!(!Platform::Web.supports(PixelBufferFormatType::BGR));
}

#[test]
fn default_fill_per_platform() {
    let buf = x11_buffer(3, 2);
    assert!(buf.bytes().iter().all(|&b| b == 255));
    let buf = web_buffer(3, 2);
    assert!(buf.bytes().iter().all(|&b| b == 0));
}

#[test]
fn row_in_and_out_of_range() {
    let mut buf = x11_buffer(5, 4);
    for i in 0..4 {
        let row = buf.row(i).expect("row in range");
        assert_eq!(row.len(), 5 * 4);
    }
    assert!(buf.row(4).is_none());
    assert!(buf.row(100).is_none());
    for i in 0..4 {
        let row = buf.row_mut(i).expect("row in range");
        assert_eq!(row.len(), 5 * 4);
    }
    assert!(buf.row_mut(4).is_none());
    assert!(buf.row_mut(100).is_none());
}

#[test]
fn rows_cover_every_row_and_restart() {
    let buf = x11_buffer(6, 9);
    let rows = buf.rows();
    assert_eq!(rows.len(), 9);
    for row in &rows {
        assert_eq!(row.len(), 6 * 4);
    }
    let again = buf.rows();
    assert_eq!(rows, again);
}

#[test]
fn pattern_round_trip() {
    let mut buf = x11_buffer(4, 8);
    let row_len = buf.row_len();
    for i in 0..8u32 {
        let row = buf.row_mut(i).expect("row in range");
        for b in row.iter_mut() {
            *b = (i as u8) * 10 + 1;
        }
    }
    let rows = buf.rows();
    assert_eq!(rows.len(), 8);
    for (i, row) in rows.iter().enumerate() {
        assert_eq!(*row, vec![(i as u8) * 10 + 1; row_len].as_slice());
    }
}

#[test]
fn set_row_round_trip_and_rejections() {
    let mut buf = x11_buffer(3, 3);
    let data = [1u8, 2, 3, 4, 5, 6, 7, 8, 9, 10, 11, 12];
    assert!(buf.set_row(1, &data));
    assert_eq!(buf.row(1).unwrap(), &data);
    assert!(buf.row(0).unwrap().iter().all(|&b| b == 255));
    assert!(buf.row(2).unwrap().iter().all(|&b| b == 255));
    assert!(!buf.set_row(3, &data));
    assert!(!buf.set_row(0, &data[..5]));
    assert_eq!(buf.row(1).unwrap(), &data);
}

#[test]
fn set_rows_pattern_round_trip() {
    let mut buf = x11_buffer(4, 8);
    let row_len = buf.row_len();
    let pattern: Vec<Vec<u8>> = (0..8).map(|i| vec![(i as u8) * 3 + 1; row_len]).collect();
    assert!(buf.set_rows(&pattern));
    for (i, row) in buf.rows().iter().enumerate() {
        assert_eq!(*row, pattern[i].as_slice());
    }
    let before: Vec<u8> = buf.bytes().to_vec();
    assert!(!buf.set_rows(&vec![vec![0u8; row_len]; 7]));
    let mut bad = pattern.clone();
    bad[3] = vec![0u8; row_len + 1];
    assert!(!buf.set_rows(&bad));
    assert_eq!(buf.bytes(), before.as_slice());
}

#[test]
fn wrong_format_is_rejected() {
    for format in [PixelBufferFormatType::BGR, PixelBufferFormatType::RGBA] {
        let r = PixelBuffer::new(8, 8, format, x11_window(), x11_display());
        assert_eq!(r.err(), Some(PixelBufferCreationError::FormatNotSupported));
    }
    for format in [PixelBufferFormatType::BGR, PixelBufferFormatType::BGRA] {
        let r = PixelBuffer::new(8, 8, format, WindowHandleKind::Web { id: 1 }, DisplayHandleKind::Web);
        assert_eq!(r.err(), Some(PixelBufferCreationError::FormatNotSupported));
    }
}

#[test]
fn mismatched_handles_are_rejected() {
    let r = PixelBuffer::new(8, 8, PixelBufferFormatType::BGRA, WindowHandleKind::Other, x11_display());
    assert_eq!(r.err(), Some(PixelBufferCreationError::HandleMismatch));
    let r = PixelBuffer::new(8, 8, PixelBufferFormatType::BGRA, x11_window(), DisplayHandleKind::Web);
    assert_eq!(r.err(), Some(PixelBufferCreationError::HandleMismatch));
    let r = PixelBuffer::new(
        8,
        8,
        PixelBufferFormatType::BGRA,
        x11_window(),
        DisplayHandleKind::Xlib { display: None },
    );
    assert_eq!(r.err(), Some(PixelBufferCreationError::HandleMismatch));
}

#[test]
fn zero_dimensions_are_accepted() {
    let buf = x11_buffer(0, 5);
    assert_eq!(buf.len(), 0);
    assert_eq!(buf.row_len(), 0);
    let row = buf.row(0).expect("row index below height");
    assert_eq!(row.len(), 0);
    let buf = x11_buffer(5, 0);
    assert_eq!(buf.len(), 0);
    assert!(buf.row(0).is_none());
    assert_eq!(buf.rows().len(), 0);
}

#[test]
fn resolver_extracts_window_and_display() {
    assert_eq!(get_window_and_display(x11_window(), x11_display()), Some((7, 3)));
    assert_eq!(
        get_window_and_display(x11_window(), DisplayHandleKind::Xlib { display: None }),
        None
    );
    assert_eq!(get_window_and_display(WindowHandleKind::Web { id: 5 }, x11_display()), None);
    assert_eq!(get_window_and_display(x11_window(), DisplayHandleKind::Other), None);
}

#[test]
fn resolver_builds_surface_targets() {
    assert_eq!(
        resolve_target(x11_window(), x11_display()),
        Some(SurfaceTarget::X11 { window: 7, display: 3 })
    );
    assert_eq!(
        resolve_target(WindowHandleKind::Web { id: 9 }, DisplayHandleKind::Web),
        Some(SurfaceTarget::Web { canvas_id: 9 })
    );
    assert_eq!(resolve_target(WindowHandleKind::Other, x11_display()), None);
    assert_eq!(
        resolve_target(x11_window(), DisplayHandleKind::Xlib { display: None }),
        None
    );
}

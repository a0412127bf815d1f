use pixel_buffer::{
    BlitCommand, DisplayHandleKind, PixelBuffer, PixelBufferFormatType, SurfaceTarget,
    WindowHandleKind,
};

fn x11_buffer(width: u32, height: u32) -> PixelBuffer {
    PixelBuffer::new(
        width,
        height,
        PixelBufferFormatType::BGRA,
        WindowHandleKind::Xlib { window: 7 },
        DisplayHandleKind::Xlib { display: Some(3) },
    )
    .expect("native-format construction must succeed")
}

#[test]
fn blit_rect_forwards_the_rectangle() {
    let buf = x11_buffer(40, 30);
    let c = buf.blit_rect((1, 2), (3, 4), (5, 6));
    assert_eq!(
        c,
        BlitCommand {
            target: SurfaceTarget::X11 { window: 7, display: 3 },
            src_x: 1,
            src_y: 2,
            dst_x: 3,
            dst_y: 4,
            width: 5,
            height: 6,
        }
    );
}

#[test]
fn blit_equals_full_extent_blit_rect() {
    let buf = x11_buffer(40, 30);
    let full = buf.blit_rect((0, 0), (0, 0), (buf.width(), buf.height()));
    assert_eq!(buf.blit(), full);
}

#[test]
fn blit_scenario_fill_and_reblit() {
    let mut buf = x11_buffer(64, 64);
    for i in 0..64u32 {
        let row = buf.row_mut(i).expect("row in range");
        for b in row.iter_mut() {
            *b = (i % 256) as u8;
        }
    }
    let first = buf.blit();
    assert_eq!(first.target, SurfaceTarget::X11 { window: 7, display: 3 });
    assert_eq!((first.width, first.height), (64, 64));
    let second = buf.blit();
    assert_eq!(first, second);
    for (i, row) in buf.rows().iter().enumerate() {
        assert!(row.iter().all(|&b| b == (i % 256) as u8));
    }
}

#[test]
fn oversized_blit_rect_leaves_memory_untouched() {
    let mut buf = x11_buffer(16, 16);
    for i in 0..16u32 {
        let row = buf.row_mut(i).expect("row in range");
        for (j, b) in row.iter_mut().enumerate() {
            *b = (i as u8).wrapping_mul(31).wrapping_add(j as u8);
        }
    }
    let before: Vec<u8> = buf.bytes().to_vec();
    let c = buf.blit_rect((8, 8), (0, 0), (32, 64));
    assert_eq!((c.width, c.height), (32, 64));
    assert_eq!(buf.bytes(), before.as_slice());
}

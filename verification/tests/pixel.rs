use hyper_sync::pixel::{avg_raw_rect, buffer_size, bytes_per_pixel, raw_plane, read_pixel, stride_for, PixelFormat};

#[test]
fn bytes_and_strides() {
    assert_eq!(bytes_per_pixel(PixelFormat::Rgb), 3);
    assert_eq!(bytes_per_pixel(PixelFormat::Bgra), 4);
    assert_eq!(bytes_per_pixel(PixelFormat::Nv12), 1);
    assert_eq!(stride_for(PixelFormat::Bgrx, 1920), 7680);
    assert_eq!(stride_for(PixelFormat::Rgb, 1920), 5760);
    assert_eq!(stride_for(PixelFormat::Bgrx, u32::MAX), -1);
    assert_eq!(stride_for(PixelFormat::Bgrx, 1 << 30), i32::MAX);
    assert_eq!(buffer_size(7680, 1080), 8_294_400);
    assert_eq!(buffer_size(i32::MAX, 2), i32::MAX);
    assert_eq!(buffer_size(100, 0), 100);
}

#[test]
fn pixels_by_format() {
    let f = [10u8, 20, 30, 40];
    assert_eq!(read_pixel(&f, 0, PixelFormat::Rgb), [10, 20, 30]);
    assert_eq!(read_pixel(&f, 0, PixelFormat::Bgrx), [30, 20, 10]);
    assert_eq!(read_pixel(&f, 0, PixelFormat::Xrgb), [20, 30, 40]);
    assert_eq!(read_pixel(&f, 0, PixelFormat::Abgr), [40, 30, 20]);
    assert_eq!(read_pixel(&f, 0, PixelFormat::Other), [30, 20, 10]);
}

#[test]
fn average_of_rectangle() {
    // 2x2 RGBx frame, stride 8
    let frame = [
        10, 20, 30, 0, 30, 40, 50, 0, //
        50, 60, 70, 0, 70, 80, 90, 0,
    ];
    assert_eq!(avg_raw_rect(&frame, 8, PixelFormat::Rgbx, 0, 0, 2, 2), [40, 50, 60]);
    assert_eq!(avg_raw_rect(&frame, 8, PixelFormat::Rgbx, 1, 0, 2, 1), [30, 40, 50]);
    assert_eq!(avg_raw_rect(&frame, 8, PixelFormat::Rgbx, 0, 0, 0, 2), [0, 0, 0]);
    // pixels past the end are skipped
    assert_eq!(avg_raw_rect(&frame, 8, PixelFormat::Rgbx, 0, 1, 2, 3), [60, 70, 80]);
}

#[test]
fn plane_bounds() {
    assert_eq!(raw_plane(7680, 0, 100, 50, 1920, PixelFormat::Bgrx), Some((0, 50, 7680)));
    assert_eq!(raw_plane(-100, 10, 100, 500, 10, PixelFormat::Rgb), Some((10, 110, 100)));
    assert_eq!(raw_plane(0, 10, 100, 500, 10, PixelFormat::Bgrx), Some((10, 110, 40)));
    assert_eq!(raw_plane(0, 10, 0, 500, 10, PixelFormat::Bgrx), None);
    assert_eq!(raw_plane(i32::MIN, 0, 4, 4, 1, PixelFormat::Bgrx), Some((0, 4, 1usize << 31)));
    assert_eq!(raw_plane(0, 600, 10, 500, 1, PixelFormat::Rgb), None);
}

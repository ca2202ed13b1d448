use raytracer::framebuffer::{upscale_framebuffer, Framebuffer};

#[test]
fn new_buffer_is_black() {
    let fb = Framebuffer::new(4, 3);
    assert_eq!(fb.width(), 4);
    assert_eq!(fb.height(), 3);
    assert_eq!(fb.get_buffer().len(), 12);
    assert!(fb.get_buffer().iter().all(|&p| p == 0));
}

#[test]
fn point_writes_the_current_color_row_major() {
    let mut fb = Framebuffer::new(4, 3);
    fb.set_current_color(0xABCDEF);
    fb.point(2, 1);
    let buffer = fb.get_buffer();
    for (i, &p) in buffer.iter().enumerate() {
        if i == 1 * 4 + 2 {
            assert_eq!(p, 0xABCDEF);
        } else {
            assert_eq!(p, 0);
        }
    }
}

#[test]
fn point_overwrites_only_its_pixel() {
    let mut fb = Framebuffer::new(2, 2);
    fb.set_current_color(7);
    fb.point(0, 0);
    fb.set_current_color(9);
    fb.point(0, 0);
    fb.point(1, 1);
    assert_eq!(fb.get_buffer(), &vec![9, 0, 0, 9]);
}

#[test]
fn upscale_same_size_copies() {
    let low = vec![1, 2, 3, 4];
    assert_eq!(upscale_framebuffer(&low, 2, 2, 2, 2), vec![1, 2, 3, 4]);
}

#[test]
fn upscale_replicates_one_pixel() {
    let low = vec![5];
    assert_eq!(upscale_framebuffer(&low, 1, 1, 2, 2), vec![5, 5, 5, 5]);
}

#[test]
fn upscale_doubles_by_nearest_neighbor() {
    let low = vec![1, 2, 3, 4];
    let high = upscale_framebuffer(&low, 2, 2, 4, 4);
    assert_eq!(
        high,
        vec![
            1, 1, 2, 2,
            1, 1, 2, 2,
            3, 3, 4, 4,
            3, 3, 4, 4,
        ]
    );
}

#[test]
fn upscale_to_empty_target() {
    let low = vec![1, 2, 3, 4];
    assert_eq!(upscale_framebuffer(&low, 2, 2, 0, 0), Vec::<u32>::new());
}

use bevy_wallpaper::frame::{Frame, FrameSlot, ImageLayout};
use x11rb::image::{BitsPerPixel, Image, ImageOrder, ScanlinePad};

fn layout(bits_per_pixel: u8, scanline_pad: u8) -> ImageLayout {
    ImageLayout { bits_per_pixel, scanline_pad }
}

fn two_by_two() -> Frame {
    Frame {
        width: 2,
        height: 2,
        pixels: vec![
            0x11, 0x12, 0x13, 0x21, 0x22, 0x23, //
            0x31, 0x32, 0x33, 0x41, 0x42, 0x43,
        ],
    }
}

#[test]
fn frame_validity() {
    assert!(two_by_two().check());
    assert!(!Frame { width: 2, height: 2, pixels: vec![0; 11] }.check());
    assert!(!Frame { width: 0, height: 0, pixels: Vec::new() }.check());
    assert!(!Frame { width: 65_536, height: 1, pixels: vec![0; 65_536 * 3] }.check());
    assert!(Frame { width: 1, height: 65_535, pixels: vec![0; 65_535 * 3] }.check());
}

#[test]
fn four_byte_pixels_lead_with_a_zero_byte() {
    let image = two_by_two().pack(layout(32, 32)).unwrap();
    assert_eq!(
        image,
        vec![
            0x00, 0x11, 0x12, 0x13, 0x00, 0x21, 0x22, 0x23, //
            0x00, 0x31, 0x32, 0x33, 0x00, 0x41, 0x42, 0x43,
        ]
    );
}

#[test]
fn three_byte_rows_are_filled_up_to_the_pad() {
    let image = two_by_two().pack(layout(24, 32)).unwrap();
    assert_eq!(
        image,
        vec![
            0x11, 0x12, 0x13, 0x21, 0x22, 0x23, 0x00, 0x00, //
            0x31, 0x32, 0x33, 0x41, 0x42, 0x43, 0x00, 0x00,
        ]
    );
    let image = two_by_two().pack(layout(24, 8)).unwrap();
    assert_eq!(image, two_by_two().pixels);
}

#[test]
fn a_single_pixel_is_padded_to_sixteen_and_thirty_two_bits() {
    let pixel = Frame { width: 1, height: 1, pixels: vec![0xAA, 0xBB, 0xCC] };
    assert_eq!(pixel.pack(layout(24, 8)).unwrap(), vec![0xAA, 0xBB, 0xCC]);
    assert_eq!(pixel.pack(layout(24, 16)).unwrap(), vec![0xAA, 0xBB, 0xCC, 0x00]);
    assert_eq!(pixel.pack(layout(24, 32)).unwrap(), vec![0xAA, 0xBB, 0xCC, 0x00]);
    assert_eq!(pixel.pack(layout(32, 8)).unwrap(), vec![0x00, 0xAA, 0xBB, 0xCC]);
}

#[test]
fn packed_length_is_stride_times_height() {
    let frame = Frame { width: 5, height: 3, pixels: vec![9; 45] };
    assert_eq!(frame.pack(layout(24, 32)).unwrap().len(), 16 * 3);
    assert_eq!(frame.pack(layout(24, 16)).unwrap().len(), 16 * 3);
    assert_eq!(frame.pack(layout(24, 8)).unwrap().len(), 15 * 3);
    assert_eq!(frame.pack(layout(32, 32)).unwrap().len(), 20 * 3);
}

#[test]
fn invalid_frames_and_layouts_have_no_image() {
    assert_eq!(Frame { width: 2, height: 2, pixels: vec![0; 11] }.pack(layout(32, 32)), None);
    assert_eq!(two_by_two().pack(layout(16, 32)), None);
    assert_eq!(two_by_two().pack(layout(32, 64)), None);
    assert_eq!(two_by_two().pack(layout(32, 0)), None);
    assert!(!layout(8, 8).check());
    assert!(layout(24, 16).check());
}

#[test]
fn the_slot_keeps_the_latest_frame() {
    let mut slot = FrameSlot::new();
    assert!(!slot.is_waiting());
    assert!(slot.take().is_none());
    let first = Frame { width: 1, height: 1, pixels: vec![1, 1, 1] };
    let second = Frame { width: 1, height: 1, pixels: vec![2, 2, 2] };
    assert!(slot.offer(first).is_none());
    assert!(slot.is_waiting());
    let stale = slot.offer(second).unwrap();
    assert_eq!(stale.pixels, vec![1, 1, 1]);
    let latest = slot.take().unwrap();
    assert_eq!(latest.pixels, vec![2, 2, 2]);
    assert!(!slot.is_waiting());
    assert!(slot.take().is_none());
}

#[test]
fn packed_image_is_laid_out_as_the_display_protocol_lays_it_out() {
    let pixel_sizes = [(BitsPerPixel::B24, 24u8), (BitsPerPixel::B32, 32u8)];
    let pads = [(ScanlinePad::Pad8, 8u8), (ScanlinePad::Pad16, 16u8), (ScanlinePad::Pad32, 32u8)];
    for (bits_per_pixel, pixel_bits) in pixel_sizes {
        for (scanline_pad, pad_bits) in pads {
            for width in 1..=6u32 {
                for height in 1..=3u32 {
                    let pixels: Vec<u8> =
                        (0..width * height * 3).map(|i| (i * 7 + 1) as u8).collect();
                    let frame = Frame { width, height, pixels };
                    let mut image = Image::allocate(
                        width as u16,
                        height as u16,
                        scanline_pad,
                        24,
                        bits_per_pixel,
                        ImageOrder::MsbFirst,
                    );
                    for y in 0..height {
                        for x in 0..width {
                            let at = ((y * width + x) * 3) as usize;
                            let pixel = u32::from(frame.pixels[at]) << 16
                                | u32::from(frame.pixels[at + 1]) << 8
                                | u32::from(frame.pixels[at + 2]);
                            image.put_pixel(x as u16, y as u16, pixel);
                        }
                    }
                    let packed = frame.pack(layout(pixel_bits, pad_bits)).unwrap();
                    assert_eq!(packed.as_slice(), image.data());
                }
            }
        }
    }
}

#[test]
fn rgba_buffer_loses_its_fourth_byte() {
    let rgba = [1u8, 2, 3, 255, 4, 5, 6, 0, 7, 8, 9, 128, 10, 11, 12, 64];
    let frame = Frame::from_rgba(2, 2, &rgba).unwrap();
    assert_eq!(frame.width, 2);
    assert_eq!(frame.height, 2);
    assert_eq!(frame.pixels, vec![1, 2, 3, 4, 5, 6, 7, 8, 9, 10, 11, 12]);
    assert!(frame.check());
    let row = Frame::from_rgba(4, 1, &rgba).unwrap();
    assert_eq!(row.pixels, frame.pixels);
}

#[test]
fn rgba_buffer_of_the_wrong_size_is_no_frame() {
    let rgba = [0u8; 16];
    assert!(Frame::from_rgba(2, 2, &rgba[..15]).is_none());
    assert!(Frame::from_rgba(2, 3, &rgba).is_none());
    assert!(Frame::from_rgba(0, 0, &[]).is_none());
    assert!(Frame::from_rgba(0, 4, &[]).is_none());
    assert!(Frame::from_rgba(65_536, 1, &vec![0u8; 65_536 * 4]).is_none());
    assert!(Frame::from_rgba(65_535, 1, &vec![0u8; 65_535 * 4]).is_some());
}

#[test]
fn default_slot_is_empty() {
    let mut slot = FrameSlot::default();
    assert!(!slot.is_waiting());
    assert!(slot.take().is_none());
}

use bytes::Bytes;
use framing::error::buffer_len;
use framing::layout::{fill_chunky, fill_planar};
use framing::video::{pixels, ChunkyFrame, PlanarFrame};
use framing::image::pixel_checked;
use framing::{iter, par_iter, Chunky, Function, Image, LengthMismatch, Rgb, Rgba};
use std::rc::Rc;
use std::sync::Arc;

fn colour(x: usize, y: usize) -> Rgba<u8> {
    Rgba((10 * y + x) as u8, (100 + 10 * y + x) as u8, (200 + 10 * y + x) as u8, (50 + y) as u8)
}

const CHUNKY_3X2: [u8; 24] = [
    0, 100, 200, 50, 1, 101, 201, 50, 2, 102, 202, 50, 10, 110, 210, 51, 11, 111, 211, 51, 12, 112,
    212, 51,
];

const PLANAR_3X2: [u8; 24] = [
    0, 1, 2, 10, 11, 12, 100, 101, 102, 110, 111, 112, 200, 201, 202, 210, 211, 212, 50, 50, 50, 51,
    51, 51,
];

#[test]
fn function_frame_reads_the_function() {
    let frame = Function::new(3, 2, colour);
    assert_eq!(frame.width(), 3);
    assert_eq!(frame.height(), 2);
    assert_eq!(frame.pixel(2, 1), Rgba(12, 112, 212, 51));
    assert_eq!(frame.pixel(0, 0), Rgba(0, 100, 200, 50));
}

#[test]
fn checked_access_stops_at_the_bounds() {
    let frame = Function::new(3, 2, colour);
    assert_eq!(pixel_checked(&frame, 2, 1), Some(colour(2, 1)));
    assert_eq!(pixel_checked(&frame, 0, 0), Some(colour(0, 0)));
    assert_eq!(pixel_checked(&frame, 3, 1), None);
    assert_eq!(pixel_checked(&frame, 2, 2), None);
    assert_eq!(pixel_checked(&frame, usize::MAX, usize::MAX), None);
    let chunky = Chunky::new(&frame);
    assert_eq!(pixel_checked(&chunky, 1, 1), Some(colour(1, 1)));
    assert_eq!(pixel_checked(&chunky, 1, 2), None);
}

#[test]
fn sequential_enumeration_of_two_pixels() {
    let frame = Function::new(2, 1, |x, _| if x == 0 { 0 } else { 1 });
    assert_eq!(iter(&frame), vec![(0, 0, 0), (1, 0, 1)]);
}

#[test]
fn enumeration_is_row_major() {
    let frame = Function::new(3, 2, |x, y| 10 * y + x);
    let expected = vec![(0, 0, 0), (1, 0, 1), (2, 0, 2), (0, 1, 10), (1, 1, 11), (2, 1, 12)];
    assert_eq!(iter(&frame), expected);
    assert_eq!(par_iter(&frame), expected);
    assert_eq!(pixels(&frame), vec![0, 1, 2, 10, 11, 12]);
}

#[test]
fn enumeration_of_an_empty_frame() {
    let frame = Function::new(0, 5, |x, y| x + y);
    assert_eq!(iter(&frame), vec![]);
    assert_eq!(par_iter(&frame), vec![]);
    assert_eq!(pixels(&frame), Vec::<usize>::new());
    let frame = Function::new(5, 0, |x, y| x + y);
    assert_eq!(iter(&frame), vec![]);
}

#[test]
fn chunky_layout_is_pixel_interleaved() {
    let frame = Chunky::new(Function::new(3, 2, colour));
    assert_eq!(frame.width(), 3);
    assert_eq!(frame.height(), 2);
    assert_eq!(*frame.bytes(), CHUNKY_3X2.to_vec());
    assert_eq!(frame.into_bytes(), CHUNKY_3X2.to_vec());

    let frame = ChunkyFrame::new(3, 2, colour);
    assert_eq!(frame.width(), 3);
    assert_eq!(frame.height(), 2);
    assert_eq!(frame.bytes(), CHUNKY_3X2.to_vec());
}

#[test]
fn planar_layout_is_one_plane_per_channel() {
    let frame = PlanarFrame::new(Function::new(3, 2, colour));
    assert_eq!(frame.width(), 3);
    assert_eq!(frame.height(), 2);
    assert_eq!(frame.bytes(), PLANAR_3X2.to_vec());
}

#[test]
fn fill_writes_both_layouts() {
    let frame = Function::new(3, 2, colour);
    let mut out = [7u8; 24];
    fill_chunky(&mut out, &frame);
    assert_eq!(out, CHUNKY_3X2);
    let mut out = [7u8; 24];
    fill_planar(&mut out, &frame);
    assert_eq!(out, PLANAR_3X2);
    let empty = Function::new(0, 2, colour);
    let mut out = [0u8; 0];
    fill_planar(&mut out, &empty);
    fill_chunky(&mut out, &empty);
}

#[test]
fn layouts_hold_the_pixels_of_the_source() {
    let source = Function::new(3, 2, colour);
    let chunky = Chunky::new(&source);
    let shared = ChunkyFrame::new(3, 2, colour);
    let planar = PlanarFrame::new(&source);
    for y in 0..2 {
        for x in 0..3 {
            assert_eq!(chunky.pixel(x, y), source.pixel(x, y));
            assert_eq!(shared.pixel(x, y), source.pixel(x, y));
            assert_eq!(planar.pixel(x, y), source.pixel(x, y));
            assert_eq!(chunky.pixel(x, y), planar.pixel(x, y));
        }
    }
}

#[test]
fn planar_black_decodes_to_black_everywhere() {
    let (w, h) = (1920, 1080);
    let frame = PlanarFrame::new(Function::new(w, h, |_, _| Rgba(0u8, 0, 0, 0)));
    assert_eq!(frame.bytes().len(), w * h * 4);
    for y in 0..h {
        for x in 0..w {
            assert_eq!(frame.pixel(x, y), Rgba(0, 0, 0, 0));
        }
    }
}

#[test]
fn frames_from_bytes_read_their_buffer() {
    let chunky = Chunky::<Rgba<u8>, Vec<u8>>::from_bytes(3, 2, CHUNKY_3X2.to_vec()).unwrap();
    assert_eq!(chunky.pixel(1, 1), colour(1, 1));
    let borrowed = Chunky::<Rgba<u8>, &[u8]>::from_bytes(3, 2, &CHUNKY_3X2[..]).unwrap();
    assert_eq!(borrowed.pixel(2, 0), colour(2, 0));
    let shared = Chunky::<Rgba<u8>, Bytes>::from_bytes(3, 2, Bytes::from(CHUNKY_3X2.to_vec()));
    assert_eq!(shared.unwrap().pixel(0, 1), colour(0, 1));

    let frame = ChunkyFrame::<Rgba<u8>>::from_bytes(3, 2, Bytes::from(CHUNKY_3X2.to_vec()));
    let frame = frame.unwrap();
    assert_eq!((frame.width(), frame.height()), (3, 2));
    assert_eq!(frame.pixel(2, 1), colour(2, 1));
    assert_eq!(frame.bytes(), CHUNKY_3X2.to_vec());
    assert_eq!(frame.clone().pixel(1, 0), colour(1, 0));

    let frame = PlanarFrame::<Rgba<u8>>::from_bytes(3, 2, Bytes::from(PLANAR_3X2.to_vec()));
    let frame = frame.unwrap();
    assert_eq!((frame.width(), frame.height()), (3, 2));
    assert_eq!(frame.pixel(2, 1), colour(2, 1));
    assert_eq!(frame.pixel(0, 0), colour(0, 0));
    assert_eq!(frame.bytes(), PLANAR_3X2.to_vec());
    assert_eq!(frame.clone().pixel(1, 1), colour(1, 1));

    let rgb = PlanarFrame::<Rgb<u8>>::from_bytes(2, 1, Bytes::from(vec![1, 2, 3, 4, 5, 6]));
    assert_eq!(rgb.unwrap().pixel(1, 0), Rgb(2, 4, 6));
}

#[test]
fn from_bytes_rejects_every_other_length() {
    for len in [0usize, 1, 23, 25, 48] {
        let expected = LengthMismatch { width: 3, height: 2, channel_width: 4, actual: len };
        let chunky = Chunky::<Rgba<u8>, Vec<u8>>::from_bytes(3, 2, vec![0; len]);
        assert_eq!(chunky.err(), Some(expected));
        let shared = ChunkyFrame::<Rgba<u8>>::from_bytes(3, 2, Bytes::from(vec![0; len]));
        assert_eq!(shared.err(), Some(expected));
        let planar = PlanarFrame::<Rgba<u8>>::from_bytes(3, 2, Bytes::from(vec![0; len]));
        assert_eq!(planar.err(), Some(expected));
    }
    assert!(Chunky::<Rgba<u8>, Vec<u8>>::from_bytes(3, 2, vec![0; 24]).is_ok());
    assert!(Chunky::<Rgb<u8>, Vec<u8>>::from_bytes(3, 2, vec![0; 24]).is_err());
    assert!(Chunky::<Rgb<u8>, Vec<u8>>::from_bytes(3, 2, vec![0; 18]).is_ok());
}

#[test]
fn from_bytes_rejects_a_size_that_no_buffer_has() {
    let huge = Chunky::<Rgba<u8>, Vec<u8>>::from_bytes(usize::MAX, 2, vec![]);
    let expected =
        LengthMismatch { width: usize::MAX, height: 2, channel_width: 4, actual: 0 };
    assert_eq!(huge.err(), Some(expected));
    let wraps = PlanarFrame::<Rgba<u8>>::from_bytes(usize::MAX / 4 + 1, 1, Bytes::new());
    assert!(wraps.is_err());
    assert!(ChunkyFrame::<Rgba<u8>>::from_bytes(0, usize::MAX, Bytes::new()).is_ok());
}

#[test]
fn buffer_len_is_the_product_where_it_fits() {
    assert_eq!(buffer_len(1920, 1080, 4), Some(1920 * 1080 * 4));
    assert_eq!(buffer_len(0, usize::MAX, 4), Some(0));
    assert_eq!(buffer_len(usize::MAX, usize::MAX, 0), Some(0));
    assert_eq!(buffer_len(usize::MAX, 1, 1), Some(usize::MAX));
    assert_eq!(buffer_len(usize::MAX, 2, 1), None);
    assert_eq!(buffer_len(usize::MAX / 2 + 1, 1, 2), None);
}

#[test]
fn copy_from_fills_the_buffer_again() {
    let mut frame = Chunky::new(Function::new(3, 2, |_, _| Rgba(9u8, 9, 9, 9)));
    assert_eq!(*frame.bytes(), vec![9; 24]);
    frame.copy_from(Function::new(3, 2, colour));
    assert_eq!(*frame.bytes(), CHUNKY_3X2.to_vec());
    assert_eq!(frame.pixel(1, 1), colour(1, 1));
    assert_eq!((frame.width(), frame.height()), (3, 2));
}

#[test]
fn copy_from_fills_a_borrowed_buffer() {
    let mut buffer = [9u8; 24];
    {
        let mut frame = Chunky::<Rgba<u8>, &mut [u8]>::from_bytes(3, 2, &mut buffer[..]).unwrap();
        frame.copy_from(Function::new(3, 2, colour));
        assert_eq!(frame.pixel(2, 1), colour(2, 1));
        frame.bytes_mut()[0] = 42;
    }
    let mut expected = CHUNKY_3X2;
    expected[0] = 42;
    assert_eq!(buffer, expected);
}

#[test]
fn bytes_mut_writes_through() {
    let mut frame = Chunky::new(Function::new(3, 2, colour));
    frame.bytes_mut()[4] = 77;
    assert_eq!(frame.pixel(1, 0), Rgba(77, 101, 201, 50));
    assert_eq!(frame.pixel(0, 0), colour(0, 0));
    assert_eq!(frame.bytes_mut().len(), 24);
    let copy = frame.clone();
    assert_eq!(copy.pixel(1, 0), Rgba(77, 101, 201, 50));
}

#[test]
fn handles_forward_to_the_frame() {
    let frame = Function::new(3, 2, colour);
    let by_ref = &frame;
    assert_eq!((by_ref.width(), by_ref.height()), (3, 2));
    assert_eq!(Image::pixel(&by_ref, 1, 1), colour(1, 1));
    let boxed = Box::new(Function::new(3, 2, colour));
    assert_eq!((Image::width(&boxed), Image::height(&boxed)), (3, 2));
    assert_eq!(Image::pixel(&boxed, 2, 1), colour(2, 1));
    let counted = Rc::new(Function::new(3, 2, colour));
    assert_eq!((Image::width(&counted), Image::height(&counted)), (3, 2));
    assert_eq!(Image::pixel(&counted, 0, 1), colour(0, 1));
    let shared = Arc::new(Function::new(3, 2, colour));
    assert_eq!((Image::width(&shared), Image::height(&shared)), (3, 2));
    assert_eq!(Image::pixel(&shared, 2, 0), colour(2, 0));
    assert_eq!(*Chunky::new(shared.clone()).bytes(), CHUNKY_3X2.to_vec());
}

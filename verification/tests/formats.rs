use framing::{clamp, AsBytes, Bgr, Bgra, Grayscale, Rgb, Rgba, Yuv};

#[test]
fn channel_widths() {
    assert_eq!(<Rgba<u8> as AsBytes>::width(), 4);
    assert_eq!(<Bgra<u8> as AsBytes>::width(), 4);
    assert_eq!(<Rgb<u8> as AsBytes>::width(), 3);
    assert_eq!(<Bgr<u8> as AsBytes>::width(), 3);
    assert_eq!(<Yuv as AsBytes>::width(), 3);
    assert_eq!(<Grayscale<u8> as AsBytes>::width(), 1);
}

#[test]
fn encode_writes_channels_in_order() {
    let mut four = [0u8; 4];
    Rgba(1u8, 2, 3, 4).encode(&mut four);
    assert_eq!(four, [1, 2, 3, 4]);
    Bgra(5u8, 6, 7, 8).encode(&mut four);
    assert_eq!(four, [5, 6, 7, 8]);

    let mut three = [0u8; 3];
    Rgb(9u8, 10, 11).encode(&mut three);
    assert_eq!(three, [9, 10, 11]);
    Bgr(12u8, 13, 14).encode(&mut three);
    assert_eq!(three, [12, 13, 14]);
    Yuv(15, 16, 17).encode(&mut three);
    assert_eq!(three, [15, 16, 17]);

    let mut one = [0u8; 1];
    Grayscale(18u8).encode(&mut one);
    assert_eq!(one, [18]);
}

#[test]
fn decode_reads_channels_at_stride() {
    let bytes = [10u8, 11, 12, 13, 14, 15, 16, 17, 18, 19, 20, 21];
    assert_eq!(Rgba::<u8>::decode(&bytes, 4, 1), Rgba(14, 15, 16, 17));
    assert_eq!(Rgba::<u8>::decode(&bytes, 2, 3), Rgba(12, 15, 18, 21));
    assert_eq!(Bgra::<u8>::decode(&bytes, 0, 2), Bgra(10, 12, 14, 16));
    assert_eq!(Rgb::<u8>::decode(&bytes, 1, 4), Rgb(11, 15, 19));
    assert_eq!(Bgr::<u8>::decode(&bytes, 9, 1), Bgr(19, 20, 21));
    assert_eq!(Yuv::decode(&bytes, 0, 5), Yuv(10, 15, 20));
    assert_eq!(Grayscale::<u8>::decode(&bytes, 11, 7), Grayscale(21));
}

#[test]
fn decode_after_encode_is_identity() {
    for v in [0u8, 1, 127, 128, 254, 255] {
        let w = v.wrapping_mul(7).wrapping_add(3);
        let mut four = [0u8; 4];
        let p = Rgba(v, w, v ^ 0x55, w ^ 0xaa);
        p.encode(&mut four);
        assert_eq!(Rgba::<u8>::decode(&four, 0, 1), p);
        let q = Bgra(w, v, w ^ 0x0f, v ^ 0xf0);
        q.encode(&mut four);
        assert_eq!(Bgra::<u8>::decode(&four, 0, 1), q);

        let mut three = [0u8; 3];
        let p = Rgb(v, w, v ^ w);
        p.encode(&mut three);
        assert_eq!(Rgb::<u8>::decode(&three, 0, 1), p);
        let q = Bgr(w, v, !v);
        q.encode(&mut three);
        assert_eq!(Bgr::<u8>::decode(&three, 0, 1), q);
        let y = Yuv(v, !w, w);
        y.encode(&mut three);
        assert_eq!(Yuv::decode(&three, 0, 1), y);

        let mut one = [0u8; 1];
        Grayscale(v).encode(&mut one);
        assert_eq!(Grayscale::<u8>::decode(&one, 0, 1), Grayscale(v));
    }
}

#[test]
fn rgba_and_bgra_reorder_and_keep_alpha() {
    assert_eq!(Rgba::from(Bgra(1u8, 2, 3, 4)), Rgba(3, 2, 1, 4));
    assert_eq!(Bgra::from(Rgba(1u8, 2, 3, 4)), Bgra(3, 2, 1, 4));
    assert_eq!(Rgba::from(Bgra(1u16, 2, 3, 4)), Rgba(3u16, 2, 1, 4));
    assert_eq!(Rgba::from(Bgra::from(Rgba(9u8, 8, 7, 6))), Rgba(9, 8, 7, 6));
}

#[test]
fn rgb_and_bgr_drop_alpha_and_add_255() {
    assert_eq!(Rgb::from(Rgba(1u8, 2, 3, 4)), Rgb(1, 2, 3));
    assert_eq!(Bgr::from(Rgba(1u8, 2, 3, 4)), Bgr(3, 2, 1));
    assert_eq!(Rgba::from(Rgb(1u8, 2, 3)), Rgba(1, 2, 3, 255));
    assert_eq!(Rgba::from(Bgr(1u8, 2, 3)), Rgba(3, 2, 1, 255));
}

#[test]
fn grayscale_takes_the_intensity() {
    assert_eq!(Grayscale::from(Rgba(10u8, 200, 30, 7)), Grayscale(147));
    assert_eq!(Grayscale::from(Rgba(0u8, 0, 0, 0)), Grayscale(0));
    assert_eq!(Grayscale::from(Rgba(255u8, 255, 255, 255)), Grayscale(255));
    assert_eq!(Grayscale::from(Rgba(255u8, 0, 0, 255)), Grayscale(54));
    assert_eq!(Grayscale::from(Rgba(0u8, 255, 0, 255)), Grayscale(182));
    assert_eq!(Grayscale::from(Rgba(0u8, 0, 255, 255)), Grayscale(18));
    assert_eq!(Grayscale::from(Rgba(77u8, 77, 77, 1)), Grayscale(77));
}

#[test]
fn grayscale_round_trip() {
    assert_eq!(Rgba::from(Grayscale(147u8)), Rgba(147, 147, 147, 255));
    for (r, g, b, a) in [(10u8, 200u8, 30u8, 7u8), (0, 0, 0, 0), (255, 255, 255, 3), (1, 2, 3, 4)] {
        let luma = ((2126 * r as u32 + 7152 * g as u32 + 722 * b as u32) / 10000) as u8;
        let back = Rgba::from(Grayscale::from(Rgba(r, g, b, a)));
        assert_eq!(back, Rgba(luma, luma, luma, 255));
    }
}

#[test]
fn yuv_of_known_colours() {
    assert_eq!(Yuv::from(Rgba(0u8, 0, 0, 255)), Yuv(16, 128, 128));
    assert_eq!(Yuv::from(Rgba(255u8, 255, 255, 255)), Yuv(235, 127, 128));
    assert_eq!(Yuv::from(Rgba(255u8, 0, 0, 0)), Yuv(62, 102, 239));
    assert_eq!(Yuv::from(Rgba(0u8, 255, 0, 0)), Yuv(172, 41, 26));
    assert_eq!(Yuv::from(Rgba(0u8, 0, 255, 0)), Yuv(31, 239, 117));
}

#[test]
fn rgba_of_known_yuv() {
    assert_eq!(Rgba::from(Yuv(16, 128, 128)), Rgba(0, 0, 0, 255));
    assert_eq!(Rgba::from(Yuv(235, 127, 128)), Rgba(254, 255, 252, 255));
    assert_eq!(Rgba::from(Yuv(0, 0, 0)), Rgba(0, 76, 0, 255));
    assert_eq!(Rgba::from(Yuv(255, 255, 255)), Rgba(255, 183, 255, 255));
}

#[test]
fn yuv_round_trip_at_the_top_of_the_range() {
    for (r, g, b) in [(255u8, 255u8, 255u8), (255, 0, 255), (0, 255, 255), (255, 255, 0), (255, 7, 9)] {
        let back = Rgba::from(Yuv::from(Rgba(r, g, b, 255)));
        assert!((r as i32 - back.0 as i32).abs() <= 4);
        assert!((g as i32 - back.1 as i32).abs() <= 4);
        assert!((b as i32 - back.2 as i32).abs() <= 4);
        assert_eq!(back.3, 255);
    }
}

#[test]
fn clamp_of_integers() {
    assert_eq!(clamp(0, -5, 255), 0);
    assert_eq!(clamp(0, 0, 255), 0);
    assert_eq!(clamp(0, 100, 255), 100);
    assert_eq!(clamp(0, 255, 255), 255);
    assert_eq!(clamp(0, 256, 255), 255);
    assert_eq!(clamp(3u8, 9u8, 5u8), 5);
}

#[test]
fn pixels_convert_to_and_from_byte_arrays() {
    assert_eq!(Rgba::from([1u8, 2, 3, 4]), Rgba(1, 2, 3, 4));
    assert_eq!(<[u8; 4]>::from(Rgba(1u8, 2, 3, 4)), [1, 2, 3, 4]);
    assert_eq!(Bgra::from([1u8, 2, 3, 4]), Bgra(1, 2, 3, 4));
    assert_eq!(<[u8; 4]>::from(Bgra(1u8, 2, 3, 4)), [1, 2, 3, 4]);
    assert_eq!(Rgb::from([5u8, 6, 7]), Rgb(5, 6, 7));
    assert_eq!(<[u8; 3]>::from(Rgb(5u8, 6, 7)), [5, 6, 7]);
    assert_eq!(Bgr::from([5u8, 6, 7]), Bgr(5, 6, 7));
    assert_eq!(<[u8; 3]>::from(Bgr(5u8, 6, 7)), [5, 6, 7]);
    assert_eq!(Yuv::from([8u8, 9, 10]), Yuv(8, 9, 10));
    assert_eq!(<[u8; 3]>::from(Yuv(8, 9, 10)), [8, 9, 10]);
    assert_eq!(Grayscale::from([11u8]), Grayscale(11));
    assert_eq!(<[u8; 1]>::from(Grayscale(11u8)), [11]);
    let bytes: [u8; 4] = Rgba(9u8, 8, 7, 6).into();
    let back: Rgba<u8> = bytes.into();
    assert_eq!(back, Rgba(9, 8, 7, 6));
}

use framing::video::{pixels, ChunkyFrame, PlanarFrame};
use framing::{clamp, iter, Chunky, Function, Image, Rgba, Yuv};

#[test]
fn tests() {
    assert_eq!(clamp(1.0, 0.5, 2.0), 1.0);
    assert_eq!(clamp(1.0, 1.5, 2.0), 1.5);
    assert_eq!(clamp(1.0, 3.0, 2.0), 2.0);

    let a = 1.0;
    let b = 2.0;
    let c = 3.0;
    assert_eq!(clamp(&a, &b, &c), &b);
}

#[test]
fn conversion() {
    const MAX_ERROR: u8 = 4;

    for r in 0..255 {
        for g in 0..255 {
            for b in 0..255 {
                let a = Rgba(r, g, b, 255);
                let b = Rgba::from(Yuv::from(a));

                let distchk = |x, y| {
                    let dist = if y <= x { x - y } else { y - x };

                    if dist > MAX_ERROR {
                        panic!("{:?} is too far from {:?}!", b, a);
                    }
                };

                distchk(a.0, b.0);
                distchk(a.1, b.1);
                distchk(a.2, b.2);
                assert_eq!(b.3, 255);
            }
        }
    }
}

#[test]
fn sollux() {
    let sollux = Function::new(2, 1, |x, _| if x == 0 { 0 } else { 1 });
    assert_eq!(sollux.pixel(0, 0), 0);
    assert_eq!(sollux.pixel(1, 0), 1);
}

#[test]
fn chunky_black() {
    let (w, h) = (1920, 1080);
    let frame = Chunky::new(Function::new(w, h, |_, _| Rgba(0, 0, 0, 0)));

    assert_eq!(frame.width(), w);
    assert_eq!(frame.height(), h);
    assert_eq!(*frame.bytes(), vec![0; w * h * 4]);
    assert_eq!(iter(&frame).into_iter().count(), w * h);
    assert!(iter(&frame).into_iter().all(|(_, _, x)| x == Rgba(0, 0, 0, 0)));

    let frame = ChunkyFrame::new(w, h, |_, _| Rgba(0, 0, 0, 0));

    assert_eq!(frame.width(), w);
    assert_eq!(frame.height(), h);
    assert_eq!(frame.bytes(), vec![0; w * h * 4]);
    assert_eq!(pixels(&frame).into_iter().count(), w * h);
    assert!(pixels(&frame).into_iter().all(|x| x == Rgba(0, 0, 0, 0)));
}

#[test]
fn planar_black() {
    let (w, h) = (1280, 720);
    let frame = PlanarFrame::new(Function::new(w, h, |_, _| Rgba(0, 0, 0, 0)));

    assert_eq!(frame.width(), w);
    assert_eq!(frame.height(), h);
    assert_eq!(frame.bytes(), vec![0; w * h * 4]);
    assert_eq!(pixels(&frame).into_iter().count(), w * h);
    assert!(pixels(&frame).into_iter().all(|x| x == Rgba(0, 0, 0, 0)));
}

use framing::{crop, iter, pad, scale, Chunky, Function, Grayscale, Image, Rgba};

fn numbered(w: usize, h: usize) -> Function<usize, fn(usize, usize) -> usize> {
    fn number(x: usize, y: usize) -> usize {
        100 * y + x
    }
    Function::new(w, h, number)
}

#[test]
fn crop_shifts_the_coordinates() {
    let view = crop((2, 1), (3, 2), numbered(6, 4));
    assert_eq!((view.width(), view.height()), (3, 2));
    for y in 0..2 {
        for x in 0..3 {
            assert_eq!(view.pixel(x, y), 100 * (y + 1) + (x + 2));
        }
    }
    assert_eq!(
        iter(&view),
        vec![(0, 0, 102), (1, 0, 103), (2, 0, 104), (0, 1, 202), (1, 1, 203), (2, 1, 204)]
    );
}

#[test]
fn crop_of_everything_is_the_source() {
    let view = crop((0, 0), (4, 3), numbered(4, 3));
    assert_eq!(iter(&view), iter(&numbered(4, 3)));
}

#[test]
fn pad_surrounds_the_source() {
    let view = pad(1, 2, 3, 4, 999, numbered(2, 2));
    assert_eq!((view.width(), view.height()), (9, 5));
    for y in 0..5 {
        for x in 0..9 {
            let expected = if x < 3 || y < 1 || x >= 3 + 2 || y >= 1 + 2 {
                999
            } else {
                100 * (y - 1) + (x - 3)
            };
            assert_eq!(view.pixel(x, y), expected);
        }
    }
    assert_eq!(view.pixel(3, 1), 0);
    assert_eq!(view.pixel(4, 2), 101);
    assert_eq!(view.pixel(5, 2), 999);
    assert_eq!(view.pixel(4, 3), 999);
    assert_eq!(view.pixel(2, 1), 999);
    assert_eq!(view.pixel(3, 0), 999);
}

#[test]
fn pad_without_border_is_the_source() {
    let view = pad(0, 0, 0, 0, 999, numbered(3, 2));
    assert_eq!(iter(&view), iter(&numbered(3, 2)));
}

#[test]
fn pad_of_an_empty_frame_is_all_border() {
    let view = pad(1, 1, 1, 1, 7, numbered(0, 0));
    assert_eq!((view.width(), view.height()), (2, 2));
    assert_eq!(iter(&view), vec![(0, 0, 7), (1, 0, 7), (0, 1, 7), (1, 1, 7)]);
}

#[test]
fn scale_takes_the_nearest_pixel_towards_the_origin() {
    let up = scale(6, 4, numbered(3, 2));
    assert_eq!((up.width(), up.height()), (6, 4));
    for y in 0..4 {
        for x in 0..6 {
            assert_eq!(up.pixel(x, y), 100 * (y * 2 / 4) + x * 3 / 6);
        }
    }
    let down = scale(2, 3, numbered(5, 7));
    assert_eq!(
        iter(&down),
        vec![(0, 0, 0), (1, 0, 2), (0, 1, 200), (1, 1, 202), (0, 2, 400), (1, 2, 402)]
    );
    let same = scale(5, 7, numbered(5, 7));
    assert_eq!(iter(&same), iter(&numbered(5, 7)));
}

#[test]
fn scale_of_large_sizes_does_not_overflow() {
    let big = usize::MAX;
    let view = scale(big, big, Function::new(big, big, |x: usize, y: usize| (x, y)));
    assert_eq!(view.pixel(big - 1, big - 1), (big - 1, big - 1));
    assert_eq!(view.pixel(big / 2, 3), (big / 2, 3));
    let quarter = scale(4, 4, Function::new(big, big, |x: usize, y: usize| (x, y)));
    assert_eq!(quarter.pixel(2, 3), (big / 2, big / 4 * 3 + 2));
}

#[test]
fn map_puts_each_pixel_through_the_function() {
    let view = framing::transforms::map::map(|p: usize| p * 2 + 1, numbered(3, 2));
    assert_eq!((view.width(), view.height()), (3, 2));
    assert_eq!(
        iter(&view),
        vec![(0, 0, 1), (1, 0, 3), (2, 0, 5), (0, 1, 201), (1, 1, 203), (2, 1, 205)]
    );
}

#[test]
fn map_converts_between_formats() {
    let colours = Function::new(2, 1, |x, _| Rgba(10 * x as u8, 200, 30, 7));
    let gray = Chunky::new(framing::transforms::map::map(Grayscale::from, colours));
    assert_eq!(*gray.bytes(), vec![145, 147]);
}

#[test]
fn transforms_compose() {
    let view = scale(4, 4, pad(1, 1, 1, 1, 0, crop((1, 1), (2, 2), numbered(4, 4))));
    assert_eq!((view.width(), view.height()), (4, 4));
    let rows: Vec<usize> = iter(&view).into_iter().map(|(_, _, p)| p).collect();
    assert_eq!(rows, vec![0, 0, 0, 0, 0, 101, 102, 0, 0, 201, 202, 0, 0, 0, 0, 0]);
}

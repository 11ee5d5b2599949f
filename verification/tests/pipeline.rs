use combiner::pipeline::{combine, combine_images, combine_sized};
use combiner::{Image, ImageDataErrors, ImageFormat};

fn uniform(width: u32, height: u32, pixel: [u8; 4]) -> Image {
    let data = pixel.repeat(width as usize * height as usize);
    Image::new(width, height, data).unwrap()
}

#[test]
fn different_formats_are_refused() {
    let res = combine(
        uniform(2, 2, [1, 1, 1, 1]),
        ImageFormat::Png,
        uniform(2, 2, [2, 2, 2, 2]),
        ImageFormat::Jpeg,
        String::from("out.png"),
    );
    assert!(matches!(res, Err(ImageDataErrors::DifferentImageFormats)));
}

#[test]
fn different_formats_are_refused_before_any_scaling() {
    // Neither picture could be scaled: with equal formats the call would not
    // be allowed. The formats are compared first and nothing else is done.
    let res = combine(
        Image::new(5, 0, vec![]).unwrap(),
        ImageFormat::Gif,
        Image::new(0, 5, vec![]).unwrap(),
        ImageFormat::Bmp,
        String::from("out.gif"),
    );
    assert!(matches!(res, Err(ImageDataErrors::DifferentImageFormats)));
}

#[test]
fn every_pair_of_distinct_formats_is_refused() {
    let formats = [
        ImageFormat::Png,
        ImageFormat::Jpeg,
        ImageFormat::Gif,
        ImageFormat::WebP,
        ImageFormat::Pnm,
        ImageFormat::Tiff,
        ImageFormat::Tga,
        ImageFormat::Dds,
        ImageFormat::Bmp,
        ImageFormat::Ico,
        ImageFormat::Hdr,
        ImageFormat::OpenExr,
        ImageFormat::Farbfeld,
        ImageFormat::Avif,
        ImageFormat::Qoi,
    ];
    for (i, a) in formats.iter().enumerate() {
        for (j, b) in formats.iter().enumerate() {
            let res = combine(
                uniform(1, 1, [1, 2, 3, 4]),
                *a,
                uniform(1, 1, [5, 6, 7, 8]),
                *b,
                String::from("o"),
            );
            assert_eq!(res.is_ok(), i == j);
        }
    }
}

#[test]
fn equal_sizes_are_interleaved_as_they_are() {
    let a = Image::new(2, 2, vec![1, 1, 1, 1, 2, 2, 2, 2, 3, 3, 3, 3, 4, 4, 4, 4]).unwrap();
    let b = Image::new(2, 2, vec![9, 9, 9, 9, 8, 8, 8, 8, 7, 7, 7, 7, 6, 6, 6, 6]).unwrap();
    let out = combine(a, ImageFormat::Png, b, ImageFormat::Png, String::from("out.png")).unwrap();
    assert_eq!(out.width(), 2);
    assert_eq!(out.height(), 2);
    assert_eq!(out.name(), "out.png");
    assert_eq!(out.data(), &vec![1, 1, 1, 1, 8, 8, 8, 8, 3, 3, 3, 3, 6, 6, 6, 6]);
    assert_eq!(out.capacity(), 16);
}

#[test]
fn larger_first_picture_is_scaled_down() {
    let out = combine(
        uniform(4, 4, [10, 20, 30, 255]),
        ImageFormat::Jpeg,
        uniform(2, 2, [1, 2, 3, 4]),
        ImageFormat::Jpeg,
        String::from("o.jpg"),
    )
    .unwrap();
    assert_eq!((out.width(), out.height()), (2, 2));
    assert_eq!(
        out.data(),
        &vec![10, 20, 30, 255, 1, 2, 3, 4, 10, 20, 30, 255, 1, 2, 3, 4]
    );
}

#[test]
fn larger_second_picture_is_scaled_down() {
    let out = combine(
        uniform(1, 2, [1, 2, 3, 4]),
        ImageFormat::Bmp,
        uniform(3, 6, [10, 20, 30, 255]),
        ImageFormat::Bmp,
        String::from("o.bmp"),
    )
    .unwrap();
    assert_eq!((out.width(), out.height()), (1, 2));
    assert_eq!(out.data(), &vec![1, 2, 3, 4, 10, 20, 30, 255]);
}

#[test]
fn output_has_the_size_of_the_second_picture_after_scaling() {
    // A tie: the first size wins, and the second picture, fitted into it with
    // its aspect ratio kept, comes out 1 by 4.
    let out = combine(
        uniform(4, 4, [1, 1, 1, 1]),
        ImageFormat::Png,
        uniform(2, 8, [2, 2, 2, 2]),
        ImageFormat::Png,
        String::from("o.png"),
    )
    .unwrap();
    assert_eq!((out.width(), out.height()), (1, 4));
    assert_eq!(out.capacity(), 16);
    assert_eq!(out.data(), &vec![1, 1, 1, 1, 2, 2, 2, 2, 1, 1, 1, 1, 2, 2, 2, 2]);
}

#[test]
fn combine_sized_cuts_to_the_smaller_picture() {
    let a = uniform(2, 1, [1, 1, 1, 1]);
    let b = uniform(2, 2, [2, 2, 2, 2]);
    let out = combine_sized(a, b, String::from("o")).unwrap();
    assert_eq!((out.width(), out.height()), (2, 2));
    assert_eq!(out.data(), &vec![1, 1, 1, 1, 2, 2, 2, 2]);
    assert_eq!(out.capacity(), 16);
}

#[test]
fn combine_sized_takes_the_size_of_the_second() {
    let a = uniform(3, 3, [1, 1, 1, 1]);
    let b = uniform(1, 2, [2, 2, 2, 2]);
    let out = combine_sized(a, b, String::from("o")).unwrap();
    assert_eq!((out.width(), out.height()), (1, 2));
    assert_eq!(out.data(), &vec![1, 1, 1, 1, 2, 2, 2, 2]);
}

#[test]
fn combine_images_interleaves_the_pixels() {
    let a = Image::new(4, 1, vec![1, 1, 1, 1, 2, 2, 2, 2, 3, 3, 3, 3, 4, 4, 4, 4]).unwrap();
    let b = Image::new(1, 4, vec![9, 9, 9, 9, 8, 8, 8, 8, 7, 7, 7, 7, 6, 6, 6, 6]).unwrap();
    assert_eq!(
        combine_images(a, b),
        vec![1, 1, 1, 1, 8, 8, 8, 8, 3, 3, 3, 3, 6, 6, 6, 6]
    );
}

#[test]
fn combine_images_of_empty_pictures_is_empty() {
    let a = Image::new(0, 0, vec![]).unwrap();
    let b = uniform(2, 2, [1, 1, 1, 1]);
    assert!(combine_images(a, b).is_empty());
}

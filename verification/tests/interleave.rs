use combiner::interleave::{alternate_pixels, put_rgba, set_rgba, GROUP_BYTES, PIXEL_BYTES};

#[test]
fn even_pixels_from_first_odd_pixels_from_second() {
    let a = vec![1, 1, 1, 1, 2, 2, 2, 2, 3, 3, 3, 3, 4, 4, 4, 4];
    let b = vec![9, 9, 9, 9, 8, 8, 8, 8, 7, 7, 7, 7, 6, 6, 6, 6];
    let out = alternate_pixels(a, b);
    assert_eq!(out, vec![1, 1, 1, 1, 8, 8, 8, 8, 3, 3, 3, 3, 6, 6, 6, 6]);
}

#[test]
fn shorter_second_buffer_sets_the_length() {
    let a = vec![1, 1, 1, 1, 2, 2, 2, 2, 3, 3, 3, 3, 4, 4, 4, 4];
    let b = vec![9, 9, 9, 9, 8, 8, 8, 8];
    let out = alternate_pixels(a, b);
    assert_eq!(out.len(), 8);
    assert_eq!(out, vec![1, 1, 1, 1, 8, 8, 8, 8]);
}

#[test]
fn shorter_first_buffer_sets_the_length() {
    let a = vec![10, 11, 12, 13];
    let b = vec![20, 21, 22, 23, 24, 25, 26, 27, 28, 29, 30, 31];
    let out = alternate_pixels(a, b);
    assert_eq!(out, vec![10, 11, 12, 13]);
}

#[test]
fn repeated_calls_give_the_same_bytes() {
    let a: Vec<u8> = (0..32).collect();
    let b: Vec<u8> = (100..132).collect();
    let first = alternate_pixels(a.clone(), b.clone());
    let second = alternate_pixels(a, b);
    assert_eq!(first, second);
}

#[test]
fn bytes_within_a_pixel_keep_their_order() {
    let a: Vec<u8> = (0..16).collect();
    let b: Vec<u8> = (100..116).collect();
    let out = alternate_pixels(a, b);
    assert_eq!(
        out,
        vec![0, 1, 2, 3, 104, 105, 106, 107, 8, 9, 10, 11, 112, 113, 114, 115]
    );
}

#[test]
fn empty_buffers_merge_to_nothing() {
    assert_eq!(alternate_pixels(vec![], vec![]), Vec::<u8>::new());
    assert_eq!(alternate_pixels(vec![], vec![1, 2, 3, 4]), Vec::<u8>::new());
    assert_eq!(alternate_pixels(vec![1, 2, 3, 4], vec![]), Vec::<u8>::new());
}

#[test]
fn longer_buffer_may_end_inside_a_pixel() {
    // Only the common length has to be a whole number of pixels.
    let a = vec![1, 2, 3, 4, 5, 6, 7, 8];
    let b = vec![9, 9, 9, 9, 8, 8, 8, 8, 7, 7];
    assert_eq!(alternate_pixels(a, b), vec![1, 2, 3, 4, 8, 8, 8, 8]);
}

#[test]
fn buffer_merged_with_itself_is_unchanged() {
    let a: Vec<u8> = (0..24).collect();
    assert_eq!(alternate_pixels(a.clone(), a.clone()), a);
}

#[test]
fn one_pixel_comes_from_the_first_buffer() {
    assert_eq!(alternate_pixels(vec![1, 2, 3, 4], vec![5, 6, 7, 8]), vec![1, 2, 3, 4]);
}

#[test]
fn group_is_two_pixels() {
    assert_eq!(PIXEL_BYTES, 4);
    assert_eq!(GROUP_BYTES, 8);
    assert_eq!(GROUP_BYTES, 2 * PIXEL_BYTES);
}

#[test]
fn set_rgba_copies_the_inclusive_range() {
    let v: Vec<u8> = (0..12).collect();
    assert_eq!(set_rgba(&v, 4, 7), vec![4, 5, 6, 7]);
    assert_eq!(set_rgba(&v, 0, 3), vec![0, 1, 2, 3]);
    assert_eq!(set_rgba(&v, 8, 11), vec![8, 9, 10, 11]);
    assert_eq!(set_rgba(&v, 5, 5), vec![5]);
    assert_eq!(set_rgba(&v, 0, 11), v);
}

#[test]
fn set_rgba_of_an_empty_range_is_empty() {
    let v: Vec<u8> = (0..12).collect();
    assert_eq!(set_rgba(&v, 5, 4), Vec::<u8>::new());
    assert_eq!(set_rgba(&v, 100, 3), Vec::<u8>::new());
    assert_eq!(set_rgba(&Vec::new(), 1, 0), Vec::<u8>::new());
}

#[test]
fn put_rgba_overwrites_in_place() {
    let mut target: Vec<u8> = vec![0; 12];
    put_rgba(&mut target, 4, &vec![1, 2, 3, 4]);
    assert_eq!(target, vec![0, 0, 0, 0, 1, 2, 3, 4, 0, 0, 0, 0]);
    put_rgba(&mut target, 8, &vec![5, 6, 7, 8]);
    assert_eq!(target, vec![0, 0, 0, 0, 1, 2, 3, 4, 5, 6, 7, 8]);
    put_rgba(&mut target, 0, &vec![9]);
    assert_eq!(target, vec![9, 0, 0, 0, 1, 2, 3, 4, 5, 6, 7, 8]);
    put_rgba(&mut target, 12, &vec![]);
    assert_eq!(target.len(), 12);
}

use raytrs::raster::Raster;

#[test]
fn new_raster_is_black() {
    let r = Raster::new(3, 2);
    assert_eq!(r.width(), 3);
    assert_eq!(r.height(), 2);
    for y in 0..2 {
        for x in 0..3 {
            assert_eq!(r.pixel(x, y), [0, 0, 0]);
        }
    }
    assert_eq!(r.to_bytes(), vec![0u8; 18]);
}

#[test]
fn raster_without_pixels() {
    let r = Raster::new(0, 5);
    assert_eq!(r.width(), 0);
    assert_eq!(r.height(), 5);
    assert_eq!(r.to_bytes(), Vec::<u8>::new());
}

#[test]
fn put_sets_one_pixel_and_leaves_the_others() {
    let mut r = Raster::new(3, 2);
    r.put(1, 0, [10, 20, 30]);
    r.put(2, 1, [40, 50, 60]);
    assert_eq!(r.pixel(1, 0), [10, 20, 30]);
    assert_eq!(r.pixel(2, 1), [40, 50, 60]);
    assert_eq!(r.pixel(0, 0), [0, 0, 0]);
    assert_eq!(r.pixel(2, 0), [0, 0, 0]);
    assert_eq!(r.pixel(0, 1), [0, 0, 0]);
    assert_eq!(r.pixel(1, 1), [0, 0, 0]);
    assert_eq!(r.width(), 3);
    assert_eq!(r.height(), 2);
    r.put(1, 0, [1, 2, 3]);
    assert_eq!(r.pixel(1, 0), [1, 2, 3]);
    assert_eq!(r.pixel(2, 1), [40, 50, 60]);
}

#[test]
fn bytes_run_row_by_row_red_first() {
    let mut r = Raster::new(3, 2);
    r.put(1, 0, [10, 20, 30]);
    r.put(2, 1, [40, 50, 60]);
    r.put(0, 1, [7, 8, 9]);
    assert_eq!(
        r.to_bytes(),
        vec![0, 0, 0, 10, 20, 30, 0, 0, 0, 7, 8, 9, 0, 0, 0, 40, 50, 60]
    );
}

#[test]
fn pixel_map_of_a_raster() {
    let mut r = Raster::new(3, 2);
    r.put(1, 0, [10, 20, 30]);
    r.put(2, 1, [40, 255, 100]);
    r.put(0, 1, [7, 8, 9]);
    assert_eq!(
        raytrs::ppm::to_ppm(&r),
        "P3\n3 2\n255\n0 0 0\n10 20 30\n0 0 0\n7 8 9\n0 0 0\n40 255 100\n"
    );
}

#[test]
fn pixel_map_without_pixels_is_the_head() {
    assert_eq!(raytrs::ppm::to_ppm(&Raster::new(0, 0)), "P3\n0 0\n255\n");
    assert_eq!(raytrs::ppm::to_ppm(&Raster::new(120, 0)), "P3\n120 0\n255\n");
}

#[test]
fn decimal_digits_of_numbers() {
    let mut s = String::new();
    raytrs::ppm::push_decimal(&mut s, 0);
    raytrs::ppm::push_decimal(&mut s, 7);
    raytrs::ppm::push_decimal(&mut s, 10);
    raytrs::ppm::push_decimal(&mut s, 4294967295);
    assert_eq!(s, "07104294967295");
    raytrs::ppm::push_line(&mut s, 1, 22, 255);
    assert_eq!(s, "071042949672951 22 255\n");
}

use primality::integer_sqrt;

#[test]
fn roots_of_small_numbers() {
    assert_eq!(integer_sqrt(0), 0);
    assert_eq!(integer_sqrt(1), 1);
    assert_eq!(integer_sqrt(2), 1);
    assert_eq!(integer_sqrt(3), 1);
    assert_eq!(integer_sqrt(4), 2);
    assert_eq!(integer_sqrt(8), 2);
    assert_eq!(integer_sqrt(9), 3);
    assert_eq!(integer_sqrt(15), 3);
    assert_eq!(integer_sqrt(16), 4);
    assert_eq!(integer_sqrt(17), 4);
    assert_eq!(integer_sqrt(99), 9);
    assert_eq!(integer_sqrt(100), 10);
}

#[test]
fn roots_at_the_upper_end() {
    assert_eq!(integer_sqrt(u32::MAX), 65_535);
    assert_eq!(integer_sqrt(4_294_836_225), 65_535);
    assert_eq!(integer_sqrt(4_294_836_224), 65_534);
    assert_eq!(integer_sqrt(2_147_483_647), 46_340);
    assert_eq!(integer_sqrt(16_777_217), 4_096);
}

#[test]
fn root_brackets_its_argument() {
    let mut n: u32 = 0;
    while n < 70_000 {
        let r = integer_sqrt(n) as u64;
        assert!(r * r <= n as u64 && (n as u64) < (r + 1) * (r + 1), "at {}", n);
        n += 1;
    }
}

#[test]
fn root_of_a_square_is_exact() {
    let mut r: u32 = 0;
    while r <= 65_535 {
        assert_eq!(integer_sqrt(r * r), r);
        if r > 0 {
            assert_eq!(integer_sqrt(r * r - 1), r - 1);
        }
        r += 1;
    }
}

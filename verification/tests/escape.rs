use std::cell::Cell;

use mandelbrot_viewer::escape::{escape_count, is_interior};
use num_complex::Complex64;

fn mandelbrot(c: Complex64, max_iter: usize) -> usize {
    escape_count(
        Complex64::new(0.0, 0.0),
        max_iter,
        &|z: &Complex64| z.norm() <= 2.0,
        &|z: &Complex64| z * z + c,
    )
}

#[test]
fn cap_of_zero_gives_zero() {
    assert_eq!(mandelbrot(Complex64::new(0.0, 0.0), 0), 0);
    assert_eq!(mandelbrot(Complex64::new(1.5, -1.0), 0), 0);
    assert_eq!(mandelbrot(Complex64::new(-2.0, 0.0), 0), 0);
}

#[test]
fn cap_of_zero_asks_nothing() {
    let asked = Cell::new(0u32);
    let count = escape_count(
        7u64,
        0,
        &|_: &u64| {
            asked.set(asked.get() + 1);
            true
        },
        &|z: &u64| {
            asked.set(asked.get() + 1);
            *z
        },
    );
    assert_eq!(count, 0);
    assert_eq!(asked.get(), 0);
}

#[test]
fn origin_never_escapes() {
    for cap in [0usize, 1, 2, 5, 100, 1000] {
        assert_eq!(mandelbrot(Complex64::new(0.0, 0.0), cap), cap);
    }
}

#[test]
fn count_stays_within_the_cap() {
    let points = [
        (0.0, 0.0),
        (2.0, 0.0),
        (-2.0, 0.0),
        (0.0, 2.0),
        (1.0, 1.0),
        (-0.75, 0.1),
        (0.3, 0.5),
        (-1.4, -1.4),
        (0.25, 0.0),
    ];
    for (re, im) in points {
        for cap in [0usize, 1, 3, 50] {
            assert!(mandelbrot(Complex64::new(re, im), cap) <= cap);
        }
    }
}

#[test]
fn point_one_escapes_after_three_steps() {
    let c = Complex64::new(1.0, 0.0);
    assert_eq!(mandelbrot(c, 1), 1);
    assert_eq!(mandelbrot(c, 2), 2);
    assert_eq!(mandelbrot(c, 3), 3);
    assert_eq!(mandelbrot(c, 4), 3);
    assert_eq!(mandelbrot(c, 1000), 3);
}

#[test]
fn point_two_escapes_after_two_steps() {
    let c = Complex64::new(2.0, 0.0);
    assert_eq!(mandelbrot(c, 1), 1);
    assert_eq!(mandelbrot(c, 2), 2);
    assert_eq!(mandelbrot(c, 50), 2);
}

#[test]
fn far_point_escapes_after_one_step() {
    let c = Complex64::new(3.0, 4.0);
    assert_eq!(mandelbrot(c, 1), 1);
    assert_eq!(mandelbrot(c, 9), 1);
}

#[test]
fn magnitude_of_exactly_two_counts_as_bounded() {
    let c = Complex64::new(-2.0, 0.0);
    for cap in [1usize, 2, 3, 10, 500] {
        assert_eq!(mandelbrot(c, cap), cap);
    }
}

#[test]
fn count_is_nondecreasing_in_the_cap() {
    let points = [(0.3, 0.5), (-0.75, 0.1), (0.26, 0.0), (1.0, 0.0), (-1.0, 0.3), (0.0, 1.0)];
    for (re, im) in points {
        let c = Complex64::new(re, im);
        let mut previous = 0;
        for cap in 0..200 {
            let count = mandelbrot(c, cap);
            assert!(previous <= count);
            previous = count;
        }
    }
}

#[test]
fn count_below_the_cap_is_final() {
    let points = [(0.4, 0.4), (0.26, 0.0), (1.0, 0.0), (-1.5, 0.5), (0.5, 0.5), (2.0, 0.0)];
    for (re, im) in points {
        let c = Complex64::new(re, im);
        let settled = mandelbrot(c, 400);
        assert!(settled < 400);
        for cap in [settled + 1, settled + 2, 500, 5000] {
            assert_eq!(mandelbrot(c, cap), settled);
        }
        for cap in 0..=settled {
            assert_eq!(mandelbrot(c, cap), cap);
        }
    }
}

#[test]
fn counting_works_on_any_orbit() {
    let count = escape_count(1u32, 100, &|z: &u32| *z < 1000, &|z: &u32| *z * 2);
    assert_eq!(count, 10);
    let capped = escape_count(1u32, 4, &|z: &u32| *z < 1000, &|z: &u32| *z * 2);
    assert_eq!(capped, 4);
    let unbounded = escape_count(5000u32, 4, &|z: &u32| *z < 1000, &|z: &u32| *z * 2);
    assert_eq!(unbounded, 0);
}

#[test]
fn interior_is_a_count_that_reached_the_cap() {
    assert!(is_interior(10, 10));
    assert!(!is_interior(9, 10));
    assert!(!is_interior(0, 10));
    assert!(is_interior(0, 0));
}

use rand::SeedableRng;
use rand_xoshiro::Xoshiro256PlusPlus;
use rust_random_logo::{
    julia_color, plot_points, random_julia_color, rasterize, render, seeded_rng, Canvas, Color,
    Config,
};

const BLACK: Color = Color { r: 0, g: 0, b: 0 };
const INK: Color = Color { r: 10, g: 20, b: 30 };

fn config_of(width: usize, height: usize, npoints: usize, seed: u64) -> Config {
    Config {
        height,
        width,
        npoints,
        ifs_name: "SigmaFactorIFS".to_string(),
        ndims: 2,
        rng_name: "Xoshiro256PlusPlus".to_string(),
        seed,
    }
}

/// Pixel coordinates of a cloud of `n` points in the margin-5 box of a canvas.
fn cloud(n: usize, width: u32, height: u32) -> (Vec<i64>, Vec<i64>) {
    let mut xs = Vec::with_capacity(n);
    let mut ys = Vec::with_capacity(n);
    let mut state: u64 = 0x9E37_79B9_7F4A_7C15;
    for _ in 0..n {
        state = state.wrapping_mul(6364136223846793005).wrapping_add(1442695040888963407);
        xs.push(i64::from(5 + ((state >> 33) as u32) % (width - 9)));
        state = state.wrapping_mul(6364136223846793005).wrapping_add(1442695040888963407);
        ys.push(i64::from(5 + ((state >> 33) as u32) % (height - 9)));
    }
    (xs, ys)
}

fn count_of(img: &Canvas, color: Color) -> usize {
    let mut n = 0;
    for x in 0..img.width() {
        for y in 0..img.height() {
            if img.pixel(x, y) == Some(color) {
                n += 1;
            }
        }
    }
    n
}

fn assert_same_pixels(a: &Canvas, b: &Canvas) {
    assert_eq!(a.width(), b.width());
    assert_eq!(a.height(), b.height());
    for x in 0..a.width() {
        for y in 0..a.height() {
            assert_eq!(a.pixel(x, y), b.pixel(x, y));
        }
    }
}

#[test]
fn test_render_with_config() {
    let config = config_of(100, 100, 1000, 42);
    let rng = Xoshiro256PlusPlus::seed_from_u64(config.seed);
    let (xs, ys) = cloud(config.npoints, 100, 100);

    let image = render(rng, &xs, &ys, &config);

    assert_eq!(image.width(), config.width as u32);
    assert_eq!(image.height(), config.height as u32);
    assert_eq!(image.width(), 100);
    assert_eq!(image.height(), 100);
}

#[test]
fn test_basic_example_and_main_program_consistency() {
    let config = config_of(100, 100, 1000, 99);
    let (xs, ys) = cloud(config.npoints, 100, 100);

    let rng = Xoshiro256PlusPlus::seed_from_u64(config.seed);
    let image1 = render(rng, &xs, &ys, &config);

    let rng = seeded_rng(&config).unwrap();
    let image2 = render(rng, &xs, &ys, &config);

    assert_eq!(image1.width(), image2.width());
    assert_eq!(image1.height(), image2.height());
    for x in 0..image1.width() {
        for y in 0..image1.height() {
            assert_eq!(image1.pixel(x, y), image2.pixel(x, y));
        }
    }
}

#[test]
fn render_draws_in_the_colour_that_the_stream_gives() {
    let config = config_of(64, 48, 300, 7);
    let (xs, ys) = cloud(300, 64, 48);
    let mut probe = Xoshiro256PlusPlus::seed_from_u64(7);
    let color = random_julia_color(&mut probe);
    let image = render(Xoshiro256PlusPlus::seed_from_u64(7), &xs, &ys, &config);
    let expected = rasterize(64, 48, &xs, &ys, color);
    assert_same_pixels(&image, &expected);
    assert!(count_of(&image, color) > 0);
    assert_eq!(count_of(&image, color) + count_of(&image, BLACK), 64 * 48);
}

#[test]
fn render_is_deterministic() {
    let config = config_of(80, 60, 500, 1234);
    let (xs, ys) = cloud(500, 80, 60);
    let a = render(seeded_rng(&config).unwrap(), &xs, &ys, &config);
    let b = render(seeded_rng(&config).unwrap(), &xs, &ys, &config);
    assert_same_pixels(&a, &b);
}

#[test]
fn render_reads_only_the_size_of_a_config() {
    let (xs, ys) = cloud(400, 50, 40);
    let first = config_of(50, 40, 400, 1);
    let mut second = config_of(50, 40, 400, 2);
    second.ifs_name = "Other".to_string();
    second.ndims = 3;
    second.rng_name = "Other".to_string();
    let a = render(Xoshiro256PlusPlus::seed_from_u64(77), &xs, &ys, &first);
    let b = render(Xoshiro256PlusPlus::seed_from_u64(77), &xs, &ys, &second);
    assert_same_pixels(&a, &b);
}

#[test]
fn single_point_paints_one_pixel_at_most() {
    let config = config_of(9, 7, 1, 3);
    let inside = render(Xoshiro256PlusPlus::seed_from_u64(3), &vec![4], &vec![6], &config);
    assert_eq!(count_of(&inside, BLACK), 9 * 7 - 1);
    assert_ne!(inside.pixel(4, 6), Some(BLACK));
    let outside = render(Xoshiro256PlusPlus::seed_from_u64(3), &vec![9], &vec![6], &config);
    assert_eq!(count_of(&outside, BLACK), 9 * 7);
}

#[test]
fn render_without_points_draws_nothing() {
    let config = config_of(100, 100, 0, 42);
    let image = render(Xoshiro256PlusPlus::seed_from_u64(42), &Vec::new(), &Vec::new(), &config);
    assert_eq!(image.width(), 100);
    assert_eq!(image.height(), 100);
    assert_eq!(count_of(&image, BLACK), 100 * 100);
}

#[test]
fn render_has_the_configured_size() {
    let config = config_of(37, 11, 2, 5);
    let image = render(Xoshiro256PlusPlus::seed_from_u64(5), &vec![0, 36], &vec![0, 10], &config);
    assert_eq!(image.width(), 37);
    assert_eq!(image.height(), 11);
    assert_eq!(count_of(&image, BLACK), 37 * 11 - 2);
}

#[test]
fn render_drops_points_normalized_below_zero() {
    // On a canvas 4 wide the greatest abscissa is rescaled to (4 - 10) * 1 + 5 = -1.
    let raw: Vec<f64> = vec![0.0, 1.0];
    let range = (4.0 - 5.0) - 5.0;
    let xs: Vec<i64> = raw.iter().map(|v| (range * (v - 0.0) / (1.0 - 0.0) + 5.0f64).trunc() as i64).collect();
    assert_eq!(xs, vec![5, -1]);
    let ys: Vec<i64> = vec![2, 2];
    let config = config_of(4, 4, 2, 42);
    let image = render(Xoshiro256PlusPlus::seed_from_u64(42), &xs, &ys, &config);
    assert_eq!(image.width(), 4);
    assert_eq!(image.height(), 4);
    assert_eq!(count_of(&image, BLACK), 16);
}

#[test]
fn rasterize_plots_each_point_inside() {
    let xs = vec![0, 3, 1];
    let ys = vec![0, 2, 1];
    let image = rasterize(4, 3, &xs, &ys, INK);
    assert_eq!(image.width(), 4);
    assert_eq!(image.height(), 3);
    for x in 0..4u32 {
        for y in 0..3u32 {
            let hit = (x, y) == (0, 0) || (x, y) == (3, 2) || (x, y) == (1, 1);
            assert_eq!(image.pixel(x, y), Some(if hit { INK } else { BLACK }));
        }
    }
}

#[test]
fn rasterize_keeps_x_and_y_apart() {
    let image = rasterize(5, 2, &vec![4], &vec![1], INK);
    assert_eq!(image.pixel(4, 1), Some(INK));
    assert_eq!(image.pixel(1, 1), Some(BLACK));
    assert_eq!(image.pixel(1, 4), None);
    assert_eq!(count_of(&image, INK), 1);
}

#[test]
fn rasterize_drops_points_outside() {
    let xs = vec![4, 0, 2, i64::from(u32::MAX), 3, i64::MAX];
    let ys = vec![0, 3, 1, i64::from(u32::MAX), 2, 0];
    let image = rasterize(4, 3, &xs, &ys, INK);
    assert_eq!(count_of(&image, INK), 2);
    assert_eq!(image.pixel(2, 1), Some(INK));
    assert_eq!(image.pixel(3, 2), Some(INK));
    assert_eq!(count_of(&image, BLACK), 10);
}

#[test]
fn rasterize_drops_negative_indices() {
    let xs = vec![-1, 0, 2, i64::MIN, -1];
    let ys = vec![0, -1, 1, 1, -1];
    let image = rasterize(4, 3, &xs, &ys, INK);
    assert_eq!(count_of(&image, INK), 1);
    assert_eq!(image.pixel(2, 1), Some(INK));
    assert_eq!(image.pixel(0, 0), Some(BLACK));
    assert_eq!(image.pixel(3, 0), Some(BLACK));
    assert_eq!(image.pixel(0, 2), Some(BLACK));
    assert_eq!(count_of(&image, BLACK), 11);
}

#[test]
fn rasterize_walks_the_coordinates_in_step() {
    let image = rasterize(4, 4, &vec![1, 2, 3], &vec![1], INK);
    assert_eq!(count_of(&image, INK), 1);
    assert_eq!(image.pixel(1, 1), Some(INK));
    let image = rasterize(4, 4, &vec![1], &vec![1, 2, 3], INK);
    assert_eq!(count_of(&image, INK), 1);
    let image = rasterize(4, 4, &vec![1, 2], &Vec::new(), INK);
    assert_eq!(count_of(&image, INK), 0);
}

#[test]
fn rasterize_of_no_points_is_black() {
    let image = rasterize(7, 5, &Vec::new(), &Vec::new(), INK);
    assert_eq!(image.width(), 7);
    assert_eq!(image.height(), 5);
    assert_eq!(count_of(&image, BLACK), 35);
}

#[test]
fn rasterize_of_an_empty_canvas() {
    let image = rasterize(0, 0, &vec![0], &vec![0], INK);
    assert_eq!(image.width(), 0);
    assert_eq!(image.height(), 0);
    assert_eq!(image.pixel(0, 0), None);
    let image = rasterize(3, 0, &vec![0], &vec![0], INK);
    assert_eq!(image.width(), 3);
    assert_eq!(image.height(), 0);
    assert_eq!(image.pixel(0, 0), None);
}

#[test]
fn a_point_plotted_twice_is_one_pixel() {
    let image = rasterize(4, 4, &vec![2, 2, 2], &vec![3, 3, 3], INK);
    assert_eq!(count_of(&image, INK), 1);
    assert_eq!(image.pixel(2, 3), Some(INK));
}

#[test]
fn order_of_points_does_not_matter() {
    let (xs, ys) = cloud(200, 40, 30);
    let mut rx = xs.clone();
    let mut ry = ys.clone();
    rx.reverse();
    ry.reverse();
    let a = rasterize(40, 30, &xs, &ys, INK);
    let b = rasterize(40, 30, &rx, &ry, INK);
    assert_same_pixels(&a, &b);
}

#[test]
fn plot_points_keeps_what_was_drawn_before() {
    let mut image = rasterize(4, 4, &vec![0, 1], &vec![0, 1], INK);
    let other = julia_color(1);
    plot_points(&mut image, &vec![1, 2, 9], &vec![1, 2, 9], other);
    assert_eq!(image.width(), 4);
    assert_eq!(image.height(), 4);
    assert_eq!(image.pixel(0, 0), Some(INK));
    assert_eq!(image.pixel(1, 1), Some(other));
    assert_eq!(image.pixel(2, 2), Some(other));
    assert_eq!(image.pixel(3, 3), Some(BLACK));
    assert_eq!(count_of(&image, BLACK), 13);
}

#[test]
fn pixel_outside_the_canvas_is_none() {
    let image = rasterize(4, 3, &vec![1], &vec![1], INK);
    assert_eq!(image.pixel(4, 0), None);
    assert_eq!(image.pixel(0, 3), None);
    assert_eq!(image.pixel(u32::MAX, u32::MAX), None);
    assert_eq!(image.pixel(3, 2), Some(BLACK));
}

/// A cloud of one point has no extent, so its min-max normalization divides
/// zero by zero. The coordinate that comes out is not a number, its
/// truncation to a pixel index is 0, and the point lands in the corner.
#[test]
fn single_point_cloud_lands_in_the_corner() {
    let raw: Vec<f64> = vec![0.25];
    let min = raw.iter().fold(f64::INFINITY, |a, &b| a.min(b));
    let max = raw.iter().fold(f64::NEG_INFINITY, |a, &b| a.max(b));
    let range = (100.0 - 5.0) - 5.0;
    let normalized: Vec<f64> = raw.iter().map(|v| range * (v - min) / (max - min) + 5.0).collect();
    assert!(normalized[0].is_nan());
    let pixels: Vec<i64> = normalized.iter().map(|v| v.trunc() as i64).collect();
    assert_eq!(pixels, vec![0]);

    let config = config_of(100, 100, 1, 42);
    let mut probe = Xoshiro256PlusPlus::seed_from_u64(42);
    let color = random_julia_color(&mut probe);
    let image = render(Xoshiro256PlusPlus::seed_from_u64(42), &pixels, &pixels, &config);
    assert_eq!(image.pixel(0, 0), Some(color));
    assert_eq!(count_of(&image, color), 1);
    assert_eq!(count_of(&image, BLACK), 100 * 100 - 1);
}

//! Validation of a configuration, seeding of the stream, and the rasterizer:
//! plotting truncated pixel indices onto a canvas in one colour.

use vstd::prelude::*;
use vstd::string::*;
use rand_xoshiro::Xoshiro256PlusPlus;
use crate::canvas::{
    blank_pixels, canvas_pixels, canvas_size, dimensions, new_canvas, positions, put_pixel, Canvas,
};
use crate::config::Config;
use crate::error::Error;
use crate::rng::{seed_from_u64, seeded_generator};
use crate::utils::{
    decimal, decimal_string, drawn_palette_index, palette, random_julia_color, Color,
};

verus! {

/// The detail of the error that a configuration is rejected with, or `None`
/// for a configuration that is supported. The kind of system is looked at
/// first, then the dimension, then the generator.
pub open spec fn config_fault(config: Config) -> Option<Seq<char>> {
    if config.ifs_name@ != "SigmaFactorIFS"@ {
        Some("Unknown IFS: "@ + config.ifs_name@)
    } else if config.ndims != 2 {
        Some("Unsupported dimension: "@ + decimal(config.ndims as nat))
    } else if config.rng_name@ != "Xoshiro256PlusPlus"@ {
        Some("Unknown RNG: "@ + config.rng_name@)
    } else {
        None
    }
}

/// What a check of a configuration returns: nothing for a supported one, the
/// configuration error with its detail for any other.
pub open spec fn is_verdict(config: Config, r: Result<(), Error>) -> bool {
    match config_fault(config) {
        None => r is Ok,
        Some(detail) => r matches Err(Error::ConfigError(d)) && d@ == detail,
    }
}

/// The three identifiers of the configuration are the supported ones.
pub open spec fn is_supported(config: Config) -> bool {
    &&& config.ifs_name@ == "SigmaFactorIFS"@
    &&& config.ndims == 2
    &&& config.rng_name@ == "Xoshiro256PlusPlus"@
}

/// A configuration is rejected exactly when one of its three identifiers is
/// not the supported one, and then with a configuration error: whatever a
/// check of it returns, it is `Ok` for a supported configuration alone.
pub proof fn lemma_rejected_iff_unsupported(config: Config, r: Result<(), Error>)
    requires
        is_verdict(config, r),
    ensures
        r is Ok <==> is_supported(config),
        r is Err <==> config_fault(config) is Some,
        r matches Err(e) ==> e is ConfigError,
{
}

/// Accepts a configuration whose three identifiers are the supported ones,
/// and rejects every other one with a configuration error.
pub fn validate_config(config: &Config) -> (r: Result<(), Error>)
    ensures
        is_verdict(*config, r),
{
    if config.ifs_name != String::from_str("SigmaFactorIFS") {
        return Err(
            Error::ConfigError(String::from_str("Unknown IFS: ").concat(config.ifs_name.as_str())),
        );
    }
    if config.ndims != 2 {
        let digits = decimal_string(config.ndims);
        return Err(
            Error::ConfigError(String::from_str("Unsupported dimension: ").concat(digits.as_str())),
        );
    }
    if config.rng_name != String::from_str("Xoshiro256PlusPlus") {
        return Err(
            Error::ConfigError(String::from_str("Unknown RNG: ").concat(config.rng_name.as_str())),
        );
    }
    Ok(())
}

/// What the seeding of a configuration returns: the generator that its seed
/// gives for a supported one, the configuration error with its detail for
/// any other.
pub open spec fn is_seeding(config: Config, r: Result<Xoshiro256PlusPlus, Error>) -> bool {
    match config_fault(config) {
        None => r == Ok::<Xoshiro256PlusPlus, Error>(seeded_generator(config.seed)),
        Some(detail) => r matches Err(Error::ConfigError(d)) && d@ == detail,
    }
}

/// The random stream of a configuration: checks the configuration first, and
/// seeds the generator only for one that is supported.
pub fn seeded_rng(config: &Config) -> (r: Result<Xoshiro256PlusPlus, Error>)
    ensures
        is_seeding(*config, r),
{
    match validate_config(config) {
        Ok(()) => Ok(seed_from_u64(config.seed)),
        Err(e) => Err(e),
    }
}

/// Supported configurations with the same seed start from the same stream.
pub proof fn lemma_same_seed_same_stream(
    c1: Config,
    c2: Config,
    r1: Result<Xoshiro256PlusPlus, Error>,
    r2: Result<Xoshiro256PlusPlus, Error>,
)
    requires
        is_supported(c1),
        is_supported(c2),
        c1.seed == c2.seed,
        is_seeding(c1, r1),
        is_seeding(c2, r2),
    ensures
        r1 is Ok,
        r1 == r2,
{
}

/// How many points a pair of coordinate sequences holds: the two are walked
/// in step, so the shorter one decides.
pub open spec fn point_count(xs: Seq<i64>, ys: Seq<i64>) -> int {
    if xs.len() <= ys.len() {
        xs.len() as int
    } else {
        ys.len() as int
    }
}

/// One of the first `n` points lies on the position `p`.
pub open spec fn hits(xs: Seq<i64>, ys: Seq<i64>, n: int, p: (nat, nat)) -> bool {
    exists|i: int| 0 <= i < n && #[trigger] xs[i] == p.0 && ys[i] == p.1
}

/// The pixels of a canvas after the first `n` points were plotted on `base`
/// in `color`: a position that a point lies on has that colour, every other
/// one keeps what it had. Points outside the canvas, those with a negative
/// index among them, leave no trace.
pub open spec fn plotted(
    base: Map<(nat, nat), (u8, u8, u8)>,
    xs: Seq<i64>,
    ys: Seq<i64>,
    n: int,
    color: Color,
) -> Map<(nat, nat), (u8, u8, u8)> {
    Map::new(
        |p: (nat, nat)| base.dom().contains(p),
        |p: (nat, nat)|
            if hits(xs, ys, n, p) {
                color.channels()
            } else {
                base[p]
            },
    )
}

/// `img` is the canvas of the given size that is black but for the points
/// plotted in `color`.
pub open spec fn is_raster(
    img: Canvas,
    width: nat,
    height: nat,
    xs: Seq<i64>,
    ys: Seq<i64>,
    color: Color,
) -> bool {
    &&& canvas_size(img) == (width, height)
    &&& canvas_pixels(img) == plotted(
        blank_pixels(width, height),
        xs,
        ys,
        point_count(xs, ys),
        color,
    )
}

/// Plotting no point changes nothing: an empty cloud leaves every pixel of
/// the canvas as it was.
pub proof fn lemma_no_points_no_change(
    base: Map<(nat, nat), (u8, u8, u8)>,
    xs: Seq<i64>,
    ys: Seq<i64>,
    color: Color,
)
    requires
        point_count(xs, ys) == 0,
    ensures
        plotted(base, xs, ys, point_count(xs, ys), color) == base,
{
    assert(plotted(base, xs, ys, 0, color) =~= base);
}

/// The raster of an empty cloud is black all over.
pub proof fn lemma_empty_cloud_is_blank(
    img: Canvas,
    width: nat,
    height: nat,
    xs: Seq<i64>,
    ys: Seq<i64>,
    color: Color,
)
    requires
        is_raster(img, width, height, xs, ys, color),
        xs.len() == 0 || ys.len() == 0,
    ensures
        canvas_pixels(img) == blank_pixels(width, height),
{
    lemma_no_points_no_change(blank_pixels(width, height), xs, ys, color);
}

/// Rasterizing is a function of its input: two canvases that are rasters of
/// the same size, points and colour agree in size and in every pixel.
pub proof fn lemma_same_input_same_raster(
    a: Canvas,
    b: Canvas,
    width: nat,
    height: nat,
    xs: Seq<i64>,
    ys: Seq<i64>,
    color: Color,
)
    requires
        is_raster(a, width, height, xs, ys, color),
        is_raster(b, width, height, xs, ys, color),
    ensures
        canvas_size(a) == canvas_size(b),
        canvas_pixels(a) == canvas_pixels(b),
{
}

/// An image has one colour: each pixel of a raster is either black or of the
/// colour that the points were plotted in, and it is of that colour exactly
/// where a point lies.
pub proof fn lemma_raster_two_tone(
    img: Canvas,
    width: nat,
    height: nat,
    xs: Seq<i64>,
    ys: Seq<i64>,
    color: Color,
    p: (nat, nat),
)
    requires
        is_raster(img, width, height, xs, ys, color),
        p.0 < width,
        p.1 < height,
    ensures
        canvas_pixels(img).dom().contains(p),
        hits(xs, ys, point_count(xs, ys), p) ==> canvas_pixels(img)[p] == color.channels(),
        !hits(xs, ys, point_count(xs, ys), p) ==> canvas_pixels(img)[p] == (0u8, 0u8, 0u8),
{
}

/// A point inside the canvas is plotted: the pixel that it lies on has the
/// colour of the image.
pub proof fn lemma_inside_point_is_plotted(
    img: Canvas,
    width: nat,
    height: nat,
    xs: Seq<i64>,
    ys: Seq<i64>,
    color: Color,
    i: int,
)
    requires
        is_raster(img, width, height, xs, ys, color),
        0 <= i < point_count(xs, ys),
        0 <= xs[i] < width,
        0 <= ys[i] < height,
    ensures
        canvas_pixels(img)[(xs[i] as nat, ys[i] as nat)] == color.channels(),
{
    let p = (xs[i] as nat, ys[i] as nat);
    assert(0 <= i < point_count(xs, ys) && xs[i] == p.0 && ys[i] == p.1);
    assert(hits(xs, ys, point_count(xs, ys), p));
}

/// The order of the points does not matter, nor how often one occurs: two
/// clouds in which the same points occur give the same pixels.
pub proof fn lemma_order_does_not_matter(
    base: Map<(nat, nat), (u8, u8, u8)>,
    xs: Seq<i64>,
    ys: Seq<i64>,
    us: Seq<i64>,
    vs: Seq<i64>,
    color: Color,
)
    requires
        forall|i: int|
            0 <= i < point_count(xs, ys) ==> exists|j: int|
                0 <= j < point_count(us, vs) && #[trigger] us[j] == #[trigger] xs[i] && vs[j]
                    == ys[i],
        forall|j: int|
            0 <= j < point_count(us, vs) ==> exists|i: int|
                0 <= i < point_count(xs, ys) && #[trigger] xs[i] == #[trigger] us[j] && ys[i]
                    == vs[j],
    ensures
        plotted(base, xs, ys, point_count(xs, ys), color) == plotted(
            base,
            us,
            vs,
            point_count(us, vs),
            color,
        ),
{
    let n = point_count(xs, ys);
    let m = point_count(us, vs);
    assert forall|p: (nat, nat)| hits(xs, ys, n, p) == hits(us, vs, m, p) by {
        if hits(xs, ys, n, p) {
            let i = choose|i: int| 0 <= i < n && #[trigger] xs[i] == p.0 && ys[i] == p.1;
            let j = choose|j: int| 0 <= j < m && #[trigger] us[j] == xs[i] && vs[j] == ys[i];
            assert(0 <= j < m && us[j] == p.0 && vs[j] == p.1);
        }
        if hits(us, vs, m, p) {
            let j = choose|j: int| 0 <= j < m && #[trigger] us[j] == p.0 && vs[j] == p.1;
            let i = choose|i: int| 0 <= i < n && #[trigger] xs[i] == us[j] && ys[i] == vs[j];
            assert(0 <= i < n && xs[i] == p.0 && ys[i] == p.1);
        }
    }
    assert(plotted(base, xs, ys, n, color) =~= plotted(base, us, vs, m, color));
}

/// A point outside the canvas is dropped: a cloud, and the same cloud without
/// its last point where that point lies outside, give the same pixels.
pub proof fn lemma_outside_point_is_dropped(
    width: nat,
    height: nat,
    base: Map<(nat, nat), (u8, u8, u8)>,
    xs: Seq<i64>,
    ys: Seq<i64>,
    n: int,
    color: Color,
)
    requires
        base.dom() == positions(width, height),
        0 <= n < point_count(xs, ys),
        xs[n] < 0 || xs[n] >= width || ys[n] < 0 || ys[n] >= height,
    ensures
        plotted(base, xs, ys, n + 1, color) == plotted(base, xs, ys, n, color),
{
    assert forall|p: (nat, nat)| base.dom().contains(p) implies hits(xs, ys, n + 1, p) == hits(
        xs,
        ys,
        n,
        p,
    ) by {
        if hits(xs, ys, n + 1, p) {
            let j = choose|j: int| 0 <= j < n + 1 && #[trigger] xs[j] == p.0 && ys[j] == p.1;
            assert(j < n);
        }
        if hits(xs, ys, n, p) {
            let j = choose|j: int| 0 <= j < n && #[trigger] xs[j] == p.0 && ys[j] == p.1;
            assert(0 <= j < n + 1 && xs[j] == p.0 && ys[j] == p.1);
        }
    }
    assert(plotted(base, xs, ys, n + 1, color) =~= plotted(base, xs, ys, n, color));
}

/// Plots each point `(xs[i], ys[i])` that lies inside the canvas in `color`,
/// and drops every other point without a trace.
pub fn plot_points(img: &mut Canvas, xs: &Vec<i64>, ys: &Vec<i64>, color: Color)
    requires
        old(img).wf(),
    ensures
        final(img).wf(),
        canvas_size(*final(img)) == canvas_size(*old(img)),
        canvas_pixels(*final(img)) == plotted(
            canvas_pixels(*old(img)),
            xs@,
            ys@,
            point_count(xs@, ys@),
            color,
        ),
{
    let (width, height) = dimensions(img);
    let n: usize = if xs.len() <= ys.len() {
        xs.len()
    } else {
        ys.len()
    };
    let ghost base = canvas_pixels(*img);
    let mut i: usize = 0;
    assert(canvas_pixels(*img) =~= plotted(base, xs@, ys@, 0, color));
    while i < n
        invariant
            i <= n,
            n == point_count(xs@, ys@),
            base.dom() == positions(width as nat, height as nat),
            canvas_size(*img) == (width as nat, height as nat),
            canvas_pixels(*img) == plotted(base, xs@, ys@, i as int, color),
        decreases n - i,
    {
        let x: i64 = xs[i];
        let y: i64 = ys[i];
        if 0 <= x && x < width as i64 && 0 <= y && y < height as i64 {
            put_pixel(img, x as u32, y as u32, color);
        }
        proof {
            let next = plotted(base, xs@, ys@, i + 1, color);
            assert forall|p: (nat, nat)| hits(xs@, ys@, i + 1, p) <==> (hits(xs@, ys@, i as int, p)
                || (xs@[i as int] == p.0 && ys@[i as int] == p.1)) by {
                if hits(xs@, ys@, i + 1, p) {
                    let j = choose|j: int| 0 <= j < i + 1 && #[trigger] xs@[j] == p.0 && ys@[j] == p.1;
                    if j < i {
                        assert(hits(xs@, ys@, i as int, p));
                    }
                }
                if hits(xs@, ys@, i as int, p) {
                    let j = choose|j: int| 0 <= j < i && #[trigger] xs@[j] == p.0 && ys@[j] == p.1;
                    assert(0 <= j < i + 1 && xs@[j] == p.0 && ys@[j] == p.1);
                }
                if xs@[i as int] == p.0 && ys@[i as int] == p.1 {
                    assert(0 <= i < i + 1 && xs@[i as int] == p.0 && ys@[i as int] == p.1);
                }
            }
            assert(canvas_pixels(*img) =~= next);
        }
        i = i + 1;
    }
}

/// A canvas of the given size, black but for the points plotted in `color`.
/// Its buffer of three bytes for each pixel must fit a vector.
pub fn rasterize(width: u32, height: u32, xs: &Vec<i64>, ys: &Vec<i64>, color: Color) -> (img:
    Canvas)
    requires
        3 * width * height <= isize::MAX,
    ensures
        img.wf(),
        is_raster(img, width as nat, height as nat, xs@, ys@, color),
{
    let mut img = new_canvas(width, height);
    assert(canvas_pixels(img).dom() =~= positions(width as nat, height as nat));
    plot_points(&mut img, xs, ys, color);
    img
}

/// `img` is the image that a generator in the state `rng` renders of the
/// given points on a canvas of the given size: their raster in the colour of
/// the palette index that the generator draws.
pub open spec fn is_render(
    img: Canvas,
    rng: Xoshiro256PlusPlus,
    xs: Seq<i64>,
    ys: Seq<i64>,
    width: nat,
    height: nat,
) -> bool {
    is_raster(img, width, height, xs, ys, palette(drawn_palette_index(rng)))
}

/// Renders the pixel indices of a normalized point cloud: draws the one
/// colour of the image from the stream, allocates the canvas that the
/// configuration asks for, and plots the points in it. The width and the
/// height must fit the 32 bits of a canvas size, and the buffer of three
/// bytes for each pixel a vector.
pub fn render(rng: Xoshiro256PlusPlus, xs: &Vec<i64>, ys: &Vec<i64>, config: &Config) -> (img:
    Canvas)
    requires
        config.width <= u32::MAX,
        config.height <= u32::MAX,
        3 * config.width * config.height <= isize::MAX,
    ensures
        img.wf(),
        0 <= drawn_palette_index(rng) < 4,
        is_render(img, rng, xs@, ys@, config.width as nat, config.height as nat),
{
    let mut rng = rng;
    let color = random_julia_color(&mut rng);
    rasterize(config.width as u32, config.height as u32, xs, ys, color)
}

/// Rendering is a function of the stream, the points and the size: two
/// images that a generator in one state renders of the same points on
/// canvases of the same size agree in size and in every pixel, whatever
/// else their configurations hold.
pub proof fn lemma_same_stream_same_image(
    a: Canvas,
    b: Canvas,
    rng: Xoshiro256PlusPlus,
    xs: Seq<i64>,
    ys: Seq<i64>,
    width: nat,
    height: nat,
)
    requires
        is_render(a, rng, xs, ys, width, height),
        is_render(b, rng, xs, ys, width, height),
    ensures
        canvas_size(a) == canvas_size(b),
        canvas_pixels(a) == canvas_pixels(b),
{
}

/// The image is a function of the configuration and the points: for two
/// supported configurations with the same seed and size, the images that
/// their freshly seeded streams render of the same points agree in size and
/// in every pixel.
pub proof fn lemma_same_config_same_image(
    c1: Config,
    c2: Config,
    r1: Result<Xoshiro256PlusPlus, Error>,
    r2: Result<Xoshiro256PlusPlus, Error>,
    xs: Seq<i64>,
    ys: Seq<i64>,
    a: Canvas,
    b: Canvas,
)
    requires
        is_supported(c1),
        is_supported(c2),
        c1.seed == c2.seed,
        c1.width == c2.width,
        c1.height == c2.height,
        is_seeding(c1, r1),
        is_seeding(c2, r2),
        r1 matches Ok(g) && is_render(a, g, xs, ys, c1.width as nat, c1.height as nat),
        r2 matches Ok(g) && is_render(b, g, xs, ys, c2.width as nat, c2.height as nat),
    ensures
        canvas_size(a) == canvas_size(b),
        canvas_pixels(a) == canvas_pixels(b),
{
}

/// A cloud of one point paints one pixel at most: the image has the size
/// asked for, and every pixel but the one that the point lies on is black.
pub proof fn lemma_single_point_one_pixel(
    img: Canvas,
    width: nat,
    height: nat,
    xs: Seq<i64>,
    ys: Seq<i64>,
    color: Color,
    p: (nat, nat),
)
    requires
        is_raster(img, width, height, xs, ys, color),
        point_count(xs, ys) == 1,
        p.0 < width,
        p.1 < height,
        p.0 != xs[0] || p.1 != ys[0],
    ensures
        canvas_size(img) == (width, height),
        canvas_pixels(img)[p] == (0u8, 0u8, 0u8),
{
    assert(!hits(xs, ys, 1, p));
}

/// The image of a cloud of one point, whatever its pixel indices: it has
/// the size asked for, and at most one of its pixels is not black, the one
/// that the point lies on.
pub proof fn lemma_single_point_render(
    img: Canvas,
    rng: Xoshiro256PlusPlus,
    xs: Seq<i64>,
    ys: Seq<i64>,
    width: nat,
    height: nat,
)
    requires
        is_render(img, rng, xs, ys, width, height),
        point_count(xs, ys) == 1,
    ensures
        canvas_size(img) == (width, height),
        forall|p: (nat, nat)|
            p.0 < width && p.1 < height && (p.0 != xs[0] || p.1 != ys[0])
                ==> #[trigger] canvas_pixels(img)[p] == (0u8, 0u8, 0u8),
{
    assert forall|p: (nat, nat)|
        p.0 < width && p.1 < height && (p.0 != xs[0] || p.1 != ys[0]) implies #[trigger] canvas_pixels(
        img,
    )[p] == (0u8, 0u8, 0u8) by {
        lemma_single_point_one_pixel(
            img,
            width,
            height,
            xs,
            ys,
            palette(drawn_palette_index(rng)),
            p,
        );
    }
}

} // verus!

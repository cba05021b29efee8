//! Field-level tests: the floating-point interpolation is rebuilt here
//! on top of the library's verified table, wrapping, hashing and
//! gradient selection, and the noise field's documented properties are
//! checked numerically.

use perlin::{grad_coeffs, wrap_index, Perlin};

fn fade(t: f64) -> f64 {
    ((6.0 * t - 15.0) * t + 10.0) * t * t * t
}

fn lerp(a: f64, b: f64, x: f64) -> f64 {
    a + x * (b - a)
}

fn grad(hash: usize, x: f64, y: f64, z: f64) -> f64 {
    let g = grad_coeffs(hash);
    (g.cx as f64) * x + (g.cy as f64) * y + (g.cz as f64) * z
}

fn get(p: &Perlin, x: f64, y: f64, z: f64) -> f64 {
    let xf = x - x.floor();
    let yf = y - y.floor();
    let zf = z - z.floor();
    let xi = wrap_index(x.floor() as i64);
    let yi = wrap_index(y.floor() as i64);
    let zi = wrap_index(z.floor() as i64);
    let u = fade(xf);
    let v = fade(yf);
    let w = fade(zf);
    let h = p.corner_hashes(xi, yi, zi);
    let x1 = lerp(grad(h.aaa, xf, yf, zf), grad(h.baa, xf - 1.0, yf, zf), u);
    let x2 = lerp(grad(h.aba, xf, yf - 1.0, zf), grad(h.bba, xf - 1.0, yf - 1.0, zf), u);
    let y1 = lerp(x1, x2, v);
    let x1 = lerp(grad(h.aab, xf, yf, zf - 1.0), grad(h.bab, xf - 1.0, yf, zf - 1.0), u);
    let x2 = lerp(grad(h.abb, xf, yf - 1.0, zf - 1.0), grad(h.bbb, xf - 1.0, yf - 1.0, zf - 1.0), u);
    let y2 = lerp(x1, x2, v);
    lerp(y1, y2, w)
}

fn noise(p: &Perlin, x: f64, y: f64, z: f64) -> f64 {
    (get(p, x, y, z) + 1.0) / 2.0
}

fn octave_noise(p: &Perlin, octaves: u8, x: f64, y: f64, z: f64) -> f64 {
    let mut value = 0.0;
    let mut amp = 1.0;
    for _ in 0..octaves {
        value += amp * get(p, x / amp, y / amp, z / amp);
        amp *= 0.5;
    }
    (value + 1.0) / 2.0
}

fn identity_table() -> Perlin {
    Perlin::from_permutation((0..256).collect()).unwrap()
}

/// A small deterministic generator for sample coordinates.
struct Lcg(u64);

impl Lcg {
    fn next_unit(&mut self) -> f64 {
        self.0 = self.0.wrapping_mul(6364136223846793005).wrapping_add(1442695040888963407);
        (self.0 >> 11) as f64 / 9007199254740992.0
    }

    fn next_coord(&mut self) -> f64 {
        self.next_unit() * 2000.0 - 1000.0
    }
}

#[test]
fn reference_value_identity_table() {
    // With the identity permutation the corner hashes at the cell of
    // (0.5, 0.5, 0.5) are 0,1,1,2,1,2,2,3, the fade of 0.5 is exactly
    // 0.5, and tracing the interpolation by hand gives a raw value of
    // exactly 0.25.
    let p = identity_table();
    assert_eq!(get(&p, 0.5, 0.5, 0.5), 0.25);
    assert_eq!(noise(&p, 0.5, 0.5, 0.5), 0.625);
}

#[test]
fn determinism_fixed_seed() {
    let a = Perlin::new([5u8; 32]);
    let b = Perlin::new([5u8; 32]);
    let mut rng = Lcg(3);
    for _ in 0..100 {
        let (x, y, z) = (rng.next_coord(), rng.next_coord(), rng.next_coord());
        let va = noise(&a, x, y, z);
        assert_eq!(va.to_bits(), noise(&b, x, y, z).to_bits());
        assert_eq!(va.to_bits(), noise(&a, x, y, z).to_bits());
    }
}

#[test]
fn periodicity_along_each_axis() {
    // Coordinates with coarse fractional parts, so that adding 256
    // is exact in f64 and the fractional part is untouched.
    let p = Perlin::new([11u8; 32]);
    let samples = [0.0, 0.125, 3.625, -7.25, -0.75, 100.0625, -511.5, 42.0];
    for &x in &samples {
        for &y in &samples {
            for &z in &samples {
                let n = noise(&p, x, y, z);
                assert_eq!(n.to_bits(), noise(&p, x + 256.0, y, z).to_bits());
                assert_eq!(n.to_bits(), noise(&p, x, y + 256.0, z).to_bits());
                assert_eq!(n.to_bits(), noise(&p, x, y, z + 256.0).to_bits());
                assert_eq!(n.to_bits(), noise(&p, x - 256.0, y, z).to_bits());
            }
        }
    }
}

#[test]
fn single_octave_stays_in_unit_range() {
    let p = Perlin::new([13u8; 32]);
    let mut rng = Lcg(99);
    for _ in 0..10000 {
        let (x, y, z) = (rng.next_coord(), rng.next_coord(), rng.next_coord());
        let n = noise(&p, x, y, z);
        assert!((0.0..=1.0).contains(&n), "noise({x},{y},{z}) = {n}");
        let o = octave_noise(&p, 1, x, y, z);
        assert!((0.0..=1.0).contains(&o));
    }
}

#[test]
fn smoothness_small_step() {
    let p = Perlin::new([17u8; 32]);
    let mut rng = Lcg(7);
    let eps = 1e-4;
    for _ in 0..1000 {
        let (x, y, z) = (rng.next_coord(), rng.next_coord(), rng.next_coord());
        let n = noise(&p, x, y, z);
        assert!((n - noise(&p, x + eps, y, z)).abs() < 5e-3);
        assert!((n - noise(&p, x, y + eps, z)).abs() < 5e-3);
        assert!((n - noise(&p, x, y, z + eps)).abs() < 5e-3);
    }
}

#[test]
fn not_constant_at_half_step() {
    // A sanity bound for the smoothness check: half a cell apart the
    // field moves far more than the small-step tolerance.
    let p = identity_table();
    let a = noise(&p, 0.5, 0.5, 0.5);
    let b = noise(&p, 1.5, 0.5, 0.5);
    assert_eq!(a, 0.625);
    assert_eq!(b, 0.5);
    assert!((a - b).abs() > 0.05);
}

#[test]
fn lattice_point_is_single_corner_gradient() {
    // At integer coordinates the fractional offsets and all fade
    // weights are exactly zero, so the raw value collapses to the
    // gradient of the cell's origin corner dotted with a zero offset.
    let table = Perlin::new([19u8; 32]);
    let id = identity_table();
    for t in [&table, &id] {
        for &(x, y, z) in &[(0i64, 0i64, 0i64), (3, 4, 5), (-3, -4, -5), (255, 256, -256)] {
            let h = t.corner_hashes(wrap_index(x), wrap_index(y), wrap_index(z));
            let direct = grad(h.aaa, 0.0, 0.0, 0.0);
            assert_eq!(get(t, x as f64, y as f64, z as f64), direct);
            assert_eq!(direct, 0.0);
            assert_eq!(noise(t, x as f64, y as f64, z as f64), 0.5);
        }
    }
}

#[test]
fn octave_zero_is_half() {
    let p = Perlin::new([23u8; 32]);
    let mut rng = Lcg(21);
    for _ in 0..100 {
        let (x, y, z) = (rng.next_coord(), rng.next_coord(), rng.next_coord());
        assert_eq!(octave_noise(&p, 0, x, y, z), 0.5);
    }
}

#[test]
fn octave_one_equals_noise() {
    let p = Perlin::new([29u8; 32]);
    let mut rng = Lcg(5);
    for _ in 0..100 {
        let (x, y, z) = (rng.next_coord(), rng.next_coord(), rng.next_coord());
        assert_eq!(octave_noise(&p, 1, x, y, z).to_bits(), noise(&p, x, y, z).to_bits());
    }
}

#[test]
fn octave_two_matches_formula() {
    // Two octaves: amplitude 1 at the base scale, then amplitude 1/2
    // with the coordinates divided by 1/2 (the divisor couples
    // frequency and amplitude).
    let p = Perlin::new([31u8; 32]);
    let (x, y, z) = (1.25, -2.5, 7.75);
    let expected = (get(&p, x, y, z) + 0.5 * get(&p, x / 0.5, y / 0.5, z / 0.5) + 1.0) / 2.0;
    assert_eq!(octave_noise(&p, 2, x, y, z).to_bits(), expected.to_bits());
}

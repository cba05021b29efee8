//! The integer heart of the noise kernel.
//!
//! A sample point is located inside a unit lattice cell; the cell's
//! integer coordinate is reduced modulo 256 so that the permutation
//! table can be indexed. The reduction must floor toward negative
//! infinity, so that negative coordinates wrap onto the same lattice
//! as positive ones. Each of the cell's eight corners is then hashed
//! by triple-indexing the table, and the hash selects one of sixteen
//! fixed gradient directions.

use vstd::prelude::*;
use vstd::arithmetic::div_mod::lemma_fundamental_div_mod;
use vstd::arithmetic::div_mod::lemma_fundamental_div_mod_converse;
use vstd::arithmetic::div_mod::lemma_mod_add_multiples_vanish;
use crate::table::Perlin;

verus! {

/// The lattice coordinate `n` reduced to the table's period: the
/// mathematical (euclidean) remainder of `n` modulo 256, in `[0, 256)`.
pub open spec fn emod256(n: int) -> int {
    n % 256
}

/// Reduce a floored lattice coordinate to a table index in `[0, 256)`,
/// wrapping negative coordinates toward negative infinity.
pub fn wrap_index(n: i64) -> (r: usize)
    ensures
        r < 256,
        r as int == emod256(n as int),
{
    if n >= 0 {
        let r = ((n as u64) % 256) as usize;
        r
    } else {
        let k: u64 = (-(n + 1)) as u64;
        let m: usize = (k % 256) as usize;
        proof {
            // n == -(k + 1), and k == 256 * (k / 256) + m, so
            // n == 256 * (-(k / 256) - 1) + (255 - m) with 0 <= 255 - m < 256.
            lemma_fundamental_div_mod(k as int, 256);
            lemma_fundamental_div_mod_converse(
                n as int,
                256,
                -(k as int / 256) - 1,
                255 - m as int,
            );
        }
        255 - m
    }
}

/// The lattice index is periodic with period 256: shifting a lattice
/// coordinate by one full period leaves the wrapped index unchanged,
/// so every table lookup made by the kernel repeats with period 256
/// along each axis.
pub proof fn lemma_wrap_periodic(n: int)
    ensures
        emod256(n + 256) == emod256(n),
{
    lemma_mod_add_multiples_vanish(n, 256);
}

/// The hash of one lattice corner: the table triple-indexed with the
/// corner's coordinates, `p[p[p[a] + b] + c]`.
pub open spec fn hash3(p: Seq<usize>, a: int, b: int, c: int) -> usize {
    p[p[p[a] as int + b] as int + c]
}

/// The hash the kernel derives for the corner at offset
/// `(dx, dy, dz)` (each 0 or 1) of the lattice cell whose floored
/// coordinates are `(nx, ny, nz)`.
pub open spec fn cell_hash(
    p: Seq<usize>,
    nx: int,
    ny: int,
    nz: int,
    dx: int,
    dy: int,
    dz: int,
) -> usize {
    hash3(p, emod256(nx) + dx, emod256(ny) + dy, emod256(nz) + dz)
}

/// Shifting a lattice cell by one full period of 256 along any axis
/// leaves every corner hash unchanged. The rest of the evaluation
/// depends on the coordinates only through their fractional parts,
/// which an integer shift does not touch, so the noise field repeats
/// with period 256 along each axis.
pub proof fn lemma_cell_hash_periodic(
    p: Seq<usize>,
    nx: int,
    ny: int,
    nz: int,
    dx: int,
    dy: int,
    dz: int,
)
    ensures
        cell_hash(p, nx + 256, ny, nz, dx, dy, dz) == cell_hash(p, nx, ny, nz, dx, dy, dz),
        cell_hash(p, nx, ny + 256, nz, dx, dy, dz) == cell_hash(p, nx, ny, nz, dx, dy, dz),
        cell_hash(p, nx, ny, nz + 256, dx, dy, dz) == cell_hash(p, nx, ny, nz, dx, dy, dz),
{
    lemma_wrap_periodic(nx);
    lemma_wrap_periodic(ny);
    lemma_wrap_periodic(nz);
}

/// The hashes of the eight corners of one lattice cell, named by their
/// offsets along x, y, z (`a` = 0, `b` = +1).
pub struct CornerHashes {
    pub aaa: usize,
    pub aab: usize,
    pub aba: usize,
    pub abb: usize,
    pub baa: usize,
    pub bab: usize,
    pub bba: usize,
    pub bbb: usize,
}

impl Perlin {
    /// Hash the eight corners of the lattice cell at wrapped
    /// coordinates `(xi, yi, zi)`. Because every table entry is below
    /// 256 and the table is 512 long, each intermediate sum
    /// `table[..] + index + 1` stays within bounds.
    pub fn corner_hashes(&self, xi: usize, yi: usize, zi: usize) -> (h: CornerHashes)
        requires
            self.wf(),
            xi < 256,
            yi < 256,
            zi < 256,
        ensures
            h.aaa == cell_hash(self@, xi as int, yi as int, zi as int, 0, 0, 0),
            h.aab == cell_hash(self@, xi as int, yi as int, zi as int, 0, 0, 1),
            h.aba == cell_hash(self@, xi as int, yi as int, zi as int, 0, 1, 0),
            h.abb == cell_hash(self@, xi as int, yi as int, zi as int, 0, 1, 1),
            h.baa == cell_hash(self@, xi as int, yi as int, zi as int, 1, 0, 0),
            h.bab == cell_hash(self@, xi as int, yi as int, zi as int, 1, 0, 1),
            h.bba == cell_hash(self@, xi as int, yi as int, zi as int, 1, 1, 0),
            h.bbb == cell_hash(self@, xi as int, yi as int, zi as int, 1, 1, 1),
            h.aaa < 256 && h.aab < 256 && h.aba < 256 && h.abb < 256,
            h.baa < 256 && h.bab < 256 && h.bba < 256 && h.bbb < 256,
    {
        proof {
            assert(emod256(xi as int) == xi as int);
            assert(emod256(yi as int) == yi as int);
            assert(emod256(zi as int) == zi as int);
        }
        let xa = self.lookup(xi);
        let xb = self.lookup(xi + 1);
        let ya = self.lookup(xa + yi);
        let yb = self.lookup(xa + yi + 1);
        let yc = self.lookup(xb + yi);
        let yd = self.lookup(xb + yi + 1);
        CornerHashes {
            aaa: self.lookup(ya + zi),
            aab: self.lookup(ya + zi + 1),
            aba: self.lookup(yb + zi),
            abb: self.lookup(yb + zi + 1),
            baa: self.lookup(yc + zi),
            bab: self.lookup(yc + zi + 1),
            bba: self.lookup(yd + zi),
            bbb: self.lookup(yd + zi + 1),
        }
    }
}

/// One of the sixteen fixed gradient directions: the gradient's dot
/// product with an offset `(x, y, z)` is `cx*x + cy*y + cz*z`, each
/// coefficient -1, 0 or 1.
#[derive(Clone, Copy, Debug, PartialEq, Eq, Structural)]
pub struct GradDir {
    pub cx: i8,
    pub cy: i8,
    pub cz: i8,
}

/// The fixed sixteen-way mapping from the low four bits of a corner
/// hash to a gradient direction. The exact table is a design contract:
/// altering it changes the field's visual signature.
pub open spec fn grad_dir(h: int) -> GradDir {
    let k = h % 16;
    if k == 0 {
        GradDir { cx: 1, cy: 1, cz: 0 }
    } else if k == 1 {
        GradDir { cx: (-1) as i8, cy: 1, cz: 0 }
    } else if k == 2 {
        GradDir { cx: 1, cy: (-1) as i8, cz: 0 }
    } else if k == 3 {
        GradDir { cx: (-1) as i8, cy: (-1) as i8, cz: 0 }
    } else if k == 4 {
        GradDir { cx: 1, cy: 0, cz: 1 }
    } else if k == 5 {
        GradDir { cx: (-1) as i8, cy: 0, cz: 1 }
    } else if k == 6 {
        GradDir { cx: 1, cy: 0, cz: (-1) as i8 }
    } else if k == 7 {
        GradDir { cx: (-1) as i8, cy: 0, cz: (-1) as i8 }
    } else if k == 8 {
        GradDir { cx: 0, cy: 1, cz: 1 }
    } else if k == 9 {
        GradDir { cx: 0, cy: (-1) as i8, cz: 1 }
    } else if k == 10 {
        GradDir { cx: 0, cy: 1, cz: (-1) as i8 }
    } else if k == 11 {
        GradDir { cx: 0, cy: (-1) as i8, cz: (-1) as i8 }
    } else if k == 12 {
        GradDir { cx: 1, cy: 1, cz: 0 }
    } else if k == 13 {
        GradDir { cx: 0, cy: (-1) as i8, cz: 1 }
    } else if k == 14 {
        GradDir { cx: (-1) as i8, cy: 1, cz: 0 }
    } else {
        GradDir { cx: 0, cy: (-1) as i8, cz: (-1) as i8 }
    }
}

/// Select the gradient direction for a corner hash: the low four bits
/// pick one of the sixteen fixed directions.
pub fn grad_coeffs(hash: usize) -> (r: GradDir)
    ensures
        r == grad_dir(hash as int),
{
    let k = hash % 16;
    if k == 0 {
        GradDir { cx: 1, cy: 1, cz: 0 }
    } else if k == 1 {
        GradDir { cx: -1, cy: 1, cz: 0 }
    } else if k == 2 {
        GradDir { cx: 1, cy: -1, cz: 0 }
    } else if k == 3 {
        GradDir { cx: -1, cy: -1, cz: 0 }
    } else if k == 4 {
        GradDir { cx: 1, cy: 0, cz: 1 }
    } else if k == 5 {
        GradDir { cx: -1, cy: 0, cz: 1 }
    } else if k == 6 {
        GradDir { cx: 1, cy: 0, cz: -1 }
    } else if k == 7 {
        GradDir { cx: -1, cy: 0, cz: -1 }
    } else if k == 8 {
        GradDir { cx: 0, cy: 1, cz: 1 }
    } else if k == 9 {
        GradDir { cx: 0, cy: -1, cz: 1 }
    } else if k == 10 {
        GradDir { cx: 0, cy: 1, cz: -1 }
    } else if k == 11 {
        GradDir { cx: 0, cy: -1, cz: -1 }
    } else if k == 12 {
        GradDir { cx: 1, cy: 1, cz: 0 }
    } else if k == 13 {
        GradDir { cx: 0, cy: -1, cz: 1 }
    } else if k == 14 {
        GradDir { cx: -1, cy: 1, cz: 0 }
    } else {
        GradDir { cx: 0, cy: -1, cz: -1 }
    }
}

} // verus!

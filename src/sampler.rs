//! Samplers that read a volume at integer coordinates.
use vstd::prelude::*;

use crate::volume::{SampleError, Volume};

verus! {

/// What a sampler does with a coordinate that falls outside the input volume.
#[derive(Debug, Clone, Copy, PartialEq, Eq, Structural)]
pub enum Mode {
    /// Indices are used as they are; a point outside the volume takes the
    /// sampler's fill value.
    Constant,
    /// Each index is clamped into `[0, dim - 1]`, so a point outside the
    /// volume reads the nearest edge voxel.
    Nearest,
}

/// A point of the input volume's index space, one integer per axis.
pub type Coord = (i32, i32, i32);

/// Number of output voxels requested by `shape`.
pub open spec fn shape_len(shape: [u16; 3]) -> int {
    shape[0] * shape[1] * shape[2]
}

/// The output shape as the extent of each axis.
pub open spec fn shape_dims(shape: [u16; 3]) -> (usize, usize, usize) {
    (shape[0] as usize, shape[1] as usize, shape[2] as usize)
}

/// Whether `r` is what sampling `coords` from `input` into `shape` must give,
/// where `point(c)` is the value the sampler reads at coordinate `c`: the
/// request fails exactly when the coordinate count differs from the number of
/// output voxels, and otherwise the i-th output voxel in row-major order is
/// the value read at the i-th coordinate.
pub open spec fn sampled_as<U>(
    point: spec_fn(Coord) -> U,
    coords: Seq<Coord>,
    shape: [u16; 3],
    r: Result<Volume<U>, SampleError>,
) -> bool {
    &&& (r is Ok <==> coords.len() == shape_len(shape))
    &&& (r matches Err(e) ==> e == SampleError::ShapeMismatch)
    &&& (r matches Ok(out) ==> {
        &&& out.dims() == shape_dims(shape)
        &&& out.values().len() == coords.len()
        &&& forall|i: int| 0 <= i < coords.len() ==> out.values()[i] == point(coords[i])
    })
}

/// A resampling strategy: reads an input volume at a sequence of coordinates
/// and lays the values out as a volume of the requested shape.
pub trait Sampler<U: Copy>: Sized {
    /// The value this sampler reads from `input` at coordinate `c`.
    spec fn point_value(&self, input: Volume<U>, c: Coord) -> U;

    /// Samples `in_im` at each of `in_coords`, in order, and shapes the values
    /// as `out_shape`; fails with `ShapeMismatch` when the number of
    /// coordinates is not the number of output voxels.
    fn sample(&self, in_im: &Volume<U>, in_coords: &Vec<Coord>, out_shape: &[u16; 3]) -> (r:
        Result<Volume<U>, SampleError>)
        ensures
            sampled_as(|c: Coord| self.point_value(*in_im, c), in_coords@, *out_shape, r),
    ;
}

/// Index on one axis after the out-of-sample policy: unchanged in `Constant`
/// mode, clamped into `[0, dim - 1]` in `Nearest` mode.
pub open spec fn axis_index(mode: Mode, c: int, dim: int) -> int {
    match mode {
        Mode::Constant => c,
        Mode::Nearest => if c <= 0 {
            0
        } else if c < dim - 1 {
            c
        } else {
            dim - 1
        },
    }
}

/// Relies on nalgebra::clamp: `min` when `val` is not above `min`, otherwise
/// `val` when it is below `max`, otherwise `max`.
#[verifier::external_body]
fn clamp_i32(val: i32, min: i32, max: i32) -> (r: i32)
    ensures
        r == (if val > min {
            if val < max {
                val
            } else {
                max
            }
        } else {
            min
        }),
{
    nalgebra::clamp(val, min, max)
}

/// The largest index of an axis of extent `dim` (at least one), as an `i32`,
/// saturated at `i32::MAX`.
fn last_index(dim: usize) -> (r: i32)
    requires
        dim >= 1,
    ensures
        r == (if dim - 1 <= i32::MAX {
            dim - 1
        } else {
            i32::MAX as int
        }),
{
    if dim - 1 <= i32::MAX as usize {
        (dim - 1) as i32
    } else {
        i32::MAX
    }
}

/// The order-zero sampler: each output voxel is the input voxel at the
/// sample coordinate, after the out-of-sample policy; a point that stays
/// outside the volume takes the fill value `cval`.
pub struct NearestNeighbor<U> {
    mode: Mode,
    cval: U,
}

impl<U: Copy> NearestNeighbor<U> {
    /// The out-of-sample policy.
    pub closed spec fn spec_mode(&self) -> Mode {
        self.mode
    }

    /// The fill value.
    pub closed spec fn spec_cval(&self) -> U {
        self.cval
    }

    /// A sampler with the given policy and fill value.
    pub fn new(mode: Mode, cval: U) -> (r: Self)
        ensures
            r.spec_mode() == mode,
            r.spec_cval() == cval,
    {
        NearestNeighbor { mode, cval }
    }

    /// The out-of-sample policy.
    pub fn mode(&self) -> (r: Mode)
        ensures
            r == self.spec_mode(),
    {
        self.mode
    }

    /// The fill value.
    pub fn cval(&self) -> (r: U)
        ensures
            r == self.spec_cval(),
    {
        self.cval
    }

    /// The value read from `input` at `c`: the indices after the policy,
    /// if they address a voxel, else the fill value.
    pub open spec fn nearest_value(&self, input: Volume<U>, c: Coord) -> U {
        let d = input.dims();
        let (i, j, k) = (
            axis_index(self.spec_mode(), c.0 as int, d.0 as int),
            axis_index(self.spec_mode(), c.1 as int, d.1 as int),
            axis_index(self.spec_mode(), c.2 as int, d.2 as int),
        );
        if input.in_bounds(i, j, k) {
            input.at(i, j, k)
        } else {
            self.spec_cval()
        }
    }

    /// Samples one coordinate.
    pub fn sample_point(&self, in_im: &Volume<U>, c: Coord) -> (r: U)
        ensures
            r == self.nearest_value(*in_im, c),
    {
        let (sx, sy, sz) = in_im.shape();
        let (mut x, mut y, mut z) = c;
        match self.mode {
            Mode::Constant => {},
            Mode::Nearest => {
                if sx == 0 || sy == 0 || sz == 0 {
                    return self.cval;
                }
                x = clamp_i32(x, 0, last_index(sx));
                y = clamp_i32(y, 0, last_index(sy));
                z = clamp_i32(z, 0, last_index(sz));
            },
        }
        if x < 0 || y < 0 || z < 0 {
            return self.cval;
        }
        match in_im.get(x as usize, y as usize, z as usize) {
            Some(v) => v,
            None => self.cval,
        }
    }
}

impl<U: Copy + Default> Default for NearestNeighbor<U> {
    /// `Constant` mode, filling with what `U::default()` returns: zero for
    /// the numeric types.
    fn default() -> (r: Self)
        ensures
            r.spec_mode() == Mode::Constant,
            call_ensures(U::default, (), r.spec_cval()),
    {
        NearestNeighbor { mode: Mode::Constant, cval: U::default() }
    }
}

impl<U: Copy> Sampler<U> for NearestNeighbor<U> {
    open spec fn point_value(&self, input: Volume<U>, c: Coord) -> U {
        self.nearest_value(input, c)
    }

    fn sample(&self, in_im: &Volume<U>, in_coords: &Vec<Coord>, out_shape: &[u16; 3]) -> (r:
        Result<Volume<U>, SampleError>) {
        let n = in_coords.len();
        let mut v: Vec<U> = Vec::with_capacity(n);
        let mut i: usize = 0;
        while i < n
            invariant
                i <= n,
                n == in_coords@.len(),
                v@.len() == i,
                forall|j: int| 0 <= j < i ==> v@[j] == self.nearest_value(*in_im, in_coords@[j]),
            decreases n - i,
        {
            let p = self.sample_point(in_im, in_coords[i]);
            v.push(p);
            i += 1;
        }
        let shape = (out_shape[0] as usize, out_shape[1] as usize, out_shape[2] as usize);
        let r = Volume::from_shape_vec(shape, v);
        r
    }
}

/// Sampling is deterministic: two results that both meet the contract of
/// `sample` on the same sampler, volume, coordinates and shape agree, in
/// success and in every output voxel.
pub proof fn lemma_sample_deterministic<U: Copy, S: Sampler<U>>(
    s: S,
    input: Volume<U>,
    coords: Seq<Coord>,
    shape: [u16; 3],
    r1: Result<Volume<U>, SampleError>,
    r2: Result<Volume<U>, SampleError>,
)
    requires
        sampled_as(|c: Coord| s.point_value(input, c), coords, shape, r1),
        sampled_as(|c: Coord| s.point_value(input, c), coords, shape, r2),
    ensures
        r1 is Ok <==> r2 is Ok,
        r1 is Err ==> r1 == r2,
        r1 matches Ok(o1) ==> r2 matches Ok(o2) && o1.dims() == o2.dims() && o1.values()
            == o2.values(),
{
    if let Ok(o1) = r1 {
        if let Ok(o2) = r2 {
            assert(o1.values() =~= o2.values());
        }
    }
}

/// An integer coordinate inside the volume reads that voxel, whatever the
/// out-of-sample policy.
pub proof fn lemma_in_bounds_exact<U: Copy>(s: NearestNeighbor<U>, input: Volume<U>, c: Coord)
    requires
        input.in_bounds(c.0 as int, c.1 as int, c.2 as int),
    ensures
        s.point_value(input, c) == input.at(c.0 as int, c.1 as int, c.2 as int),
{
}

/// In `Constant` mode a coordinate with a negative component takes the fill
/// value.
pub proof fn lemma_constant_fill<U: Copy>(s: NearestNeighbor<U>, input: Volume<U>, c: Coord)
    requires
        s.spec_mode() == Mode::Constant,
        c.0 < 0 || c.1 < 0 || c.2 < 0,
    ensures
        s.point_value(input, c) == s.spec_cval(),
{
}

/// In `Nearest` mode, on a volume with no empty axis, every coordinate reads
/// the voxel whose index on each axis is the coordinate clamped into
/// `[0, dim - 1]`.
pub proof fn lemma_nearest_clamp<U: Copy>(s: NearestNeighbor<U>, input: Volume<U>, c: Coord)
    requires
        s.spec_mode() == Mode::Nearest,
        input.dims().0 >= 1,
        input.dims().1 >= 1,
        input.dims().2 >= 1,
    ensures
        s.point_value(input, c) == input.at(
            clamp_to_axis(c.0 as int, input.dims().0 as int),
            clamp_to_axis(c.1 as int, input.dims().1 as int),
            clamp_to_axis(c.2 as int, input.dims().2 as int),
        ),
{
}

/// `c` clamped into `[0, dim - 1]`.
pub open spec fn clamp_to_axis(c: int, dim: int) -> int {
    if c < 0 {
        0
    } else if c > dim - 1 {
        dim - 1
    } else {
        c
    }
}

} // verus!

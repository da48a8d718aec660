//! Dense three-dimensional volumes laid out in row-major order.
use vstd::prelude::*;

verus! {

/// Why a sampling or reshaping request was rejected.
#[derive(Debug, Clone, Copy, PartialEq, Eq, Structural)]
pub enum SampleError {
    /// The number of values does not equal the product of the requested shape.
    ShapeMismatch,
}

/// Offset of voxel `(i, j, k)` in the row-major layout of a grid of shape `d`:
/// the last axis varies fastest.
pub open spec fn linear_index(d: (usize, usize, usize), i: int, j: int, k: int) -> int {
    (i * d.1 + j) * d.2 + k
}

/// Number of voxels in a grid of shape `d`.
pub open spec fn voxel_count(d: (usize, usize, usize)) -> int {
    d.0 * d.1 * d.2
}

/// Whether `(i, j, k)` addresses a voxel of a grid of shape `d`.
pub open spec fn index_in_bounds(d: (usize, usize, usize), i: int, j: int, k: int) -> bool {
    0 <= i < d.0 && 0 <= j < d.1 && 0 <= k < d.2
}

proof fn lemma_linear_index_bounds(d: (usize, usize, usize), i: int, j: int, k: int)
    requires
        index_in_bounds(d, i, j, k),
    ensures
        0 <= i * d.1 + j < d.0 * d.1,
        d.0 * d.1 <= voxel_count(d),
        0 <= (i * d.1 + j) * d.2 + k < voxel_count(d),
        linear_index(d, i, j, k) == (i * d.1 + j) * d.2 + k,
{
    let (a, b, c) = (d.0 as int, d.1 as int, d.2 as int);
    assert(0 <= i * b + j < a * b) by (nonlinear_arith)
        requires
            0 <= i < a,
            0 <= j < b,
    ;
    assert(a * b <= a * b * c) by (nonlinear_arith)
        requires
            0 <= a * b,
            1 <= c,
    ;
    assert(0 <= (i * b + j) * c + k < (a * b) * c) by (nonlinear_arith)
        requires
            0 <= i * b + j < a * b,
            0 <= k < c,
    ;
}

proof fn lemma_count_exceeds(a: int, b: int, c: int)
    requires
        a >= 1,
        b >= 1,
        c >= 1,
    ensures
        a * b <= a * b * c,
        0 <= a * b,
{
    assert(a * b <= a * b * c) by (nonlinear_arith)
        requires
            a >= 1,
            b >= 1,
            c >= 1,
    ;
}

/// A three-dimensional grid of scalar values of type `U`, addressed by
/// non-negative indices `(x, y, z)` and stored in row-major order.
#[derive(Debug)]
pub struct Volume<U> {
    shape: (usize, usize, usize),
    data: Vec<U>,
}

impl<U> Volume<U> {
    #[verifier::type_invariant]
    spec fn holds_every_voxel(&self) -> bool {
        self.data@.len() == voxel_count(self.shape)
    }

    /// The extent of each axis.
    pub closed spec fn dims(&self) -> (usize, usize, usize) {
        self.shape
    }

    /// The voxel values in row-major order.
    pub closed spec fn values(&self) -> Seq<U> {
        self.data@
    }

    /// The value of voxel `(i, j, k)`.
    pub open spec fn at(&self, i: int, j: int, k: int) -> U {
        self.values()[linear_index(self.dims(), i, j, k)]
    }

    /// Whether `(i, j, k)` addresses a voxel of this volume.
    pub open spec fn in_bounds(&self, i: int, j: int, k: int) -> bool {
        index_in_bounds(self.dims(), i, j, k)
    }

    /// Builds a volume of the given shape from values in row-major order.
    /// Fails when the number of values is not the number of voxels.
    pub fn from_shape_vec(shape: (usize, usize, usize), data: Vec<U>) -> (r: Result<
        Self,
        SampleError,
    >)
        ensures
            r is Ok <==> data@.len() == voxel_count(shape),
            r matches Ok(v) ==> v.dims() == shape && v.values() == data@,
            r matches Err(e) ==> e == SampleError::ShapeMismatch,
    {
        let count: Option<usize> = if shape.0 == 0 || shape.1 == 0 || shape.2 == 0 {
            Some(0)
        } else {
            match shape.0.checked_mul(shape.1) {
                Some(p) => p.checked_mul(shape.2),
                None => None,
            }
        };
        proof {
            if shape.0 == 0 || shape.1 == 0 || shape.2 == 0 {
                assert(voxel_count(shape) == 0) by (nonlinear_arith)
                    requires
                        shape.0 == 0 || shape.1 == 0 || shape.2 == 0,
                ;
            } else {
                lemma_count_exceeds(shape.0 as int, shape.1 as int, shape.2 as int);
            }
        }
        let len = data.len();
        match count {
            Some(n) => {
                if n == len {
                    Ok(Volume { shape, data })
                } else {
                    Err(SampleError::ShapeMismatch)
                }
            },
            None => {
                assert(voxel_count(shape) > usize::MAX);
                Err(SampleError::ShapeMismatch)
            },
        }
    }

    /// The extent of each axis.
    pub fn shape(&self) -> (r: (usize, usize, usize))
        ensures
            r == self.dims(),
    {
        self.shape
    }

    /// The number of voxels.
    pub fn len(&self) -> (r: usize)
        ensures
            r == self.values().len(),
            r == voxel_count(self.dims()),
    {
        proof {
            use_type_invariant(self);
        }
        self.data.len()
    }

    /// The voxel values in row-major order.
    pub fn into_vec(self) -> (r: Vec<U>)
        ensures
            r@ == self.values(),
    {
        self.data
    }
}

impl<U: Copy> Volume<U> {
    /// The value of voxel `(i, j, k)`, or `None` when the index lies outside
    /// the volume.
    pub fn get(&self, i: usize, j: usize, k: usize) -> (r: Option<U>)
        ensures
            r == (if self.in_bounds(i as int, j as int, k as int) {
                Some(self.at(i as int, j as int, k as int))
            } else {
                None
            }),
    {
        proof {
            use_type_invariant(self);
        }
        let len = self.data.len();
        if i < self.shape.0 && j < self.shape.1 && k < self.shape.2 {
            proof {
                lemma_linear_index_bounds(self.shape, i as int, j as int, k as int);
            }
            let idx = (i * self.shape.1 + j) * self.shape.2 + k;
            Some(self.data[idx])
        } else {
            None
        }
    }
}

} // verus!

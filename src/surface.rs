use vstd::prelude::*;
use crate::error::Error;

verus! {

/// Position in the flattened grid of the sample at column `ix` of row `iy`,
/// for rows of `nx` samples: rows follow `y`, columns follow `x`.
pub open spec fn grid_index(nx: int, ix: int, iy: int) -> int {
    iy * nx + ix
}

/// Whether an axis of `steps` samples between bounds that are increasing
/// or not (`increasing`) can be sampled.
pub open spec fn axis_ok(steps: usize, increasing: bool) -> bool {
    steps >= 2 && increasing
}

/// Whether a grid of `x_steps` by `y_steps` samples can be built.
pub open spec fn domain_ok(x_steps: usize, y_steps: usize, x_increasing: bool, y_increasing: bool) -> bool {
    &&& axis_ok(x_steps, x_increasing)
    &&& axis_ok(y_steps, y_increasing)
    &&& x_steps * y_steps <= usize::MAX
}

/// The flattened grid places every sample of an `nx` by `ny` grid at its own
/// position, and every position holds one sample: position `k` holds the
/// sample at column `k % nx` of row `k / nx`.
pub proof fn lemma_grid_index(nx: int, ny: int)
    requires
        nx >= 1,
        ny >= 1,
    ensures
        forall|ix: int, iy: int|
            0 <= ix < nx && 0 <= iy < ny ==> 0 <= #[trigger] grid_index(nx, ix, iy) < nx * ny,
        forall|ix: int, iy: int, jx: int, jy: int|
            0 <= ix < nx && 0 <= iy < ny && 0 <= jx < nx && 0 <= jy < ny
                && #[trigger] grid_index(nx, ix, iy) == #[trigger] grid_index(nx, jx, jy)
                ==> ix == jx && iy == jy,
        forall|k: int|
            0 <= k < nx * ny ==> {
                &&& 0 <= k % nx < nx
                &&& 0 <= k / nx < ny
                &&& grid_index(nx, #[trigger] (k % nx), k / nx) == k
            },
{
    assert forall|ix: int, iy: int| 0 <= ix < nx && 0 <= iy < ny implies
        0 <= #[trigger] grid_index(nx, ix, iy) < nx * ny by {
        lemma_row_bound(nx, ny, ix, iy);
    }
    assert forall|ix: int, iy: int, jx: int, jy: int|
        0 <= ix < nx && 0 <= iy < ny && 0 <= jx < nx && 0 <= jy < ny
            && #[trigger] grid_index(nx, ix, iy) == #[trigger] grid_index(nx, jx, jy)
        implies ix == jx && iy == jy by {
        if iy < jy {
            lemma_row_bound(nx, jy, ix, iy);
            assert(jy * nx + jx >= jy * nx) by (nonlinear_arith)
                requires 0 <= jx;
        } else if jy < iy {
            lemma_row_bound(nx, iy, jx, jy);
            assert(iy * nx + ix >= iy * nx) by (nonlinear_arith)
                requires 0 <= ix;
        }
    }
    assert forall|k: int| 0 <= k < nx * ny implies {
        &&& 0 <= k % nx < nx
        &&& 0 <= k / nx < ny
        &&& grid_index(nx, #[trigger] (k % nx), k / nx) == k
    } by {
        vstd::arithmetic::div_mod::lemma_fundamental_div_mod(k, nx);
        vstd::arithmetic::div_mod::lemma_div_pos_is_pos(k, nx);
        vstd::arithmetic::div_mod::lemma_mod_pos_bound(k, nx);
        let q = k / nx;
        let r = k % nx;
        assert(q < ny && q * nx + r == k) by (nonlinear_arith)
            requires
                k == nx * q + r,
                0 <= r,
                0 <= q,
                k < nx * ny,
                nx >= 1,
        ;
    }
}

/// A sample of row `iy` comes before every sample of a row `ny >= iy + 1`.
proof fn lemma_row_bound(nx: int, ny: int, ix: int, iy: int)
    requires
        0 <= ix < nx,
        0 <= iy < ny,
    ensures
        0 <= grid_index(nx, ix, iy) < ny * nx,
        grid_index(nx, ix, iy) < nx * ny,
{
    assert(0 <= iy * nx + ix < ny * nx && ny * nx == nx * ny) by (nonlinear_arith)
        requires
            0 <= ix < nx,
            0 <= iy < ny,
    ;
}

/// Checks the sample counts and the order of the bounds of both axes, and
/// returns the number of samples in the grid.
pub fn check_domain(x_steps: usize, y_steps: usize, x_increasing: bool, y_increasing: bool) -> (r:
    Result<usize, Error>)
    ensures
        match r {
            Ok(n) => domain_ok(x_steps, y_steps, x_increasing, y_increasing) && n == x_steps
                * y_steps,
            Err(e) => e == Error::InvalidDomain && !domain_ok(
                x_steps,
                y_steps,
                x_increasing,
                y_increasing,
            ),
        },
{
    if x_steps < 2 || y_steps < 2 || !x_increasing || !y_increasing {
        return Err(Error::InvalidDomain);
    }
    match x_steps.checked_mul(y_steps) {
        Some(n) => Ok(n),
        None => Err(Error::InvalidDomain),
    }
}

/// Samples an axis: element `i` is what `at` gives for index `i`.
pub fn sample_axis<T, F: Fn(usize) -> T>(steps: usize, at: F) -> (r: Vec<T>)
    requires
        forall|i: usize| i < steps ==> at.requires((i,)),
    ensures
        r@.len() == steps,
        forall|i: usize| i < steps ==> at.ensures((i,), #[trigger] r@[i as int]),
{
    let mut r: Vec<T> = Vec::new();
    let mut i: usize = 0;
    while i < steps
        invariant
            forall|i: usize| i < steps ==> at.requires((i,)),
            i <= steps,
            r@.len() == i,
            forall|k: usize| k < i ==> at.ensures((k,), #[trigger] r@[k as int]),
        decreases steps - i,
    {
        let v = at(i);
        r.push(v);
        i += 1;
    }
    r
}

/// Evaluates `f` over the grid spanned by `xs` and `ys`, flattened with `y`
/// as the outer and `x` as the inner order.
pub fn sample_grid<T: Copy, F: Fn(T, T) -> T>(xs: &Vec<T>, ys: &Vec<T>, f: F) -> (z: Vec<T>)
    requires
        xs@.len() * ys@.len() <= usize::MAX,
        forall|ix: int, iy: int|
            0 <= ix < xs@.len() && 0 <= iy < ys@.len() ==> f.requires((xs@[ix], ys@[iy])),
    ensures
        z@.len() == xs@.len() * ys@.len(),
        forall|ix: int, iy: int|
            0 <= ix < xs@.len() && 0 <= iy < ys@.len() ==> f.ensures(
                (xs@[ix], ys@[iy]),
                z@[#[trigger] grid_index(xs@.len() as int, ix, iy)],
            ),
{
    let nx = xs.len();
    let ny = ys.len();
    let mut z: Vec<T> = Vec::new();
    let mut iy: usize = 0;
    while iy < ny
        invariant
            nx == xs@.len(),
            ny == ys@.len(),
            nx * ny <= usize::MAX,
            forall|ix: int, iy: int|
                0 <= ix < nx && 0 <= iy < ny ==> f.requires((xs@[ix], ys@[iy])),
            iy <= ny,
            z@.len() == iy * nx,
            forall|jx: int, jy: int|
                0 <= jx < nx && 0 <= jy < iy ==> f.ensures(
                    (xs@[jx], ys@[jy]),
                    z@[#[trigger] grid_index(nx as int, jx, jy)],
                ),
        decreases ny - iy,
    {
        let mut ix: usize = 0;
        while ix < nx
            invariant
                nx == xs@.len(),
                ny == ys@.len(),
                forall|ix: int, iy: int|
                    0 <= ix < nx && 0 <= iy < ny ==> f.requires((xs@[ix], ys@[iy])),
                iy < ny,
                ix <= nx,
                z@.len() == iy * nx + ix,
                forall|jx: int, jy: int|
                    0 <= jx < nx && 0 <= jy < iy ==> f.ensures(
                        (xs@[jx], ys@[jy]),
                        z@[#[trigger] grid_index(nx as int, jx, jy)],
                    ),
                forall|jx: int|
                    0 <= jx < ix ==> f.ensures(
                        (xs@[jx], ys@[iy as int]),
                        z@[#[trigger] grid_index(nx as int, jx, iy as int)],
                    ),
            decreases nx - ix,
        {
            let v = f(xs[ix], ys[iy]);
            proof {
                assert forall|jx: int, jy: int| 0 <= jx < nx && 0 <= jy < iy implies
                    grid_index(nx as int, jx, jy) < z@.len() by {
                    lemma_row_bound(nx as int, iy as int, jx, jy);
                }
            }
            z.push(v);
            ix += 1;
        }
        proof {
            assert((iy + 1) * nx == iy * nx + nx) by (nonlinear_arith);
        }
        iy += 1;
    }
    proof {
        assert(ny * nx == nx * ny) by (nonlinear_arith);
    }
    z
}

/// A surface sampled over a grid: the axes and the heights above them.
pub struct Surface<T> {
    pub x: Vec<T>,
    pub y: Vec<T>,
    pub z: Vec<T>,
}

impl<T> Surface<T> {
    /// Both axes have at least two samples and `z` holds one height for
    /// each point of the grid.
    pub open spec fn wf(&self) -> bool {
        &&& self.x@.len() >= 2
        &&& self.y@.len() >= 2
        &&& self.z@.len() == self.x@.len() * self.y@.len()
    }

    /// Samples `f` over a grid of `x_steps` by `y_steps` points. Sample `i`
    /// of the x axis is what `at_x` gives for `i`, and likewise for y;
    /// `x_increasing` and `y_increasing` tell whether the bounds of each axis
    /// are in increasing order.
    pub fn sample<FX: Fn(usize) -> T, FY: Fn(usize) -> T, F: Fn(T, T) -> T>(
        x_steps: usize,
        y_steps: usize,
        x_increasing: bool,
        y_increasing: bool,
        at_x: FX,
        at_y: FY,
        f: F,
    ) -> (r: Result<Surface<T>, Error>) where T: Copy
        requires
            forall|i: usize| i < x_steps ==> at_x.requires((i,)),
            forall|i: usize| i < y_steps ==> at_y.requires((i,)),
            forall|a: T, b: T| f.requires((a, b)),
        ensures
            r is Ok <==> domain_ok(x_steps, y_steps, x_increasing, y_increasing),
            r is Err ==> r == Err::<Surface<T>, Error>(Error::InvalidDomain),
            r matches Ok(s) ==> {
                &&& s.wf()
                &&& s.x@.len() == x_steps
                &&& s.y@.len() == y_steps
                &&& forall|i: usize| i < x_steps ==> at_x.ensures((i,), #[trigger] s.x@[i as int])
                &&& forall|i: usize| i < y_steps ==> at_y.ensures((i,), #[trigger] s.y@[i as int])
                &&& forall|ix: int, iy: int|
                    0 <= ix < x_steps && 0 <= iy < y_steps ==> f.ensures(
                        (s.x@[ix], s.y@[iy]),
                        s.z@[#[trigger] grid_index(x_steps as int, ix, iy)],
                    )
            },
    {
        if let Err(e) = check_domain(x_steps, y_steps, x_increasing, y_increasing) {
            return Err(e);
        }
        let x = sample_axis(x_steps, at_x);
        let y = sample_axis(y_steps, at_y);
        let z = sample_grid(&x, &y, f);
        Ok(Surface { x, y, z })
    }

    /// The samples of the x axis.
    pub fn x(&self) -> (r: &Vec<T>)
        ensures
            r@ == self.x@,
    {
        &self.x
    }

    /// The samples of the y axis.
    pub fn y(&self) -> (r: &Vec<T>)
        ensures
            r@ == self.y@,
    {
        &self.y
    }

    /// The heights, flattened with `y` as the outer and `x` as the inner order.
    pub fn z(&self) -> (r: &Vec<T>)
        ensures
            r@ == self.z@,
    {
        &self.z
    }
}

} // verus!

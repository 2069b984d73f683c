use vstd::prelude::*;
use crate::error::Error;

verus! {

/// The objectives that a surface can be built from.
#[derive(Clone, Copy, Debug, PartialEq, Eq, Structural)]
pub enum FunctionType {
    Quadratic,
    Rastrigin,
}

/// The selector under which each objective is registered.
pub open spec fn selector_of(t: FunctionType) -> u32 {
    match t {
        FunctionType::Quadratic => 0,
        FunctionType::Rastrigin => 1,
    }
}

impl FunctionType {
    /// Looks up the objective registered under `selector`.
    pub fn from_selector(selector: u32) -> (r: Result<FunctionType, Error>)
        ensures
            match r {
                Ok(t) => selector_of(t) == selector,
                Err(e) => e == Error::UnknownFunctionSelector
                    && forall|t: FunctionType| selector_of(t) != selector,
            },
    {
        if selector == 0 {
            Ok(FunctionType::Quadratic)
        } else if selector == 1 {
            Ok(FunctionType::Rastrigin)
        } else {
            Err(Error::UnknownFunctionSelector)
        }
    }

    /// The selector of this objective.
    pub fn selector(&self) -> (r: u32)
        ensures
            r == selector_of(*self),
    {
        match self {
            FunctionType::Quadratic => 0,
            FunctionType::Rastrigin => 1,
        }
    }
}

/// The dimension of the points that the Rastrigin objective takes.
pub const RASTRIGIN_DIMENSION: usize = 2;

/// The Rastrigin objective in two dimensions,
/// `20 + x^2 - 10 cos(2 pi x) + y^2 - 10 cos(2 pi y)`.
/// It holds no parameters.
#[derive(Clone, Copy, Debug, PartialEq, Eq, Structural)]
pub struct Rastrigin;

impl Rastrigin {
    /// The dimension of the points this objective takes.
    pub fn dimension(&self) -> (r: usize)
        ensures
            r == RASTRIGIN_DIMENSION,
    {
        RASTRIGIN_DIMENSION
    }

    /// Succeeds exactly when a point of `n` coordinates can be evaluated.
    pub fn check_dimension(&self, n: usize) -> (r: Result<(), Error>)
        ensures
            r is Ok <==> n == RASTRIGIN_DIMENSION,
            r is Err ==> r == Err::<(), Error>(Error::DimensionMismatch),
    {
        if n == RASTRIGIN_DIMENSION {
            Ok(())
        } else {
            Err(Error::DimensionMismatch)
        }
    }
}

/// The quadratic form `x^T A x + b^T x + c` over values of type `T`.
///
/// The gradient that goes with it is `2 A x + b`, which is the true
/// gradient only where `A` is symmetric; the formula is kept as it is
/// for asymmetric `A` too.
pub struct Quadratic<T> {
    pub a: Vec<Vec<T>>,
    pub b: Vec<T>,
    pub c: T,
}

/// `a` holds `n` rows of `n` entries each.
pub open spec fn is_square<T>(a: Seq<Vec<T>>, n: nat) -> bool {
    &&& a.len() == n
    &&& forall|i: int| 0 <= i < n ==> (#[trigger] a[i])@.len() == n
}

impl<T> Quadratic<T> {
    /// `A` is square and `b` matches it, both of dimension `n`.
    pub open spec fn has_dimension(&self, n: nat) -> bool {
        &&& self.b@.len() == n
        &&& is_square(self.a@, n)
    }

    /// Builds the form from its parts, provided they agree in dimension.
    pub fn new(a: Vec<Vec<T>>, b: Vec<T>, c: T) -> (r: Result<Quadratic<T>, Error>)
        ensures
            match r {
                Ok(q) => q.a@ == a@ && q.b@ == b@ && q.c == c && q.has_dimension(b@.len()),
                Err(e) => e == Error::DimensionMismatch && !is_square(a@, b@.len()),
            },
    {
        let q = Quadratic { a, b, c };
        let n = q.b.len();
        if q.a.len() != n {
            return Err(Error::DimensionMismatch);
        }
        let mut i: usize = 0;
        while i < n
            invariant
                q.a@ == a@,
                q.a@.len() == n,
                q.b@.len() == n,
                0 <= i <= n,
                forall|k: int| 0 <= k < i ==> (#[trigger] q.a@[k])@.len() == n,
            decreases n - i,
        {
            if q.a[i].len() != n {
                assert(q.a@[i as int]@.len() != n);
                return Err(Error::DimensionMismatch);
            }
            i += 1;
        }
        Ok(q)
    }

    /// The dimension of the points this form takes.
    pub fn dimension(&self) -> (r: usize)
        ensures
            r == self.b@.len(),
    {
        self.b.len()
    }

    /// Succeeds exactly when the form has dimension `n`, so that a point
    /// of `n` coordinates can be evaluated without reading out of bounds.
    pub fn check_dimension(&self, n: usize) -> (r: Result<(), Error>)
        ensures
            r is Ok <==> self.has_dimension(n as nat),
            r is Err ==> r == Err::<(), Error>(Error::DimensionMismatch),
    {
        if self.a.len() != n || self.b.len() != n {
            return Err(Error::DimensionMismatch);
        }
        let mut i: usize = 0;
        while i < n
            invariant
                self.a@.len() == n,
                self.b@.len() == n,
                0 <= i <= n,
                forall|k: int| 0 <= k < i ==> (#[trigger] self.a@[k])@.len() == n,
            decreases n - i,
        {
            if self.a[i].len() != n {
                return Err(Error::DimensionMismatch);
            }
            i += 1;
        }
        Ok(())
    }
}

} // verus!

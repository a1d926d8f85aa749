//! Work dimensions: one-, two- and three-dimensional extents and the test
//! that an extent covers exactly the length of a buffer.

use vstd::prelude::*;

verus! {

/// An extent with a total number of elements.
pub trait Dimension: Sized {
    /// The number of elements the extent covers, as a mathematical integer.
    spec fn product_spec(&self) -> int;

    /// The number of elements the extent covers. Defined where the product
    /// fits the machine word.
    fn product(&self) -> (n: usize)
        requires
            self.product_spec() <= usize::MAX,
        ensures
            n == self.product_spec(),
    ;

    /// Whether the extent covers exactly `len` elements.
    fn matches_length(&self, len: usize) -> (r: bool)
        requires
            self.product_spec() <= usize::MAX,
        ensures
            r == (self.product_spec() == len),
    {
        self.product() == len
    }
}

#[derive(Clone, Copy, Debug, Hash, PartialEq, Eq, Structural)]
pub struct ThreeDims(pub usize, pub usize, pub usize);

#[derive(Clone, Copy, Debug, Hash, PartialEq, Eq, Structural)]
pub struct TwoDims(pub usize, pub usize);

#[derive(Clone, Copy, Debug, Hash, PartialEq, Eq, Structural)]
pub struct OneDim(pub usize);

impl Dimension for OneDim {
    open spec fn product_spec(&self) -> int {
        self.0 as int
    }

    fn product(&self) -> usize {
        self.0
    }
}

impl Dimension for TwoDims {
    open spec fn product_spec(&self) -> int {
        self.0 * self.1
    }

    fn product(&self) -> usize {
        self.0 * self.1
    }
}

impl Dimension for ThreeDims {
    open spec fn product_spec(&self) -> int {
        self.0 * self.1 * self.2
    }

    fn product(&self) -> usize {
        let a = self.0 as u128;
        let b = self.1 as u128;
        let c = self.2 as u128;
        proof {
            assert(a * b <= u128::MAX) by (nonlinear_arith)
                requires
                    a <= u64::MAX,
                    b <= u64::MAX,
            ;
            assert(c == 0 ==> (a * b) * c == 0) by (nonlinear_arith);
            assert(c >= 1 ==> (a * b) * c == a * b * c) by (nonlinear_arith);
        }
        let ab = a * b;
        (ab * c) as usize
    }
}

/// A single extent, or an extent of up to three dimensions, as the host
/// supplies it.
#[derive(Clone, Copy, Debug, Hash, PartialEq, Eq, Structural)]
pub enum DimsEx {
    LoneNum(usize),
    One(OneDim),
    Two(TwoDims),
    Three(ThreeDims),
}

impl Dimension for DimsEx {
    open spec fn product_spec(&self) -> int {
        match self {
            DimsEx::LoneNum(n) => *n as int,
            DimsEx::One(d) => d.product_spec(),
            DimsEx::Two(d) => d.product_spec(),
            DimsEx::Three(d) => d.product_spec(),
        }
    }

    fn product(&self) -> usize {
        match self {
            DimsEx::LoneNum(n) => *n,
            DimsEx::One(d) => d.product(),
            DimsEx::Two(d) => d.product(),
            DimsEx::Three(d) => d.product(),
        }
    }
}

} // verus!

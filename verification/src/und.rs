//! Uncertain values in arrays of any number of axes.
use crate::fpu::{everywhere, total, Op};
use crate::uncertain_float::{is_five_point_image, UncertainFloat};
use vstd::prelude::*;

verus! {

/// An array of uncertain values over any number of axes, kept in an
/// `ndarray::ArrayD`. Verus does not look inside: what the array holds is
/// known through `cells` and `axes` alone.
#[verifier::external_body]
pub struct UncertainArray {
    grid: ndarray::ArrayD<UncertainFloat>,
}

/// The elements of the array in its logical order, the last axis running
/// fastest: the order in which `ndarray`'s `iter` visits them.
pub uninterp spec fn cells(arr: UncertainArray) -> Seq<UncertainFloat>;

/// The lengths of the array's axes, as `ndarray`'s `shape` reports them.
pub uninterp spec fn axes(arr: UncertainArray) -> Seq<usize>;

/// The number of elements of an array with the axes `shape`: the product of
/// their lengths.
pub open spec fn count(shape: Seq<usize>) -> nat
    decreases shape.len(),
{
    if shape.len() == 0 {
        1
    } else {
        count(shape.drop_last()) * shape.last() as nat
    }
}

/// The product of the lengths in `shape` that are not zero.
pub open spec fn nonzero_count(shape: Seq<usize>) -> nat
    decreases shape.len(),
{
    if shape.len() == 0 {
        1
    } else if shape.last() == 0 {
        nonzero_count(shape.drop_last())
    } else {
        nonzero_count(shape.drop_last()) * shape.last() as nat
    }
}

/// `n` elements fill an array with the axes `shape`, and the array is one
/// that `ndarray` can address.
pub open spec fn fills(shape: Seq<usize>, n: nat) -> bool {
    nonzero_count(shape) <= isize::MAX && count(shape) == n
}

/// Calls `ndarray`'s `iter` and copies out what it visits: the elements in
/// logical order, as many as the product of the axes.
#[verifier::external_body]
fn cells_of(arr: &UncertainArray) -> (v: Vec<UncertainFloat>)
    ensures
        v@ == cells(*arr),
        v@.len() == count(axes(*arr)),
{
    arr.grid.iter().copied().collect()
}

/// Calls `ndarray`'s `shape`: the lengths of the axes, whose product is the
/// number of elements.
#[verifier::external_body]
fn axes_of(arr: &UncertainArray) -> (v: Vec<usize>)
    ensures
        v@ == axes(*arr),
        count(v@) == cells(*arr).len(),
{
    arr.grid.shape().to_vec()
}

/// Calls `ndarray`'s `Array1::from_vec`, which takes the vector over as an
/// array of one axis, and `into_dyn`, which keeps elements and axes.
#[verifier::external_body]
fn flat(v: Vec<UncertainFloat>) -> (arr: UncertainArray)
    ensures
        cells(arr) == v@,
        axes(arr) == seq![v.len()],
{
    UncertainArray { grid: ndarray::Array1::from_vec(v).into_dyn() }
}

/// Calls `ndarray`'s `ArrayD::from_shape_vec` with a shape in row-major order.
/// It takes the vector over as it is, and refuses it exactly when the product
/// of the axes is not the vector's length, or the product of the axes that are
/// not zero is more than `isize::MAX`.
#[verifier::external_body]
fn shaped(shape: &Vec<usize>, v: Vec<UncertainFloat>) -> (r: Option<UncertainArray>)
    ensures
        r.is_some() <==> fills(shape@, v@.len()),
        r matches Some(arr) ==> cells(arr) == v@ && axes(arr) == shape@,
{
    match ndarray::ArrayD::from_shape_vec(ndarray::IxDyn(shape), v) {
        Ok(grid) => Some(UncertainArray { grid }),
        Err(_) => None,
    }
}

impl UncertainArray {
    /// The array with the axes `shape` whose elements in row-major order are
    /// `v`, where `v` fills such an array.
    pub fn from_shape_vec(shape: &Vec<usize>, v: Vec<UncertainFloat>) -> (r: Option<Self>)
        ensures
            r.is_some() <==> fills(shape@, v@.len()),
            r matches Some(arr) ==> cells(arr) == v@ && axes(arr) == shape@,
    {
        shaped(shape, v)
    }

    /// The lengths of the axes; their product is the number of elements.
    pub fn shape(&self) -> (v: Vec<usize>)
        ensures
            v@ == axes(*self),
            count(v@) == cells(*self).len(),
    {
        axes_of(self)
    }

    /// The elements in logical order, as many as the product of the axes.
    pub fn to_vec(&self) -> (v: Vec<UncertainFloat>)
        ensures
            v@ == cells(*self),
            v@.len() == count(axes(*self)),
    {
        cells_of(self)
    }
}

/// Applies `f` to every element of `arr`, each with the five-point estimate of
/// the derivative. The result has one axis, whatever the axes of `arr`, and
/// holds the images in the logical order of `arr`.
pub fn apply<F: Fn(u64) -> u64, E: Fn(Op) -> u64>(arr: &UncertainArray, f: &F, fpu: &E) -> (r:
    UncertainArray)
    requires
        everywhere(f),
        total(fpu),
    ensures
        axes(r) == seq![cells(*arr).len() as usize],
        cells(r).len() == cells(*arr).len(),
        forall|i: int|
            0 <= i < cells(*arr).len() ==> is_five_point_image(
                f,
                fpu,
                cells(*arr)[i],
                #[trigger] cells(r)[i],
            ),
{
    let input = cells_of(arr);
    let mut output: Vec<UncertainFloat> = Vec::new();
    let mut i: usize = 0;
    while i < input.len()
        invariant
            everywhere(f),
            total(fpu),
            i <= input.len(),
            output.len() == i,
            forall|j: int|
                0 <= j < i ==> is_five_point_image(f, fpu, input@[j], #[trigger] output@[j]),
        decreases input.len() - i,
    {
        let x = input[i];
        output.push(x.apply(f, fpu));
        i += 1;
    }
    flat(output)
}

} // verus!

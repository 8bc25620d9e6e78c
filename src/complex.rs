use vstd::prelude::*;
use num_complex::Complex;

verus! {

/// `num_complex::Complex` as this crate sees it: a pair of public fields.
#[verifier::external_type_specification]
#[verifier::reject_recursive_types(T)]
pub struct ExComplex<T>(Complex<T>);

/// Relies on `num_complex::Complex::new`, which builds `Complex { re, im }`.
pub assume_specification<T>[ Complex::<T>::new ](re: T, im: T) -> (r: Complex<T>)
    ensures
        r.re == re,
        r.im == im,
;

/// A complex value seen as its (real, imaginary) pair.
pub open spec fn pair_of<T>(c: Complex<T>) -> (T, T) {
    (c.re, c.im)
}

/// The pairs of a sequence of complex values.
pub open spec fn pairs_of<T>(s: Seq<Complex<T>>) -> Seq<(T, T)> {
    s.map_values(|c: Complex<T>| pair_of(c))
}

} // verus!

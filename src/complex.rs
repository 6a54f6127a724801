use vstd::prelude::*;
use vstd::std_specs::cmp::PartialEqSpec;
use vstd::std_specs::ops::{AddSpec, NegSpec};
use std::ops::{Add, Neg};

verus! {

/// A pair of components, a real and an imaginary part, over any component type.
#[derive(Clone, Copy, Debug)]
pub struct Complex<T> {
    pub re: T,
    pub im: T,
}

/// Component-wise sum; the two sides may have different component types, as
/// long as the left one can be added to the right one.
impl<L: Add<R>, R> Add<Complex<R>> for Complex<L> {
    type Output = Complex<L::Output>;

    fn add(self, rhs: Complex<R>) -> (r: Complex<L::Output>) {
        Complex { re: self.re + rhs.re, im: self.im + rhs.im }
    }
}

impl<L: Add<R>, R> vstd::std_specs::ops::AddSpecImpl<Complex<R>> for Complex<L> {
    open spec fn obeys_add_spec() -> bool {
        L::obeys_add_spec()
    }

    /// Both component sums are defined (for integers: neither overflows).
    open spec fn add_req(self, rhs: Complex<R>) -> bool {
        self.re.add_req(rhs.re) && self.im.add_req(rhs.im)
    }

    open spec fn add_spec(self, rhs: Complex<R>) -> Complex<L::Output> {
        Complex { re: self.re.add_spec(rhs.re), im: self.im.add_spec(rhs.im) }
    }
}

/// Component-wise negation.
impl<T: Neg<Output = T>> Neg for Complex<T> {
    type Output = Complex<T>;

    fn neg(self) -> (r: Complex<T>) {
        Complex { re: self.re.neg(), im: self.im.neg() }
    }
}

impl<T: Neg<Output = T>> vstd::std_specs::ops::NegSpecImpl for Complex<T> {
    open spec fn obeys_neg_spec() -> bool {
        T::obeys_neg_spec()
    }

    /// Both component negations are defined (for signed integers: neither is the minimum).
    open spec fn neg_req(self) -> bool {
        self.re.neg_req() && self.im.neg_req()
    }

    open spec fn neg_spec(self) -> Complex<T> {
        Complex { re: self.re.neg_spec(), im: self.im.neg_spec() }
    }
}

/// Two values are equal when both components are equal under the component
/// type's own equality (so a NaN component makes a value unequal to itself).
impl<T: PartialEq> PartialEq for Complex<T> {
    fn eq(&self, other: &Complex<T>) -> (r: bool) {
        self.re == other.re && self.im == other.im
    }
}

impl<T: PartialEq> vstd::std_specs::cmp::PartialEqSpecImpl for Complex<T> {
    open spec fn obeys_eq_spec() -> bool {
        T::obeys_eq_spec()
    }

    open spec fn eq_spec(&self, other: &Complex<T>) -> bool {
        self.re.eq_spec(&other.re) && self.im.eq_spec(&other.im)
    }
}

impl<T: Add<Output = T> + Copy> Complex<T> {
    /// Adds `rhs` into `self`, component by component.
    pub fn add_assign(&mut self, rhs: Complex<T>)
        requires
            old(self).add_req(rhs),
        ensures
            T::obeys_add_spec() ==> *final(self) == old(self).add_spec(rhs),
    {
        *self = *self + rhs;
    }
}

/// Addition of values is commutative wherever addition of components is.
pub proof fn lemma_add_commutative<T: Add<Output = T>>(a: Complex<T>, b: Complex<T>)
    requires
        forall|x: T, y: T| #[trigger] x.add_spec(y) == y.add_spec(x),
    ensures
        a.add_spec(b) == b.add_spec(a),
{
    assert(a.re.add_spec(b.re) == b.re.add_spec(a.re));
    assert(a.im.add_spec(b.im) == b.im.add_spec(a.im));
}

/// Addition of values is associative wherever addition of components is.
pub proof fn lemma_add_associative<T: Add<Output = T>>(a: Complex<T>, b: Complex<T>, c: Complex<T>)
    requires
        forall|x: T, y: T, z: T| #[trigger] x.add_spec(y).add_spec(z) == x.add_spec(y.add_spec(z)),
    ensures
        a.add_spec(b).add_spec(c) == a.add_spec(b.add_spec(c)),
{
    assert(a.re.add_spec(b.re).add_spec(c.re) == a.re.add_spec(b.re.add_spec(c.re)));
    assert(a.im.add_spec(b.im).add_spec(c.im) == a.im.add_spec(b.im.add_spec(c.im)));
}

/// Negating a value twice gives it back wherever negating a component twice does.
pub proof fn lemma_neg_involutive<T: Neg<Output = T>>(a: Complex<T>)
    requires
        forall|x: T| #[trigger] x.neg_spec().neg_spec() == x,
    ensures
        a.neg_spec().neg_spec() == a,
{
    assert(a.re.neg_spec().neg_spec() == a.re);
    assert(a.im.neg_spec().neg_spec() == a.im);
}

} // verus!

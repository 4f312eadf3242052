use vstd::prelude::*;

verus! {

/// A rational number as a numerator/denominator pair, the shape in which a
/// stream descriptor carries its time base, frame rates and sample aspect
/// ratio. The pair is kept as it stands: a `Rational` does not reduce itself,
/// and a zero denominator is representable (descriptors use it as an "unset"
/// sentinel).
#[derive(Clone, Copy, Debug, PartialEq, Eq, Structural)]
pub struct Rational {
    pub num: i32,
    pub den: i32,
}

impl Rational {
    pub fn new(num: i32, den: i32) -> (r: Rational)
        ensures
            r.num == num,
            r.den == den,
    {
        Rational { num, den }
    }
}

} // verus!

//! One-dimensional arrays and their elementwise operations.

use vstd::prelude::*;

verus! {

/// Two arrays that an operation takes together differ in length.
#[derive(Debug, Clone, Copy, PartialEq, Eq)]
pub struct ShapeMismatch {
    /// The length that was asked for.
    pub expected: usize,
    /// The length that was given.
    pub found: usize,
}

/// A one-dimensional array. Its view is the sequence of its elements.
#[derive(Debug, PartialEq)]
pub struct Array1<T> {
    elems: Vec<T>,
}

impl<T> View for Array1<T> {
    type V = Seq<T>;

    closed spec fn view(&self) -> Seq<T> {
        self.elems@
    }
}

/// `y` holds, place by place, a result of `f` on the element of `x`.
pub open spec fn is_map_of<T, U, F: Fn(T) -> U>(f: F, x: Seq<T>, y: Seq<U>) -> bool {
    &&& y.len() == x.len()
    &&& forall|i: int| 0 <= i < x.len() ==> call_ensures(f, (x[i],), #[trigger] y[i])
}

/// `z` holds, place by place, a result of `f` on the elements of `x` and `y`.
pub open spec fn is_zip_of<T, U, F: Fn(T, T) -> U>(f: F, x: Seq<T>, y: Seq<T>, z: Seq<U>) -> bool {
    &&& z.len() == x.len()
    &&& y.len() == x.len()
    &&& forall|i: int| 0 <= i < x.len() ==> call_ensures(f, (x[i], y[i]), #[trigger] z[i])
}

impl<T: Copy> Array1<T> {
    /// The array of the elements of `v`, in their order.
    pub fn from_vec(v: Vec<T>) -> (a: Self)
        ensures
            a@ == v@,
    {
        Array1 { elems: v }
    }

    /// The elements, in their order.
    pub fn to_vec(&self) -> (v: Vec<T>)
        ensures
            v@ == self@,
    {
        let n = self.elems.len();
        let mut v: Vec<T> = Vec::new();
        let mut i: usize = 0;
        while i < n
            invariant
                n == self.elems@.len(),
                i <= n,
                v@ == self.elems@.subrange(0, i as int),
            decreases n - i,
        {
            v.push(self.elems[i]);
            i += 1;
        }
        assert(self.elems@.subrange(0, n as int) == self.elems@);
        v
    }

    /// The number of elements.
    pub fn len(&self) -> (n: usize)
        ensures
            n == self@.len(),
    {
        self.elems.len()
    }

    /// The element at `i`, if there is one.
    pub fn get(&self, i: usize) -> (r: Option<T>)
        ensures
            r == (if i < self@.len() { Some(self@[i as int]) } else { None }),
    {
        if i < self.elems.len() {
            Some(self.elems[i])
        } else {
            None
        }
    }

    /// Applies `f` to each element and collects the results in a new array of
    /// the same length.
    pub fn map<U, F: Fn(T) -> U>(&self, f: F) -> (r: Array1<U>)
        requires
            forall|i: int| 0 <= i < self@.len() ==> call_requires(f, (#[trigger] self@[i],)),
        ensures
            is_map_of(f, self@, r@),
    {
        let n = self.elems.len();
        let mut out: Vec<U> = Vec::new();
        let mut i: usize = 0;
        while i < n
            invariant
                self@ == self.elems@,
                n == self@.len(),
                i <= n,
                out@.len() == i,
                forall|j: int| 0 <= j < n ==> call_requires(f, (#[trigger] self@[j],)),
                forall|j: int| 0 <= j < i ==> call_ensures(f, (self@[j],), #[trigger] out@[j]),
            decreases n - i,
        {
            let y = f(self.elems[i]);
            out.push(y);
            i += 1;
        }
        Array1 { elems: out }
    }

    /// Applies `f` to each pair of elements that stand at the same place in
    /// `self` and `rhs`. Arrays of different lengths are refused: nothing is
    /// broadcast or cut short.
    pub fn zip_with<U, F: Fn(T, T) -> U>(&self, rhs: &Array1<T>, f: F) -> (r: Result<
        Array1<U>,
        ShapeMismatch,
    >)
        requires
            forall|i: int|
                0 <= i < self@.len() && i < rhs@.len() ==> call_requires(
                    f,
                    (#[trigger] self@[i], #[trigger] rhs@[i]),
                ),
        ensures
            r is Ok <==> rhs@.len() == self@.len(),
            r matches Ok(z) ==> is_zip_of(f, self@, rhs@, z@),
            r matches Err(e) ==> e.expected == self@.len() && e.found == rhs@.len(),
    {
        let n = self.elems.len();
        if rhs.elems.len() != n {
            return Err(ShapeMismatch { expected: n, found: rhs.elems.len() });
        }
        let mut out: Vec<U> = Vec::new();
        let mut i: usize = 0;
        while i < n
            invariant
                self@ == self.elems@,
                rhs@ == rhs.elems@,
                n == self@.len(),
                n == rhs@.len(),
                i <= n,
                out@.len() == i,
                forall|j: int|
                    0 <= j < n ==> call_requires(f, (#[trigger] self@[j], #[trigger] rhs@[j])),
                forall|j: int|
                    0 <= j < i ==> call_ensures(f, (self@[j], rhs@[j]), #[trigger] out@[j]),
            decreases n - i,
        {
            let z = f(self.elems[i], rhs.elems[i]);
            out.push(z);
            i += 1;
        }
        Ok(Array1 { elems: out })
    }
}

impl<T: Copy> Clone for Array1<T> {
    /// A new array with the same elements.
    fn clone(&self) -> (r: Self)
        ensures
            r@ == self@,
    {
        Array1 { elems: self.to_vec() }
    }
}

} // verus!

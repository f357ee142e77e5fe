//! Fixed-size vectors over a numeric component type.
//!
//! The component type stays generic; the arithmetic goes through the standard
//! operator traits, so each operation's contract speaks of the operators'
//! specifications: where the component type's operators are specified (as
//! they are for the machine integers), the result is pinned down exactly, and
//! the preconditions rule out overflow.

use vstd::prelude::*;
use vstd::array::array_index_get;
use vstd::std_specs::ops::{AddSpec, DivSpec, MulSpec, SubSpec};

verus! {

/// A vector of `M` components of type `T`.
pub struct Vector<const M: usize, T> {
    buffer: [T; M],
}

impl<const M: usize, T> View for Vector<M, T> {
    type V = Seq<T>;

    closed spec fn view(&self) -> Seq<T> {
        self.buffer@
    }
}

impl<const M: usize, T> Vector<M, T> {
    /// Wraps a component array.
    pub fn new(buffer: [T; M]) -> (r: Self)
        ensures
            r@ == buffer@,
            r@.len() == M,
    {
        Vector { buffer }
    }

    /// The components as a slice, in order; a vector always holds exactly `M`
    /// components.
    pub fn buffer(&self) -> (r: &[T])
        ensures
            r@ == self@,
            r@.len() == M,
    {
        self.buffer.as_slice()
    }

    /// A vector's view always holds exactly `M` components.
    pub proof fn lemma_len(&self)
        ensures
            self@.len() == M,
    {
    }
}

impl<const M: usize, T: Copy + Default> Vector<M, T> {
    /// Builds a vector from a slice of exactly `M` components; any other
    /// length gives nothing.
    pub fn from_slice(buffer: &[T]) -> (r: Option<Self>)
        ensures
            match r {
                Some(v) => buffer@.len() == M && v@ == buffer@,
                None => buffer@.len() != M,
            },
    {
        if buffer.len() != M {
            return None;
        }
        let mut out: [T; M] = [T::default();M];
        let mut i: usize = 0;
        while i < M
            invariant
                0 <= i <= M,
                buffer@.len() == M,
                out@.len() == M,
                forall|j: int| 0 <= j < i ==> out@[j] == buffer@[j],
            decreases M - i,
        {
            out[i] = *vstd::slice::slice_index_get(buffer, i);
            i = i + 1;
        }
        proof {
            assert(out@ =~= buffer@);
        }
        Some(Vector { buffer: out })
    }
}

impl<const M: usize, T: core::ops::Add<Output = T> + Default + Copy> Vector<M, T> {
    /// Componentwise sum.
    pub fn add_vec(&self, rhs: &Self) -> (r: Self)
        requires
            forall|i: int| 0 <= i < M as int ==> (#[trigger] self@[i]).add_req(rhs@[i]),
        ensures
            r@.len() == M,
            T::obeys_add_spec() ==> forall|i: int|
                0 <= i < M as int ==> r@[i] == (#[trigger] self@[i]).add_spec(rhs@[i]),
    {
        let mut buffer: [T; M] = [T::default();M];
        let mut i: usize = 0;
        while i < M
            invariant
                0 <= i <= M,
                buffer@.len() == M,
                forall|j: int| i <= j < M as int ==> (#[trigger] self@[j]).add_req(rhs@[j]),
                T::obeys_add_spec() ==> forall|j: int|
                    0 <= j < i ==> buffer@[j] == (#[trigger] self@[j]).add_spec(rhs@[j]),
            decreases M - i,
        {
            proof {
                assert((self@[i as int]).add_req(rhs@[i as int]));
            }
            buffer[i] = self.buffer[i] + rhs.buffer[i];
            i = i + 1;
        }
        Vector { buffer }
    }

    /// Adds a scalar to every component.
    pub fn add_scalar(&self, rhs: T) -> (r: Self)
        requires
            forall|i: int| 0 <= i < M as int ==> (#[trigger] self@[i]).add_req(rhs),
        ensures
            r@.len() == M,
            T::obeys_add_spec() ==> forall|i: int|
                0 <= i < M as int ==> r@[i] == (#[trigger] self@[i]).add_spec(rhs),
    {
        let mut buffer: [T; M] = [T::default();M];
        let mut i: usize = 0;
        while i < M
            invariant
                0 <= i <= M,
                buffer@.len() == M,
                forall|j: int| i <= j < M as int ==> (#[trigger] self@[j]).add_req(rhs),
                T::obeys_add_spec() ==> forall|j: int|
                    0 <= j < i ==> buffer@[j] == (#[trigger] self@[j]).add_spec(rhs),
            decreases M - i,
        {
            proof {
                assert((self@[i as int]).add_req(rhs));
            }
            buffer[i] = self.buffer[i] + rhs;
            i = i + 1;
        }
        Vector { buffer }
    }

    /// Componentwise sum in place.
    pub fn add_vec_inplace(&mut self, rhs: &Self)
        requires
            forall|i: int| 0 <= i < M as int ==> (#[trigger] old(self)@[i]).add_req(rhs@[i]),
        ensures
            final(self)@.len() == M,
            T::obeys_add_spec() ==> forall|i: int|
                0 <= i < M as int ==> final(self)@[i] == (#[trigger] old(self)@[i]).add_spec(
                    rhs@[i],
                ),
    {
        let mut i: usize = 0;
        while i < M
            invariant
                0 <= i <= M,
                self@.len() == M,
                forall|j: int| i <= j < M as int ==> self@[j] == old(self)@[j],
                forall|j: int| i <= j < M as int ==> (#[trigger] old(self)@[j]).add_req(rhs@[j]),
                T::obeys_add_spec() ==> forall|j: int|
                    0 <= j < i ==> self@[j] == (#[trigger] old(self)@[j]).add_spec(rhs@[j]),
            decreases M - i,
        {
            self.buffer[i] = self.buffer[i] + rhs.buffer[i];
            i = i + 1;
        }
    }

    /// Adds a scalar to every component in place.
    pub fn add_scalar_inplace(&mut self, rhs: T)
        requires
            forall|i: int| 0 <= i < M as int ==> (#[trigger] old(self)@[i]).add_req(rhs),
        ensures
            final(self)@.len() == M,
            T::obeys_add_spec() ==> forall|i: int|
                0 <= i < M as int ==> final(self)@[i] == (#[trigger] old(self)@[i]).add_spec(rhs),
    {
        let mut i: usize = 0;
        while i < M
            invariant
                0 <= i <= M,
                self@.len() == M,
                forall|j: int| i <= j < M as int ==> self@[j] == old(self)@[j],
                forall|j: int| i <= j < M as int ==> (#[trigger] old(self)@[j]).add_req(rhs),
                T::obeys_add_spec() ==> forall|j: int|
                    0 <= j < i ==> self@[j] == (#[trigger] old(self)@[j]).add_spec(rhs),
            decreases M - i,
        {
            self.buffer[i] = self.buffer[i] + rhs;
            i = i + 1;
        }
    }
}

impl<const M: usize, T: core::ops::Sub<Output = T> + Default + Copy> Vector<M, T> {
    /// Componentwise difference.
    pub fn sub_vec(&self, rhs: &Self) -> (r: Self)
        requires
            forall|i: int| 0 <= i < M as int ==> (#[trigger] self@[i]).sub_req(rhs@[i]),
        ensures
            r@.len() == M,
            T::obeys_sub_spec() ==> forall|i: int|
                0 <= i < M as int ==> r@[i] == (#[trigger] self@[i]).sub_spec(rhs@[i]),
    {
        let mut buffer: [T; M] = [T::default();M];
        let mut i: usize = 0;
        while i < M
            invariant
                0 <= i <= M,
                buffer@.len() == M,
                forall|j: int| i <= j < M as int ==> (#[trigger] self@[j]).sub_req(rhs@[j]),
                T::obeys_sub_spec() ==> forall|j: int|
                    0 <= j < i ==> buffer@[j] == (#[trigger] self@[j]).sub_spec(rhs@[j]),
            decreases M - i,
        {
            proof {
                assert((self@[i as int]).sub_req(rhs@[i as int]));
            }
            buffer[i] = self.buffer[i] - rhs.buffer[i];
            i = i + 1;
        }
        Vector { buffer }
    }

    /// Subtracts a scalar from every component.
    pub fn sub_scalar(&self, rhs: T) -> (r: Self)
        requires
            forall|i: int| 0 <= i < M as int ==> (#[trigger] self@[i]).sub_req(rhs),
        ensures
            r@.len() == M,
            T::obeys_sub_spec() ==> forall|i: int|
                0 <= i < M as int ==> r@[i] == (#[trigger] self@[i]).sub_spec(rhs),
    {
        let mut buffer: [T; M] = [T::default();M];
        let mut i: usize = 0;
        while i < M
            invariant
                0 <= i <= M,
                buffer@.len() == M,
                forall|j: int| i <= j < M as int ==> (#[trigger] self@[j]).sub_req(rhs),
                T::obeys_sub_spec() ==> forall|j: int|
                    0 <= j < i ==> buffer@[j] == (#[trigger] self@[j]).sub_spec(rhs),
            decreases M - i,
        {
            proof {
                assert((self@[i as int]).sub_req(rhs));
            }
            buffer[i] = self.buffer[i] - rhs;
            i = i + 1;
        }
        Vector { buffer }
    }

    /// Componentwise difference in place.
    pub fn sub_vec_inplace(&mut self, rhs: &Self)
        requires
            forall|i: int| 0 <= i < M as int ==> (#[trigger] old(self)@[i]).sub_req(rhs@[i]),
        ensures
            final(self)@.len() == M,
            T::obeys_sub_spec() ==> forall|i: int|
                0 <= i < M as int ==> final(self)@[i] == (#[trigger] old(self)@[i]).sub_spec(
                    rhs@[i],
                ),
    {
        let mut i: usize = 0;
        while i < M
            invariant
                0 <= i <= M,
                self@.len() == M,
                forall|j: int| i <= j < M as int ==> self@[j] == old(self)@[j],
                forall|j: int| i <= j < M as int ==> (#[trigger] old(self)@[j]).sub_req(rhs@[j]),
                T::obeys_sub_spec() ==> forall|j: int|
                    0 <= j < i ==> self@[j] == (#[trigger] old(self)@[j]).sub_spec(rhs@[j]),
            decreases M - i,
        {
            self.buffer[i] = self.buffer[i] - rhs.buffer[i];
            i = i + 1;
        }
    }

    /// Subtracts a scalar from every component in place.
    pub fn sub_scalar_inplace(&mut self, rhs: T)
        requires
            forall|i: int| 0 <= i < M as int ==> (#[trigger] old(self)@[i]).sub_req(rhs),
        ensures
            final(self)@.len() == M,
            T::obeys_sub_spec() ==> forall|i: int|
                0 <= i < M as int ==> final(self)@[i] == (#[trigger] old(self)@[i]).sub_spec(rhs),
    {
        let mut i: usize = 0;
        while i < M
            invariant
                0 <= i <= M,
                self@.len() == M,
                forall|j: int| i <= j < M as int ==> self@[j] == old(self)@[j],
                forall|j: int| i <= j < M as int ==> (#[trigger] old(self)@[j]).sub_req(rhs),
                T::obeys_sub_spec() ==> forall|j: int|
                    0 <= j < i ==> self@[j] == (#[trigger] old(self)@[j]).sub_spec(rhs),
            decreases M - i,
        {
            self.buffer[i] = self.buffer[i] - rhs;
            i = i + 1;
        }
    }
}

impl<const M: usize, T: core::ops::Mul<Output = T> + Default + Copy> Vector<M, T> {
    /// Scales every component.
    pub fn mul_scalar(&self, rhs: T) -> (r: Self)
        requires
            forall|i: int| 0 <= i < M as int ==> (#[trigger] self@[i]).mul_req(rhs),
        ensures
            r@.len() == M,
            T::obeys_mul_spec() ==> forall|i: int|
                0 <= i < M as int ==> r@[i] == (#[trigger] self@[i]).mul_spec(rhs),
    {
        let mut buffer: [T; M] = [T::default();M];
        let mut i: usize = 0;
        while i < M
            invariant
                0 <= i <= M,
                buffer@.len() == M,
                forall|j: int| i <= j < M as int ==> (#[trigger] self@[j]).mul_req(rhs),
                T::obeys_mul_spec() ==> forall|j: int|
                    0 <= j < i ==> buffer@[j] == (#[trigger] self@[j]).mul_spec(rhs),
            decreases M - i,
        {
            proof {
                assert((self@[i as int]).mul_req(rhs));
            }
            buffer[i] = self.buffer[i] * rhs;
            i = i + 1;
        }
        Vector { buffer }
    }

    /// Scales every component in place.
    pub fn mul_scalar_inplace(&mut self, rhs: T)
        requires
            forall|i: int| 0 <= i < M as int ==> (#[trigger] old(self)@[i]).mul_req(rhs),
        ensures
            final(self)@.len() == M,
            T::obeys_mul_spec() ==> forall|i: int|
                0 <= i < M as int ==> final(self)@[i] == (#[trigger] old(self)@[i]).mul_spec(rhs),
    {
        let mut i: usize = 0;
        while i < M
            invariant
                0 <= i <= M,
                self@.len() == M,
                forall|j: int| i <= j < M as int ==> self@[j] == old(self)@[j],
                forall|j: int| i <= j < M as int ==> (#[trigger] old(self)@[j]).mul_req(rhs),
                T::obeys_mul_spec() ==> forall|j: int|
                    0 <= j < i ==> self@[j] == (#[trigger] old(self)@[j]).mul_spec(rhs),
            decreases M - i,
        {
            self.buffer[i] = self.buffer[i] * rhs;
            i = i + 1;
        }
    }
}

impl<const M: usize, T: core::ops::Div<Output = T> + Default + Copy> Vector<M, T> {
    /// Divides every component by a scalar.
    pub fn div_scalar(&self, rhs: T) -> (r: Self)
        requires
            forall|i: int| 0 <= i < M as int ==> (#[trigger] self@[i]).div_req(rhs),
        ensures
            r@.len() == M,
            T::obeys_div_spec() ==> forall|i: int|
                0 <= i < M as int ==> r@[i] == (#[trigger] self@[i]).div_spec(rhs),
    {
        let mut buffer: [T; M] = [T::default();M];
        let mut i: usize = 0;
        while i < M
            invariant
                0 <= i <= M,
                buffer@.len() == M,
                forall|j: int| i <= j < M as int ==> (#[trigger] self@[j]).div_req(rhs),
                T::obeys_div_spec() ==> forall|j: int|
                    0 <= j < i ==> buffer@[j] == (#[trigger] self@[j]).div_spec(rhs),
            decreases M - i,
        {
            proof {
                assert((self@[i as int]).div_req(rhs));
            }
            buffer[i] = self.buffer[i] / rhs;
            i = i + 1;
        }
        Vector { buffer }
    }

    /// Divides every component by a scalar in place.
    pub fn div_scalar_inplace(&mut self, rhs: T)
        requires
            forall|i: int| 0 <= i < M as int ==> (#[trigger] old(self)@[i]).div_req(rhs),
        ensures
            final(self)@.len() == M,
            T::obeys_div_spec() ==> forall|i: int|
                0 <= i < M as int ==> final(self)@[i] == (#[trigger] old(self)@[i]).div_spec(rhs),
    {
        let mut i: usize = 0;
        while i < M
            invariant
                0 <= i <= M,
                self@.len() == M,
                forall|j: int| i <= j < M as int ==> self@[j] == old(self)@[j],
                forall|j: int| i <= j < M as int ==> (#[trigger] old(self)@[j]).div_req(rhs),
                T::obeys_div_spec() ==> forall|j: int|
                    0 <= j < i ==> self@[j] == (#[trigger] old(self)@[j]).div_spec(rhs),
            decreases M - i,
        {
            self.buffer[i] = self.buffer[i] / rhs;
            i = i + 1;
        }
    }
}

/// The running value of a dot product over the first `n` components, starting
/// from `init` (the component type's default): each step adds one product of
/// corresponding components.
pub open spec fn dot_partial<
    T: core::ops::Add<Output = T> + core::ops::Mul<Output = T>,
>(a: Seq<T>, b: Seq<T>, init: T, n: int) -> T
    decreases n,
{
    if n <= 0 {
        init
    } else {
        dot_partial(a, b, init, n - 1).add_spec(a[n - 1].mul_spec(b[n - 1]))
    }
}

/// Every addition and multiplication along the dot product's fold is within
/// the operators' preconditions (no overflow, for the machine integers).
pub open spec fn dot_req<T: core::ops::Add<Output = T> + core::ops::Mul<Output = T>>(
    a: Seq<T>,
    b: Seq<T>,
    init: T,
    n: int,
) -> bool
    decreases n,
{
    if n <= 0 {
        true
    } else {
        &&& dot_req(a, b, init, n - 1)
        &&& a[n - 1].mul_req(b[n - 1])
        &&& dot_partial(a, b, init, n - 1).add_req(a[n - 1].mul_spec(b[n - 1]))
    }
}

proof fn lemma_dot_req_prefix<T: core::ops::Add<Output = T> + core::ops::Mul<Output = T>>(
    a: Seq<T>,
    b: Seq<T>,
    init: T,
    n: int,
    k: int,
)
    requires
        dot_req(a, b, init, n),
        0 <= k <= n,
    ensures
        dot_req(a, b, init, k),
    decreases n,
{
    if k < n {
        lemma_dot_req_prefix(a, b, init, n - 1, k);
    }
}

impl<
    const M: usize,
    T: core::ops::Add<Output = T> + core::ops::Mul<Output = T> + Default + Copy,
> Vector<M, T> {
    /// The dot product: the sum of the componentwise products, folded from
    /// the component type's default value.
    pub fn dot(&self, rhs: &Self) -> (r: T)
        requires
            T::obeys_add_spec(),
            T::obeys_mul_spec(),
            forall|init: T|
                T::default.ensures((), init) ==> dot_req(self@, rhs@, init, M as int),
        ensures
            exists|init: T|
                #[trigger] T::default.ensures((), init) && r == dot_partial(
                    self@,
                    rhs@,
                    init,
                    M as int,
                ),
    {
        let sum = T::default();
        let ghost init = sum;
        let mut sum = sum;
        let mut i: usize = 0;
        while i < M
            invariant
                0 <= i <= M,
                T::obeys_add_spec(),
                T::obeys_mul_spec(),
                T::default.ensures((), init),
                dot_req(self@, rhs@, init, M as int),
                sum == dot_partial(self@, rhs@, init, i as int),
            decreases M - i,
        {
            proof {
                lemma_dot_req_prefix(self@, rhs@, init, M as int, i + 1);
            }
            sum = sum + (self.buffer[i] * rhs.buffer[i]);
            i = i + 1;
        }
        sum
    }
}

impl<T> Vector<2, T> {
    pub fn new_2d(x: T, y: T) -> (r: Self)
        ensures
            r@ =~= seq![x, y],
    {
        Vector { buffer: [x, y] }
    }

    pub fn x(&self) -> (r: &T)
        ensures
            *r == self@[0],
    {
        array_index_get(&self.buffer, 0)
    }

    pub fn y(&self) -> (r: &T)
        ensures
            *r == self@[1],
    {
        array_index_get(&self.buffer, 1)
    }

    pub fn set_x(&mut self, x: T)
        ensures
            final(self)@ == old(self)@.update(0, x),
    {
        self.buffer[0] = x;
    }

    pub fn set_y(&mut self, y: T)
        ensures
            final(self)@ == old(self)@.update(1, y),
    {
        self.buffer[1] = y;
    }
}

impl<T> Vector<3, T> {
    pub fn new_3d(x: T, y: T, z: T) -> (r: Self)
        ensures
            r@ =~= seq![x, y, z],
    {
        Vector { buffer: [x, y, z] }
    }

    /// A three-component color.
    pub fn new_rgb(r: T, g: T, b: T) -> (v: Self)
        ensures
            v@ =~= seq![r, g, b],
    {
        Vector { buffer: [r, g, b] }
    }

    pub fn x(&self) -> (r: &T)
        ensures
            *r == self@[0],
    {
        array_index_get(&self.buffer, 0)
    }

    pub fn y(&self) -> (r: &T)
        ensures
            *r == self@[1],
    {
        array_index_get(&self.buffer, 1)
    }

    pub fn z(&self) -> (r: &T)
        ensures
            *r == self@[2],
    {
        array_index_get(&self.buffer, 2)
    }

    pub fn set_x(&mut self, x: T)
        ensures
            final(self)@ == old(self)@.update(0, x),
    {
        self.buffer[0] = x;
    }

    pub fn set_y(&mut self, y: T)
        ensures
            final(self)@ == old(self)@.update(1, y),
    {
        self.buffer[1] = y;
    }

    pub fn set_z(&mut self, z: T)
        ensures
            final(self)@ == old(self)@.update(2, z),
    {
        self.buffer[2] = z;
    }

    pub fn r(&self) -> (r: &T)
        ensures
            *r == self@[0],
    {
        array_index_get(&self.buffer, 0)
    }

    pub fn g(&self) -> (r: &T)
        ensures
            *r == self@[1],
    {
        array_index_get(&self.buffer, 1)
    }

    pub fn b(&self) -> (r: &T)
        ensures
            *r == self@[2],
    {
        array_index_get(&self.buffer, 2)
    }

    pub fn set_r(&mut self, r: T)
        ensures
            final(self)@ == old(self)@.update(0, r),
    {
        self.buffer[0] = r;
    }

    pub fn set_g(&mut self, g: T)
        ensures
            final(self)@ == old(self)@.update(1, g),
    {
        self.buffer[1] = g;
    }

    pub fn set_b(&mut self, b: T)
        ensures
            final(self)@ == old(self)@.update(2, b),
    {
        self.buffer[2] = b;
    }
}

impl<T> Vector<4, T> {
    /// A four-component color.
    pub fn new_rgba(r: T, g: T, b: T, a: T) -> (v: Self)
        ensures
            v@ =~= seq![r, g, b, a],
    {
        Vector { buffer: [r, g, b, a] }
    }

    pub fn r(&self) -> (r: &T)
        ensures
            *r == self@[0],
    {
        array_index_get(&self.buffer, 0)
    }

    pub fn g(&self) -> (r: &T)
        ensures
            *r == self@[1],
    {
        array_index_get(&self.buffer, 1)
    }

    pub fn b(&self) -> (r: &T)
        ensures
            *r == self@[2],
    {
        array_index_get(&self.buffer, 2)
    }

    pub fn a(&self) -> (r: &T)
        ensures
            *r == self@[3],
    {
        array_index_get(&self.buffer, 3)
    }

    pub fn set_r(&mut self, r: T)
        ensures
            final(self)@ == old(self)@.update(0, r),
    {
        self.buffer[0] = r;
    }

    pub fn set_g(&mut self, g: T)
        ensures
            final(self)@ == old(self)@.update(1, g),
    {
        self.buffer[1] = g;
    }

    pub fn set_b(&mut self, b: T)
        ensures
            final(self)@ == old(self)@.update(2, b),
    {
        self.buffer[2] = b;
    }

    pub fn set_a(&mut self, a: T)
        ensures
            final(self)@ == old(self)@.update(3, a),
    {
        self.buffer[3] = a;
    }
}

} // verus!

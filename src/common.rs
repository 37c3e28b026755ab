use vstd::prelude::*;

verus! {

/// Whether `v` is a whole multiple of `n`; the only multiple of zero is zero.
pub open spec fn is_multiple_of(v: int, n: int) -> bool {
    if n == 0 {
        v == 0
    } else {
        v % n == 0
    }
}

/// Divisibility does not depend on the sign.
proof fn lemma_multiple_of_negation(v: int, n: int)
    requires
        n > 0,
    ensures
        (v % n == 0) <==> ((-v) % n == 0),
{
    vstd::arithmetic::div_mod::lemma_fundamental_div_mod(v, n);
    vstd::arithmetic::div_mod::lemma_fundamental_div_mod(-v, n);
    if v % n == 0 {
        assert(-v == (-(v / n)) * n) by (nonlinear_arith)
            requires
                v == n * (v / n) + 0,
        ;
        vstd::arithmetic::div_mod::lemma_mod_multiples_basic(-(v / n), n);
    }
    if (-v) % n == 0 {
        assert(v == (-((-v) / n)) * n) by (nonlinear_arith)
            requires
                -v == n * ((-v) / n) + 0,
        ;
        vstd::arithmetic::div_mod::lemma_mod_multiples_basic(-((-v) / n), n);
    }
}

#[derive(Debug, Clone, Copy, PartialEq, Eq, Structural)]
pub enum MultipleOfError {
    NotAMultipleOf { n: u32 },
}

/// An `i32` known to be a multiple of `N`.
#[derive(Debug, Clone, Copy)]
pub struct MultipleOf<const N: u32>(i32);

impl<const N: u32> View for MultipleOf<N> {
    type V = int;

    closed spec fn view(&self) -> int {
        self.0 as int
    }
}

impl<const N: u32> MultipleOf<N> {
    #[verifier::type_invariant]
    closed spec fn wf(self) -> bool {
        is_multiple_of(self.0 as int, N as int)
    }

    /// The number itself.
    pub fn value(&self) -> (r: i32)
        ensures
            r as int == self@,
            is_multiple_of(self@, N as int),
    {
        proof {
            use_type_invariant(self);
        }
        self.0
    }
}

impl<const N: u32> TryFrom<i32> for MultipleOf<N> {
    type Error = MultipleOfError;

    fn try_from(value: i32) -> (r: Result<Self, Self::Error>)
        ensures
            match r {
                Ok(m) => m@ == value as int && is_multiple_of(value as int, N as int),
                Err(e) => e == (MultipleOfError::NotAMultipleOf { n: N }) && !is_multiple_of(
                    value as int,
                    N as int,
                ),
            },
    {
        let magnitude: u64 = if value < 0 {
            (0i64 - value as i64) as u64
        } else {
            value as u64
        };
        let multiple = if N == 0 {
            value == 0
        } else {
            magnitude % (N as u64) == 0
        };
        proof {
            if N > 0 {
                lemma_multiple_of_negation(value as int, N as int);
            }
        }
        if multiple {
            Ok(MultipleOf(value))
        } else {
            Err(MultipleOfError::NotAMultipleOf { n: N })
        }
    }
}

impl<const N: u32> vstd::std_specs::convert::TryFromSpecImpl<i32> for MultipleOf<N> {
    open spec fn obeys_try_from_spec() -> bool {
        true
    }

    closed spec fn try_from_spec(v: i32) -> Result<Self, MultipleOfError> {
        if is_multiple_of(v as int, N as int) {
            Ok(MultipleOf(v))
        } else {
            Err(MultipleOfError::NotAMultipleOf { n: N })
        }
    }
}

} // verus!

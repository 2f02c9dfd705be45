//! A container paired with a staged transform, committed all-or-none.
use vstd::prelude::*;

use core::marker::PhantomData;

use crate::access::Take;
use crate::access::TakeOwned;
use crate::apply::Apply;
use crate::chain::Chain;
use crate::token::ConsumedToken;
use crate::token::Token;

verus! {

/// The outcome of committing one prepared unit: either the transform's output
/// with the spent capability, or the error with the still-unconsumed one.
pub type AllOrNone<O, E, T> = Result<(O, ConsumedToken<T>), (E, Token<T>)>;

/// Some duplicate of `before`, fed to the transform, yields `Ok((out, after))`.
///
/// This is what a successful commit establishes about the guarded value
/// `before` it started from: `out` is the reported output and `after` the
/// value the guarded slot was durably replaced with. The duplicate is related
/// to `before` by [`cloned`], since the transform runs on a scratch copy.
pub open spec fn commit_ok<T: Clone, F: Fn(T) -> Result<(O, T), E>, O, E>(
    before: T,
    f: F,
    out: O,
    after: T,
) -> bool {
    exists|x: T| cloned::<T>(before, x) && #[trigger] call_ensures(f, (x,), Ok::<(O, T), E>((out, after)))
}

/// Some duplicate of `before`, fed to the transform, yields `Err(e)`.
///
/// This is what a failed commit establishes: the transform rejected a scratch
/// copy of the guarded value with `e`, and the slot was left untouched.
pub open spec fn commit_err<T: Clone, F: Fn(T) -> Result<(O, T), E>, O, E>(
    before: T,
    f: F,
    e: E,
) -> bool {
    exists|x: T| cloned::<T>(before, x) && #[trigger] call_ensures(f, (x,), Err::<(O, T), E>(e))
}

/// Holds a single staged modification of a guarded value.
///
/// The container `C` owns the value; the transform `F` is stored at
/// construction and runs only inside the commit operation, on a scratch
/// copy.
/// Only when the transform succeeds is the container's original replaced by
/// the modified copy.
pub struct Prepared<C, T, F, O, E> {
    inner: C,
    f: F,
    _t: PhantomData<T>,
    _out: PhantomData<O>,
    _err: PhantomData<E>,
}

impl<C, T, F, O, E> Prepared<C, T, F, O, E> {
    /// The container this unit owns.
    pub closed spec fn container(&self) -> C {
        self.inner
    }

    /// The staged transform.
    pub closed spec fn func(&self) -> F {
        self.f
    }

    /// Stages `f` against the value guarded by `outer`. `f` is stored, not
    /// run.
    pub fn new(outer: C, f: F) -> (r: Self)
        ensures
            r.container() == outer,
            r.func() == f,
    {
        Prepared { inner: outer, f, _t: PhantomData, _out: PhantomData, _err: PhantomData }
    }

    /// Composes this staged unit with another one, so that both behave as a
    /// single transaction: the second unit's transform runs only after this
    /// one has committed.
    pub fn chain<A2>(self, a2: A2) -> (c: Chain<Self, A2>)
        ensures
            c.first == self,
            c.second == a2,
    {
        Chain::new(self, a2)
    }

}

/// A prepared unit exposes borrowed read/write access to its staged
/// transform, the component it guards besides the container.
impl<C, T, F, O, E> Take<F> for Prepared<C, T, F, O, E> {
    open spec fn current(&self) -> F {
        self.func()
    }

    fn take_ref(&self) -> (r: &F) {
        &self.f
    }

    fn put(&mut self, v: F) {
        self.f = v;
    }
}

impl<C: Take<T>, T, F, O, E> Prepared<C, T, F, O, E> {
    /// The guarded value as currently held by the container.
    pub open spec fn staged(&self) -> T {
        self.container().current()
    }
}

impl<C: Take<T>, T: Clone, F: Fn(T) -> Result<(O, T), E>, O, E> Prepared<C, T, F, O, E> {
    /// Snapshots the guarded value into a scratch copy, leaving the
    /// container's original untouched.
    pub fn get_next(&self) -> (r: T)
        ensures
            cloned::<T>(self.staged(), r),
    {
        let next: &T = self.inner.take_ref();
        next.clone()
    }

    /// Runs the transform on the scratch copy: `Err(e)` with no durable
    /// effect on failure, or the output together with the mutated copy on
    /// success.
    pub fn modify_next(next: T, f: &F) -> (r: Result<(O, T), E>)
        requires
            call_requires(*f, (next,)),
        ensures
            call_ensures(*f, (next,), r),
    {
        f(next)
    }

    /// Overwrites the container's guarded slot with the mutated copy. This is
    /// the single point at which a staged mutation becomes durable; it is
    /// only ever reached after the transform succeeded.
    pub fn replace(&mut self, next: T)
        ensures
            final(self).staged() == next,
            final(self).func() == old(self).func(),
    {
        self.inner.put(next);
    }
}

impl<C: TakeOwned<T>, T, F, O, E> Prepared<C, T, F, O, E> {
    /// Destructively extracts the capability for the guarded value,
    /// consuming the unit. After this, no further transaction can run
    /// through this unit.
    pub fn take_owned(self) -> (t: Token<T>)
        ensures
            t@ == self.staged(),
    {
        self.inner.take_owned()
    }

    /// Abandons the staged modification without ever invoking the transform:
    /// no precondition on the transform is asked, and the returned capability
    /// carries the guarded value exactly as it was staged.
    pub fn cancel(self) -> (t: Token<T>)
        ensures
            t@ == self.staged(),
    {
        self.inner.take_owned()
    }

    /// Abandons the staged modification; identical to [`Self::cancel`].
    pub fn unchecked_cancel(self) -> (t: Token<T>)
        ensures
            t@ == self.staged(),
    {
        self.cancel()
    }
}

impl<C: TakeOwned<T>, T: Clone, F: Fn(T) -> Result<(O, T), E>, O, E> Prepared<C, T, F, O, E> {
    /// The commit obligation holds whenever duplicating the staged value is
    /// exact and the transform accepts the staged value itself.
    pub proof fn lemma_pre_from_exact_dup(self)
        requires
            forall|x: T| #[trigger] cloned::<T>(self.staged(), x) ==> x == self.staged(),
            call_requires(self.func(), (self.staged(),)),
        ensures
            self.pre(),
    {
        assert forall|x: T| #[trigger] cloned::<T>(self.staged(), x) implies call_requires(
            self.func(),
            (x,),
        ) by {
            assert(x == self.staged());
        }
    }

    /// The commit algorithm: snapshot the guarded value, run the transform on
    /// the snapshot, and only on success overwrite the guarded slot before
    /// extracting the capability. Consumes the unit, so it runs at most once.
    ///
    /// On success the output and the spent capability come from one run of
    /// the transform on a duplicate of the staged value; on failure the
    /// returned capability carries the staged value untouched, alongside an
    /// error the transform produced on such a duplicate.
    pub fn apply(self) -> (r: AllOrNone<O, E, T>)
        requires
            self.pre(),
        ensures
            match r {
                Ok(out) => commit_ok::<T, F, O, E>(self.staged(), self.func(), out.0, out.1@),
                Err(fail) => {
                    &&& fail.1@ == self.staged()
                    &&& commit_err::<T, F, O, E>(self.staged(), self.func(), fail.0)
                },
            },
    {
        let mut unit = self;
        let next = unit.get_next();
        let res = Self::modify_next(next, unit.take_ref());
        match res {
            Err(e) => {
                let t = unit.take_owned();
                Err((e, t))
            },
            Ok((o, next)) => {
                unit.replace(next);
                let t = unit.take_owned();
                Ok((o, t.consume()))
            },
        }
    }
}

impl<C: TakeOwned<T>, T: Clone, F: Fn(T) -> Result<(O, T), E>, O, E> Apply for Prepared<
    C,
    T,
    F,
    O,
    E,
> {
    type Output = (O, ConsumedToken<T>);

    type Failure = (E, Token<T>);

    /// The transform must accept every possible scratch copy of the guarded
    /// value.
    open spec fn pre(&self) -> bool {
        forall|x: T| #[trigger] cloned::<T>(self.staged(), x) ==> call_requires(self.func(), (x,))
    }

    /// A committed unit reports an output the transform produced on a copy of
    /// the staged value, and the spent capability carries the value the slot
    /// was durably replaced with.
    open spec fn post_ok(&self, out: Self::Output) -> bool {
        commit_ok::<T, F, O, E>(self.staged(), self.func(), out.0, out.1@)
    }

    /// A failed unit reports an error the transform produced on a copy of the
    /// staged value, and the returned capability carries the guarded value
    /// untouched.
    open spec fn post_err(&self, fail: Self::Failure) -> bool {
        &&& fail.1@ == self.staged()
        &&& commit_err::<T, F, O, E>(self.staged(), self.func(), fail.0)
    }

    fn apply(self) -> (r: Result<Self::Output, Self::Failure>) {
        self.apply()
    }
}

/// Law: committing is faithful on success. For a prepared unit whose guarded
/// value duplicates exactly and whose transform, on that value, can only
/// succeed with output `out0` and mutated value `after0`, every outcome the
/// commit contract admits is `Ok`: its output is exactly `out0` and the spent
/// capability carries exactly `after0`, the value the guarded slot was
/// durably replaced with.
pub proof fn lemma_apply_success<C: TakeOwned<T>, T: Clone, F: Fn(T) -> Result<(O, T), E>, O, E>(
    p: Prepared<C, T, F, O, E>,
    r: AllOrNone<O, E, T>,
    out0: O,
    after0: T,
)
    requires
        forall|x: T| #[trigger] cloned::<T>(p.staged(), x) ==> x == p.staged(),
        forall|res: Result<(O, T), E>| #[trigger]
            call_ensures(p.func(), (p.staged(),), res) ==> res == Ok::<(O, T), E>((out0, after0)),
        match r {
            Ok(out) => commit_ok::<T, F, O, E>(p.staged(), p.func(), out.0, out.1@),
            Err(fail) => {
                &&& fail.1@ == p.staged()
                &&& commit_err::<T, F, O, E>(p.staged(), p.func(), fail.0)
            },
        },
    ensures
        r matches Ok(out) && out.0 == out0 && out.1@ == after0,
{
    match r {
        Ok(out) => {
            let x = choose|x: T|
                cloned::<T>(p.staged(), x) && #[trigger] call_ensures(
                    p.func(),
                    (x,),
                    Ok::<(O, T), E>((out.0, out.1@)),
                );
            assert(x == p.staged());
        },
        Err(fail) => {
            let x = choose|x: T|
                cloned::<T>(p.staged(), x) && #[trigger] call_ensures(
                    p.func(),
                    (x,),
                    Err::<(O, T), E>(fail.0),
                );
            assert(x == p.staged());
        },
    }
}

/// Law: committing is atomic on failure. For a prepared unit whose guarded
/// value duplicates exactly and whose transform, on that value, can only
/// fail with `e0`, every outcome the commit contract admits is `Err`: the
/// reported error is exactly `e0` and the returned capability carries the
/// guarded value exactly as it was before the call.
pub proof fn lemma_apply_failure<C: TakeOwned<T>, T: Clone, F: Fn(T) -> Result<(O, T), E>, O, E>(
    p: Prepared<C, T, F, O, E>,
    r: AllOrNone<O, E, T>,
    e0: E,
)
    requires
        forall|x: T| #[trigger] cloned::<T>(p.staged(), x) ==> x == p.staged(),
        forall|res: Result<(O, T), E>| #[trigger]
            call_ensures(p.func(), (p.staged(),), res) ==> res == Err::<(O, T), E>(e0),
        match r {
            Ok(out) => commit_ok::<T, F, O, E>(p.staged(), p.func(), out.0, out.1@),
            Err(fail) => {
                &&& fail.1@ == p.staged()
                &&& commit_err::<T, F, O, E>(p.staged(), p.func(), fail.0)
            },
        },
    ensures
        r matches Err(fail) && fail.0 == e0 && fail.1@ == p.staged(),
{
    match r {
        Ok(out) => {
            let x = choose|x: T|
                cloned::<T>(p.staged(), x) && #[trigger] call_ensures(
                    p.func(),
                    (x,),
                    Ok::<(O, T), E>((out.0, out.1@)),
                );
            assert(x == p.staged());
        },
        Err(fail) => {
            let x = choose|x: T|
                cloned::<T>(p.staged(), x) && #[trigger] call_ensures(
                    p.func(),
                    (x,),
                    Err::<(O, T), E>(fail.0),
                );
            assert(x == p.staged());
        },
    }
}

} // verus!

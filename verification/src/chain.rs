//! Composition of two staged units into a single transaction.
use vstd::prelude::*;

use crate::access::TakeOwned;
use crate::apply::Apply;
use crate::prepared::Prepared;
use crate::prepared::commit_err;
use crate::prepared::commit_ok;
use crate::token::ConsumedToken;
use crate::token::Token;

verus! {

/// Why a chained commit failed, and what the caller gets back.
///
/// Committing a chain does not roll back: once the first unit's replacement
/// has executed, that mutation is durable regardless of the second unit's
/// outcome, so the two variants hand back exactly what each stage left
/// behind.
pub enum ChainFailure<AF, AO, B, BF> {
    /// The first unit failed. Carries the first unit's failure evidence and
    /// the second unit whole and untouched: its transform was never invoked,
    /// and it remains independently usable by the caller.
    First(AF, B),
    /// The first unit committed, then the second failed. Carries the first
    /// unit's (durable) success output and the second unit's failure
    /// evidence.
    Second(AO, BF),
}

/// An ordered pair of staged units committed as one transaction: the second
/// unit's transform never runs unless the first unit has committed, and the
/// chain succeeds only if both do.
pub struct Chain<A, B> {
    /// The unit committed first.
    pub first: A,
    /// The unit committed second, only after `first` succeeded.
    pub second: B,
}

impl<A, B> Chain<A, B> {
    /// Composes `first` and `second`, in that order.
    pub fn new(first: A, second: B) -> (c: Self)
        ensures
            c.first == first,
            c.second == second,
    {
        Chain { first, second }
    }
}

impl<A: Apply, B: Apply> Apply for Chain<A, B> {
    type Output = (A::Output, B::Output);

    type Failure = ChainFailure<A::Failure, A::Output, B, B::Failure>;

    /// Both units must be committable.
    open spec fn pre(&self) -> bool {
        self.first.pre() && self.second.pre()
    }

    /// A committed chain committed both units and returns their composed
    /// outputs.
    open spec fn post_ok(&self, out: Self::Output) -> bool {
        self.first.post_ok(out.0) && self.second.post_ok(out.1)
    }

    /// A failed chain either failed on the first unit — then the second comes
    /// back exactly as it went in, its transform never invoked — or committed
    /// the first and failed on the second.
    open spec fn post_err(&self, fail: Self::Failure) -> bool {
        match fail {
            ChainFailure::First(fa, b) => self.first.post_err(fa) && b == self.second,
            ChainFailure::Second(oa, fb) => self.first.post_ok(oa) && self.second.post_err(fb),
        }
    }

    fn apply(self) -> (r: Result<Self::Output, Self::Failure>) {
        let Chain { first, second } = self;
        match first.apply() {
            Err(fa) => Err(ChainFailure::First(fa, second)),
            Ok(oa) => match second.apply() {
                Err(fb) => Err(ChainFailure::Second(oa, fb)),
                Ok(ob) => Ok((oa, ob)),
            },
        }
    }
}

/// A chain is committable as soon as both of its units are.
pub proof fn lemma_chain_pre<A: Apply, B: Apply>(ch: Chain<A, B>)
    requires
        ch.first.pre(),
        ch.second.pre(),
    ensures
        ch.pre(),
{
}

impl<
    CA: TakeOwned<TA>,
    TA: Clone,
    FA: Fn(TA) -> Result<(OA, TA), EA>,
    OA,
    EA,
    CB: TakeOwned<TB>,
    TB: Clone,
    FB: Fn(TB) -> Result<(OB, TB), EB>,
    OB,
    EB,
> Chain<Prepared<CA, TA, FA, OA, EA>, Prepared<CB, TB, FB, OB, EB>> {
    /// Commits the pair as one transaction: the first unit, then — only if
    /// the first committed — the second. Consumes the chain, so it runs at
    /// most once.
    ///
    /// On overall success both containers were committed and both outputs are
    /// returned. If the first unit fails, the second comes back exactly as it
    /// went in, its transform never invoked. If the second fails after the
    /// first committed, the first unit's mutation stays durable: there is no
    /// rollback.
    pub fn apply(self) -> (r: Result<
        ((OA, ConsumedToken<TA>), (OB, ConsumedToken<TB>)),
        ChainFailure<
            (EA, Token<TA>),
            (OA, ConsumedToken<TA>),
            Prepared<CB, TB, FB, OB, EB>,
            (EB, Token<TB>),
        >,
    >)
        requires
            self.first.pre(),
            self.second.pre(),
        ensures
            match r {
                Ok(out) => {
                    &&& commit_ok::<TA, FA, OA, EA>(
                        self.first.staged(),
                        self.first.func(),
                        out.0.0,
                        out.0.1@,
                    )
                    &&& commit_ok::<TB, FB, OB, EB>(
                        self.second.staged(),
                        self.second.func(),
                        out.1.0,
                        out.1.1@,
                    )
                },
                Err(fail) => match fail {
                    ChainFailure::First(fa, b) => {
                        &&& fa.1@ == self.first.staged()
                        &&& commit_err::<TA, FA, OA, EA>(
                            self.first.staged(),
                            self.first.func(),
                            fa.0,
                        )
                        &&& b == self.second
                    },
                    ChainFailure::Second(oa, fb) => {
                        &&& commit_ok::<TA, FA, OA, EA>(
                            self.first.staged(),
                            self.first.func(),
                            oa.0,
                            oa.1@,
                        )
                        &&& fb.1@ == self.second.staged()
                        &&& commit_err::<TB, FB, OB, EB>(
                            self.second.staged(),
                            self.second.func(),
                            fb.0,
                        )
                    },
                },
            },
    {
        proof {
            lemma_chain_pre(self);
        }
        Apply::apply(self)
    }
}

/// Law: a chain whose two transforms, on their staged values, can only
/// succeed — the first with `(outa0, aftera0)`, the second with
/// `(outb0, afterb0)` — commits both containers and returns the composed
/// outputs: every outcome the chained commit contract admits is `Ok`,
/// its outputs are exactly `outa0` and `outb0`, and the two spent
/// capabilities carry exactly `aftera0` and `afterb0`. Stated for units
/// whose guarded values duplicate exactly.
pub proof fn lemma_chain_success<
    CA: TakeOwned<TA>,
    TA: Clone,
    FA: Fn(TA) -> Result<(OA, TA), EA>,
    OA,
    EA,
    CB: TakeOwned<TB>,
    TB: Clone,
    FB: Fn(TB) -> Result<(OB, TB), EB>,
    OB,
    EB,
>(
    ch: Chain<Prepared<CA, TA, FA, OA, EA>, Prepared<CB, TB, FB, OB, EB>>,
    r: Result<
        ((OA, ConsumedToken<TA>), (OB, ConsumedToken<TB>)),
        ChainFailure<
            (EA, Token<TA>),
            (OA, ConsumedToken<TA>),
            Prepared<CB, TB, FB, OB, EB>,
            (EB, Token<TB>),
        >,
    >,
    outa0: OA,
    aftera0: TA,
    outb0: OB,
    afterb0: TB,
)
    requires
        forall|x: TA| #[trigger] cloned::<TA>(ch.first.staged(), x) ==> x == ch.first.staged(),
        forall|res: Result<(OA, TA), EA>| #[trigger]
            call_ensures(ch.first.func(), (ch.first.staged(),), res) ==> res == Ok::<
                (OA, TA),
                EA,
            >((outa0, aftera0)),
        forall|x: TB| #[trigger] cloned::<TB>(ch.second.staged(), x) ==> x == ch.second.staged(),
        forall|res: Result<(OB, TB), EB>| #[trigger]
            call_ensures(ch.second.func(), (ch.second.staged(),), res) ==> res == Ok::<
                (OB, TB),
                EB,
            >((outb0, afterb0)),
        match r {
            Ok(out) => {
                &&& commit_ok::<TA, FA, OA, EA>(
                    ch.first.staged(),
                    ch.first.func(),
                    out.0.0,
                    out.0.1@,
                )
                &&& commit_ok::<TB, FB, OB, EB>(
                    ch.second.staged(),
                    ch.second.func(),
                    out.1.0,
                    out.1.1@,
                )
            },
            Err(fail) => match fail {
                ChainFailure::First(fa, b) => {
                    &&& fa.1@ == ch.first.staged()
                    &&& commit_err::<TA, FA, OA, EA>(ch.first.staged(), ch.first.func(), fa.0)
                    &&& b == ch.second
                },
                ChainFailure::Second(oa, fb) => {
                    &&& commit_ok::<TA, FA, OA, EA>(
                        ch.first.staged(),
                        ch.first.func(),
                        oa.0,
                        oa.1@,
                    )
                    &&& fb.1@ == ch.second.staged()
                    &&& commit_err::<TB, FB, OB, EB>(ch.second.staged(), ch.second.func(), fb.0)
                },
            },
        },
    ensures
        r matches Ok(out) && out.0.0 == outa0 && out.0.1@ == aftera0 && out.1.0 == outb0
            && out.1.1@ == afterb0,
{
    match r {
        Ok(out) => {
            let xa = choose|x: TA|
                cloned::<TA>(ch.first.staged(), x) && #[trigger] call_ensures(
                    ch.first.func(),
                    (x,),
                    Ok::<(OA, TA), EA>((out.0.0, out.0.1@)),
                );
            assert(xa == ch.first.staged());
            let xb = choose|x: TB|
                cloned::<TB>(ch.second.staged(), x) && #[trigger] call_ensures(
                    ch.second.func(),
                    (x,),
                    Ok::<(OB, TB), EB>((out.1.0, out.1.1@)),
                );
            assert(xb == ch.second.staged());
        },
        Err(fail) => match fail {
            ChainFailure::First(fa, _b) => {
                let xa = choose|x: TA|
                    cloned::<TA>(ch.first.staged(), x) && #[trigger] call_ensures(
                        ch.first.func(),
                        (x,),
                        Err::<(OA, TA), EA>(fa.0),
                    );
                assert(xa == ch.first.staged());
            },
            ChainFailure::Second(_oa, fb) => {
                let xb = choose|x: TB|
                    cloned::<TB>(ch.second.staged(), x) && #[trigger] call_ensures(
                        ch.second.func(),
                        (x,),
                        Err::<(OB, TB), EB>(fb.0),
                    );
                assert(xb == ch.second.staged());
            },
        },
    }
}

/// Law: a chain whose first transform, on its staged value, can only fail
/// with `ea0` fails as a whole without ever invoking the second unit's
/// transform: every outcome the chained commit contract admits reports the
/// first unit's failure, hands back the first unit's capability with its
/// guarded value untouched, and returns the second unit exactly as it went
/// in. Nothing is assumed about the second unit's transform. Stated for a
/// first unit whose guarded value duplicates exactly.
pub proof fn lemma_chain_first_failure<
    CA: TakeOwned<TA>,
    TA: Clone,
    FA: Fn(TA) -> Result<(OA, TA), EA>,
    OA,
    EA,
    CB: TakeOwned<TB>,
    TB: Clone,
    FB: Fn(TB) -> Result<(OB, TB), EB>,
    OB,
    EB,
>(
    ch: Chain<Prepared<CA, TA, FA, OA, EA>, Prepared<CB, TB, FB, OB, EB>>,
    r: Result<
        ((OA, ConsumedToken<TA>), (OB, ConsumedToken<TB>)),
        ChainFailure<
            (EA, Token<TA>),
            (OA, ConsumedToken<TA>),
            Prepared<CB, TB, FB, OB, EB>,
            (EB, Token<TB>),
        >,
    >,
    ea0: EA,
    beforea0: TA,
    second0: Prepared<CB, TB, FB, OB, EB>,
)
    requires
        ch.first.staged() == beforea0,
        ch.second == second0,
        forall|x: TA| #[trigger] cloned::<TA>(ch.first.staged(), x) ==> x == ch.first.staged(),
        forall|res: Result<(OA, TA), EA>| #[trigger]
            call_ensures(ch.first.func(), (ch.first.staged(),), res) ==> res == Err::<
                (OA, TA),
                EA,
            >(ea0),
        match r {
            Ok(out) => {
                &&& commit_ok::<TA, FA, OA, EA>(
                    ch.first.staged(),
                    ch.first.func(),
                    out.0.0,
                    out.0.1@,
                )
                &&& commit_ok::<TB, FB, OB, EB>(
                    ch.second.staged(),
                    ch.second.func(),
                    out.1.0,
                    out.1.1@,
                )
            },
            Err(fail) => match fail {
                ChainFailure::First(fa, b) => {
                    &&& fa.1@ == ch.first.staged()
                    &&& commit_err::<TA, FA, OA, EA>(ch.first.staged(), ch.first.func(), fa.0)
                    &&& b == ch.second
                },
                ChainFailure::Second(oa, fb) => {
                    &&& commit_ok::<TA, FA, OA, EA>(
                        ch.first.staged(),
                        ch.first.func(),
                        oa.0,
                        oa.1@,
                    )
                    &&& fb.1@ == ch.second.staged()
                    &&& commit_err::<TB, FB, OB, EB>(ch.second.staged(), ch.second.func(), fb.0)
                },
            },
        },
    ensures
        match r {
            Ok(out) => false,
            Err(fail) => match fail {
                ChainFailure::First((ea, ta), b) => {
                    &&& ea == ea0
                    &&& ta@ == beforea0
                    &&& b == second0
                },
                ChainFailure::Second(oa, fb) => false,
            },
        },
{
    match r {
        Ok(out) => {
            let xa = choose|x: TA|
                cloned::<TA>(ch.first.staged(), x) && #[trigger] call_ensures(
                    ch.first.func(),
                    (x,),
                    Ok::<(OA, TA), EA>((out.0.0, out.0.1@)),
                );
            assert(xa == ch.first.staged());
        },
        Err(fail) => match fail {
            ChainFailure::First(fa, _b) => {
                let xa = choose|x: TA|
                    cloned::<TA>(ch.first.staged(), x) && #[trigger] call_ensures(
                        ch.first.func(),
                        (x,),
                        Err::<(OA, TA), EA>(fa.0),
                    );
                assert(xa == ch.first.staged());
            },
            ChainFailure::Second(oa, _fb) => {
                let xa = choose|x: TA|
                    cloned::<TA>(ch.first.staged(), x) && #[trigger] call_ensures(
                        ch.first.func(),
                        (x,),
                        Ok::<(OA, TA), EA>((oa.0, oa.1@)),
                    );
                assert(xa == ch.first.staged());
            },
        },
    }
}

} // verus!

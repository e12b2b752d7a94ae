//! The strategy boundary: a builder that accumulates one query response
//! per registered state engine into a typed input, and a pure evaluation
//! producing the tick's actions. A partial input is a build failure, never
//! a degraded input.

use vstd::prelude::*;

use crate::errors::BuildError;
use crate::output::{PriceData, StateOutput};

verus! {

/// Accumulates engine responses for one tick. The builder starts empty
/// each tick; `build` succeeds exactly when the responses filed so far
/// make a complete input, and what it assembles is a function of those
/// responses alone.
pub trait InputBuilder<D, I>: Sized {
    /// The responses filed so far, in filing order.
    spec fn slots(&self) -> Seq<D>;

    /// Whether these responses fill every registered engine's slot.
    spec fn spec_complete(slots: Seq<D>) -> bool;

    /// The input assembled from these responses.
    spec fn spec_build(slots: Seq<D>) -> I
        recommends
            Self::spec_complete(slots),
    ;

    /// The empty builder a tick starts from.
    fn empty() -> (r: Self)
        ensures
            r.slots() == Seq::<D>::empty(),
    ;

    /// Files one engine's response.
    fn insert(&mut self, data: D) -> (r: ())
        ensures
            final(self).slots() == old(self).slots().push(data),
    ;

    /// All-or-nothing assembly: the typed input if the filed responses are
    /// complete, an incomplete-input failure otherwise.
    fn build(self) -> (r: Result<I, BuildError>)
        ensures
            r is Ok <==> Self::spec_complete(self.slots()),
            r is Ok ==> r->Ok_0 == Self::spec_build(self.slots()),
            r is Err ==> r->Err_0 == BuildError::IncompleteInput,
    ;
}

/// A decision function evaluated on a fixed interval over a composite
/// point-in-time snapshot. Evaluation is pure — its actions are a function
/// of the input alone — and their ordering is preserved through dispatch.
pub trait Strategy<D, I, A>: Sized {
    type InputBuilder: InputBuilder<D, I> + Default;

    /// What evaluation returns, as a mathematical function of the input.
    spec fn spec_evaluate(&self, input: I) -> Seq<A>;

    fn name(&self) -> &'static str;

    /// The tick interval, in milliseconds. Always positive: the ticker
    /// must be able to sleep on it.
    fn interval_ms(&self) -> (r: u64)
        ensures
            r > 0,
    ;

    fn evaluate(&self, input: I) -> (r: Vec<A>)
        ensures
            r@ == self.spec_evaluate(input),
    ;
}

/// The shipped placeholder strategy: it echoes every price entry of the
/// snapshot back as an action, in snapshot order.
pub struct EchoStrategy;

/// The echo strategy's typed input: the price entries of the one
/// registered engine's response.
pub struct EchoInput {
    pub prices: Vec<PriceData>,
}

/// Builder for [`EchoInput`]: the one registered engine's response fills
/// the input; filing again within a tick supersedes the earlier response.
pub struct EchoInputBuilder {
    pub outputs: Vec<StateOutput>,
}

impl Default for EchoInputBuilder {
    /// The empty builder a tick starts from.
    fn default() -> (r: Self)
        ensures
            r.outputs@ == Seq::<StateOutput>::empty(),
    {
        let r = EchoInputBuilder { outputs: Vec::new() };
        proof {
            assert(r.outputs@ =~= Seq::<StateOutput>::empty());
        }
        r
    }
}

impl InputBuilder<StateOutput, EchoInput> for EchoInputBuilder {
    open spec fn slots(&self) -> Seq<StateOutput> {
        self.outputs@
    }

    open spec fn spec_complete(slots: Seq<StateOutput>) -> bool {
        slots.len() >= 1
    }

    open spec fn spec_build(slots: Seq<StateOutput>) -> EchoInput {
        EchoInput { prices: slots.last()->Prices_0 }
    }

    fn empty() -> (r: Self) {
        let r = EchoInputBuilder { outputs: Vec::new() };
        proof {
            assert(r.outputs@ =~= Seq::<StateOutput>::empty());
        }
        r
    }

    fn insert(&mut self, data: StateOutput) -> (r: ()) {
        self.outputs.push(data);
    }

    fn build(self) -> (r: Result<EchoInput, BuildError>) {
        let EchoInputBuilder { mut outputs } = self;
        match outputs.pop() {
            Some(StateOutput::Prices(prices)) => Ok(EchoInput { prices }),
            None => Err(BuildError::IncompleteInput),
        }
    }
}

impl Strategy<StateOutput, EchoInput, PriceData> for EchoStrategy {
    type InputBuilder = EchoInputBuilder;

    open spec fn spec_evaluate(&self, input: EchoInput) -> Seq<PriceData> {
        input.prices@
    }

    fn name(&self) -> &'static str {
        "echo_strategy"
    }

    fn interval_ms(&self) -> (r: u64)
        ensures
            r == 1000,
    {
        1000
    }

    fn evaluate(&self, input: EchoInput) -> (r: Vec<PriceData>) {
        input.prices
    }
}

} // verus!

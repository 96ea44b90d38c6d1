//! Orders that go out one after the other: batches and brackets.

use std::marker::PhantomData;

use vstd::prelude::*;

use crate::errors::Error;
use crate::order::{OrderBuilder, OrderBuilderState, OrderStateReady};
use crate::order_model::{OrderKind, OrderModel, SignCall, SubmitCall};
use crate::submission::Submission;
use crate::types::Price;

verus! {

/// What is done with each order of a run.
pub trait OrderMode: Sized {
    /// The signer operation that does it.
    type Call;

    /// What an order that goes out under an identifier asks of the signer.
    spec fn planned(order: OrderModel, id: i64) -> Result<Self::Call, Error>;

    /// Works out what an order that goes out under an identifier asks of the signer.
    fn plan(order: &OrderBuilderState<'_>, id: i64) -> (call: Result<Self::Call, Error>)
        ensures
            call == Self::planned(order@, id),
    ;
}

/// Orders are submitted.
pub struct Submitting;

/// Orders are signed and not sent.
pub struct Signing;

impl OrderMode for Submitting {
    type Call = SubmitCall;

    open spec fn planned(order: OrderModel, id: i64) -> Result<SubmitCall, Error> {
        order.submit_plan(id)
    }

    fn plan(order: &OrderBuilderState<'_>, id: i64) -> (call: Result<SubmitCall, Error>) {
        order.submit(id)
    }
}

impl OrderMode for Signing {
    type Call = SignCall;

    open spec fn planned(order: OrderModel, id: i64) -> Result<SignCall, Error> {
        order.sign_plan(id)
    }

    fn plan(order: &OrderBuilderState<'_>, id: i64) -> (call: Result<SignCall, Error>) {
        order.sign(id)
    }
}

/// What a list of order states stands for.
pub open spec fn order_models<'a>(orders: Seq<OrderBuilderState<'a>>) -> Seq<OrderModel> {
    orders.map_values(|order: OrderBuilderState<'a>| order@)
}

/// Mathematical view of a run: all its orders, and what the first of them gave.
pub struct RunModel<P> {
    pub orders: Seq<OrderModel>,
    pub results: Seq<P>,
}

impl<P> RunModel<P> {
    /// A run of which nothing has gone out.
    pub open spec fn start(orders: Seq<OrderModel>) -> Self {
        RunModel { orders, results: Seq::empty() }
    }

    /// The order whose turn it is.
    pub open spec fn current(self) -> OrderModel {
        self.orders[self.results.len() as int]
    }

    /// The run once the order whose turn it is has given a result.
    pub open spec fn advanced(self, result: P) -> Self {
        RunModel { results: self.results.push(result), ..self }
    }

    /// The run once its next orders, one after the other, have given results.
    pub open spec fn after(self, results: Seq<P>) -> Self
        decreases results.len(),
    {
        if results.len() == 0 {
            self
        } else {
            self.after(results.drop_last()).advanced(results.last())
        }
    }
}

/// Orders that go out one after the other. A failure ends the run.
pub struct OrderRun<'a, M: OrderMode, P> {
    orders: Vec<OrderBuilderState<'a>>,
    results: Vec<P>,
    _mode: PhantomData<M>,
}

impl<'a, M: OrderMode, P> View for OrderRun<'a, M, P> {
    type V = RunModel<P>;

    closed spec fn view(&self) -> RunModel<P> {
        RunModel { orders: order_models(self.orders@), results: self.results@ }
    }
}

/// A run that waits for what the order whose turn it is gives.
pub struct PendingOrder<'a, M: OrderMode, P> {
    run: OrderRun<'a, M, P>,
}

impl<'a, M: OrderMode, P> View for PendingOrder<'a, M, P> {
    type V = RunModel<P>;

    closed spec fn view(&self) -> RunModel<P> {
        self.run@
    }
}

/// What a run does next.
pub enum RunStep<'a, M: OrderMode, P> {
    /// Ask the signer, and hand its answer to [`PendingOrder::complete`].
    Call(M::Call, PendingOrder<'a, M, P>),
    /// Nothing: every order has given its result.
    Finished(Vec<P>),
}

/// What a run does next, where the order whose turn it is goes out under an identifier.
pub open spec fn step_allowed<'a, M: OrderMode, P>(
    run: RunModel<P>,
    id: i64,
    step: Result<RunStep<'a, M, P>, Error>,
) -> bool {
    if run.results.len() == run.orders.len() {
        &&& step matches Ok(RunStep::Finished(results))
        &&& results@ == run.results
    } else {
        match M::planned(run.current(), id) {
            Ok(planned) => {
                &&& step matches Ok(RunStep::Call(call, pending))
                &&& call == planned
                &&& pending@ == run
            },
            Err(error) => step == Err::<RunStep<'a, M, P>, Error>(error),
        }
    }
}

impl<'a, M: OrderMode, P> OrderRun<'a, M, P> {
    #[verifier::type_invariant]
    spec fn in_bounds(self) -> bool {
        self.results@.len() <= self.orders@.len()
    }

    pub(crate) fn start(orders: Vec<OrderBuilderState<'a>>) -> (run: Self)
        ensures
            run@ == RunModel::<P>::start(order_models(orders@)),
    {
        OrderRun { orders, results: Vec::new(), _mode: PhantomData }
    }

    /// What the run does next. An order that wants an identifier drawn for it has it drawn now.
    pub fn next(self) -> (step: Result<RunStep<'a, M, P>, Error>)
        ensures
            self@.results.len() <= self@.orders.len(),
            exists|id: i64|
                (self@.results.len() < self@.orders.len() ==> self@.current().may_use_id(id))
                    && #[trigger] step_allowed::<M, P>(self@, id, step),
    {
        proof {
            use_type_invariant(&self);
        }
        if self.results.len() < self.orders.len() {
            let id: i64 = self.orders[self.results.len()].resolved_client_order_id();
            self.next_as(id)
        } else {
            self.next_as(0)
        }
    }

    /// What the run does next, where `drawn` is the identifier that has been drawn for the order
    /// whose turn it is, in case it wants one.
    pub fn next_with(self, drawn: i64) -> (step: Result<RunStep<'a, M, P>, Error>)
        ensures
            self@.results.len() <= self@.orders.len(),
            step_allowed::<M, P>(self@, self@.current().resolved_id(drawn), step),
    {
        proof {
            use_type_invariant(&self);
        }
        if self.results.len() < self.orders.len() {
            let id: i64 = self.orders[self.results.len()].resolve_id(drawn);
            self.next_as(id)
        } else {
            self.next_as(drawn)
        }
    }

    /// What the run does next, where the order whose turn it is goes out under an identifier.
    fn next_as(self, id: i64) -> (step: Result<RunStep<'a, M, P>, Error>)
        ensures
            step_allowed::<M, P>(self@, id, step),
    {
        proof {
            use_type_invariant(&self);
        }
        if self.results.len() < self.orders.len() {
            match M::plan(&self.orders[self.results.len()], id) {
                Ok(call) => Ok(RunStep::Call(call, PendingOrder { run: self })),
                Err(error) => Err(error),
            }
        } else {
            Ok(RunStep::Finished(self.results))
        }
    }
}

impl<'a, M: OrderMode, P> PendingOrder<'a, M, P> {
    #[verifier::type_invariant]
    spec fn has_current(self) -> bool {
        self.run.results@.len() < self.run.orders@.len()
    }

    /// Goes on with what the order whose turn it was gave. A failure ends the run, and what
    /// earlier orders gave is dropped with it.
    pub fn complete(self, result: Result<P, Error>) -> (run: Result<OrderRun<'a, M, P>, Error>)
        ensures
            match result {
                Ok(value) => run is Ok && run->Ok_0@ == self@.advanced(value),
                Err(error) => run == Err::<OrderRun<'a, M, P>, Error>(error),
            },
    {
        proof {
            use_type_invariant(&self);
        }
        match result {
            Ok(value) => {
                let OrderRun { orders, mut results, .. } = self.run;
                results.push(value);
                Ok(OrderRun { orders, results, _mode: PhantomData })
            },
            Err(error) => Err(error),
        }
    }
}

/// Orders that are to go out together.
pub struct OrderBatchBuilder<'a> {
    orders: Vec<OrderBuilderState<'a>>,
}

impl<'a> View for OrderBatchBuilder<'a> {
    type V = Seq<OrderModel>;

    closed spec fn view(&self) -> Seq<OrderModel> {
        order_models(self.orders@)
    }
}

impl<'a> Default for OrderBatchBuilder<'a> {
    fn default() -> (batch: Self)
        ensures
            batch@ == Seq::<OrderModel>::empty(),
    {
        OrderBatchBuilder { orders: Vec::new() }
    }
}

impl<'a> OrderBatchBuilder<'a> {
    pub fn new() -> (batch: Self)
        ensures
            batch@ == Seq::<OrderModel>::empty(),
    {
        Self::default()
    }

    pub fn push(self, builder: OrderBuilder<'a, OrderStateReady>) -> (batch: Self)
        ensures
            batch@ == self@.push(builder@),
    {
        let mut orders = self.orders;
        orders.push(builder.into_state());
        OrderBatchBuilder { orders }
    }

    pub fn add(&mut self, builder: OrderBuilder<'a, OrderStateReady>) -> (batch: &mut Self)
        ensures
            batch@ == old(self)@.push(builder@),
            *final(self) == *final(batch),
    {
        self.orders.push(builder.into_state());
        self
    }

    /// Submit the orders, one after the other.
    pub fn submit_all<T, R>(self) -> (run: OrderRun<'a, Submitting, Submission<T, R>>)
        ensures
            run@ == RunModel::<Submission<T, R>>::start(self@),
    {
        OrderRun::start(self.orders)
    }

    /// Sign the orders, one after the other.
    pub fn sign_all<P>(self) -> (run: OrderRun<'a, Signing, P>)
        ensures
            run@ == RunModel::<P>::start(self@),
    {
        OrderRun::start(self.orders)
    }
}

/// An entry order and its protective orders, all submitted.
pub struct BracketSubmission<T, R> {
    pub entry: Submission<T, R>,
    pub legs: Vec<Submission<T, R>>,
}

/// An entry order and its protective orders, all signed.
pub struct BracketSigned<P> {
    pub entry: P,
    pub legs: Vec<P>,
}

/// An entry order that is to be surrounded with protective orders.
pub struct BracketBuilder<'a> {
    entry: OrderBuilderState<'a>,
    take_profit: Option<OrderKind>,
    stop_loss: Option<OrderKind>,
}

/// Mathematical view of a [`BracketBuilder`].
pub struct BracketModel {
    pub entry: OrderModel,
    pub take_profit: Option<OrderKind>,
    pub stop_loss: Option<OrderKind>,
}

impl<'a> View for BracketBuilder<'a> {
    type V = BracketModel;

    closed spec fn view(&self) -> BracketModel {
        BracketModel {
            entry: self.entry@,
            take_profit: self.take_profit,
            stop_loss: self.stop_loss,
        }
    }
}

impl BracketModel {
    /// The protective order of a kind, if there is to be one.
    pub open spec fn leg(self, kind: Option<OrderKind>) -> Seq<OrderModel> {
        match kind {
            Some(kind) => seq![self.entry.protective_leg(kind)],
            None => Seq::empty(),
        }
    }

    /// The orders of the bracket in the order in which they go out: the entry, what takes the
    /// profit, what stops the loss.
    pub open spec fn orders(self) -> Seq<OrderModel> {
        seq![self.entry] + self.leg(self.take_profit) + self.leg(self.stop_loss)
    }
}

/// A bracket that is on its way out.
pub struct BracketRun<'a, M: OrderMode, P> {
    run: OrderRun<'a, M, P>,
}

impl<'a, M: OrderMode, P> View for BracketRun<'a, M, P> {
    type V = RunModel<P>;

    closed spec fn view(&self) -> RunModel<P> {
        self.run@
    }
}

/// A bracket that waits for what the order whose turn it is gives.
pub struct PendingLeg<'a, M: OrderMode, P> {
    pending: PendingOrder<'a, M, P>,
}

impl<'a, M: OrderMode, P> View for PendingLeg<'a, M, P> {
    type V = RunModel<P>;

    closed spec fn view(&self) -> RunModel<P> {
        self.pending@
    }
}

/// What a bracket does next.
pub enum BracketStep<'a, M: OrderMode, P> {
    /// Ask the signer, and hand its answer to [`PendingLeg::complete`].
    Call(M::Call, PendingLeg<'a, M, P>),
    /// Nothing: the entry and every protective order have given their results.
    Finished { entry: P, legs: Vec<P> },
}

/// What a bracket does next, where the order whose turn it is goes out under an identifier.
///
/// A bracket without a protective order is refused, but only once its entry has gone out.
pub open spec fn bracket_step_allowed<'a, M: OrderMode, P>(
    run: RunModel<P>,
    id: i64,
    step: Result<BracketStep<'a, M, P>, Error>,
) -> bool {
    if run.results.len() < run.orders.len() {
        match M::planned(run.current(), id) {
            Ok(planned) => {
                &&& step matches Ok(BracketStep::Call(call, pending))
                &&& call == planned
                &&& pending@ == run
            },
            Err(error) => step == Err::<BracketStep<'a, M, P>, Error>(error),
        }
    } else if run.results.len() == 1 {
        step == Err::<BracketStep<'a, M, P>, Error>(
            Error::InvalidConfig {
                field: "bracket",
                why: "configure at least one protective order",
            },
        )
    } else {
        &&& step matches Ok(BracketStep::Finished { entry, legs })
        &&& entry == run.results[0]
        &&& legs@ == run.results.subrange(1, run.results.len() as int)
    }
}

impl<'a, M: OrderMode, P> BracketRun<'a, M, P> {
    #[verifier::type_invariant]
    spec fn has_entry(self) -> bool {
        self.run.orders@.len() >= 1
    }

    fn start(orders: Vec<OrderBuilderState<'a>>) -> (run: Self)
        requires
            orders@.len() >= 1,
        ensures
            run@ == RunModel::<P>::start(order_models(orders@)),
    {
        let run = OrderRun::start(orders);
        assert(run@.orders.len() == orders@.len());
        BracketRun { run }
    }

    /// What the bracket does next. An order that wants an identifier drawn for it has it drawn
    /// now.
    pub fn next(self) -> (step: Result<BracketStep<'a, M, P>, Error>)
        ensures
            1 <= self@.orders.len(),
            self@.results.len() <= self@.orders.len(),
            exists|id: i64|
                (self@.results.len() < self@.orders.len() ==> self@.current().may_use_id(id))
                    && #[trigger] bracket_step_allowed::<M, P>(self@, id, step),
    {
        proof {
            use_type_invariant(&self);
            use_type_invariant(&self.run);
        }
        if self.run.results.len() < self.run.orders.len() {
            let id: i64 = self.run.orders[self.run.results.len()].resolved_client_order_id();
            self.next_as(id)
        } else {
            self.next_as(0)
        }
    }

    /// What the bracket does next, where `drawn` is the identifier that has been drawn for the
    /// order whose turn it is, in case it wants one.
    pub fn next_with(self, drawn: i64) -> (step: Result<BracketStep<'a, M, P>, Error>)
        ensures
            1 <= self@.orders.len(),
            self@.results.len() <= self@.orders.len(),
            bracket_step_allowed::<M, P>(self@, self@.current().resolved_id(drawn), step),
    {
        proof {
            use_type_invariant(&self);
            use_type_invariant(&self.run);
        }
        if self.run.results.len() < self.run.orders.len() {
            let id: i64 = self.run.orders[self.run.results.len()].resolve_id(drawn);
            self.next_as(id)
        } else {
            self.next_as(drawn)
        }
    }

    fn next_as(self, id: i64) -> (step: Result<BracketStep<'a, M, P>, Error>)
        ensures
            bracket_step_allowed::<M, P>(self@, id, step),
    {
        proof {
            use_type_invariant(&self);
            use_type_invariant(&self.run);
        }
        match self.run.next_as(id) {
            Ok(RunStep::Call(call, pending)) => Ok(BracketStep::Call(call, PendingLeg { pending })),
            Ok(RunStep::Finished(results)) => {
                let mut legs = results;
                let entry = legs.remove(0);
                if legs.is_empty() {
                    return Err(
                        Error::InvalidConfig {
                            field: "bracket",
                            why: "configure at least one protective order",
                        },
                    );
                }
                Ok(BracketStep::Finished { entry, legs })
            },
            Err(error) => Err(error),
        }
    }
}

impl<'a, M: OrderMode, P> PendingLeg<'a, M, P> {
    /// Goes on with what the order whose turn it was gave. A failure ends the bracket; orders
    /// that went out before stay out.
    pub fn complete(self, result: Result<P, Error>) -> (run: Result<BracketRun<'a, M, P>, Error>)
        ensures
            match result {
                Ok(value) => run is Ok && run->Ok_0@ == self@.advanced(value),
                Err(error) => run == Err::<BracketRun<'a, M, P>, Error>(error),
            },
    {
        proof {
            use_type_invariant(&self.pending);
        }
        match self.pending.complete(result) {
            Ok(run) => {
                assert(run@.orders.len() == run.orders@.len());
                Ok(BracketRun { run })
            },
            Err(error) => Err(error),
        }
    }
}

impl<'a> BracketBuilder<'a> {
    pub(crate) fn new(entry: OrderBuilderState<'a>) -> (builder: Self)
        ensures
            builder@ == (BracketModel { entry: entry@, take_profit: None, stop_loss: None }),
    {
        BracketBuilder { entry, take_profit: None, stop_loss: None }
    }

    pub fn take_profit(self, trigger: Price) -> (builder: Self)
        ensures
            builder@ == (BracketModel {
                take_profit: Some(OrderKind::TakeProfitMarket { trigger }),
                ..self@
            }),
    {
        BracketBuilder { take_profit: Some(OrderKind::TakeProfitMarket { trigger }), ..self }
    }

    pub fn take_profit_limit(self, trigger: Price, price: Price) -> (builder: Self)
        ensures
            builder@ == (BracketModel {
                take_profit: Some(OrderKind::TakeProfitLimit { trigger, limit_price: price }),
                ..self@
            }),
    {
        BracketBuilder {
            take_profit: Some(OrderKind::TakeProfitLimit { trigger, limit_price: price }),
            ..self
        }
    }

    pub fn stop_loss(self, trigger: Price) -> (builder: Self)
        ensures
            builder@ == (BracketModel {
                stop_loss: Some(OrderKind::StopLossMarket { trigger }),
                ..self@
            }),
    {
        BracketBuilder { stop_loss: Some(OrderKind::StopLossMarket { trigger }), ..self }
    }

    pub fn stop_loss_limit(self, trigger: Price, price: Price) -> (builder: Self)
        ensures
            builder@ == (BracketModel {
                stop_loss: Some(OrderKind::StopLossLimit { trigger, limit_price: price }),
                ..self@
            }),
    {
        BracketBuilder {
            stop_loss: Some(OrderKind::StopLossLimit { trigger, limit_price: price }),
            ..self
        }
    }

    /// The orders of the bracket in the order in which they go out.
    fn into_orders(self) -> (orders: Vec<OrderBuilderState<'a>>)
        ensures
            order_models(orders@) == self@.orders(),
    {
        let take_profit = match self.take_profit {
            Some(kind) => Some(self.entry.leg(kind)),
            None => None,
        };
        let stop_loss = match self.stop_loss {
            Some(kind) => Some(self.entry.leg(kind)),
            None => None,
        };
        let mut orders = Vec::new();
        orders.push(self.entry);
        if let Some(leg) = take_profit {
            orders.push(leg);
        }
        if let Some(leg) = stop_loss {
            orders.push(leg);
        }
        orders
    }

    /// Submit the entry, then the protective orders.
    pub fn submit<T, R>(self) -> (run: BracketRun<'a, Submitting, Submission<T, R>>)
        ensures
            run@ == RunModel::<Submission<T, R>>::start(self@.orders()),
    {
        let orders = self.into_orders();
        assert(order_models(orders@).len() == orders@.len());
        BracketRun::start(orders)
    }

    /// Sign the entry, then the protective orders.
    pub fn sign<P>(self) -> (run: BracketRun<'a, Signing, P>)
        ensures
            run@ == RunModel::<P>::start(self@.orders()),
    {
        let orders = self.into_orders();
        assert(order_models(orders@).len() == orders@.len());
        BracketRun::start(orders)
    }
}

} // verus!

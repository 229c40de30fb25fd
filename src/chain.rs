//! A small value-threading helper: a context that is carried unchanged along
//! a chain of calls, together with the result of the latest call.
use vstd::prelude::*;

verus! {

pub struct ChainContext<Context, V> {
    context: Context,
    result: V,
}

impl<Context, Value> ChainContext<Context, Value> where Context: Sized + Copy {
    /// The context carried along the chain.
    pub closed spec fn context_spec(&self) -> Context {
        self.context
    }

    /// The value produced by the latest step of the chain.
    pub closed spec fn result_spec(&self) -> Value {
        self.result
    }

    /// Starts a chain with `context` and the initial value `result`.
    pub fn new(context: Context, result: Value) -> (r: ChainContext<Context, Value>)
        ensures
            r.context_spec() == context,
            r.result_spec() == result,
    {
        ChainContext { context, result }
    }

    /// Ends the chain and hands out the latest value.
    pub fn result(self) -> (r: Value)
        ensures
            r == self.result_spec(),
    {
        self.result
    }

    /// Applies `f` to the value; the context is kept.
    pub fn chain_resultx<F, R>(self, f: F) -> (r: ChainContext<Context, R>) where
        F: FnOnce(Value) -> R,
        requires
            f.requires((self.result_spec(),)),
        ensures
            r.context_spec() == self.context_spec(),
            f.ensures((self.result_spec(),), r.result_spec()),
    {
        ChainContext { context: self.context, result: f(self.result) }
    }

    /// Applies `f` to the value and ends the chain with its result.
    pub fn chain_mapx<F, R>(self, f: F) -> (r: R) where F: FnOnce(Value) -> R,
        requires
            f.requires((self.result_spec(),)),
        ensures
            f.ensures((self.result_spec(),), r),
    {
        f(self.result)
    }

    /// Applies `f` to the context and the value; the context is kept.
    pub fn chain_callx<F, R>(self, f: F) -> (r: ChainContext<Context, R>) where
        F: FnOnce(Context, Value) -> R,
        requires
            f.requires((self.context_spec(), self.result_spec())),
        ensures
            r.context_spec() == self.context_spec(),
            f.ensures((self.context_spec(), self.result_spec()), r.result_spec()),
    {
        ChainContext { context: self.context, result: f(self.context, self.result) }
    }

    /// Applies `f` to the context and the value and ends the chain with its
    /// result.
    pub fn chain_end<F, R>(self, f: F) -> (r: R) where F: FnOnce(Context, Value) -> R,
        requires
            f.requires((self.context_spec(), self.result_spec())),
        ensures
            f.ensures((self.context_spec(), self.result_spec()), r),
    {
        f(self.context, self.result)
    }
}

/// Starts a chain whose context is a shared reference to `self`.
pub trait PipeFactory {
    fn chain<V>(&self, v: V) -> (r: ChainContext<&Self, V>)
        ensures
            r.context_spec() == self,
            r.result_spec() == v,
    ;
}

impl<T> PipeFactory for T {
    fn chain<V>(&self, v: V) -> (r: ChainContext<&Self, V>) {
        ChainContext::new(self, v)
    }
}

} // verus!

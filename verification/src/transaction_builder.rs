use vstd::prelude::*;

verus! {

/// A builder of transactions for some chain: `build` yields whatever the
/// chain's builder produces.
pub trait TxBuilder<T> {
    fn build(&self) -> T;
}

/// The entry point for obtaining a chain-specific builder.
pub struct TransactionBuilder;

impl TransactionBuilder {
    /// A fresh builder of the requested kind: whatever the kind's `default`
    /// promises holds of it.
    pub fn new<T: Default>() -> (r: T)
        ensures
            call_ensures(T::default, (), r),
    {
        T::default()
    }
}

} // verus!

use vstd::prelude::*;

verus! {

/// The return value of a method without inputs: made by a factory, or cloned
/// from a stored value, with a default for when neither is configured.
#[verifier::reject_recursive_types(R)]
pub struct ReturnValue<R, F: Fn() -> R> {
    return_value: Option<F>,
    return_value_clonable: Option<R>,
}

impl<R, F: Fn() -> R> ReturnValue<R, F> {
    #[verifier::type_invariant]
    spec fn factory_callable(&self) -> bool {
        self.return_value matches Some(f) ==> f.requires(())
    }

    /// The configured factory, if any.
    pub closed spec fn factory(&self) -> Option<F> {
        self.return_value
    }

    /// The configured value to clone, if any.
    pub closed spec fn stored(&self) -> Option<R> {
        self.return_value_clonable
    }

    /// Nothing configured.
    pub fn new() -> (r: ReturnValue<R, F>)
        ensures
            r.factory() is None,
            r.stored() is None,
    {
        ReturnValue { return_value: None, return_value_clonable: None }
    }

    /// Makes `value_factory` produce the return value from now on.
    pub fn will_return(&mut self, value_factory: F)
        requires
            value_factory.requires(()),
        ensures
            final(self).factory() == Some(value_factory),
            final(self).stored() == old(self).stored(),
    {
        self.return_value = Some(value_factory);
    }

    /// What the configured factory produces, or `default` when none is configured.
    pub fn return_value(&self, default: R) -> (r: R)
        ensures
            match self.factory() {
                Some(f) => f.ensures((), r),
                None => r == default,
            },
    {
        proof {
            use_type_invariant(self);
        }
        match &self.return_value {
            Some(factory) => factory(),
            None => default,
        }
    }
}

impl<R: Clone, F: Fn() -> R> ReturnValue<R, F> {
    /// Makes a clone of `value` the return value from now on.
    pub fn will_return_clone_of(&mut self, value: R)
        ensures
            final(self).stored() == Some(value),
            final(self).factory() == old(self).factory(),
    {
        proof {
            use_type_invariant(&*self);
        }
        self.return_value_clonable = Some(value);
    }

    /// A clone of the stored value, or `default` when none is stored.
    pub fn return_value_cloned(&self, default: R) -> (r: R)
        ensures
            match self.stored() {
                Some(v) => cloned(v, r),
                None => r == default,
            },
    {
        match &self.return_value_clonable {
            Some(value) => value.clone(),
            None => default,
        }
    }
}

} // verus!

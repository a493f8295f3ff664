//! Validators of a finished preset: the capability, a validator made of a
//! closure, and the chaining of validators.

use vstd::prelude::*;
use crate::errors::{ConfigError, ConfigErrorView};
use crate::models::command_details::{CommandDetails, CommandDetailsView};
use crate::validator::verdict_view;

verus! {

/// One rule that a preset can be held to.
pub trait ValidateCommandDetails {
    /// Whether `verdict` is an answer that this rule may give about
    /// `details`.
    spec fn judges(
        &self,
        details: CommandDetailsView,
        verdict: Result<(), ConfigErrorView>,
    ) -> bool;

    /// Holds `details` to the rule.
    fn validate(&self, details: &CommandDetails) -> (verdict: Result<(), ConfigError>)
        ensures
            self.judges(details@, verdict_view(verdict)),
    ;
}

/// A validator made of a closure that can be called on every preset.
pub struct Validator<F: Fn(&CommandDetails) -> Result<(), ConfigError>> {
    rule: F,
}

impl<F: Fn(&CommandDetails) -> Result<(), ConfigError>> Validator<F> {
    #[verifier::type_invariant]
    spec fn callable(self) -> bool {
        forall|details: &CommandDetails| #[trigger] self.rule.requires((details,))
    }

    /// The closure.
    pub closed spec fn rule(self) -> F {
        self.rule
    }

    /// The validator that asks `rule`.
    pub fn new(rule: F) -> (validator: Self)
        requires
            forall|details: &CommandDetails| #[trigger] rule.requires((details,)),
        ensures
            validator.rule() == rule,
    {
        Validator { rule }
    }
}

impl<F: Fn(&CommandDetails) -> Result<(), ConfigError>> ValidateCommandDetails for Validator<F> {
    /// An answer that the closure may give for some preset that looks like
    /// `details`.
    open spec fn judges(
        &self,
        details: CommandDetailsView,
        verdict: Result<(), ConfigErrorView>,
    ) -> bool {
        exists|preset: &CommandDetails, answer: Result<(), ConfigError>|
            preset@ == details && verdict_view(answer) == verdict && #[trigger] self.rule().ensures(
                (preset,),
                answer,
            )
    }

    fn validate(&self, details: &CommandDetails) -> (verdict: Result<(), ConfigError>) {
        proof {
            use_type_invariant(self);
        }
        let verdict = (self.rule)(details);
        assert(self.rule().ensures((details,), verdict));
        verdict
    }
}

/// The validator that passes every preset: the start of every chain.
#[derive(Clone, Copy, Debug)]
pub struct NoValidator;

impl ValidateCommandDetails for NoValidator {
    open spec fn judges(
        &self,
        details: CommandDetailsView,
        verdict: Result<(), ConfigErrorView>,
    ) -> bool {
        verdict is Ok
    }

    fn validate(&self, details: &CommandDetails) -> (verdict: Result<(), ConfigError>) {
        Ok(())
    }
}

/// Two validators in order: `second` is asked only where `first` passes.
pub struct Chain<A: ValidateCommandDetails, B: ValidateCommandDetails> {
    pub first: A,
    pub second: B,
}

impl<A: ValidateCommandDetails, B: ValidateCommandDetails> ValidateCommandDetails for Chain<A, B> {
    /// Either a failure of `first`, or an answer of `second` after `first`
    /// has passed.
    open spec fn judges(
        &self,
        details: CommandDetailsView,
        verdict: Result<(), ConfigErrorView>,
    ) -> bool {
        ||| verdict is Err && self.first.judges(details, verdict)
        ||| self.first.judges(details, Ok(())) && self.second.judges(details, verdict)
    }

    fn validate(&self, details: &CommandDetails) -> (verdict: Result<(), ConfigError>) {
        match self.first.validate(details) {
            Ok(()) => self.second.validate(details),
            Err(error) => Err(error),
        }
    }
}

} // verus!

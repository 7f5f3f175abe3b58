//! The validation pipeline: an optional, pure predicate consulted once
//! per submission, able to veto the transition to `Submit`.

use vstd::prelude::*;

verus! {

/// A pure predicate over the submitted text.
///
/// `accepts` and `error_message` are the specification of `check`: the
/// verdict is a function of the text alone, so a validator can be tested
/// independently of any prompt.
pub trait Validator {
    /// Whether the text passes validation.
    spec fn accepts(&self, text: Seq<char>) -> bool;

    /// The message reported when the text is rejected.
    spec fn error_message(&self, text: Seq<char>) -> Seq<char>;

    /// Checks the text, returning the rejection message on failure.
    fn check(&self, text: &str) -> (r: Result<(), String>)
        ensures
            r is Ok <==> self.accepts(text@),
            r matches Err(m) ==> m@ == self.error_message(text@);
}

/// The validator of a prompt with no validation configured: every text is
/// accepted.
pub struct NoValidator;

impl Validator for NoValidator {
    open spec fn accepts(&self, text: Seq<char>) -> bool {
        true
    }

    open spec fn error_message(&self, text: Seq<char>) -> Seq<char> {
        Seq::<char>::empty()
    }

    fn check(&self, text: &str) -> (r: Result<(), String>) {
        Ok(())
    }
}

/// A validator that rejects texts of fewer than `min` codepoints with a
/// fixed message.
pub struct MinLength {
    /// The least accepted codepoint count.
    pub min: usize,
    /// The message reported for a text that is too short.
    pub message: String,
}

impl MinLength {
    /// A validator demanding at least `min` codepoints.
    pub fn new(min: usize, message: &str) -> (v: MinLength)
        ensures
            v.min == min,
            v.message@ == message@,
    {
        MinLength { min, message: message.to_owned() }
    }
}

impl Validator for MinLength {
    open spec fn accepts(&self, text: Seq<char>) -> bool {
        text.len() >= self.min
    }

    open spec fn error_message(&self, text: Seq<char>) -> Seq<char> {
        self.message@
    }

    fn check(&self, text: &str) -> (r: Result<(), String>) {
        if text.unicode_len() >= self.min {
            Ok(())
        } else {
            Err(self.message.clone())
        }
    }
}

} // verus!

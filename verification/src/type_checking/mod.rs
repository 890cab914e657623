//! The type checker: it reports every typing error of a program, with a
//! message for each.

pub mod ast;
pub mod expression;
pub mod function_call;
pub mod function_declaration;
pub mod function_return;
pub mod if_statement;
pub mod laws;
pub mod node;
pub mod operation;
pub mod resolution;
pub mod rules;
pub mod value;

use vstd::prelude::*;

use crate::ast::node::Type;
use crate::type_checking::rules::{type_mismatch, Messages};

verus! {

/// A typing error and its message.
#[derive(Debug)]
pub struct TypeCheckingError {
    pub message: String,
}

impl View for TypeCheckingError {
    type V = Seq<char>;

    open spec fn view(&self) -> Seq<char> {
        self.message@
    }
}

/// The messages of a list of errors.
pub open spec fn messages(errors: Seq<TypeCheckingError>) -> Messages {
    errors.map_values(|e: TypeCheckingError| e@)
}

/// A check's result reports the messages `m`: it is `Ok` exactly when there
/// are none, and otherwise holds them in order.
pub open spec fn reports(r: Result<(), Vec<TypeCheckingError>>, m: Messages) -> bool {
    match r {
        Ok(()) => m.len() == 0,
        Err(errors) => m.len() > 0 && messages(errors@) == m,
    }
}

/// The messages of two lists, one after the other, are those of the joined
/// list.
pub proof fn lemma_messages_append(a: Seq<TypeCheckingError>, b: Seq<TypeCheckingError>)
    ensures
        messages(a + b) == messages(a) + messages(b),
{
    assert(messages(a + b) =~= messages(a) + messages(b));
}

/// The messages of a list with one more error.
pub proof fn lemma_messages_push(a: Seq<TypeCheckingError>, e: TypeCheckingError)
    ensures
        messages(a.push(e)) == messages(a).push(e@),
{
    assert(messages(a.push(e)) =~= messages(a).push(e@));
}

/// An error with the given message.
pub fn error(message: String) -> (e: TypeCheckingError)
    ensures
        e@ == message@,
{
    TypeCheckingError { message }
}

/// The errors a check reported, none if it succeeded.
pub fn reported(r: Result<(), Vec<TypeCheckingError>>) -> (errors: Vec<TypeCheckingError>)
    ensures
        r is Ok ==> errors@.len() == 0,
        r matches Err(es) ==> errors@ == es@,
{
    match r {
        Ok(()) => Vec::new(),
        Err(errors) => errors,
    }
}

/// `Ok` when there are no errors, else the errors.
pub fn as_result(errors: Vec<TypeCheckingError>) -> (r: Result<(), Vec<TypeCheckingError>>)
    ensures
        reports(r, messages(errors@)),
{
    if errors.len() == 0 {
        Ok(())
    } else {
        Err(errors)
    }
}

/// The message for a value whose type, if any, is `actual` where a value of
/// type `expected` is wanted.
fn mismatch_message(actual: Option<Type>, expected: Type) -> (m: Option<String>)
    ensures
        match m {
            Some(s) => type_mismatch(actual, expected) == Some(s@),
            None => type_mismatch(actual, expected) is None,
        },
{
    match actual {
        None => {
            let mut s = "Expected type to be ".to_owned();
            s.append(expected.name());
            s.append(", but none was found");
            Some(s)
        },
        Some(found_type) => if found_type != expected {
            let mut s = "Expected type to be ".to_owned();
            s.append(expected.name());
            s.append(", but found ");
            s.append(found_type.name());
            Some(s)
        } else {
            None
        },
    }
}

/// Checks that a value whose type, if any, is `actual_type` has the type
/// `expected_type`.
pub fn verify_type(actual_type: Option<Type>, expected_type: Type) -> (r: Result<
    (),
    TypeCheckingError,
>)
    ensures
        match r {
            Ok(()) => type_mismatch(actual_type, expected_type) is None,
            Err(e) => type_mismatch(actual_type, expected_type) == Some(e@),
        },
{
    match mismatch_message(actual_type, expected_type) {
        Some(message) => Err(TypeCheckingError { message }),
        None => Ok(()),
    }
}

} // verus!

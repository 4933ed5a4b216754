//! The errors that building a view or an operation can report.
use vstd::prelude::*;
use crate::impl_generics::push_text;

verus! {
/// Why a view or an operation node could not be built.
#[derive(Debug)]
pub enum OpError<'a> {
    /// The requested shape does not hold as many elements as the source.
    InvalidViewShape,
    /// A binary operation got operands of different shapes: the shape of the
    /// first operand, then that of the second.
    NotSameShape(&'a [i32], &'a [i32]),
}

/// The message for operands of different shapes, given the texts of the two
/// shapes.
pub open spec fn mismatch_text(expected: Seq<char>, got: Seq<char>) -> Seq<char> {
    "expected "@ + expected + ", but got "@ + got
}

impl<'a> OpError<'a> {
    /// The message shown to a user for this error. For operands of
    /// different shapes it names both shapes, each as its rendering gives
    /// it.
    pub fn message(&self) -> (s: String)
        ensures
            self is InvalidViewShape ==> s@
                == "the view shape does not have the same size as the original shape"@,
            self is NotSameShape ==> exists|expected: Seq<char>, got: Seq<char>| #[trigger]
                mismatch_text(expected, got) == s@,
    {
        match self {
            OpError::InvalidViewShape => {
                "the view shape does not have the same size as the original shape".to_owned()
            },
            OpError::NotSameShape(expected, got) => {
                let first = render_shape(expected);
                let second = render_shape(got);
                let mut text = String::new();
                push_text(&mut text, "expected ");
                push_text(&mut text, first.as_str());
                push_text(&mut text, ", but got ");
                push_text(&mut text, second.as_str());
                proof {
                    assert(text@ =~= mismatch_text(first@, second@));
                }
                text
            },
        }
    }
}

/// Renders a shape with `format!`, in its `Debug` form: a bracketed,
/// comma-separated list. Nothing is claimed of the text.
#[verifier::external_body]
fn render_shape(shape: &[i32]) -> (s: String) {
    format!("{:?}", shape)
}

} // verus!

//! A part of the inventory, and a part as a request describes it.

use vstd::prelude::*;
use crate::errors::validation::{
    FieldViolations,
    FieldViolationsView,
    ValidationError,
    ValidationErrorView,
    ValidationErrors,
};

verus! {

/// A part as the store holds it.
#[derive(Debug)]
pub struct Part {
    pub id: u128,
    pub part_number: String,
    pub name: String,
    pub description: Option<String>,
    pub kind: Option<String>,
    /// Microseconds since the Unix epoch.
    pub created_at: Option<i64>,
    /// Microseconds since the Unix epoch.
    pub updated_at: Option<i64>,
}

/// A part as a request describes it. The part number and the name must not
/// be empty.
#[derive(Debug)]
pub struct NewPart {
    pub part_number: String,
    pub name: String,
    pub description: Option<String>,
    pub kind: Option<String>,
}

/// The violation of a rule on the length of a text.
pub open spec fn length_violation(field: Seq<char>, message: Seq<char>) -> FieldViolationsView {
    FieldViolationsView {
        field,
        errors: seq![ValidationErrorView { code: "length"@, message: Some(message) }],
    }
}

/// What is wrong with a part that has the given number and name: first the
/// number, then the name.
pub open spec fn new_part_violations(part_number: Seq<char>, name: Seq<char>) -> Seq<
    FieldViolationsView,
> {
    let number_part = if part_number.len() < 1 {
        seq![length_violation("part_number"@, "part_number must not be empty"@)]
    } else {
        Seq::empty()
    };
    let name_part = if name.len() < 1 {
        seq![length_violation("name"@, "name must not be empty"@)]
    } else {
        Seq::empty()
    };
    number_part + name_part
}

/// Builds the violation of a rule on the length of `field`.
fn length_error(field: &str, message: &str) -> (violations: FieldViolations)
    ensures
        violations@ == length_violation(field@, message@),
{
    let mut errors: Vec<ValidationError> = Vec::new();
    let error = ValidationError { code: "length".to_owned(), message: Some(message.to_owned()) };
    proof {
        assert(errors@.push(error).map_values(|e: ValidationError| e@) == seq![error@]);
    }
    errors.push(error);
    FieldViolations { field: field.to_owned(), errors }
}

impl NewPart {
    /// What is wrong with this part.
    pub open spec fn violations(&self) -> Seq<FieldViolationsView> {
        new_part_violations(self.part_number@, self.name@)
    }

    /// Checks the rules of a part: it is accepted exactly when neither its
    /// number nor its name is empty, and refused with every violation
    /// otherwise.
    pub fn validate(&self) -> (result: Result<(), ValidationErrors>)
        ensures
            result is Ok <==> self.part_number@.len() >= 1 && self.name@.len() >= 1,
            result matches Err(errors) ==> errors@ == self.violations(),
    {
        let mut fields: Vec<FieldViolations> = Vec::new();
        if self.part_number.as_str().is_empty() {
            let violation = length_error("part_number", "part_number must not be empty");
            proof {
                assert(fields@.push(violation).map_values(|f: FieldViolations| f@) == seq![
                    violation@,
                ]);
            }
            fields.push(violation);
        }
        if self.name.as_str().is_empty() {
            let violation = length_error("name", "name must not be empty");
            proof {
                assert(fields@.push(violation).map_values(|f: FieldViolations| f@)
                    == fields@.map_values(|f: FieldViolations| f@).push(violation@));
            }
            fields.push(violation);
        }
        if fields.len() == 0 {
            Ok(())
        } else {
            let errors = ValidationErrors { fields };
            assert(errors@ == self.violations());
            Err(errors)
        }
    }
}

} // verus!

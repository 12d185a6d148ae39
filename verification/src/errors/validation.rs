//! Violations found in a request body and the reply that lists them.

use vstd::prelude::*;

verus! {

/// Status of a reply to a request that failed validation.
pub const BAD_REQUEST: u16 = 400;

/// One violated rule of one field.
#[derive(Debug)]
pub struct ValidationError {
    /// Which kind of rule was violated, such as `"length"`.
    pub code: String,
    /// The message attached to the rule, if it has one.
    pub message: Option<String>,
}

/// The violations of one field, oldest first.
#[derive(Debug)]
pub struct FieldViolations {
    pub field: String,
    pub errors: Vec<ValidationError>,
}

/// Everything that validation found wrong with a value, field by field.
#[derive(Debug)]
pub struct ValidationErrors {
    pub fields: Vec<FieldViolations>,
}

/// One line of a validation reply.
#[derive(Debug)]
pub struct FieldError {
    pub field: String,
    pub message: String,
}

/// Body of the reply to a request that failed validation.
#[derive(Debug)]
pub struct ValidationErrorResponse {
    pub success: bool,
    pub code: u16,
    pub errors: Vec<FieldError>,
}

/// Mathematical model of a [`ValidationError`].
pub struct ValidationErrorView {
    pub code: Seq<char>,
    pub message: Option<Seq<char>>,
}

/// Mathematical model of a [`FieldViolations`].
pub struct FieldViolationsView {
    pub field: Seq<char>,
    pub errors: Seq<ValidationErrorView>,
}

/// Mathematical model of a [`FieldError`].
pub struct FieldErrorView {
    pub field: Seq<char>,
    pub message: Seq<char>,
}

/// Mathematical model of a [`ValidationErrorResponse`].
pub struct ValidationErrorResponseView {
    pub success: bool,
    pub code: u16,
    pub errors: Seq<FieldErrorView>,
}

impl View for ValidationError {
    type V = ValidationErrorView;

    open spec fn view(&self) -> ValidationErrorView {
        ValidationErrorView {
            code: self.code@,
            message: match self.message {
                Some(m) => Some(m@),
                None => None,
            },
        }
    }
}

impl View for FieldViolations {
    type V = FieldViolationsView;

    open spec fn view(&self) -> FieldViolationsView {
        FieldViolationsView {
            field: self.field@,
            errors: self.errors@.map_values(|e: ValidationError| e@),
        }
    }
}

impl View for ValidationErrors {
    type V = Seq<FieldViolationsView>;

    open spec fn view(&self) -> Seq<FieldViolationsView> {
        self.fields@.map_values(|f: FieldViolations| f@)
    }
}

impl View for FieldError {
    type V = FieldErrorView;

    open spec fn view(&self) -> FieldErrorView {
        FieldErrorView { field: self.field@, message: self.message@ }
    }
}

impl View for ValidationErrorResponse {
    type V = ValidationErrorResponseView;

    open spec fn view(&self) -> ValidationErrorResponseView {
        ValidationErrorResponseView {
            success: self.success,
            code: self.code,
            errors: self.errors@.map_values(|e: FieldError| e@),
        }
    }
}

/// The message shown for a violation: its own, or `"Invalid input"` where
/// the rule carries none.
pub open spec fn shown_message(message: Option<Seq<char>>) -> Seq<char> {
    match message {
        Some(m) => m,
        None => "Invalid input"@,
    }
}

/// The reply lines of one field: one per violation, in order.
pub open spec fn field_lines(group: FieldViolationsView) -> Seq<FieldErrorView> {
    group.errors.map_values(
        |e: ValidationErrorView|
            FieldErrorView { field: group.field, message: shown_message(e.message) },
    )
}

/// The reply lines of all fields: those of the first field, then those of
/// the second, and so on.
pub open spec fn all_lines(groups: Seq<FieldViolationsView>) -> Seq<FieldErrorView>
    decreases groups.len(),
{
    if groups.len() == 0 {
        Seq::empty()
    } else {
        all_lines(groups.drop_last()) + field_lines(groups.last())
    }
}

/// Turns the violations of a value into the body of a `400` reply.
pub fn extract_validation_errors(errors: ValidationErrors) -> (response: ValidationErrorResponse)
    ensures
        response@ == (ValidationErrorResponseView {
            success: false,
            code: BAD_REQUEST,
            errors: all_lines(errors@),
        }),
{
    let mut field_errors: Vec<FieldError> = Vec::new();
    let ghost groups = errors@;
    let mut i: usize = 0;
    while i < errors.fields.len()
        invariant
            i <= errors.fields.len(),
            groups == errors@,
            field_errors@.map_values(|e: FieldError| e@) == all_lines(groups.take(i as int)),
        decreases errors.fields.len() - i,
    {
        let group = &errors.fields[i];
        let ghost before = field_errors@.map_values(|e: FieldError| e@);
        let ghost lines = field_lines(group@);
        let mut j: usize = 0;
        while j < group.errors.len()
            invariant
                j <= group.errors.len(),
                lines == field_lines(group@),
                field_errors@.map_values(|e: FieldError| e@) == before + lines.take(j as int),
            decreases group.errors.len() - j,
        {
            let error = &group.errors[j];
            let message = match &error.message {
                Some(m) => m.clone(),
                None => "Invalid input".to_owned(),
            };
            let line = FieldError { field: group.field.clone(), message };
            proof {
                assert(line@ == lines[j as int]);
                assert(lines.take(j + 1) == lines.take(j as int).push(lines[j as int]));
                assert(field_errors@.push(line).map_values(|e: FieldError| e@)
                    == field_errors@.map_values(|e: FieldError| e@).push(line@));
            }
            field_errors.push(line);
            j += 1;
        }
        proof {
            assert(lines.take(j as int) == lines);
            assert(groups.take(i + 1).drop_last() == groups.take(i as int));
            assert(groups.take(i + 1).last() == group@);
        }
        i += 1;
    }
    proof {
        assert(groups.take(i as int) == groups);
    }
    ValidationErrorResponse { success: false, code: BAD_REQUEST, errors: field_errors }
}

} // verus!

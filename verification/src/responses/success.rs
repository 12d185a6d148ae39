//! Body of a reply that reports a success.

use vstd::prelude::*;

verus! {

/// Status of a reply that carries what was asked for.
pub const OK: u16 = 200;

/// Status of a reply to a request that created something.
pub const CREATED: u16 = 201;

/// Status of a reply that has nothing to carry.
pub const NO_CONTENT: u16 = 204;

/// Body of every success reply.
#[derive(Debug)]
pub struct SuccessResponse<T> {
    pub success: bool,
    pub code: u16,
    pub data: T,
}

impl<T> SuccessResponse<T> {
    /// The body of a `200` reply that carries `data`.
    pub fn ok(data: T) -> (body: Self)
        ensures
            body == (SuccessResponse { success: true, code: OK, data }),
    {
        SuccessResponse { success: true, code: OK, data }
    }

    /// The body of a `201` reply that carries `data`.
    pub fn created(data: T) -> (body: Self)
        ensures
            body == (SuccessResponse { success: true, code: CREATED, data }),
    {
        SuccessResponse { success: true, code: CREATED, data }
    }

    /// The body of a `204` reply. It carries the default value of its type.
    pub fn no_content() -> (body: Self) where T: Default
        ensures
            body.success,
            body.code == NO_CONTENT,
            T::default.ensures((), body.data),
    {
        SuccessResponse { success: true, code: NO_CONTENT, data: T::default() }
    }
}

} // verus!

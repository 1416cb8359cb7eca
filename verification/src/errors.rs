//! The one error type under which every failure reaches the caller.

use vstd::prelude::*;
use crate::point::PointCreateError;
use crate::triangle::{DegenerateTriangleError, TriangleCreateError};

verus! {

/// The error of the standard library's input and output. It is carried, never
/// looked into.
#[verifier::external_type_specification]
#[verifier::external_body]
pub struct ExIoError(std::io::Error);

/// Whatever can go wrong between reading three points and having a triangle.
/// Each layer's error is carried as it came.
#[derive(Debug)]
pub enum AppError {
    Io(std::io::Error),
    PointCreate(PointCreateError),
    TriangleCreate(TriangleCreateError),
    DegenerateTriangle(DegenerateTriangleError),
}

impl From<std::io::Error> for AppError {
    fn from(err: std::io::Error) -> (r: AppError) {
        AppError::Io(err)
    }
}

impl vstd::std_specs::convert::FromSpecImpl<std::io::Error> for AppError {
    open spec fn obeys_from_spec() -> bool {
        true
    }

    open spec fn from_spec(err: std::io::Error) -> AppError {
        AppError::Io(err)
    }
}

impl From<PointCreateError> for AppError {
    fn from(err: PointCreateError) -> (r: AppError) {
        AppError::PointCreate(err)
    }
}

impl vstd::std_specs::convert::FromSpecImpl<PointCreateError> for AppError {
    open spec fn obeys_from_spec() -> bool {
        true
    }

    open spec fn from_spec(err: PointCreateError) -> AppError {
        AppError::PointCreate(err)
    }
}

impl From<TriangleCreateError> for AppError {
    fn from(err: TriangleCreateError) -> (r: AppError) {
        AppError::TriangleCreate(err)
    }
}

impl vstd::std_specs::convert::FromSpecImpl<TriangleCreateError> for AppError {
    open spec fn obeys_from_spec() -> bool {
        true
    }

    open spec fn from_spec(err: TriangleCreateError) -> AppError {
        AppError::TriangleCreate(err)
    }
}

impl From<DegenerateTriangleError> for AppError {
    fn from(err: DegenerateTriangleError) -> (r: AppError) {
        AppError::DegenerateTriangle(err)
    }
}

impl vstd::std_specs::convert::FromSpecImpl<DegenerateTriangleError> for AppError {
    open spec fn obeys_from_spec() -> bool {
        true
    }

    open spec fn from_spec(err: DegenerateTriangleError) -> AppError {
        AppError::DegenerateTriangle(err)
    }
}

} // verus!

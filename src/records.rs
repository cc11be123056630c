//! The shapes of the response bodies, as the API document describes them:
//! the records of the complex payload, their fields, and each route's body.

use vstd::prelude::*;
use crate::routes::Route;

verus! {

/// A scalar field type.
#[derive(PartialEq, Eq, Structural, Clone, Copy, Debug)]
pub enum Scalar {
    Text,
    Boolean,
    Int32,
}

/// A named record type of the complex payload.
#[derive(PartialEq, Eq, Structural, Clone, Copy, Debug)]
pub enum Record {
    ComplexData,
    MyStruct,
}

/// The type of one record field: a scalar, or a list of records.
#[derive(PartialEq, Eq, Structural, Clone, Copy, Debug)]
pub enum FieldType {
    Scalar(Scalar),
    ListOf(Record),
}

/// The shape of a route's response body.
#[derive(PartialEq, Eq, Structural, Clone, Copy, Debug)]
pub enum BodyShape {
    Text,
    ListOf(Record),
}

/// The name a record is documented under.
pub open spec fn record_name(r: Record) -> Seq<char> {
    match r {
        Record::ComplexData => "ComplexData"@,
        Record::MyStruct => "MyStruct"@,
    }
}

/// The fields of a record, in declaration order; all of them are required.
pub open spec fn record_fields(r: Record) -> Seq<(Seq<char>, FieldType)> {
    match r {
        Record::ComplexData => seq![("data"@, FieldType::ListOf(Record::MyStruct))],
        Record::MyStruct => seq![
            ("my_string"@, FieldType::Scalar(Scalar::Text)),
            ("my_bool"@, FieldType::Scalar(Scalar::Boolean)),
            ("my_int"@, FieldType::Scalar(Scalar::Int32)),
        ],
    }
}

/// The documented shape of each route's body.
pub open spec fn route_body_shape(r: Route) -> BodyShape {
    match r {
        Route::ApiDocs => BodyShape::Text,
        Route::HelloWorld => BodyShape::Text,
        Route::ComplexData => BodyShape::ListOf(Record::ComplexData),
    }
}

impl Record {
    /// The name this record is documented under.
    pub fn name(&self) -> (r: &'static str)
        ensures
            r@ == record_name(*self),
    {
        match self {
            Record::ComplexData => "ComplexData",
            Record::MyStruct => "MyStruct",
        }
    }

    /// The fields of this record, in declaration order.
    pub fn fields(&self) -> (r: Vec<(&'static str, FieldType)>)
        ensures
            r@.len() == record_fields(*self).len(),
            forall|i: int|
                0 <= i < r@.len() ==> (#[trigger] r@[i]).0@ == record_fields(*self)[i].0
                    && r@[i].1 == record_fields(*self)[i].1,
    {
        match self {
            Record::ComplexData => vec![("data", FieldType::ListOf(Record::MyStruct))],
            Record::MyStruct => vec![
                ("my_string", FieldType::Scalar(Scalar::Text)),
                ("my_bool", FieldType::Scalar(Scalar::Boolean)),
                ("my_int", FieldType::Scalar(Scalar::Int32)),
            ],
        }
    }
}

impl Route {
    /// The documented shape of this route's body.
    pub fn body_shape(&self) -> (r: BodyShape)
        ensures
            r == route_body_shape(*self),
    {
        match self {
            Route::ComplexData => BodyShape::ListOf(Record::ComplexData),
            _ => BodyShape::Text,
        }
    }
}

} // verus!

//! Query execution and type marshalling for a SQL gateway: statement
//! classification, parameter binding as text, and conversion of driver
//! column values to a generic wire value.

pub mod value;
pub mod statement;
pub mod column;
pub mod executor;

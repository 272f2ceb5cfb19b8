//! The Europass credential model, the controlled vocabularies that its
//! fields are drawn from, and the engine that maps an attainment record of a
//! university's student information system onto a credential.
//!
//! - [`vocabulary`], [`controlled_vocabularies`],
//!   [`european_qualifications_framework`],
//!   [`national_qualification_frameworks`], [`sisu_vocabularies`] and
//!   [`registry`]: closed tables of codes and their exact lookup;
//!   [`table_laws`]: that the tables of currencies and units list no code
//!   twice.
//! - [`calendar`], [`decimal`] and [`value_types`]: validated primitives.
//! - [`europass_learning_model`]: the entities of a credential.
//! - [`sisu_attainment`] and [`mapping`]: the source record and its mapping.
//! - [`errors`]: what can go wrong.

pub mod vocabulary;
pub mod calendar;
pub mod decimal;
pub mod errors;
pub mod value_types;
pub mod europass_learning_model;
pub mod controlled_vocabularies;
pub mod european_qualifications_framework;
pub mod national_qualification_frameworks;
pub mod sisu_vocabularies;
pub mod registry;
pub mod table_laws;
pub mod sisu_attainment;
pub mod mapping;

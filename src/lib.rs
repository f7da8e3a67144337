//! Typed object model of an asset administration shell environment: validated
//! text primitives, the tagged value union, references and keys, the attribute
//! mixins and the submodel element tree, with their mapping to and from a JSON
//! document tree.

pub mod text;
pub mod primitives;
pub mod json;
pub mod lexical;
pub mod data_xsd;
pub mod key;
pub mod reference;
pub mod lang_string;
pub mod id_short;
pub mod codec;
pub mod attributes;
pub mod elements;
pub mod model;
pub mod annotated;
pub mod metamodel;
pub mod tree;
pub mod core_model;

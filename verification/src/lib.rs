//! Emitter for Cocos Studio `.csd` scene documents.
//!
//! A scene is a tree of [`node::UiNode`] values whose geometry has already
//! been resolved to text; [`cocos::CocosBackend::emit_document`] turns the
//! tree into the XML document that Cocos Studio reads.

pub mod text;
pub mod xml;
pub mod attrs;
pub mod node;
pub mod cocos;
pub mod emit;

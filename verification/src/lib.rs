//! Verified core of a PDF-page-to-PNG rendering layer.
//!
//! The layer sits between a caller and two native engines: a document
//! engine that parses PDF files and hands out page objects, and a 2D
//! rasterization engine that paints a page onto a pixel surface and
//! encodes that surface as PNG. Every object those engines hand back is
//! a foreign-owned handle that must be released exactly once, and every
//! call signals failure through its own side channel (an out-parameter
//! error object, a null return, or a sentinel status code).
//!
//! This crate holds the part of that layer that can be stated and
//! proved: the bridge that turns the engines' failure signals into one
//! structured error type, the growable byte sink that collects a
//! streamed PNG encode, the fixed-point geometry that sizes the pixel
//! surface, the document and page records with their lookup rules, the
//! render pipeline as a step-by-step plan whose teardown ordering is
//! part of its contract, and the decision core of the flat export
//! surface a host process calls through.
//!
//! The native calls themselves are left to an unverified shim: it asks
//! the pipeline here what to do next, performs the one native call that
//! the answer names, and reports the observed outcome back.

pub mod bridge;
pub mod cpath;
pub mod error;
pub mod exports;
pub mod document;
pub mod geometry;
pub mod page;
pub mod render;
pub mod sink;

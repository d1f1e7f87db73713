//! The verified core of a PHP extension that compiles SCSS / Sass to CSS with
//! the `sasso` compiler: the fluent compiler configuration, the checks of its
//! numeric style and syntax codes, the routing of `@import` / `@use` requests
//! between a userland importer and the load-path fallback, and the decision of
//! what a finished compilation hands back to PHP.

pub mod decimal;
pub mod codes;
pub mod engine;
pub mod compiler;
pub mod bridge;
pub mod laws;


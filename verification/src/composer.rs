//! The parts of a project's `composer.json` that the tool reads.

use vstd::prelude::*;

verus! {

/// The `require` section of `composer.json`.
pub struct Require {
    /// The PHP version constraint, such as `"^8.1"` or `"^7.4|^8.0"`.
    pub php: String,
}

/// The fields of `composer.json` that the tool reads.
pub struct Composer {
    /// The package name, such as `"vendor/package"`.
    pub name: String,
    pub require: Require,
}

} // verus!

//! Typical payload sizes of common messages, as pre-allocation hints.

use vstd::prelude::*;

verus! {

/// 10-level order book in JSON.
pub const JSON_BOOK_10_LEVELS: usize = 1800;

/// 25-level order book in JSON.
pub const JSON_BOOK_25_LEVELS: usize = 4200;

/// 50-level order book in JSON.
pub const JSON_BOOK_50_LEVELS: usize = 8300;

/// 10-level order book in Bincode.
pub const BINCODE_BOOK_10_LEVELS: usize = 600;

/// 25-level order book in Bincode.
pub const BINCODE_BOOK_25_LEVELS: usize = 1400;

/// 50-level order book in Bincode.
pub const BINCODE_BOOK_50_LEVELS: usize = 2700;

/// Alpha signal in JSON.
pub const JSON_ALPHA_SIGNAL: usize = 500;

} // verus!

use vstd::prelude::*;

verus! {

/// Pagination struct used by Bunny.net API
#[derive(Debug, Clone, PartialEq, Eq)]
pub struct Pagination<T> {
    /// Vector of type T
    pub items: Vec<T>,
    /// Current page number
    pub current_page: i32,
    /// Total amount of type T
    pub total_items: i32,
    /// Has more items
    pub has_more_items: bool,
}

} // verus!

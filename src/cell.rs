//! Trusted access to `once_cell`'s thread-safe set-once cell, holding text.

use vstd::prelude::*;
use once_cell::sync::OnceCell;

verus! {

#[verifier::external_type_specification]
#[verifier::external_body]
#[verifier::reject_recursive_types(T)]
pub struct ExOnceCell<T>(OnceCell<T>);

/// The text that a cell of strings holds: `None` while the cell is empty.
pub uninterp spec fn cell_text(c: OnceCell<String>) -> Option<Seq<char>>;

/// Relies on `once_cell::sync::OnceCell::new`: the new cell is empty.
#[verifier::external_body]
pub(crate) fn empty_cell() -> (r: OnceCell<String>)
    ensures
        cell_text(r) is None,
{
    OnceCell::new()
}

/// Relies on `once_cell::sync::OnceCell::get`: the contents, or `None` while
/// the cell is empty. The exclusive borrow that every writer here takes rules
/// out an initialisation in flight while a shared borrow exists.
#[verifier::external_body]
pub(crate) fn cell_get(c: &OnceCell<String>) -> (r: Option<&String>)
    ensures
        match r {
            Some(s) => cell_text(*c) == Some(s@),
            None => cell_text(*c) is None,
        },
{
    c.get()
}

/// Relies on `once_cell::sync::OnceCell::set`: an empty cell takes the value
/// and `Ok(())` comes back; a full cell is left as it was and the value is
/// handed back in `Err`.
#[verifier::external_body]
pub(crate) fn cell_set(c: &mut OnceCell<String>, v: String) -> (r: Result<(), String>)
    ensures
        (r is Ok) == (cell_text(*old(c)) is None),
        r is Ok ==> cell_text(*final(c)) == Some(v@),
        r matches Err(w) ==> w == v,
        r is Err ==> cell_text(*final(c)) == cell_text(*old(c)),
{
    c.set(v)
}

} // verus!

use std::cell::{BorrowError, BorrowMutError, Ref, RefCell, RefMut};
use std::rc::Rc;
use vstd::prelude::*;

verus! {

#[verifier::external_type_specification]
#[verifier::external_body]
#[verifier::reject_recursive_types(T)]
pub struct ExRefCell<T: ?Sized>(RefCell<T>);

#[verifier::external_type_specification]
#[verifier::external_body]
#[verifier::reject_recursive_types(T)]
pub struct ExRef<'b, T: ?Sized>(Ref<'b, T>);

#[verifier::external_type_specification]
#[verifier::external_body]
#[verifier::reject_recursive_types(T)]
pub struct ExRefMut<'b, T: ?Sized + 'b>(RefMut<'b, T>);

#[verifier::external_type_specification]
#[verifier::external_body]
pub struct ExBorrowError(BorrowError);

#[verifier::external_type_specification]
#[verifier::external_body]
pub struct ExBorrowMutError(BorrowMutError);

pub assume_specification<T>[ RefCell::<T>::new ](value: T) -> RefCell<T>;

/// Relies on `Rc::strong_count`: the number of `Rc` pointers to the
/// allocation, of which `rc` is one.
#[verifier::external_body]
fn rc_strong_count<T>(rc: &Rc<RefCell<T>>) -> (r: usize)
    ensures
        r >= 1,
{
    Rc::strong_count(rc)
}

/// Relies on `RefCell::try_borrow`: a shared borrow, or an error while the
/// value is mutably borrowed.
#[verifier::external_body]
fn cell_try_borrow<T>(cell: &RefCell<T>) -> (r: Result<Ref<'_, T>, BorrowError>) {
    cell.try_borrow()
}

/// Relies on `RefCell::try_borrow_mut`: an exclusive borrow, or an error
/// while the value is borrowed.
#[verifier::external_body]
fn cell_try_borrow_mut<T>(cell: &RefCell<T>) -> (r: Result<RefMut<'_, T>, BorrowMutError>) {
    cell.try_borrow_mut()
}

/// A value shared by reference counting, borrowed at run time.
#[verifier::reject_recursive_types(T)]
pub struct RcCell<T> {
    value: Rc<RefCell<T>>,
}

impl<T> RcCell<T> {
    /// Share `value`.
    pub fn new(value: T) -> (r: RcCell<T>) {
        RcCell { value: Rc::new(RefCell::new(value)) }
    }

    /// The count of strong references to the shared value.
    pub fn strong_count(&self) -> (r: usize)
        ensures
            r >= 1,
    {
        rc_strong_count(&self.value)
    }

    /// A shared borrow of the value, or `None` while it is mutably borrowed.
    pub fn as_ref(&self) -> (r: Option<Ref<'_, T>>) {
        match cell_try_borrow(&self.value) {
            Ok(b) => Some(b),
            Err(_) => None,
        }
    }

    /// An exclusive borrow of the value, or `None` while it is borrowed.
    pub fn as_mut(&self) -> (r: Option<RefMut<'_, T>>) {
        match cell_try_borrow_mut(&self.value) {
            Ok(b) => Some(b),
            Err(_) => None,
        }
    }
}

impl<T> Clone for RcCell<T> {
    /// Another reference to the same shared value.
    fn clone(&self) -> (r: Self) {
        RcCell { value: Rc::clone(&self.value) }
    }
}

} // verus!

//! A generic create/read interface over a single stored value.

use vstd::prelude::*;

verus! {

/// Creating and reading records of type `T`.
pub trait CrudOps<T> {
    /// Stores `data`.
    fn create(&mut self, data: T) -> Result<(), String>;

    /// Reads the record with the given id.
    fn read(&self, id: i32) -> Result<T, String>;
}

/// A user known by its id.
#[derive(Debug, Clone, Copy, PartialEq, Eq, Structural)]
pub struct User {
    pub id: i32,
}

/// A store holding one value.
#[derive(Debug, Clone, Copy)]
pub struct Crud<T> {
    pub data: T,
}

impl<T: Copy> CrudOps<T> for Crud<T> {
    /// Replaces the stored value; never fails.
    fn create(&mut self, data: T) -> (r: Result<(), String>)
        ensures
            final(self).data == data,
            r is Ok,
    {
        self.data = data;
        Ok(())
    }

    /// The stored value, whatever the id; never fails.
    fn read(&self, id: i32) -> (r: Result<T, String>)
        ensures
            r == Ok::<T, String>(self.data),
    {
        Ok(self.data)
    }
}

/// Reads back user 4 from a store that holds it.
pub fn mm() -> (r: Result<User, String>)
    ensures
        r == Ok::<User, String>(User { id: 4 }),
{
    let crud = Crud::<User> { data: User { id: 4 } };
    crud.read(4)
}

} // verus!

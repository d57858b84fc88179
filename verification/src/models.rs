//! Plain data rows exchanged with the store and the system probe.

use vstd::prelude::*;

verus! {

/// One user row of the store.
#[derive(Debug)]
pub struct User {
    pub id: i32,
    pub name: String,
    pub email: String,
    pub role: String,
    pub status: String,
}

/// A summary of the store.
#[derive(Debug)]
pub struct DbStats {
    pub users: i64,
    pub tables: Vec<String>,
    pub size: String,
}

/// What the system probe reports.
#[derive(Debug)]
pub struct SystemInfo {
    pub cpu: String,
    pub memory: String,
    pub os: String,
}

impl Clone for User {
    /// A clone is equal to the original.
    fn clone(&self) -> (res: Self)
        ensures
            res == *self,
    {
        User {
            id: self.id,
            name: self.name.clone(),
            email: self.email.clone(),
            role: self.role.clone(),
            status: self.status.clone(),
        }
    }
}

impl Clone for SystemInfo {
    /// A clone is equal to the original.
    fn clone(&self) -> (res: Self)
        ensures
            res == *self,
    {
        SystemInfo { cpu: self.cpu.clone(), memory: self.memory.clone(), os: self.os.clone() }
    }
}

} // verus!

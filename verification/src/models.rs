use vstd::prelude::*;

verus! {

/// A student about to be registered, before a fingerprint slot is assigned.
#[derive(Debug)]
pub struct NewStudent {
    pub name: String,
    pub student_id: String,
}

/// A registered student together with the fingerprint slot assigned to them
/// and whether they have taken attendance.
#[derive(Debug)]
pub struct Student {
    pub name: String,
    pub student_id: String,
    pub fingerprint_id: i64,
    pub attendance: bool,
}

} // verus!

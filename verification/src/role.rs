use vstd::prelude::*;

verus! {

/// The fixed set of roles a user of the portal can hold.
///
/// Every account has exactly one role; authorization is a plain comparison
/// of the caller's role against the role an endpoint requires.
#[derive(Debug, Clone, Copy, PartialEq, Eq, Structural)]
pub enum Role {
    Trainee,
    Trainer,
    Admin,
}

/// Names, at the type level, the one role that a guarded route admits.
pub trait RoleMarker {
    const ROLE: Role;
}

/// Marker for routes reserved to administrators.
pub struct Admin;

impl RoleMarker for Admin {
    const ROLE: Role = Role::Admin;
}

/// Marker for routes reserved to trainers.
pub struct Trainer;

impl RoleMarker for Trainer {
    const ROLE: Role = Role::Trainer;
}

/// Marker for routes reserved to trainees.
pub struct Trainee;

impl RoleMarker for Trainee {
    const ROLE: Role = Role::Trainee;
}

} // verus!

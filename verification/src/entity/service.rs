/// The Agent Management System.
pub mod ams;
/// Organizations of agents.
pub mod organization;

pub use ams::AmsConditions;

use vstd::prelude::*;

verus! {

/// This trait defines a set of boolean functions whose purpose is to specify
///  under which conditions any service entity should provide its services:
///
///  - Search
///  - Modification
///  - Registration
///  - Deregistration
///
/// Whenever the internal directory is referenced, it corresponds to
///  the White Pages directory for requests aimed at the AMS.
pub trait ServiceConditions {
    /// Whether or not it is possible to search an agent in the internal directory;
    fn search_condition(&self) -> (granted: bool)
        default_ensures
            granted,
    {
        true
    }

    /// Whether or not it is possible to modify an agent registered in the internal directory;
    fn modification_condition(&self) -> (granted: bool)
        default_ensures
            granted,
    {
        true
    }

    /// Whether or not it is possible to register an agent to the internal directory;
    fn registration_condition(&self) -> (granted: bool)
        default_ensures
            granted,
    {
        true
    }

    /// Whether or not it is possible to deregister an agent from the internal directory;
    fn deregistration_condition(&self) -> (granted: bool)
        default_ensures
            granted,
    {
        true
    }
}

/// Conditions that grant every service.
#[derive(Debug, Clone, Copy, Default)]
pub struct DefaultConditions;

impl ServiceConditions for DefaultConditions {
    fn search_condition(&self) -> (granted: bool)
        ensures
            granted,
    {
        true
    }

    fn modification_condition(&self) -> (granted: bool)
        ensures
            granted,
    {
        true
    }

    fn registration_condition(&self) -> (granted: bool)
        ensures
            granted,
    {
        true
    }

    fn deregistration_condition(&self) -> (granted: bool)
        ensures
            granted,
    {
        true
    }
}

impl AmsConditions for DefaultConditions {
    fn suspension_condition(&self) -> (granted: bool)
        ensures
            granted,
    {
        true
    }

    fn resumption_condition(&self) -> (granted: bool)
        ensures
            granted,
    {
        true
    }

    fn termination_condition(&self) -> (granted: bool)
        ensures
            granted,
    {
        true
    }
}

} // verus!

//! One record of a waiting-list patient: identifying and medical attributes,
//! a mutable waitlist rank, and a mutable alert flag.

use vstd::prelude::*;

verus! {

/// A single patient record held by the waitlist registry.
///
/// The identifying and medical attributes are opaque to the ranking engine;
/// only `waitlist_rank` and `alert_status` are mutated after creation, and
/// `id` is the record's identity within a registry.
#[allow(non_camel_case_types)]
#[derive(Debug, PartialEq, Eq)]
pub struct Spreaded_cadaver_kidney_waitlist_rec {
    /// Classifies the identifier scheme of `id`.
    pub id_type: String,
    /// Unique per patient within a registry; never changes after creation.
    pub id: String,
    pub name: String,
    pub gender: String,
    /// Non-negative by construction of the type.
    pub age: u32,
    pub blood_group: String,
    pub phone: String,
    pub email: String,
    pub address: String,
    /// True once the patient has been notified of an allocation event and
    /// until that notification is acknowledged.
    pub alert_status: bool,
    /// Position in allocation priority order; rank 1 is the highest priority.
    pub waitlist_rank: usize,
}

impl Spreaded_cadaver_kidney_waitlist_rec {
    /// Builds a record from its attribute values and an initial rank.
    /// A fresh record has not been notified of anything, so its alert
    /// flag starts out false.
    pub fn new(
        id_type: String,
        id: String,
        name: String,
        gender: String,
        age: u32,
        blood_group: String,
        phone: String,
        email: String,
        address: String,
        waitlist_rank: usize,
    ) -> (r: Self)
        ensures
            r == (Spreaded_cadaver_kidney_waitlist_rec {
                id_type,
                id,
                name,
                gender,
                age,
                blood_group,
                phone,
                email,
                address,
                alert_status: false,
                waitlist_rank,
            }),
    {
        Spreaded_cadaver_kidney_waitlist_rec {
            id_type,
            id,
            name,
            gender,
            age,
            blood_group,
            phone,
            email,
            address,
            alert_status: false,
            waitlist_rank,
        }
    }
}

} // verus!

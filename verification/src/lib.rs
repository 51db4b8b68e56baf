//! A cadaveric-organ waitlist registry: an ordered collection of patient
//! records, each carrying a rank and an alert flag, with registration,
//! allocation, and query operations that keep rank ordering, alert flags,
//! and record identity coherent across every mutation.

mod laws;
mod record;
mod registry;

pub use laws::has_rank;
pub use laws::lemma_rank_contiguity;
pub use laws::lemma_reset_alert_idempotent;
pub use record::Spreaded_cadaver_kidney_waitlist_rec;
pub use registry::CadavericKidneyWaitlist;
pub use registry::Error;
pub use registry::after_allocation;
pub use registry::contains_id;
pub use registry::index_of_id;
pub use registry::lemma_index_of_id_unique;
pub use registry::ranks_contiguous;
pub use registry::reset_alert_spec;
pub use registry::unique_ids;

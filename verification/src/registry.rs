//! The waitlist registry: an ordered sequence of patient records kept in
//! ascending rank order, with registration, allocation, and query operations.

use vstd::prelude::*;

use crate::record::Spreaded_cadaver_kidney_waitlist_rec;

verus! {

/// The error conditions of the registry's operations. All of them are
/// detected before any record is mutated, so a failed operation leaves
/// the registry exactly as it was.
#[derive(Debug, Clone, Copy, PartialEq, Eq, Structural)]
pub enum Error {
    /// Registration was attempted with an `id` already present.
    DuplicateIdentifier,
    /// A lookup, reset, or rank query named an `id` that is absent.
    NotFound,
    /// Allocation was attempted while the registry holds no records.
    EmptyWaitlist,
}

/// True when `id` is the identifier of some record in `s`.
pub open spec fn contains_id(s: Seq<Spreaded_cadaver_kidney_waitlist_rec>, id: Seq<char>) -> bool {
    exists|i: int| 0 <= i < s.len() && #[trigger] s[i].id@ == id
}

/// The index of the record with identifier `id`; meaningful only when
/// `contains_id(s, id)` holds and the identifiers of `s` are unique.
pub open spec fn index_of_id(s: Seq<Spreaded_cadaver_kidney_waitlist_rec>, id: Seq<char>) -> int {
    choose|i: int| 0 <= i < s.len() && #[trigger] s[i].id@ == id
}

/// No two records of `s` share an identifier.
pub open spec fn unique_ids(s: Seq<Spreaded_cadaver_kidney_waitlist_rec>) -> bool {
    forall|i: int, j: int| 0 <= i < j < s.len() ==> s[i].id@ != s[j].id@
}

/// The record at position `i` carries rank `i + 1`: the ranks of `s` are
/// exactly `1, ..., len`, in order, with no duplicates and no gaps.
pub open spec fn ranks_contiguous(s: Seq<Spreaded_cadaver_kidney_waitlist_rec>) -> bool {
    forall|i: int| 0 <= i < s.len() ==> #[trigger] s[i].waitlist_rank == i + 1
}

/// What resetting the alert of `id` does to a sequence of records: the one
/// record carrying `id` has its alert flag cleared and every other record —
/// and the identity, rank, and attributes of that record — are untouched.
/// A sequence without `id` is left as it is.
pub open spec fn reset_alert_spec(
    s: Seq<Spreaded_cadaver_kidney_waitlist_rec>,
    id: Seq<char>,
) -> Seq<Spreaded_cadaver_kidney_waitlist_rec> {
    if contains_id(s, id) {
        let i = index_of_id(s, id);
        s.update(i, Spreaded_cadaver_kidney_waitlist_rec { alert_status: false, ..s[i] })
    } else {
        s
    }
}

/// In a sequence with unique identifiers, `index_of_id` is the one position
/// that carries `id`.
pub proof fn lemma_index_of_id_unique(
    s: Seq<Spreaded_cadaver_kidney_waitlist_rec>,
    id: Seq<char>,
    i: int,
)
    requires
        unique_ids(s),
        0 <= i < s.len(),
        s[i].id@ == id,
    ensures
        index_of_id(s, id) == i,
{
    assert(contains_id(s, id));
    let k = index_of_id(s, id);
    assert(0 <= k < s.len() && s[k].id@ == id);
}

/// How allocation rewrites each record that stays behind: its rank moves up
/// by one (the organ went to the record ahead of it) and its alert flag is
/// set, because the patient is notified of the allocation event. Identity
/// and all other attributes are untouched.
pub open spec fn after_allocation(
    r: Spreaded_cadaver_kidney_waitlist_rec,
) -> Spreaded_cadaver_kidney_waitlist_rec {
    Spreaded_cadaver_kidney_waitlist_rec {
        waitlist_rank: (r.waitlist_rank - 1) as usize,
        alert_status: true,
        ..r
    }
}

/// The whole waiting list, ordered by ascending `waitlist_rank`
/// (rank 1 first, the next to receive an organ).
pub struct CadavericKidneyWaitlist {
    records: Vec<Spreaded_cadaver_kidney_waitlist_rec>,
}

impl View for CadavericKidneyWaitlist {
    type V = Seq<Spreaded_cadaver_kidney_waitlist_rec>;

    closed spec fn view(&self) -> Seq<Spreaded_cadaver_kidney_waitlist_rec> {
        self.records@
    }
}

impl CadavericKidneyWaitlist {
    /// The registry's invariant, established by the constructor and kept by
    /// every operation: ranks are exactly `{1, ..., N}` in sequence order,
    /// and identifiers are unique.
    pub open spec fn wf(&self) -> bool {
        ranks_contiguous(self@) && unique_ids(self@)
    }

    /// Constructs an empty registry.
    pub fn default() -> (r: Self)
        ensures
            r.wf(),
            r@.len() == 0,
    {
        CadavericKidneyWaitlist { records: Vec::new() }
    }

    /// Finds the position of the record whose identifier is `id`, if any.
    fn position_of(&self, id: &String) -> (r: Option<usize>)
        ensures
            match r {
                Some(i) => i < self@.len() && self@[i as int].id@ == id@,
                None => !contains_id(self@, id@),
            },
    {
        let n: usize = self.records.len();
        let mut i: usize = 0;
        while i < n
            invariant
                i <= n,
                n == self@.len(),
                forall|j: int| 0 <= j < i ==> #[trigger] self@[j].id@ != id@,
            decreases n - i,
        {
            if self.records[i].id == *id {
                return Some(i);
            }
            i = i + 1;
        }
        None
    }

    /// Adds a new patient to the waiting list. The record is appended at the
    /// lowest priority, rank `N + 1` for a registry of `N` records, with its
    /// alert flag clear; no existing record changes. Fails with
    /// `DuplicateIdentifier`, leaving the registry untouched, exactly when
    /// `id` is already present.
    pub fn register(
        &mut self,
        id_type: String,
        id: String,
        name: String,
        gender: String,
        age: u32,
        blood_group: String,
        phone: String,
        email: String,
        address: String,
    ) -> (r: Result<(), Error>)
        requires
            old(self).wf(),
            old(self)@.len() < usize::MAX,
        ensures
            final(self).wf(),
            contains_id(old(self)@, id@) ==> {
                &&& r == Err::<(), Error>(Error::DuplicateIdentifier)
                &&& final(self)@ == old(self)@
            },
            !contains_id(old(self)@, id@) ==> {
                &&& r == Ok::<(), Error>(())
                &&& final(self)@ == old(self)@.push(Spreaded_cadaver_kidney_waitlist_rec {
                    id_type,
                    id,
                    name,
                    gender,
                    age,
                    blood_group,
                    phone,
                    email,
                    address,
                    alert_status: false,
                    waitlist_rank: (old(self)@.len() + 1) as usize,
                })
            },
    {
        if self.position_of(&id).is_some() {
            return Err(Error::DuplicateIdentifier);
        }
        let rank: usize = self.records.len() + 1;
        let rec = Spreaded_cadaver_kidney_waitlist_rec::new(
            id_type,
            id,
            name,
            gender,
            age,
            blood_group,
            phone,
            email,
            address,
            rank,
        );
        self.records.push(rec);
        Ok(())
    }

    /// Allocates the available organ to the highest-priority patient: removes
    /// the record with rank 1 and returns it, and in the same transaction
    /// moves every remaining record's rank up by one — restoring the
    /// contiguous `1, ..., N - 1` ranks — and sets every remaining record's
    /// alert flag. Fails with `EmptyWaitlist`, leaving the registry untouched,
    /// exactly when the registry holds no records.
    pub fn allocate(&mut self) -> (r: Result<Spreaded_cadaver_kidney_waitlist_rec, Error>)
        requires
            old(self).wf(),
        ensures
            final(self).wf(),
            old(self)@.len() == 0 ==> {
                &&& r is Err
                &&& r->Err_0 == Error::EmptyWaitlist
                &&& final(self)@ == old(self)@
            },
            old(self)@.len() > 0 ==> {
                &&& r is Ok
                &&& r->Ok_0 == old(self)@[0]
                &&& final(self)@.len() == old(self)@.len() - 1
                &&& forall|j: int|
                    0 <= j < final(self)@.len() ==> final(self)@[j] == after_allocation(
                        old(self)@[j + 1],
                    )
                &&& !contains_id(final(self)@, old(self)@[0].id@)
            },
    {
        if self.records.len() == 0 {
            return Err(Error::EmptyWaitlist);
        }
        let ghost orig = self.records@;
        let removed = self.records.remove(0);
        let n: usize = self.records.len();
        let mut i: usize = 0;
        while i < n
            invariant
                i <= n,
                n == self@.len(),
                self@.len() == orig.len() - 1,
                ranks_contiguous(orig),
                forall|j: int| 0 <= j < i ==> self@[j] == after_allocation(orig[j + 1]),
                forall|j: int| i <= j < n ==> self@[j] == orig[j + 1],
            decreases n - i,
        {
            let prev: usize = self.records[i].waitlist_rank;
            self.records[i].waitlist_rank = prev - 1;
            self.records[i].alert_status = true;
            i = i + 1;
        }
        Ok(removed)
    }

    /// Clears the alert flag of the record carrying `id`, acknowledging that
    /// the notified patient has been contacted; nothing else changes. Fails
    /// with `NotFound`, leaving the registry untouched, exactly when `id` is
    /// absent. Resetting an already-clear flag succeeds and changes nothing.
    pub fn reset_alert(&mut self, id: &String) -> (r: Result<(), Error>)
        requires
            old(self).wf(),
        ensures
            final(self).wf(),
            final(self)@ == reset_alert_spec(old(self)@, id@),
            contains_id(old(self)@, id@) ==> r == Ok::<(), Error>(()),
            !contains_id(old(self)@, id@) ==> {
                &&& r is Err
                &&& r->Err_0 == Error::NotFound
            },
    {
        match self.position_of(id) {
            Some(i) => {
                proof {
                    lemma_index_of_id_unique(self@, id@, i as int);
                }
                self.records[i].alert_status = false;
                Ok(())
            },
            None => Err(Error::NotFound),
        }
    }

    /// Reads the alert flag of the record carrying `id`. Fails with
    /// `NotFound` exactly when `id` is absent.
    pub fn get_alert_status(&self, id: &String) -> (r: Result<bool, Error>)
        requires
            self.wf(),
        ensures
            contains_id(self@, id@) ==> {
                &&& r is Ok
                &&& r->Ok_0 == self@[index_of_id(self@, id@)].alert_status
            },
            !contains_id(self@, id@) ==> {
                &&& r is Err
                &&& r->Err_0 == Error::NotFound
            },
    {
        match self.position_of(id) {
            Some(i) => {
                proof {
                    lemma_index_of_id_unique(self@, id@, i as int);
                }
                Ok(self.records[i].alert_status)
            },
            None => Err(Error::NotFound),
        }
    }

    /// Reads the current rank of the record carrying `id`; under the
    /// registry's invariant that is one more than the record's position.
    /// Fails with `NotFound` exactly when `id` is absent.
    pub fn rank_of(&self, id: &String) -> (r: Result<usize, Error>)
        requires
            self.wf(),
        ensures
            contains_id(self@, id@) ==> {
                &&& r is Ok
                &&& r->Ok_0 == self@[index_of_id(self@, id@)].waitlist_rank
                &&& r->Ok_0 == index_of_id(self@, id@) + 1
            },
            !contains_id(self@, id@) ==> {
                &&& r is Err
                &&& r->Err_0 == Error::NotFound
            },
    {
        match self.position_of(id) {
            Some(i) => {
                proof {
                    lemma_index_of_id_unique(self@, id@, i as int);
                }
                Ok(self.records[i].waitlist_rank)
            },
            None => Err(Error::NotFound),
        }
    }
}

} // verus!

//! Registry-wide laws, stated and proved over the registry's model: every
//! operation's contract keeps the registry well formed, and these lemmas say
//! what well-formedness and the reset transition guarantee on their own.

use vstd::prelude::*;

use crate::record::Spreaded_cadaver_kidney_waitlist_rec;
use crate::registry::CadavericKidneyWaitlist;
use crate::registry::contains_id;
use crate::registry::index_of_id;
use crate::registry::lemma_index_of_id_unique;
use crate::registry::reset_alert_spec;
use crate::registry::unique_ids;

verus! {

/// True when some record of `s` carries rank `k`.
pub open spec fn has_rank(s: Seq<Spreaded_cadaver_kidney_waitlist_rec>, k: int) -> bool {
    exists|i: int| 0 <= i < s.len() && #[trigger] s[i].waitlist_rank == k
}

/// Rank contiguity: in any well-formed registry — and every operation's
/// contract ends in one — the multiset of `waitlist_rank` values is exactly
/// `{1, ..., N}`: every rank lies in `1 ..= N`, no two records share a rank,
/// and every value of `1 ..= N` is some record's rank.
pub proof fn lemma_rank_contiguity(w: &CadavericKidneyWaitlist)
    requires
        w.wf(),
    ensures
        forall|i: int| 0 <= i < w@.len() ==> 1 <= #[trigger] w@[i].waitlist_rank <= w@.len(),
        forall|i: int, j: int|
            0 <= i < j < w@.len() ==> w@[i].waitlist_rank != w@[j].waitlist_rank,
        forall|k: int| 1 <= k <= w@.len() ==> #[trigger] has_rank(w@, k),
{
    assert forall|k: int| 1 <= k <= w@.len() implies #[trigger] has_rank(w@, k) by {
        assert(w@[k - 1].waitlist_rank == k);
    }
}

/// Idempotent reset: clearing the alert flag of `id` a second time changes
/// nothing — the first reset leaves the named record's flag false, and a
/// record with a false flag is a fixed point of the reset transition.
pub proof fn lemma_reset_alert_idempotent(
    s: Seq<Spreaded_cadaver_kidney_waitlist_rec>,
    id: Seq<char>,
)
    requires
        unique_ids(s),
    ensures
        reset_alert_spec(reset_alert_spec(s, id), id) == reset_alert_spec(s, id),
        contains_id(s, id) ==> !reset_alert_spec(s, id)[index_of_id(s, id)].alert_status,
        contains_id(reset_alert_spec(s, id), id) == contains_id(s, id),
        unique_ids(reset_alert_spec(s, id)),
{
    if contains_id(s, id) {
        let i: int = index_of_id(s, id);
        assert(0 <= i < s.len() && s[i].id@ == id);
        let s1 = reset_alert_spec(s, id);
        assert forall|x: int| 0 <= x < s1.len() implies #[trigger] s1[x].id@ == s[x].id@ by {}
        assert(contains_id(s1, id));
        assert(unique_ids(s1));
        lemma_index_of_id_unique(s1, id, i);
        assert(s1.update(
            i,
            Spreaded_cadaver_kidney_waitlist_rec { alert_status: false, ..s1[i] },
        ) =~= s1);
    }
}

} // verus!

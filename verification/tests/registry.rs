use cadaveric_kidney_waitlist::CadavericKidneyWaitlist;
use cadaveric_kidney_waitlist::Error;
use cadaveric_kidney_waitlist::Spreaded_cadaver_kidney_waitlist_rec;

/// Registers a patient with filler attributes derived from `id`.
fn reg(w: &mut CadavericKidneyWaitlist, id: &str) -> Result<(), Error> {
    w.register(
        "national".to_string(),
        id.to_string(),
        format!("name-{}", id),
        "F".to_string(),
        40,
        "O+".to_string(),
        format!("phone-{}", id),
        format!("{}@example.org", id),
        format!("addr-{}", id),
    )
}

fn rank(w: &CadavericKidneyWaitlist, id: &str) -> Result<usize, Error> {
    w.rank_of(&id.to_string())
}

fn alert(w: &CadavericKidneyWaitlist, id: &str) -> Result<bool, Error> {
    w.get_alert_status(&id.to_string())
}

#[test]
fn record_new_sets_fields_and_clears_alert() {
    let r = Spreaded_cadaver_kidney_waitlist_rec::new(
        "national".to_string(),
        "p-1".to_string(),
        "Ada".to_string(),
        "F".to_string(),
        63,
        "AB-".to_string(),
        "555-0100".to_string(),
        "ada@example.org".to_string(),
        "1 Engine Row".to_string(),
        4,
    );
    assert_eq!(r.id_type, "national");
    assert_eq!(r.id, "p-1");
    assert_eq!(r.name, "Ada");
    assert_eq!(r.gender, "F");
    assert_eq!(r.age, 63);
    assert_eq!(r.blood_group, "AB-");
    assert_eq!(r.phone, "555-0100");
    assert_eq!(r.email, "ada@example.org");
    assert_eq!(r.address, "1 Engine Row");
    assert!(!r.alert_status);
    assert_eq!(r.waitlist_rank, 4);
}

#[test]
fn register_assigns_next_rank_with_clear_alert() {
    let mut w = CadavericKidneyWaitlist::default();
    assert_eq!(reg(&mut w, "a"), Ok(()));
    assert_eq!(reg(&mut w, "b"), Ok(()));
    assert_eq!(reg(&mut w, "c"), Ok(()));
    assert_eq!(rank(&w, "a"), Ok(1));
    assert_eq!(rank(&w, "b"), Ok(2));
    assert_eq!(rank(&w, "c"), Ok(3));
    assert_eq!(alert(&w, "a"), Ok(false));
    assert_eq!(alert(&w, "b"), Ok(false));
    assert_eq!(alert(&w, "c"), Ok(false));
}

#[test]
fn register_duplicate_id_rejected() {
    let mut w = CadavericKidneyWaitlist::default();
    assert_eq!(reg(&mut w, "a"), Ok(()));
    assert_eq!(reg(&mut w, "a"), Err(Error::DuplicateIdentifier));
    // The failed registration grew nothing and changed nothing.
    assert_eq!(rank(&w, "a"), Ok(1));
    assert_eq!(alert(&w, "a"), Ok(false));
    let first = w.allocate().unwrap();
    assert_eq!(first.id, "a");
    assert_eq!(w.allocate().unwrap_err(), Error::EmptyWaitlist);
}

#[test]
fn allocation_scenario_three_patients() {
    let mut w = CadavericKidneyWaitlist::default();
    reg(&mut w, "A").unwrap();
    reg(&mut w, "B").unwrap();
    reg(&mut w, "C").unwrap();

    let first = w.allocate().unwrap();
    assert_eq!(first.id, "A");
    assert_eq!(first.waitlist_rank, 1);
    assert_eq!(rank(&w, "B"), Ok(1));
    assert_eq!(alert(&w, "B"), Ok(true));
    assert_eq!(rank(&w, "C"), Ok(2));
    assert_eq!(alert(&w, "C"), Ok(true));
    assert_eq!(rank(&w, "A"), Err(Error::NotFound));

    let second = w.allocate().unwrap();
    assert_eq!(second.id, "B");
    assert_eq!(rank(&w, "C"), Ok(1));
    assert_eq!(alert(&w, "C"), Ok(true));
}

#[test]
fn allocation_returns_whole_record() {
    let mut w = CadavericKidneyWaitlist::default();
    reg(&mut w, "x").unwrap();
    let r = w.allocate().unwrap();
    assert_eq!(r.id_type, "national");
    assert_eq!(r.id, "x");
    assert_eq!(r.name, "name-x");
    assert_eq!(r.gender, "F");
    assert_eq!(r.age, 40);
    assert_eq!(r.blood_group, "O+");
    assert_eq!(r.phone, "phone-x");
    assert_eq!(r.email, "x@example.org");
    assert_eq!(r.address, "addr-x");
    assert!(!r.alert_status);
    assert_eq!(r.waitlist_rank, 1);
}

#[test]
fn allocation_atomicity() {
    let mut w = CadavericKidneyWaitlist::default();
    for id in ["p1", "p2", "p3", "p4"] {
        reg(&mut w, id).unwrap();
    }
    let before: Vec<usize> =
        ["p2", "p3", "p4"].iter().map(|id| rank(&w, id).unwrap()).collect();

    let removed = w.allocate().unwrap();
    assert_eq!(removed.id, "p1");
    // The removed record is absent.
    assert_eq!(rank(&w, "p1"), Err(Error::NotFound));
    assert_eq!(alert(&w, "p1"), Err(Error::NotFound));
    // Every remaining rank decreased by exactly one, and every remaining
    // record was alerted.
    for (i, id) in ["p2", "p3", "p4"].iter().enumerate() {
        assert_eq!(rank(&w, id).unwrap(), before[i] - 1);
        assert_eq!(alert(&w, id), Ok(true));
    }
}

#[test]
fn allocate_on_empty_registry_fails() {
    let mut w = CadavericKidneyWaitlist::default();
    assert_eq!(w.allocate().unwrap_err(), Error::EmptyWaitlist);
    // The registry is still empty: a second attempt fails the same way.
    assert_eq!(w.allocate().unwrap_err(), Error::EmptyWaitlist);
}

#[test]
fn rank_of_unknown_id_fails() {
    let mut w = CadavericKidneyWaitlist::default();
    assert_eq!(rank(&w, "unknown"), Err(Error::NotFound));
    reg(&mut w, "a").unwrap();
    assert_eq!(rank(&w, "unknown"), Err(Error::NotFound));
}

#[test]
fn get_alert_status_unknown_id_fails() {
    let w = CadavericKidneyWaitlist::default();
    assert_eq!(alert(&w, "anyone"), Err(Error::NotFound));
}

#[test]
fn reset_alert_is_idempotent() {
    let mut w = CadavericKidneyWaitlist::default();
    reg(&mut w, "a").unwrap();
    reg(&mut w, "b").unwrap();
    w.allocate().unwrap();
    assert_eq!(alert(&w, "b"), Ok(true));

    assert_eq!(w.reset_alert(&"b".to_string()), Ok(()));
    assert_eq!(alert(&w, "b"), Ok(false));
    // A second reset succeeds and leaves the flag false.
    assert_eq!(w.reset_alert(&"b".to_string()), Ok(()));
    assert_eq!(alert(&w, "b"), Ok(false));
    // Nothing else about the record changed.
    assert_eq!(rank(&w, "b"), Ok(1));
}

#[test]
fn reset_alert_unknown_id_fails() {
    let mut w = CadavericKidneyWaitlist::default();
    assert_eq!(w.reset_alert(&"ghost".to_string()), Err(Error::NotFound));
}

#[test]
fn ranks_stay_contiguous_across_mixed_operations() {
    let mut w = CadavericKidneyWaitlist::default();
    for id in ["a", "b", "c", "d"] {
        reg(&mut w, id).unwrap();
    }
    w.allocate().unwrap();
    w.allocate().unwrap();
    reg(&mut w, "e").unwrap();
    // Remaining records are c, d, e with ranks exactly 1, 2, 3.
    assert_eq!(rank(&w, "c"), Ok(1));
    assert_eq!(rank(&w, "d"), Ok(2));
    assert_eq!(rank(&w, "e"), Ok(3));
    // The newly registered record has not been alerted; the survivors have.
    assert_eq!(alert(&w, "c"), Ok(true));
    assert_eq!(alert(&w, "d"), Ok(true));
    assert_eq!(alert(&w, "e"), Ok(false));
}

//! The decision between leaving a record alone, creating it, and updating it.
use vstd::prelude::*;
use crate::model::{DdnsError, Record};

verus! {

/// What has to be done at the provider so that it holds the desired record.
#[derive(Debug)]
pub enum Action {
    /// The record already holds the desired address.
    Skip,
    /// No record of that name exists: create this one.
    Create(Record),
    /// The record with this identifier holds another address: replace it.
    Update(String, Record),
}

/// `i` is the position of the first record in `existing` named `name`.
pub open spec fn is_first_match(existing: Seq<Record>, name: Seq<char>, i: int) -> bool {
    &&& 0 <= i < existing.len()
    &&& existing[i].name@ == name
    &&& forall|j: int| 0 <= j < i ==> existing[j].name@ != name
}

/// No record in `existing` is named `name`.
pub open spec fn no_match(existing: Seq<Record>, name: Seq<char>) -> bool {
    forall|j: int| 0 <= j < existing.len() ==> existing[j].name@ != name
}

/// The outcome of reconciling `desired` against the records `existing`:
/// the first record with the same name decides, and only its address counts.
pub open spec fn reconcile_spec(desired: Record, existing: Seq<Record>) -> Result<Action, DdnsError> {
    if exists|i: int| is_first_match(existing, desired.name@, i) {
        let i = choose|i: int| is_first_match(existing, desired.name@, i);
        let found = existing[i];
        if found.content@ == desired.content@ {
            Ok(Action::Skip)
        } else {
            match found.id {
                Some(id) => Ok(Action::Update(id, desired)),
                None => Err(DdnsError::MissingRecordId),
            }
        }
    } else {
        Ok(Action::Create(desired))
    }
}

/// There is at most one first record of a given name.
pub proof fn lemma_first_match_unique(existing: Seq<Record>, name: Seq<char>, i: int, k: int)
    requires
        is_first_match(existing, name, i),
        is_first_match(existing, name, k),
    ensures
        i == k,
{
    if i < k {
        assert(existing[i].name@ != name);
    } else if k < i {
        assert(existing[k].name@ != name);
    }
}

/// Position of the first record named `name`, if there is one.
pub fn find_record(existing: &Vec<Record>, name: &String) -> (r: Option<usize>)
    ensures
        match r {
            Some(i) => is_first_match(existing@, name@, i as int),
            None => no_match(existing@, name@),
        },
{
    let mut i: usize = 0;
    while i < existing.len()
        invariant
            i <= existing@.len(),
            forall|j: int| 0 <= j < i ==> existing@[j].name@ != name@,
        decreases existing.len() - i,
    {
        if existing[i].name == *name {
            return Some(i);
        }
        i = i + 1;
    }
    None
}

/// Decides what to do so that the provider holds `desired`, given the records
/// `existing` that it holds now. Records are matched by name alone, the first
/// match wins, and only the address is compared.
pub fn reconcile(desired: Record, existing: &Vec<Record>) -> (r: Result<Action, DdnsError>)
    ensures
        r == reconcile_spec(desired, existing@),
{
    match find_record(existing, &desired.name) {
        None => {
            assert(!exists|i: int| is_first_match(existing@, desired.name@, i));
            Ok(Action::Create(desired))
        },
        Some(i) => {
            proof {
                let k = choose|k: int| is_first_match(existing@, desired.name@, k);
                lemma_first_match_unique(existing@, desired.name@, i as int, k);
            }
            let found = &existing[i];
            if found.content == desired.content {
                Ok(Action::Skip)
            } else {
                match &found.id {
                    Some(id) => Ok(Action::Update(id.clone(), desired)),
                    None => Err(DdnsError::MissingRecordId),
                }
            }
        },
    }
}

/// Some record at or before position `i` is the first one named `name`,
/// when the record at `i` bears that name.
pub proof fn lemma_first_match_exists(existing: Seq<Record>, name: Seq<char>, i: int)
    requires
        0 <= i < existing.len(),
        existing[i].name@ == name,
    ensures
        exists|k: int| 0 <= k <= i && #[trigger] is_first_match(existing, name, k),
    decreases i,
{
    if forall|j: int| 0 <= j < i ==> existing[j].name@ != name {
        assert(is_first_match(existing, name, i));
    } else {
        let j = choose|j: int| 0 <= j < i && existing[j].name@ == name;
        lemma_first_match_exists(existing, name, j);
    }
}

/// Reconciling is a function of its inputs: two calls with the same desired
/// record and the same existing records give the same outcome.
pub proof fn law_reconcile_deterministic(
    desired: Record,
    existing: Seq<Record>,
    r1: Result<Action, DdnsError>,
    r2: Result<Action, DdnsError>,
)
    requires
        r1 == reconcile_spec(desired, existing),
        r2 == reconcile_spec(desired, existing),
    ensures
        r1 == r2,
{
}

/// When a record of the desired name holds the desired address, and every
/// earlier record of that name does too, nothing is to be done.
pub proof fn law_skip_when_current(desired: Record, existing: Seq<Record>, i: int)
    requires
        0 <= i < existing.len(),
        existing[i].name@ == desired.name@,
        existing[i].content@ == desired.content@,
        forall|j: int|
            0 <= j < i && #[trigger] existing[j].name@ == desired.name@ ==> existing[j].content@
                == desired.content@,
    ensures
        reconcile_spec(desired, existing) == Ok::<Action, DdnsError>(Action::Skip),
{
    lemma_first_match_exists(existing, desired.name@, i);
}

/// When no record bears the desired name, the desired record is created.
pub proof fn law_create_when_absent(desired: Record, existing: Seq<Record>)
    requires
        no_match(existing, desired.name@),
    ensures
        reconcile_spec(desired, existing) == Ok::<Action, DdnsError>(Action::Create(desired)),
{
    assert forall|i: int| !is_first_match(existing, desired.name@, i) by {
        if 0 <= i < existing.len() {
            assert(existing[i].name@ != desired.name@);
        }
    }
}

/// When a record of the desired name holds another address and carries an
/// identifier, and every earlier record of that name also holds another
/// address under the same identifier, that record is updated to the desired one.
pub proof fn law_update_when_stale(desired: Record, existing: Seq<Record>, i: int)
    requires
        0 <= i < existing.len(),
        existing[i].name@ == desired.name@,
        existing[i].content@ != desired.content@,
        existing[i].id is Some,
        forall|j: int|
            0 <= j < i && #[trigger] existing[j].name@ == desired.name@ ==> existing[j].content@
                != desired.content@ && existing[j].id == existing[i].id,
    ensures
        reconcile_spec(desired, existing) == Ok::<Action, DdnsError>(
            Action::Update(existing[i].id->Some_0, desired),
        ),
{
    lemma_first_match_exists(existing, desired.name@, i);
}

} // verus!

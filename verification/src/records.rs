//! What the application computes from database rows: the summary of a bulk
//! insert, the role ids of a user, the description of a test user, and the
//! index of a page of assets.

use vstd::prelude::*;
use vstd::string::StringExecFns;

verus! {

/// What became of one row of an uploaded asset file.
#[derive(Clone, Copy, Debug, PartialEq, Eq, Structural)]
pub enum RowOutcome {
    /// The row could not be read as an asset.
    Unparsable,
    /// The asset was inserted.
    Inserted,
    /// The database refused the asset.
    Rejected,
}

/// The number of inserted rows among `s`.
pub open spec fn count_inserted(s: Seq<RowOutcome>) -> nat
    decreases s.len(),
{
    if s.len() == 0 {
        0
    } else {
        count_inserted(s.drop_last()) + if s.last() == RowOutcome::Inserted {
            1nat
        } else {
            0nat
        }
    }
}

/// The number of skipped rows (unparsable or refused) among `s`.
pub open spec fn count_skipped(s: Seq<RowOutcome>) -> nat
    decreases s.len(),
{
    if s.len() == 0 {
        0
    } else {
        count_skipped(s.drop_last()) + if s.last() == RowOutcome::Inserted {
            0nat
        } else {
            1nat
        }
    }
}

/// Every row of a bulk insert is counted once: as inserted or as skipped.
pub proof fn lemma_every_row_counted(s: Seq<RowOutcome>)
    ensures
        count_inserted(s) + count_skipped(s) == s.len(),
    decreases s.len(),
{
    if s.len() > 0 {
        lemma_every_row_counted(s.drop_last());
    }
}

/// The rows whose asset was inserted.
pub open spec fn inserted_rows() -> spec_fn(RowOutcome) -> bool {
    |o: RowOutcome| o == RowOutcome::Inserted
}

/// The rows that were skipped: unparsable or refused.
pub open spec fn skipped_rows() -> spec_fn(RowOutcome) -> bool {
    |o: RowOutcome| o != RowOutcome::Inserted
}

/// One more row changes the counts by its own outcome alone, wherever it
/// stands: an inserted row adds one to the inserted count, any other row
/// one to the skipped count; no row is counted before any is handled.
pub proof fn lemma_each_row_counts_by_its_outcome(s: Seq<RowOutcome>, o: RowOutcome)
    ensures
        count_inserted(Seq::empty()) == 0,
        count_skipped(Seq::empty()) == 0,
        count_inserted(s.push(o)) == count_inserted(s) + if o == RowOutcome::Inserted {
            1int
        } else {
            0int
        },
        count_skipped(s.push(o)) == count_skipped(s) + if o == RowOutcome::Inserted {
            0int
        } else {
            1int
        },
{
    assert(s.push(o).drop_last() =~= s);
}

/// The inserted count is the number of rows whose outcome is `Inserted`,
/// and the skipped count the number of the other rows.
pub proof fn lemma_counts_are_row_tallies(s: Seq<RowOutcome>)
    ensures
        count_inserted(s) == s.filter(inserted_rows()).len(),
        count_skipped(s) == s.filter(skipped_rows()).len(),
    decreases s.len(),
{
    if s.len() > 0 {
        let t = s.drop_last();
        lemma_counts_are_row_tallies(t);
        assert(t.push(s.last()) =~= s);
        t.lemma_filter_push(s.last(), inserted_rows());
        t.lemma_filter_push(s.last(), skipped_rows());
    } else {
        reveal(Seq::filter);
    }
}

/// The summary of inserting the assets of an uploaded file.
#[derive(Clone, Copy, Debug, PartialEq, Eq, Structural)]
pub struct BulkInsert {
    pub total: usize,
    pub inserted: usize,
    pub skipped: usize,
}

impl BulkInsert {
    /// The summary before any of `total` rows is handled.
    pub fn new(total: usize) -> (r: BulkInsert)
        ensures
            r == (BulkInsert { total, inserted: 0, skipped: 0 }),
    {
        BulkInsert { total, inserted: 0, skipped: 0 }
    }

    /// Counts one more handled row.
    pub fn record(&mut self, outcome: RowOutcome)
        requires
            old(self).inserted + old(self).skipped < old(self).total,
        ensures
            final(self).total == old(self).total,
            final(self).inserted == old(self).inserted + if outcome == RowOutcome::Inserted {
                1int
            } else {
                0int
            },
            final(self).skipped == old(self).skipped + if outcome == RowOutcome::Inserted {
                0int
            } else {
                1int
            },
    {
        match outcome {
            RowOutcome::Inserted => {
                self.inserted = self.inserted + 1;
            },
            _ => {
                self.skipped = self.skipped + 1;
            },
        }
    }

    /// The summary of a bulk insert whose rows had the given outcomes.
    pub fn summarize(outcomes: &Vec<RowOutcome>) -> (r: BulkInsert)
        ensures
            r.total == outcomes@.len(),
            r.inserted == count_inserted(outcomes@),
            r.skipped == count_skipped(outcomes@),
            r.inserted + r.skipped == r.total,
            r.inserted == outcomes@.filter(inserted_rows()).len(),
            r.skipped == outcomes@.filter(skipped_rows()).len(),
    {
        let mut r = BulkInsert::new(outcomes.len());
        let mut i: usize = 0;
        while i < outcomes.len()
            invariant
                i <= outcomes@.len(),
                r.total == outcomes@.len(),
                r.inserted == count_inserted(outcomes@.take(i as int)),
                r.skipped == count_skipped(outcomes@.take(i as int)),
            decreases outcomes.len() - i,
        {
            proof {
                lemma_every_row_counted(outcomes@.take(i as int));
                assert(outcomes@.take(i + 1).drop_last() =~= outcomes@.take(i as int));
            }
            r.record(outcomes[i]);
            i = i + 1;
        }
        proof {
            assert(outcomes@.take(outcomes@.len() as int) =~= outcomes@);
            lemma_every_row_counted(outcomes@);
            lemma_counts_are_row_tallies(outcomes@);
        }
        r
    }
}

/// The values present in a sequence of options, in order.
pub open spec fn present_values(s: Seq<Option<String>>) -> Seq<String>
    decreases s.len(),
{
    if s.len() == 0 {
        Seq::empty()
    } else {
        present_values(s.drop_last()) + match s.last() {
            Some(v) => seq![v],
            None => Seq::empty(),
        }
    }
}

/// The rows that link a role.
pub open spec fn linked_rows() -> spec_fn(Option<String>) -> bool {
    |o: Option<String>| o is Some
}

/// The role id of a row that links a role.
pub open spec fn linked_id() -> spec_fn(Option<String>) -> String {
    |o: Option<String>| o.unwrap()
}

/// The present values are those of the rows that hold one, in row order:
/// no row is dropped and none is added, whatever the number of rows.
pub proof fn lemma_present_values_keep_every_row(s: Seq<Option<String>>)
    ensures
        present_values(s) == s.filter(linked_rows()).map_values(linked_id()),
    decreases s.len(),
{
    if s.len() > 0 {
        let t = s.drop_last();
        lemma_present_values_keep_every_row(t);
        assert(t.push(s.last()) =~= s);
        t.lemma_filter_push(s.last(), linked_rows());
        let f = t.filter(linked_rows());
        if s.last() is Some {
            assert(f.push(s.last()).map_values(linked_id()) =~= f.map_values(linked_id()).push(
                s.last().unwrap(),
            ));
            assert(present_values(s) =~= present_values(t).push(s.last().unwrap()));
        } else {
            assert(present_values(s) =~= present_values(t));
        }
    } else {
        reveal(Seq::filter);
        assert(s.filter(linked_rows()).map_values(linked_id()) =~= Seq::<String>::empty());
    }
}

/// Every row that links a role gives its id: appending a row appends its
/// id exactly when it links one.
pub proof fn lemma_each_linked_row_gives_its_id(s: Seq<Option<String>>, row: Option<String>)
    ensures
        present_values(Seq::empty()) == Seq::<String>::empty(),
        present_values(s.push(row)) == match row {
            Some(v) => present_values(s).push(v),
            None => present_values(s),
        },
{
    assert(s.push(row).drop_last() =~= s);
    assert(present_values(s.push(row)) =~= match row {
        Some(v) => present_values(s).push(v),
        None => present_values(s),
    });
}

/// The ids of a user's roles, from the rows that link the user to a role
/// (a row without a role gives none).
pub fn user_role_ids(linked: Vec<Option<String>>) -> (r: Vec<String>)
    ensures
        r@ == present_values(linked@),
        r@ == linked@.filter(linked_rows()).map_values(linked_id()),
{
    let mut r: Vec<String> = Vec::new();
    let mut i: usize = 0;
    while i < linked.len()
        invariant
            i <= linked@.len(),
            r@ == present_values(linked@.take(i as int)),
        decreases linked.len() - i,
    {
        proof {
            assert(linked@.take(i + 1).drop_last() =~= linked@.take(i as int));
        }
        match &linked[i] {
            Some(id) => {
                r.push(id.clone());
            },
            None => {},
        }
        i = i + 1;
    }
    proof {
        assert(linked@.take(linked@.len() as int) =~= linked@);
        lemma_present_values_keep_every_row(linked@);
    }
    r
}

/// A test user as found with its role: the user's name, and the role's name
/// and description where the user has a role.
pub struct TestUserRecord {
    pub name: String,
    pub role: Option<TestRoleRecord>,
}

/// A test role: its name and description.
pub struct TestRoleRecord {
    pub name: String,
    pub description: String,
}

/// The description of a test user's role.
pub open spec fn role_text(role: Option<TestRoleRecord>) -> Seq<char> {
    match role {
        None => "No TestRole found"@,
        Some(r) => "Role[ name: "@ + r.name@ + " | description: "@ + r.description@ + " ]"@,
    }
}

/// The description of the test user that a search found, if any.
pub open spec fn test_user_text(found: Option<TestUserRecord>) -> Seq<char> {
    match found {
        None => "No TestUser found"@,
        Some(u) => "User[ name: "@ + u.name@ + "] "@ + role_text(u.role),
    }
}

/// Describes the test user that a search by name found, with its role.
pub fn test_user_info(found: &Option<TestUserRecord>) -> (r: String)
    ensures
        r@ == test_user_text(*found),
{
    match found {
        None => String::from_str("No TestUser found"),
        Some(u) => {
            let mut r = String::from_str("User[ name: ");
            r.append(u.name.as_str());
            r.append("] ");
            match &u.role {
                None => {
                    r.append("No TestRole found");
                },
                Some(role) => {
                    r.append("Role[ name: ");
                    r.append(role.name.as_str());
                    r.append(" | description: ");
                    r.append(role.description.as_str());
                    r.append(" ]");
                },
            }
            r
        },
    }
}

/// The zero-based index of a page of assets, from its number counted from 1.
pub fn page_index(page: u64) -> (r: u64)
    requires
        page >= 1,
    ensures
        r == page - 1,
{
    page - 1
}

} // verus!

//! The location registry: which content location each window name stands for.

use crate::error::{ErrorView, OrchestratorError};
use vstd::prelude::*;
use vstd::string::*;

verus! {

/// The views of the rows of a table, in order.
pub open spec fn row_views(rows: Seq<(String, String)>) -> Seq<(Seq<char>, Seq<char>)> {
    Seq::new(rows.len(), |i: int| (rows[i].0@, rows[i].1@))
}

/// The mapping that a table of `(name, location)` rows stands for. Where a
/// name occurs in several rows, the last of them counts.
pub open spec fn table_map(rows: Seq<(Seq<char>, Seq<char>)>) -> Map<Seq<char>, Seq<char>>
    decreases rows.len(),
{
    if rows.len() == 0 {
        Map::empty()
    } else {
        table_map(rows.drop_last()).insert(rows.last().0, rows.last().1)
    }
}

/// The table that the shell starts with.
pub open spec fn builtin_table() -> Map<Seq<char>, Seq<char>> {
    map![
        "im"@ => "http://localhost:3000/im"@,
        "dashboard"@ => "http://localhost:3000/dashboard"@,
        "trade-exec"@ => "http://localhost:3000/orders"@,
        "backtest"@ => "http://localhost:3000/backtest"@,
    ]
}

/// A fixed mapping from window name to content location.
///
/// The registry is built once and never changes afterwards: there is no way
/// to add, replace or remove an entry of an existing registry.
#[derive(Debug)]
pub struct LocationRegistry {
    rows: Vec<(String, String)>,
}

impl View for LocationRegistry {
    type V = Map<Seq<char>, Seq<char>>;

    closed spec fn view(&self) -> Map<Seq<char>, Seq<char>> {
        table_map(row_views(self.rows@))
    }
}

impl LocationRegistry {
    /// Builds a registry from a table of `(name, location)` rows.
    pub fn from_table(rows: Vec<(String, String)>) -> (registry: Self)
        ensures
            registry@ == table_map(row_views(rows@)),
    {
        LocationRegistry { rows }
    }

    /// Builds the registry that the shell starts with.
    pub fn builtin() -> (registry: Self)
        ensures
            registry@ == builtin_table(),
    {
        let mut rows: Vec<(String, String)> = Vec::new();
        rows.push((String::from_str("im"), String::from_str("http://localhost:3000/im")));
        rows.push(
            (String::from_str("dashboard"), String::from_str("http://localhost:3000/dashboard")),
        );
        rows.push(
            (String::from_str("trade-exec"), String::from_str("http://localhost:3000/orders")),
        );
        rows.push(
            (String::from_str("backtest"), String::from_str("http://localhost:3000/backtest")),
        );
        proof {
            let views = row_views(rows@);
            let three = views.drop_last();
            let two = three.drop_last();
            let one = two.drop_last();
            assert(views.last() == ("backtest"@, "http://localhost:3000/backtest"@));
            assert(three.last() == ("trade-exec"@, "http://localhost:3000/orders"@));
            assert(two.last() == ("dashboard"@, "http://localhost:3000/dashboard"@));
            assert(one.last() == ("im"@, "http://localhost:3000/im"@));
            assert(table_map(one.drop_last()) == Map::<Seq<char>, Seq<char>>::empty());
            assert(table_map(one) == table_map(one.drop_last()).insert(one.last().0, one.last().1));
            assert(table_map(two) == table_map(one).insert(two.last().0, two.last().1));
            assert(table_map(three) == table_map(two).insert(three.last().0, three.last().1));
            assert(table_map(views) == table_map(three).insert(views.last().0, views.last().1));
        }
        LocationRegistry { rows }
    }

    /// Looks up the content location of `name`.
    ///
    /// A name without an entry is an error: there is no default location.
    pub fn resolve(&self, name: &str) -> (found: Result<String, OrchestratorError>)
        ensures
            match found {
                Ok(location) => self@.contains_key(name@) && location@ == self@[name@],
                Err(error) => !self@.contains_key(name@) && error@ == (ErrorView::UnknownWindowName {
                    name: name@,
                }),
            },
    {
        let key = String::from_str(name);
        let ghost rows = row_views(self.rows@);
        let mut i: usize = self.rows.len();
        assert(rows.take(i as int) == rows);
        while i > 0
            invariant
                i <= self.rows.len(),
                key@ == name@,
                rows == row_views(self.rows@),
                self@ == table_map(rows),
                self@.contains_key(name@) == table_map(rows.take(i as int)).contains_key(name@),
                self@.contains_key(name@) ==> self@[name@] == table_map(rows.take(i as int))[name@],
            decreases i,
        {
            i = i - 1;
            proof {
                let upto = rows.take(i + 1);
                assert(upto.drop_last() == rows.take(i as int));
                assert(upto.last() == rows[i as int]);
                assert(table_map(upto) == table_map(rows.take(i as int)).insert(
                    rows[i as int].0,
                    rows[i as int].1,
                ));
            }
            let row = &self.rows[i];
            if row.0 == key {
                return Ok(row.1.clone());
            }
        }
        assert(rows.take(0).len() == 0);
        Err(OrchestratorError::UnknownWindowName { name: key })
    }
}

/// The table that the shell starts with registers exactly four names, each
/// with its own location.
pub proof fn lemma_builtin_table_entries()
    ensures
        builtin_table().dom() == set!["im"@, "dashboard"@, "trade-exec"@, "backtest"@],
        builtin_table()["im"@] == "http://localhost:3000/im"@,
        builtin_table()["dashboard"@] == "http://localhost:3000/dashboard"@,
        builtin_table()["trade-exec"@] == "http://localhost:3000/orders"@,
        builtin_table()["backtest"@] == "http://localhost:3000/backtest"@,
{
    reveal_strlit("im");
    reveal_strlit("dashboard");
    reveal_strlit("trade-exec");
    reveal_strlit("backtest");
    assert("im"@.len() == 2);
    assert("dashboard"@.len() == 9);
    assert("trade-exec"@.len() == 10);
    assert("backtest"@.len() == 8);
    assert(builtin_table().dom() =~= set!["im"@, "dashboard"@, "trade-exec"@, "backtest"@]);
}

} // verus!

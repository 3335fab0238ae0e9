//! Making sure the tables exist, and choosing the scripts to apply.

use vstd::prelude::*;
use vstd::string::*;
use crate::infrastructure::text::{ends_with, has_suffix};
use super::statement::{Statement, StatementView};

verus! {

/// `CREATE TABLE IF NOT EXISTS <table> (id TEXT PRIMARY KEY, name TEXT)`: a
/// minimal table with a primary key and a name.
pub open spec fn fallback_table_sql(table: Seq<char>) -> Seq<char> {
    "CREATE TABLE IF NOT EXISTS "@ + table + " (id TEXT PRIMARY KEY, name TEXT)"@
}

/// What making sure of a table takes: nothing when the catalog knows the
/// table, the statement that creates the minimal table otherwise.
pub open spec fn ensured(table: Seq<char>, present: bool) -> Option<StatementView> {
    if present {
        None
    } else {
        Some(StatementView::unbound(fallback_table_sql(table)))
    }
}

/// Whether a directory entry of this name is a migration script: the name
/// ends in `.sql`, with something before the dot.
pub open spec fn is_script(name: Seq<char>) -> bool {
    name.len() >= 5 && ends_with(name, ".sql"@)
}

/// The model of an optional statement.
pub open spec fn statement_view(statement: Option<Statement>) -> Option<StatementView> {
    match statement {
        Some(statement) => Some(statement@),
        None => None,
    }
}

/// Makes sure the tables exist and applies migration scripts.
pub struct MigrationManager;

/// The progress of steps that are applied one after the other, each against
/// the store: tables to make sure of, or scripts to run. A step that fails
/// ends the run; the steps applied before it stay applied.
pub struct MigrationRun<E> {
    steps: Vec<String>,
    done: usize,
    failure: Option<E>,
}

impl<E> MigrationRun<E> {
    #[verifier::type_invariant]
    spec fn within(self) -> bool {
        self.done <= self.steps.len()
    }

    /// The steps of this run, in order.
    pub closed spec fn steps(&self) -> Seq<Seq<char>> {
        self.steps.deep_view()
    }

    /// How many steps were applied.
    pub closed spec fn done(&self) -> nat {
        self.done as nat
    }

    /// The failure that ended this run, if one did.
    pub closed spec fn failure(&self) -> Option<E> {
        self.failure
    }

    /// The step to apply next: the first one not applied yet, unless the run
    /// has failed or is through.
    pub open spec fn pending(&self) -> Option<Seq<char>> {
        if self.failure() is None && self.done() < self.steps().len() {
            Some(self.steps()[self.done() as int])
        } else {
            None
        }
    }

    /// A run of `steps` of which none is applied yet.
    pub fn new(steps: Vec<String>) -> (run: Self)
        ensures
            run.steps() == steps.deep_view(),
            run.done() == 0,
            run.failure() is None,
    {
        MigrationRun { steps, done: 0, failure: None }
    }

    /// The step to apply next, if there is one.
    pub fn next_step(&self) -> (step: Option<&String>)
        ensures
            match step {
                Some(name) => self.pending() == Some(name@),
                None => self.pending() is None,
            },
    {
        proof {
            use_type_invariant(self);
        }
        if self.failure.is_none() && self.done < self.steps.len() {
            Some(&self.steps[self.done])
        } else {
            None
        }
    }

    /// Records how the pending step went: a success moves on to the next
    /// step, a failure ends the run and leaves the count of applied steps as
    /// it is. Without a pending step nothing is recorded.
    pub fn record(&mut self, outcome: Result<(), E>)
        ensures
            final(self).steps() == old(self).steps(),
            final(self).done() == if old(self).pending() is Some && outcome is Ok {
                old(self).done() + 1
            } else {
                old(self).done()
            },
            final(self).failure() == if old(self).pending() is Some && outcome is Err {
                Some(outcome->Err_0)
            } else {
                old(self).failure()
            },
    {
        proof {
            use_type_invariant(&*self);
        }
        if self.failure.is_none() && self.done < self.steps.len() {
            match outcome {
                Ok(_) => {
                    self.done = self.done + 1;
                },
                Err(error) => {
                    self.failure = Some(error);
                },
            }
        }
    }

    /// How many steps were applied.
    pub fn applied(&self) -> (count: usize)
        ensures
            count == self.done(),
            count <= self.steps().len(),
    {
        proof {
            use_type_invariant(self);
        }
        self.done
    }

    /// Ends the run: the failure that stopped it, if one did.
    pub fn finish(self) -> (result: Result<(), E>)
        ensures
            result == match self.failure() {
                Some(error) => Err::<(), E>(error),
                None => Ok::<(), E>(()),
            },
    {
        match self.failure {
            Some(error) => Err(error),
            None => Ok(()),
        }
    }
}

impl MigrationManager {
    /// Decides what making sure of `table` takes, given the definition the
    /// catalog holds for it, if it holds one.
    pub fn ensure_database(table: &str, schema: Option<&String>) -> (statement: Option<
        Statement,
    >)
        ensures
            statement_view(statement) == ensured(table@, schema is Some),
    {
        match schema {
            Some(_) => None,
            None => {
                let mut sql = "CREATE TABLE IF NOT EXISTS ".to_owned();
                sql.append(table);
                sql.append(" (id TEXT PRIMARY KEY, name TEXT)");
                Some(Statement::new(sql))
            },
        }
    }

    /// Whether the directory entry `name` is a migration script.
    pub fn is_script(name: &str) -> (script: bool)
        ensures
            script == is_script(name@),
    {
        name.unicode_len() >= 5 && has_suffix(name, ".sql")
    }

    /// Chooses the scripts to apply among the entries of the migration
    /// directory: every script, in the order the directory lists them.
    pub fn run_migrations(entries: &Vec<String>) -> (scripts: Vec<String>)
        ensures
            scripts.deep_view() == entries.deep_view().filter(|name: Seq<char>| is_script(name)),
    {
        let ghost names = entries.deep_view();
        let ghost wanted = |name: Seq<char>| is_script(name);
        let mut scripts: Vec<String> = Vec::new();
        let mut i: usize = 0;
        assert(names.take(0).filter(wanted) =~= Seq::empty()) by {
            reveal(Seq::filter);
        }
        while i < entries.len()
            invariant
                i <= entries.len(),
                names == entries.deep_view(),
                wanted == |name: Seq<char>| is_script(name),
                scripts.deep_view() == names.take(i as int).filter(wanted),
            decreases entries.len() - i,
        {
            let ghost before = scripts.deep_view();
            proof {
                reveal(Seq::filter);
                assert(names.take(i as int + 1).drop_last() =~= names.take(i as int));
                assert(names.take(i as int + 1).last() == names[i as int]);
            }
            if Self::is_script(entries[i].as_str()) {
                scripts.push(entries[i].clone());
                assert(scripts.deep_view() =~= before.push(names[i as int]));
            }
            i += 1;
        }
        assert(names.take(entries.len() as int) =~= names);
        scripts
    }
}

} // verus!

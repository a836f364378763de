//! A harness that exercises a catalog against a scratch in-memory store to
//! certify it before deployment: every forward script is applied in order,
//! and reverse scripts can be exercised — and demanded — too.

use vstd::prelude::*;

use crate::store::Connection;
use crate::{spec_m_describe, Migrations, MView};

verus! {

/// Enum of possible validation errors.
#[derive(Debug, PartialEq)]
#[non_exhaustive]
pub enum Error {
    /// Downward migrations were required for every upward migration, but
    /// some are missing: every offender, with its version and its
    /// description.
    MissingDownwardMigrations(Vec<(usize, String)>),
    /// An error of the underlying migration engine.
    RusqliteMigration(crate::Error),
}

impl From<crate::Error> for Error {
    fn from(e: crate::Error) -> Error {
        Error::RusqliteMigration(e)
    }
}

impl vstd::std_specs::convert::FromSpecImpl<crate::Error> for Error {
    open spec fn obeys_from_spec() -> bool {
        true
    }

    open spec fn from_spec(e: crate::Error) -> Error {
        Error::RusqliteMigration(e)
    }
}

impl From<rusqlite::Error> for Error {
    fn from(e: rusqlite::Error) -> Error {
        Error::RusqliteMigration(crate::Error::RusqliteError { query: String::new(), err: e })
    }
}

impl vstd::std_specs::convert::FromSpecImpl<rusqlite::Error> for Error {
    open spec fn obeys_from_spec() -> bool {
        false
    }

    open spec fn from_spec(e: rusqlite::Error) -> Error {
        Error::RusqliteMigration(crate::Error::InvalidUserVersion)
    }
}

/// How the harness treats reverse scripts.
#[derive(Debug, PartialEq, Eq, Clone, Copy, Structural)]
enum DownwardCheck {
    /// Exercise forward scripts only.
    No,
    /// Exercise the reverse script of every migration that has one.
    IfPresent,
    /// Demand a reverse script of every migration, and exercise it.
    Required,
}

/// Opt-in checks to validate migrations.
pub struct Validations {
    downward: DownwardCheck,
}

/// The migrations of `cat[0..hi)` lacking a reverse script, as the harness
/// reports them: 1-based version and description, in catalog order.
pub open spec fn missing_down_list(cat: Seq<MView>, hi: int) -> Seq<(usize, Seq<char>)>
    decreases hi,
{
    if hi <= 0 {
        Seq::empty()
    } else {
        missing_down_list(cat, hi - 1) + if cat[hi - 1].down is None {
            seq![(hi as usize, spec_m_describe(cat[hi - 1]))]
        } else {
            Seq::<(usize, Seq<char>)>::empty()
        }
    }
}

/// The views of the reported pairs, in order.
pub open spec fn pair_views(s: Seq<(usize, String)>) -> Seq<(usize, Seq<char>)> {
    Seq::new(s.len(), |i: int| (s[i].0, s[i].1@))
}

/// The harness's report is complete: it comes back empty exactly when every
/// migration of the catalog has a reverse script. Together with the
/// contract of [`Validations::validate`], a clean run under required
/// reverse scripts certifies that none is missing.
pub proof fn lemma_missing_down_complete(cat: Seq<MView>, hi: int)
    requires
        0 <= hi <= cat.len(),
    ensures
        missing_down_list(cat, hi).len() == 0 <==> crate::all_down_defined(cat, 0, hi),
    decreases hi,
{
    if hi > 0 {
        lemma_missing_down_complete(cat, hi - 1);
        if missing_down_list(cat, hi).len() == 0 {
            assert(crate::all_down_defined(cat, 0, hi - 1));
            assert(forall|i: int| 0 <= i < hi ==> (#[trigger] cat[i]).down is Some);
        }
    }
}

impl Validations {
    /// Whether reverse scripts are exercised when present.
    pub closed spec fn checks_downward(&self) -> bool {
        !(self.downward is No)
    }

    /// Whether a missing reverse script is an error.
    pub closed spec fn requires_downward(&self) -> bool {
        self.downward is Required
    }

    /// Apply all possible checks, in their strictest setting.
    pub fn everything() -> (r: Self)
        ensures
            r.checks_downward(),
            r.requires_downward(),
    {
        Self { downward: DownwardCheck::Required }
    }

    /// Always validate upward migrations, and nothing more.
    pub fn upward() -> (r: Self)
        ensures
            !r.checks_downward(),
            !r.requires_downward(),
    {
        Self { downward: DownwardCheck::No }
    }

    /// Validate every reverse script found; allow one to be missing.
    pub fn check_downward_if_present(self) -> (r: Self)
        ensures
            r.checks_downward(),
            !r.requires_downward(),
    {
        Self { downward: DownwardCheck::IfPresent }
    }

    /// Validate every reverse script, and fail when one is missing.
    pub fn require_downward(self) -> (r: Self)
        ensures
            r.checks_downward(),
            r.requires_downward(),
    {
        Self { downward: DownwardCheck::Required }
    }

    /// Runs the validations on a scratch in-memory store: applies each
    /// migration in turn, exercises its reverse script as configured, and —
    /// when reverse scripts are required — reports the complete list of
    /// migrations lacking one, not just the first. An empty catalog is
    /// vacuously valid.
    pub fn validate(&self, migrations: &Migrations) -> (r: Result<(), Error>)
        requires
            migrations@.len() <= crate::MIGRATIONS_MAX,
        ensures
            r matches Err(Error::MissingDownwardMigrations(v)) ==> self.requires_downward()
                && pair_views(v@) == missing_down_list(migrations@, migrations@.len() as int)
                && v@.len() > 0,
            !self.requires_downward() ==> !(r matches Err(Error::MissingDownwardMigrations(..))),
            self.requires_downward() && r is Ok ==> missing_down_list(
                migrations@,
                migrations@.len() as int,
            ).len() == 0,
            migrations@.len() == 0 ==> (r is Ok || r matches Err(Error::RusqliteMigration(..))),
    {
        let mut conn = match Connection::open_in_memory() {
            Ok(c) => c,
            Err(e) => {
                return Err(Error::RusqliteMigration(e));
            },
        };
        let pending = match migrations.pending_migrations(&conn) {
            Ok(n) => n,
            Err(e) => {
                return Err(Error::RusqliteMigration(e));
            },
        };
        let nbr_migrations = pending as usize;
        if nbr_migrations == 0 {
            return Ok(());
        }
        let mut missing_downward_migrations: Vec<(usize, String)> = Vec::new();
        let mut i: usize = 1;
        while i <= nbr_migrations
            invariant
                1 <= i <= nbr_migrations + 1,
                nbr_migrations == migrations@.len(),
                nbr_migrations <= crate::MIGRATIONS_MAX,
                conn.idle(),
                self.requires_downward() ==> pair_views(missing_downward_migrations@)
                    == missing_down_list(migrations@, i - 1),
                !self.requires_downward() ==> missing_downward_migrations@.len() == 0,
            decreases nbr_migrations - i + 1,
        {
            match migrations.to_version(&mut conn, i) {
                Ok(()) => {},
                Err(e) => {
                    return Err(Error::RusqliteMigration(e));
                },
            }
            proof {
                assert(migrations@[i - 1] == migrations.ms@[i - 1]@);
            }
            match self.downward {
                DownwardCheck::No => {},
                DownwardCheck::Required | DownwardCheck::IfPresent => {
                    if migrations.ms[i - 1].down.is_some() {
                        // Revert and reapply, to see that the reverse script
                        // undoes the forward one cleanly.
                        match migrations.to_version(&mut conn, i - 1) {
                            Ok(()) => {},
                            Err(e) => {
                                return Err(Error::RusqliteMigration(e));
                            },
                        }
                        match migrations.to_version(&mut conn, i) {
                            Ok(()) => {},
                            Err(e) => {
                                return Err(Error::RusqliteMigration(e));
                            },
                        }
                    } else {
                        match self.downward {
                            DownwardCheck::Required => {
                                let ghost pre = missing_downward_migrations@;
                                let m = &migrations.ms[i - 1];
                                missing_downward_migrations.push((i, m.describe()));
                                proof {
                                    assert(pair_views(missing_downward_migrations@)
                                        =~= pair_views(pre) + seq![
                                        (i, spec_m_describe(migrations@[i - 1])),
                                    ]);
                                }
                            },
                            _ => {},
                        }
                    }
                },
            }
            i = i + 1;
        }
        if missing_downward_migrations.len() == 0 {
            Ok(())
        } else {
            Err(Error::MissingDownwardMigrations(missing_downward_migrations))
        }
    }
}

} // verus!

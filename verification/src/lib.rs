//! An engine that tracks, applies and reverts ordered schema-change scripts
//! against a SQLite database, using the `user_version` pragma as the single
//! persisted record of how many migrations have run.

use vstd::prelude::*;

pub mod builder;
pub mod decimal;
pub mod errors;
pub mod loader;
pub mod store;
pub mod validations;

pub use builder::MigrationsBuilder;
pub use errors::{
    Error, ForeignKeyCheckError, HookError, HookResult, MigrationDefinitionError,
    SchemaVersionError,
};
pub use store::{Connection, Hook, MigrationHook, StoreEvent, StoreState, Transaction};

use crate::decimal::dec_rep;
use include_dir::Dir;
use std::sync::Arc;

verus! {

/// The number of applied migrations is persisted in a 4-byte signed field of
/// the database header, which bounds how many migrations a store can record.
pub const MIGRATIONS_MAX: usize = 0x7fff_ffff;

/// Schema version, in the context of a set of migrations.
///
/// The version counts how many migrations of the catalog have been applied;
/// `Inside` and `Outside` versions are always positive.
#[derive(Debug, PartialEq, Eq, Clone, Copy, Structural)]
pub enum SchemaVersion {
    /// No schema version set
    NoneSet,
    /// The current version in the database is inside the range of defined
    /// migrations
    Inside(usize),
    /// The current version in the database is outside any migration defined
    Outside(usize),
}

/// The integer value a schema version stands for.
pub open spec fn spec_schema_version_value(v: SchemaVersion) -> int {
    match v {
        SchemaVersion::NoneSet => 0,
        SchemaVersion::Inside(n) => n as int,
        SchemaVersion::Outside(n) => n as int,
    }
}

/// How a raw version value relates to a catalog of `n` migrations.
pub open spec fn spec_version_to_schema(n: int, v: int) -> SchemaVersion {
    if v == 0 {
        SchemaVersion::NoneSet
    } else if v <= n {
        SchemaVersion::Inside(v as usize)
    } else {
        SchemaVersion::Outside(v as usize)
    }
}

/// The message that describes a schema version.
pub open spec fn spec_schema_version_describe(v: SchemaVersion) -> Seq<char> {
    match v {
        SchemaVersion::NoneSet => "0 (no version set)"@,
        SchemaVersion::Inside(n) => dec_rep(n as nat) + " (inside)"@,
        SchemaVersion::Outside(n) => dec_rep(n as nat) + " (outside)"@,
    }
}

impl SchemaVersion {
    /// The integer value of the version, whether or not it falls inside the
    /// catalog.
    pub fn value(&self) -> (r: usize)
        ensures
            r as int == spec_schema_version_value(*self),
    {
        match self {
            SchemaVersion::NoneSet => 0,
            SchemaVersion::Inside(n) => *n,
            SchemaVersion::Outside(n) => *n,
        }
    }

    /// Renders the version for diagnostics.
    pub fn describe(&self) -> (r: String)
        ensures
            r@ == spec_schema_version_describe(*self),
    {
        match self {
            SchemaVersion::NoneSet => String::from_str("0 (no version set)"),
            SchemaVersion::Inside(n) => {
                let mut s = crate::decimal::usize_to_string(*n);
                s.append(" (inside)");
                s
            },
            SchemaVersion::Outside(n) => {
                let mut s = crate::decimal::usize_to_string(*n);
                s.append(" (outside)");
                s
            },
        }
    }
}

impl From<&SchemaVersion> for usize {
    /// Translate schema version to db version
    fn from(v: &SchemaVersion) -> (r: usize) {
        v.value()
    }
}

impl vstd::std_specs::convert::FromSpecImpl<&SchemaVersion> for usize {
    open spec fn obeys_from_spec() -> bool {
        true
    }

    open spec fn from_spec(v: &SchemaVersion) -> usize {
        spec_schema_version_value(*v) as usize
    }
}

impl From<SchemaVersion> for usize {
    fn from(v: SchemaVersion) -> (r: usize) {
        v.value()
    }
}

impl vstd::std_specs::convert::FromSpecImpl<SchemaVersion> for usize {
    open spec fn obeys_from_spec() -> bool {
        true
    }

    open spec fn from_spec(v: SchemaVersion) -> usize {
        spec_schema_version_value(v) as usize
    }
}

impl PartialOrd for SchemaVersion {
    /// Schema versions are ordered by the integer value they stand for.
    fn partial_cmp(&self, other: &Self) -> (r: Option<core::cmp::Ordering>) {
        let a = self.value();
        let b = other.value();
        if a < b {
            Some(core::cmp::Ordering::Less)
        } else if a == b {
            Some(core::cmp::Ordering::Equal)
        } else {
            Some(core::cmp::Ordering::Greater)
        }
    }
}

impl vstd::std_specs::cmp::PartialOrdSpecImpl for SchemaVersion {
    open spec fn obeys_partial_cmp_spec() -> bool {
        true
    }

    open spec fn partial_cmp_spec(&self, other: &SchemaVersion) -> Option<core::cmp::Ordering> {
        if spec_schema_version_value(*self) < spec_schema_version_value(*other) {
            Some(core::cmp::Ordering::Less)
        } else if spec_schema_version_value(*self) == spec_schema_version_value(*other) {
            Some(core::cmp::Ordering::Equal)
        } else {
            Some(core::cmp::Ordering::Greater)
        }
    }
}

/// What one migration holds, as the contracts see it: the scripts and flags,
/// with hooks reduced to their presence.
#[verifier::ext_equal]
pub struct MView {
    /// The forward script.
    pub up: Seq<char>,
    /// The reverse script, when one is defined.
    pub down: Option<Seq<char>>,
    /// Whether an up-hook is attached.
    pub up_hook: bool,
    /// Whether a down-hook is attached.
    pub down_hook: bool,
    /// Whether the foreign key audit runs for this migration.
    pub foreign_key_check: bool,
    /// The diagnostic comment, when one is set.
    pub comment: Option<Seq<char>>,
}

/// One migration.
///
/// A migration can carry up- and down-hooks, which are incomparable
/// callables: two migrations are equal only when they either have no hooks or
/// share the identical underlying hook.
#[must_use]
pub struct M<'u> {
    up: &'u str,
    up_hook: Option<Arc<Hook>>,
    down: Option<&'u str>,
    down_hook: Option<Arc<Hook>>,
    foreign_key_check: bool,
    comment: Option<&'u str>,
}

impl View for M<'_> {
    type V = MView;

    closed spec fn view(&self) -> MView {
        MView {
            up: self.up@,
            down: match self.down {
                Some(d) => Some(d@),
                None => None,
            },
            up_hook: self.up_hook is Some,
            down_hook: self.down_hook is Some,
            foreign_key_check: self.foreign_key_check,
            comment: match self.comment {
                Some(c) => Some(c@),
                None => None,
            },
        }
    }
}

impl<'u> M<'u> {
    /// Create a schema update. The script runs only when the migration has
    /// not yet been applied to the underlying database.
    ///
    /// Scripts should end their statements with a `;`. `PRAGMA` statements
    /// are discouraged inside migrations: several of them are no-ops inside
    /// the transaction every migration runs in, and the version marker must
    /// be left to the engine.
    pub fn up(sql: &'u str) -> (r: Self)
        ensures
            r@ == (MView {
                up: sql@,
                down: None,
                up_hook: false,
                down_hook: false,
                foreign_key_check: false,
                comment: None,
            }),
    {
        Self {
            up: sql,
            up_hook: None,
            down: None,
            down_hook: None,
            foreign_key_check: false,
            comment: None,
        }
    }

    /// Add a comment to the schema update.
    pub fn comment(self, comment: &'u str) -> (r: Self)
        ensures
            r@ == (MView { comment: Some(comment@), ..self@ }),
    {
        Self { comment: Some(comment), ..self }
    }

    /// Create a schema update that also runs a hook. The hook runs *after*
    /// the script executed successfully, inside the same transaction.
    pub fn up_with_hook(sql: &'u str, hook: Hook) -> (r: Self)
        ensures
            r@ == (MView {
                up: sql@,
                down: None,
                up_hook: true,
                down_hook: false,
                foreign_key_check: false,
                comment: None,
            }),
    {
        Self {
            up: sql,
            up_hook: Some(Arc::new(hook)),
            down: None,
            down_hook: None,
            foreign_key_check: false,
            comment: None,
        }
    }

    /// Define a down-migration. This script should exactly reverse the
    /// changes performed in [`Self::up`]. A call to this method is **not**
    /// required.
    pub fn down(self, sql: &'u str) -> (r: Self)
        ensures
            r@ == (MView { down: Some(sql@), ..self@ }),
    {
        Self { down: Some(sql), ..self }
    }

    /// Define a down-migration running a hook beside the script. The hook
    /// runs *before* the reverse script, inside the same transaction.
    pub fn down_with_hook(self, sql: &'u str, hook: Hook) -> (r: Self)
        ensures
            r@ == (MView { down: Some(sql@), down_hook: true, ..self@ }),
    {
        Self { down: Some(sql), down_hook: Some(Arc::new(hook)), ..self }
    }

    /// Enable the automatic validation of foreign keys before the migration
    /// transaction is closed, both upward and downward: the migration fails
    /// when the audit finds any violation.
    pub fn foreign_key_check(self) -> (r: Self)
        ensures
            r@ == (MView { foreign_key_check: true, ..self@ }),
    {
        Self { foreign_key_check: true, ..self }
    }

    /// Replace the up-hook of this migration. Meant for editing loaded
    /// migrations through the builder; use [`Self::up_with_hook`] when
    /// creating one.
    pub fn set_up_hook(self, hook: Hook) -> (r: Self)
        ensures
            r@ == (MView { up_hook: true, ..self@ }),
    {
        Self { up_hook: Some(Arc::new(hook)), ..self }
    }

    /// Replace the down-hook of this migration. Meant for editing loaded
    /// migrations through the builder; use [`Self::down_with_hook`] when
    /// creating one.
    pub fn set_down_hook(self, hook: Hook) -> (r: Self)
        ensures
            r@ == (MView { down_hook: true, ..self@ }),
    {
        Self { down_hook: Some(Arc::new(hook)), ..self }
    }
}

/// The message that describes one migration.
pub open spec fn spec_m_describe(m: MView) -> Seq<char> {
    "M(up: \""@ + m.up + "\""@ + (if m.up_hook {
        ", up hook"@
    } else {
        Seq::<char>::empty()
    }) + (match m.down {
        Some(d) => ", down: \""@ + d + "\""@,
        None => Seq::<char>::empty(),
    }) + (if m.down_hook {
        ", down hook"@
    } else {
        Seq::<char>::empty()
    }) + (if m.foreign_key_check {
        ", foreign key check"@
    } else {
        Seq::<char>::empty()
    }) + (match m.comment {
        Some(c) => ", comment: \""@ + c + "\""@,
        None => Seq::<char>::empty(),
    }) + ")"@
}

impl M<'_> {
    /// Renders the migration for diagnostics.
    #[verifier::rlimit(50)]
    pub fn describe(&self) -> (r: String)
        ensures
            r@ == spec_m_describe(self@),
    {
        let mut s = String::from_str("M(up: \"");
        s.append(self.up);
        s.append("\"");
        if self.up_hook.is_some() {
            s.append(", up hook");
        }
        if let Some(down) = self.down {
            s.append(", down: \"");
            s.append(down);
            s.append("\"");
        }
        if self.down_hook.is_some() {
            s.append(", down hook");
        }
        if self.foreign_key_check {
            s.append(", foreign key check");
        }
        if let Some(comment) = self.comment {
            s.append(", comment: \"");
            s.append(comment);
            s.append("\"");
        }
        s.append(")");
        s
    }
}

impl Clone for M<'_> {
    /// The clone shares this migration's hooks, so it compares equal to the
    /// migration it was cloned from.
    fn clone(&self) -> (r: Self)
        ensures
            r@ == self@,
    {
        M {
            up: self.up,
            up_hook: match &self.up_hook {
                Some(h) => Some(Arc::clone(h)),
                None => None,
            },
            down: self.down,
            down_hook: match &self.down_hook {
                Some(h) => Some(Arc::clone(h)),
                None => None,
            },
            foreign_key_check: self.foreign_key_check,
            comment: self.comment,
        }
    }
}

impl PartialEq for M<'_> {
    /// Compares scripts and flags by value and hooks by identity; the comment
    /// is diagnostic only and takes no part.
    fn eq(&self, other: &Self) -> bool {
        let equal_up_hooks = match (&self.up_hook, &other.up_hook) {
            (None, None) => true,
            (Some(a), Some(b)) => store::same_hook(a, b),
            _ => false,
        };
        let equal_down_hooks = match (&self.down_hook, &other.down_hook) {
            (None, None) => true,
            (Some(a), Some(b)) => store::same_hook(a, b),
            _ => false,
        };
        let equal_down = match (&self.down, &other.down) {
            (None, None) => true,
            (Some(a), Some(b)) => store::str_eq(a, b),
            _ => false,
        };
        store::str_eq(self.up, other.up) && equal_down && equal_up_hooks && equal_down_hooks
            && self.foreign_key_check == other.foreign_key_check
    }
}

impl vstd::std_specs::cmp::PartialEqSpecImpl for M<'_> {
    open spec fn obeys_eq_spec() -> bool {
        false
    }

    open spec fn eq_spec(&self, other: &M<'_>) -> bool {
        true
    }
}

impl Eq for M<'_> {

}

/// The views of a sequence of migrations, in order.
pub open spec fn views_of(ms: Seq<M>) -> Seq<MView> {
    Seq::new(ms.len(), |i: int| ms[i]@)
}

/// Set of migrations, the catalog the engine works against.
///
/// The position of a migration in the catalog defines the schema version its
/// application leads to: version `v` means that the first `v` migrations have
/// been applied. Once built, a catalog never changes.
pub struct Migrations<'m> {
    pub(crate) ms: Vec<M<'m>>,
}

impl View for Migrations<'_> {
    type V = Seq<MView>;

    closed spec fn view(&self) -> Seq<MView> {
        views_of(self.ms@)
    }
}

impl<'m> Migrations<'m> {
    /// Create a set of migrations from an owned list.
    #[must_use]
    pub fn new(ms: Vec<M<'m>>) -> (r: Self)
        ensures
            r@ == views_of(ms@),
    {
        Self { ms }
    }

    /// Similar to [`Migrations::new`], but clones out of a borrowed slice.
    #[must_use]
    pub fn from_slice(ms: &'m [M<'m>]) -> (r: Self)
        ensures
            r@ == views_of(ms@),
    {
        let mut v: Vec<M<'m>> = Vec::new();
        let n = ms.len();
        let mut i: usize = 0;
        while i < n
            invariant
                i <= n,
                n == ms@.len(),
                v@.len() == i,
                forall|j: int| 0 <= j < i ==> (#[trigger] v@[j])@ == ms@[j]@,
            decreases n - i,
        {
            let m = &ms[i];
            v.push(m.clone());
            i = i + 1;
        }
        proof {
            assert forall|j: int| 0 <= j < n implies views_of(v@)[j] == views_of(ms@)[j] by {
                assert(views_of(v@)[j] == v@[j]@);
                assert(views_of(ms@)[j] == ms@[j]@);
            }
            assert(views_of(v@) =~= views_of(ms@));
        }
        Self { ms: v }
    }

    /// Creates a set of migrations from an owned list, element by element.
    pub fn from_iter(ms: Vec<M<'m>>) -> (r: Self)
        ensures
            r@ == views_of(ms@),
    {
        Self::new(ms)
    }

    /// How many migrations the catalog defines; this is also the highest
    /// schema version it can bring a store to.
    pub fn len(&self) -> (r: usize)
        ensures
            r == self@.len(),
    {
        self.ms.len()
    }
}

impl Clone for Migrations<'_> {
    /// The clone shares every migration's hooks, so it compares equal to the
    /// catalog it was cloned from.
    fn clone(&self) -> (r: Self)
        ensures
            r@ == self@,
    {
        let mut v: Vec<M<'_>> = Vec::new();
        let n = self.ms.len();
        let mut i: usize = 0;
        while i < n
            invariant
                i <= n,
                n == self.ms@.len(),
                v@.len() == i,
                forall|j: int| 0 <= j < i ==> (#[trigger] v@[j])@ == self.ms@[j]@,
            decreases n - i,
        {
            let m = &self.ms[i];
            v.push(m.clone());
            i = i + 1;
        }
        proof {
            assert forall|j: int| 0 <= j < n implies views_of(v@)[j] == views_of(self.ms@)[j] by {
                assert(views_of(v@)[j] == v@[j]@);
                assert(views_of(self.ms@)[j] == self.ms@[j]@);
            }
            assert(views_of(v@) =~= views_of(self.ms@));
        }
        Migrations { ms: v }
    }
}

impl PartialEq for Migrations<'_> {
    /// Catalogs are equal when their migrations are, position by position.
    fn eq(&self, other: &Self) -> bool {
        if self.ms.len() != other.ms.len() {
            return false;
        }
        let n = self.ms.len();
        let mut i: usize = 0;
        while i < n
            invariant
                i <= n,
                n == self.ms@.len(),
                n == other.ms@.len(),
            decreases n - i,
        {
            if !(self.ms[i] == other.ms[i]) {
                return false;
            }
            i = i + 1;
        }
        true
    }
}

impl vstd::std_specs::cmp::PartialEqSpecImpl for Migrations<'_> {
    open spec fn obeys_eq_spec() -> bool {
        false
    }

    open spec fn eq_spec(&self, other: &Migrations<'_>) -> bool {
        true
    }
}

impl Eq for Migrations<'_> {

}

/// The store events of applying one migration forward: its script, then the
/// audit when its flag is set, then its up-hook when one is attached.
pub open spec fn up_events_of(m: MView) -> Seq<StoreEvent> {
    seq![StoreEvent::Batch(m.up)] + (if m.foreign_key_check {
        seq![StoreEvent::Audit]
    } else {
        Seq::<StoreEvent>::empty()
    }) + (if m.up_hook {
        seq![StoreEvent::UpHook]
    } else {
        Seq::<StoreEvent>::empty()
    })
}

/// The store events of applying `cat[lo..hi)` forward, in catalog order.
pub open spec fn up_events(cat: Seq<MView>, lo: int, hi: int) -> Seq<StoreEvent>
    decreases hi - lo,
{
    if lo >= hi {
        Seq::empty()
    } else {
        up_events(cat, lo, hi - 1) + up_events_of(cat[hi - 1])
    }
}

/// The store events of reverting one migration: its down-hook when one is
/// attached, then its reverse script, then the audit when its flag is set.
pub open spec fn down_events_of(m: MView) -> Seq<StoreEvent> {
    (if m.down_hook {
        seq![StoreEvent::DownHook]
    } else {
        Seq::<StoreEvent>::empty()
    }) + seq![StoreEvent::Batch(m.down.unwrap())] + (if m.foreign_key_check {
        seq![StoreEvent::Audit]
    } else {
        Seq::<StoreEvent>::empty()
    })
}

/// The store events of reverting `cat[lo..hi)`, from the top of the range
/// downward.
pub open spec fn down_events(cat: Seq<MView>, lo: int, hi: int) -> Seq<StoreEvent>
    decreases hi - lo,
{
    if lo >= hi {
        Seq::empty()
    } else {
        down_events(cat, lo + 1, hi) + down_events_of(cat[lo])
    }
}

/// Every migration in `cat[lo..hi)` has a reverse script.
pub open spec fn all_down_defined(cat: Seq<MView>, lo: int, hi: int) -> bool {
    forall|i: int| lo <= i < hi ==> (#[trigger] cat[i]).down is Some
}

/// The first index in `[lo, hi)` whose migration has no reverse script, or
/// `hi` when every one has.
pub open spec fn first_missing_down(cat: Seq<MView>, lo: int, hi: int) -> int
    decreases hi - lo,
{
    if lo >= hi {
        hi
    } else if cat[lo].down is None {
        lo
    } else {
        first_missing_down(cat, lo + 1, hi)
    }
}

proof fn lemma_first_missing_down_range(cat: Seq<MView>, lo: int, hi: int)
    requires
        lo <= hi,
    ensures
        lo <= first_missing_down(cat, lo, hi) <= hi,
    decreases hi - lo,
{
    if lo < hi && !(cat[lo].down is None) {
        lemma_first_missing_down_range(cat, lo + 1, hi);
    }
}

proof fn lemma_first_missing_down(cat: Seq<MView>, lo: int, hi: int, i: int)
    requires
        lo <= i < hi,
        cat[i].down is None,
        forall|j: int| lo <= j < i ==> (#[trigger] cat[j]).down is Some,
    ensures
        first_missing_down(cat, lo, hi) == i,
    decreases i - lo,
{
    if lo < i {
        lemma_first_missing_down(cat, lo + 1, hi, i);
    }
}

/// What one successful migration run leaves behind: the marker moved to the
/// target and exactly the planned actions appended to the history — forward
/// scripts in catalog order when moving up, reverse scripts from the top
/// downward when moving down.
pub open spec fn migration_outcome(
    cat: Seq<MView>,
    pre: StoreState,
    post: StoreState,
    target: int,
) -> bool {
    &&& post.version == target
    &&& post.log == pre.log + (if target >= pre.version {
        up_events(cat, pre.version, target)
    } else {
        down_events(cat, target, pre.version)
    })
}

proof fn lemma_first_missing_down_none(cat: Seq<MView>, lo: int, hi: int)
    requires
        lo <= hi,
        all_down_defined(cat, lo, hi),
    ensures
        first_missing_down(cat, lo, hi) == hi,
    decreases hi - lo,
{
    if lo < hi {
        lemma_first_missing_down_none(cat, lo + 1, hi);
    }
}

/// Bringing the store to the latest version is idempotent: when a run that
/// reached the catalog's top version is followed by another successful run
/// with the same target, the second run changes nothing at all — the marker
/// stays, and not one further script or hook reaches the store.
pub proof fn lemma_to_latest_idempotent(
    cat: Seq<MView>,
    s0: StoreState,
    s1: StoreState,
    s2: StoreState,
)
    requires
        migration_outcome(cat, s0, s1, cat.len() as int),
        migration_outcome(cat, s1, s2, cat.len() as int),
    ensures
        s2 == s1,
{
    assert(s2.log =~= s1.log);
    assert(s2 =~= s1);
}

/// Round trip: when every migration of a catalog has a reverse script, a
/// successful run to the top, a successful revert to the bottom and a second
/// successful run to the top leave the store exactly at the catalog's own
/// version — and no reverse script could have been refused on the way down,
/// since none is missing.
pub proof fn lemma_round_trip(
    cat: Seq<MView>,
    s0: StoreState,
    s1: StoreState,
    s2: StoreState,
    s3: StoreState,
)
    requires
        0 < cat.len() <= usize::MAX,
        all_down_defined(cat, 0, cat.len() as int),
        s0.version == 0,
        migration_outcome(cat, s0, s1, cat.len() as int),
        migration_outcome(cat, s1, s2, 0),
        migration_outcome(cat, s2, s3, cat.len() as int),
    ensures
        spec_version_to_schema(cat.len() as int, s3.version) == SchemaVersion::Inside(
            cat.len() as usize,
        ),
        first_missing_down(cat, 0, s1.version) == cat.len() as int,
{
    lemma_first_missing_down_none(cat, 0, cat.len() as int);
}

/// Reads the version marker of the store, rejecting values that cannot count
/// applied migrations.
pub fn user_version(conn: &Connection) -> (r: Result<usize, Error>)
    requires
        conn.idle(),
    ensures
        r matches Ok(v) ==> 0 <= conn.version() <= 0x7fff_ffff && v as int == conn.version(),
        conn.version() < 0 ==> r is Err,
        r matches Err(e) ==> e == Error::InvalidUserVersion || e matches Error::RusqliteError {
            ..
        },
        r == Err::<usize, Error>(Error::InvalidUserVersion) ==> conn.version() < 0,
{
    match store::read_version(conn) {
        Ok(v) => {
            if v >= 0 {
                Ok(v as usize)
            } else {
                Err(Error::InvalidUserVersion)
            }
        },
        Err(err) => Err(
            Error::RusqliteError { query: String::from_str("PRAGMA user_version;"), err },
        ),
    }
}

/// Writes the version marker inside the open migration transaction, refusing
/// values beyond what the 4-byte field can hold.
fn set_user_version(conn: &mut Connection, v: usize) -> (r: Result<(), Error>)
    requires
        !old(conn).idle(),
    ensures
        final(conn).store() == old(conn).store(),
        !final(conn).idle(),
        r is Ok ==> v <= MIGRATIONS_MAX && final(conn).txn() == (StoreState {
            version: v as int,
            log: old(conn).txn().log,
        }),
        v > MIGRATIONS_MAX ==> r == Err::<(), Error>(
            Error::SpecifiedSchemaVersion(SchemaVersionError::TooHigh),
        ),
        r == Err::<(), Error>(Error::SpecifiedSchemaVersion(SchemaVersionError::TooHigh)) ==> v
            > MIGRATIONS_MAX,
        r matches Err(e) ==> e == Error::SpecifiedSchemaVersion(SchemaVersionError::TooHigh)
            || e matches Error::RusqliteError { .. },
{
    if v > MIGRATIONS_MAX {
        Err(Error::SpecifiedSchemaVersion(SchemaVersionError::TooHigh))
    } else {
        match store::txn_set_version(conn, v as i32) {
            Ok(()) => Ok(()),
            Err(err) => {
                let mut query = String::from_str("PRAGMA user_version = ");
                query.append(crate::decimal::usize_to_string(v).as_str());
                query.append("; -- Approximate query");
                Err(Error::RusqliteError { query, err })
            },
        }
    }
}

/// Folds the audit's findings into the engine's answer: success exactly
/// when the audit reported nothing, and otherwise an error carrying every
/// violation found, not just the first.
pub fn fold_violations(violations: Vec<ForeignKeyCheckError>) -> (r: Result<(), Error>)
    ensures
        violations@.len() == 0 <==> r is Ok,
        violations@.len() > 0 ==> r == Err::<(), Error>(Error::ForeignKeyCheck(violations)),
{
    if violations.len() > 0 {
        Err(Error::ForeignKeyCheck(violations))
    } else {
        Ok(())
    }
}

/// Runs the foreign key audit inside the open transaction and folds its
/// findings through [`fold_violations`]: what the audit reports is outside
/// data, but the audit itself is always recorded in the engine history, and
/// a foreign key error is exactly a non-empty report.
fn validate_foreign_keys(conn: &mut Connection) -> (r: Result<(), Error>)
    requires
        !old(conn).idle(),
    ensures
        final(conn).store() == old(conn).store(),
        !final(conn).idle(),
        final(conn).txn() == (StoreState {
            version: old(conn).txn().version,
            log: old(conn).txn().log.push(StoreEvent::Audit),
        }),
        r matches Err(Error::ForeignKeyCheck(vs)) ==> vs@.len() > 0,
        r matches Err(e) ==> (e matches Error::ForeignKeyCheck(..) || e matches
            Error::RusqliteError { .. }),
{
    match store::query_fk_violations(conn) {
        Ok(violations) => fold_violations(violations),
        Err(err) => Err(Error::with_sql(err, "PRAGMA foreign_key_check")),
    }
}

impl<'m> Migrations<'m> {
    /// How a raw version value relates to this catalog.
    pub fn db_version_to_schema(&self, db_version: usize) -> (r: SchemaVersion)
        ensures
            r == spec_version_to_schema(self@.len() as int, db_version as int),
    {
        if db_version == 0 {
            SchemaVersion::NoneSet
        } else if db_version <= self.ms.len() {
            SchemaVersion::Inside(db_version)
        } else {
            SchemaVersion::Outside(db_version)
        }
    }

    /// Maximum version defined in the migration set.
    fn max_schema_version(&self) -> (r: SchemaVersion)
        ensures
            self@.len() <= usize::MAX,
            r == (if self@.len() == 0 {
                SchemaVersion::NoneSet
            } else {
                SchemaVersion::Inside(self@.len() as usize)
            }),
    {
        let n = self.ms.len();
        if n == 0 {
            SchemaVersion::NoneSet
        } else {
            SchemaVersion::Inside(n)
        }
    }

    /// Get the current schema version.
    pub fn current_version(&self, conn: &Connection) -> (r: Result<SchemaVersion, Error>)
        requires
            conn.idle(),
        ensures
            r matches Ok(v) ==> 0 <= conn.version() <= 0x7fff_ffff && v
                == spec_version_to_schema(self@.len() as int, conn.version()),
            conn.version() < 0 ==> r is Err,
            r matches Err(e) ==> e == Error::InvalidUserVersion || e matches Error::RusqliteError {
                ..
            },
            r == Err::<SchemaVersion, Error>(Error::InvalidUserVersion) ==> conn.version() < 0,
    {
        match user_version(conn) {
            Ok(v) => Ok(self.db_version_to_schema(v)),
            Err(e) => Err(e),
        }
    }

    /// Returns the number of migrations [`Migrations::to_latest`] would
    /// apply: the catalog length minus the store's version. The number is
    /// negative when more migrations were applied than this catalog knows
    /// about.
    pub fn pending_migrations(&self, conn: &Connection) -> (r: Result<i32, Error>)
        requires
            conn.idle(),
            self@.len() <= MIGRATIONS_MAX,
        ensures
            r matches Ok(d) ==> 0 <= conn.version() <= 0x7fff_ffff && d as int == self@.len()
                - conn.version(),
            conn.version() < 0 ==> r is Err,
            r matches Err(e) ==> e == Error::InvalidUserVersion || e matches Error::RusqliteError {
                ..
            },
            r == Err::<i32, Error>(Error::InvalidUserVersion) ==> conn.version() < 0,
    {
        let v = match user_version(conn) {
            Ok(v) => v,
            Err(e) => { return Err(e) },
        };
        Ok(self.ms.len() as i32 - v as i32)
    }

    /// Applies the forward scripts from `current_version` up to
    /// `target_version` inside one transaction, then moves the marker and
    /// commits. Any failure rolls the whole transaction back.
    fn goto_up(
        &self,
        conn: &mut Connection,
        current_version: usize,
        target_version: usize,
    ) -> (r: Result<(), Error>)
        requires
            old(conn).idle(),
            current_version <= target_version,
            target_version <= self@.len(),
            old(conn).version() == current_version as int,
        ensures
            final(conn).idle(),
            r is Ok ==> migration_outcome(
                self@,
                old(conn).store(),
                final(conn).store(),
                target_version as int,
            ),
            r is Err ==> final(conn).store() == old(conn).store(),
            r matches Err(e) ==> (e matches Error::RusqliteError { .. } || e matches
                Error::ForeignKeyCheck(..) || e matches Error::Hook(..) || e
                == Error::SpecifiedSchemaVersion(SchemaVersionError::TooHigh)),
            r matches Err(Error::ForeignKeyCheck(vs)) ==> vs@.len() > 0,
            r matches Err(Error::ForeignKeyCheck(_)) ==> exists|i: int|
                current_version <= i < target_version && (#[trigger] self@[i]).foreign_key_check,
            r matches Err(Error::Hook(_)) ==> exists|i: int|
                current_version <= i < target_version && (#[trigger] self@[i]).up_hook,
            r == Err::<(), Error>(Error::SpecifiedSchemaVersion(SchemaVersionError::TooHigh))
                ==> target_version > MIGRATIONS_MAX,
    {
        match store::txn_begin(conn) {
            Ok(()) => {},
            Err(err) => {
                return Err(Error::RusqliteError { query: String::new(), err });
            },
        }
        proof {
            assert(conn.txn().log =~= old(conn).store().log + up_events(
                self@,
                current_version as int,
                current_version as int,
            ));
        }
        let mut v = current_version;
        while v < target_version
            invariant
                !conn.idle(),
                conn.store() == old(conn).store(),
                conn.txn().log == old(conn).store().log + up_events(
                    self@,
                    current_version as int,
                    v as int,
                ),
                current_version <= v <= target_version,
                target_version <= self@.len(),
            decreases target_version - v,
        {
            proof {
                assert(self@[v as int] == self.ms@[v as int]@);
            }
            let m = &self.ms[v];
            match store::txn_exec_batch(conn, m.up) {
                Ok(()) => {},
                Err(err) => {
                    let e = Error::with_sql(err, m.up);
                    store::txn_rollback(conn);
                    return Err(e);
                },
            }
            if m.foreign_key_check {
                match validate_foreign_keys(conn) {
                    Ok(()) => {},
                    Err(e) => {
                        proof {
                            assert(self@[v as int].foreign_key_check);
                        }
                        store::txn_rollback(conn);
                        return Err(e);
                    },
                }
            }
            match &m.up_hook {
                Some(hook) => {
                    match store::run_up_hook(conn, hook) {
                        Ok(()) => {},
                        Err(he) => {
                            proof {
                                assert(self@[v as int].up_hook);
                            }
                            let e = he.into_error();
                            store::txn_rollback(conn);
                            return Err(e);
                        },
                    }
                },
                None => {},
            }
            proof {
                assert(conn.txn().log =~= old(conn).store().log + up_events(
                    self@,
                    current_version as int,
                    v + 1,
                ));
            }
            v = v + 1;
        }
        match set_user_version(conn, target_version) {
            Ok(()) => {},
            Err(e) => {
                store::txn_rollback(conn);
                return Err(e);
            },
        }
        match store::txn_commit(conn) {
            Ok(()) => {
                proof {
                    assert(migration_outcome(
                        self@,
                        old(conn).store(),
                        conn.store(),
                        target_version as int,
                    ));
                }
                Ok(())
            },
            Err(err) => {
                let e = Error::RusqliteError { query: String::new(), err };
                store::txn_rollback(conn);
                return Err(e);
            },
        }
    }

    /// Reverts the migrations from `current_version` down to
    /// `target_version`. Every one of them must define a reverse script;
    /// that is checked up front, before any transaction is opened. The
    /// reverse scripts then run from the top downward inside one
    /// transaction, the marker moves and the transaction commits; any
    /// failure rolls everything back.
    fn goto_down(
        &self,
        conn: &mut Connection,
        current_version: usize,
        target_version: usize,
    ) -> (r: Result<(), Error>)
        requires
            old(conn).idle(),
            target_version <= current_version,
            current_version <= self@.len(),
            old(conn).version() == current_version as int,
        ensures
            final(conn).idle(),
            r is Ok ==> all_down_defined(self@, target_version as int, current_version as int)
                && migration_outcome(
                self@,
                old(conn).store(),
                final(conn).store(),
                target_version as int,
            ),
            r is Err ==> final(conn).store() == old(conn).store(),
            !all_down_defined(self@, target_version as int, current_version as int) ==> r
                == Err::<(), Error>(
                Error::MigrationDefinition(
                    MigrationDefinitionError::DownNotDefined {
                        migration_index: first_missing_down(
                            self@,
                            target_version as int,
                            current_version as int,
                        ) as usize,
                    },
                ),
            ),
            r matches Err(Error::MigrationDefinition(_)) ==> !all_down_defined(
                self@,
                target_version as int,
                current_version as int,
            ),
            r matches Err(e) ==> (e matches Error::RusqliteError { .. } || e matches
                Error::ForeignKeyCheck(..) || e matches Error::Hook(..) || e
                == Error::SpecifiedSchemaVersion(SchemaVersionError::TooHigh) || e matches
                Error::MigrationDefinition(_)),
            r matches Err(Error::ForeignKeyCheck(vs)) ==> vs@.len() > 0,
            r matches Err(Error::ForeignKeyCheck(_)) ==> exists|i: int|
                target_version <= i < current_version && (#[trigger] self@[i]).foreign_key_check,
            r matches Err(Error::Hook(_)) ==> exists|i: int|
                target_version <= i < current_version && (#[trigger] self@[i]).down_hook,
            r == Err::<(), Error>(Error::SpecifiedSchemaVersion(SchemaVersionError::TooHigh))
                ==> target_version > MIGRATIONS_MAX,
    {
        // Check that everything to revert has a reverse script; reject the
        // first migration that lacks one, before any transaction is opened.
        let mut i = target_version;
        while i < current_version
            invariant
                conn.idle(),
                conn.store() == old(conn).store(),
                target_version <= i <= current_version,
                current_version <= self@.len(),
                forall|j: int| target_version <= j < i ==> (#[trigger] self@[j]).down is Some,
            decreases current_version - i,
        {
            proof {
                assert(self@[i as int] == self.ms@[i as int]@);
            }
            if self.ms[i].down.is_none() {
                proof {
                    lemma_first_missing_down(
                        self@,
                        target_version as int,
                        current_version as int,
                        i as int,
                    );
                }
                return Err(
                    Error::MigrationDefinition(
                        MigrationDefinitionError::DownNotDefined { migration_index: i },
                    ),
                );
            }
            i = i + 1;
        }
        match store::txn_begin(conn) {
            Ok(()) => {},
            Err(err) => {
                return Err(Error::RusqliteError { query: String::new(), err });
            },
        }
        proof {
            assert(conn.txn().log =~= old(conn).store().log + down_events(
                self@,
                current_version as int,
                current_version as int,
            ));
        }
        let mut v = current_version;
        while v > target_version
            invariant
                !conn.idle(),
                conn.store() == old(conn).store(),
                conn.txn().log == old(conn).store().log + down_events(
                    self@,
                    v as int,
                    current_version as int,
                ),
                target_version <= v <= current_version,
                current_version <= self@.len(),
                forall|j: int| target_version <= j < current_version ==> (#[trigger] self@[j]).down
                    is Some,
            decreases v - target_version,
        {
            v = v - 1;
            proof {
                assert(self@[v as int] == self.ms@[v as int]@);
                assert(down_events(self@, v as int, current_version as int) == down_events(
                    self@,
                    v + 1,
                    current_version as int,
                ) + down_events_of(self@[v as int]));
            }
            let m = &self.ms[v];
            match &m.down_hook {
                Some(hook) => {
                    match store::run_down_hook(conn, hook) {
                        Ok(()) => {},
                        Err(he) => {
                            proof {
                                assert(self@[v as int].down_hook);
                            }
                            let e = he.into_error();
                            store::txn_rollback(conn);
                            return Err(e);
                        },
                    }
                },
                None => {},
            }
            match &m.down {
                Some(down_sql) => {
                    match store::txn_exec_batch(conn, down_sql) {
                        Ok(()) => {},
                        Err(err) => {
                            let e = Error::with_sql(err, down_sql);
                            store::txn_rollback(conn);
                            return Err(e);
                        },
                    }
                },
                None => {
                    proof {
                        assert(false);
                    }
                },
            }
            if m.foreign_key_check {
                match validate_foreign_keys(conn) {
                    Ok(()) => {},
                    Err(e) => {
                        proof {
                            assert(self@[v as int].foreign_key_check);
                        }
                        store::txn_rollback(conn);
                        return Err(e);
                    },
                }
            }
            proof {
                assert(conn.txn().log =~= old(conn).store().log + down_events(
                    self@,
                    v as int,
                    current_version as int,
                ));
            }
        }
        match set_user_version(conn, target_version) {
            Ok(()) => {},
            Err(e) => {
                store::txn_rollback(conn);
                return Err(e);
            },
        }
        match store::txn_commit(conn) {
            Ok(()) => {
                proof {
                    assert(migration_outcome(
                        self@,
                        old(conn).store(),
                        conn.store(),
                        target_version as int,
                    ));
                }
                Ok(())
            },
            Err(err) => {
                let e = Error::RusqliteError { query: String::new(), err };
                store::txn_rollback(conn);
                return Err(e);
            },
        }
    }

    /// Brings the store to the given version: reads the marker, decides
    /// between moving up, moving down and doing nothing, and applies the
    /// decision.
    fn goto(&self, conn: &mut Connection, target_db_version: usize) -> (r: Result<(), Error>)
        requires
            old(conn).idle(),
            target_db_version <= self@.len(),
        ensures
            final(conn).idle(),
            r is Err ==> final(conn).store() == old(conn).store(),
            old(conn).version() < 0 ==> r is Err,
            r == Err::<(), Error>(Error::InvalidUserVersion) ==> old(conn).version() < 0,
            old(conn).version() == target_db_version as int ==> final(conn).store() == old(
                conn,
            ).store() && (r is Ok || r matches Err(Error::RusqliteError { .. })),
            0 <= old(conn).version() < target_db_version as int && r is Ok ==> migration_outcome(
                self@,
                old(conn).store(),
                final(conn).store(),
                target_db_version as int,
            ),
            old(conn).version() > self@.len() ==> (r matches Err(e) && (e
                == Error::MigrationDefinition(MigrationDefinitionError::DatabaseTooFarAhead) || e
                matches Error::RusqliteError { .. })),
            (target_db_version as int) < old(conn).version() <= self@.len()
                && !all_down_defined(self@, target_db_version as int, old(conn).version()) ==> (r
                matches Err(e) && (e == Error::MigrationDefinition(
                MigrationDefinitionError::DownNotDefined {
                    migration_index: first_missing_down(
                        self@,
                        target_db_version as int,
                        old(conn).version(),
                    ) as usize,
                },
            ) || e matches Error::RusqliteError { .. })),
            (target_db_version as int) < old(conn).version() <= self@.len() && r is Ok
                ==> all_down_defined(self@, target_db_version as int, old(conn).version())
                && migration_outcome(
                self@,
                old(conn).store(),
                final(conn).store(),
                target_db_version as int,
            ),
            r matches Err(Error::MigrationDefinition(MigrationDefinitionError::DownNotDefined {
                migration_index })) ==> (target_db_version as int) < old(conn).version()
                <= self@.len() && !all_down_defined(
                self@,
                target_db_version as int,
                old(conn).version(),
            ) && migration_index as int == first_missing_down(
                self@,
                target_db_version as int,
                old(conn).version(),
            ),
            r matches Err(Error::ForeignKeyCheck(vs)) ==> vs@.len() > 0,
            r == Err::<(), Error>(
                Error::MigrationDefinition(MigrationDefinitionError::DatabaseTooFarAhead),
            ) ==> old(conn).version() > self@.len(),
            r != Err::<(), Error>(
                Error::MigrationDefinition(MigrationDefinitionError::NoMigrationsDefined),
            ),
            r matches Err(Error::SpecifiedSchemaVersion(sve)) ==> sve == SchemaVersionError::TooHigh
                && target_db_version > MIGRATIONS_MAX,
            r matches Err(e) ==> (e matches Error::RusqliteError { .. } || e matches
                Error::ForeignKeyCheck(..) || e matches Error::Hook(..) || e matches
                Error::SpecifiedSchemaVersion(_) || e matches Error::MigrationDefinition(_) || e
                == Error::InvalidUserVersion),
    {
        let current_version = match user_version(&*conn) {
            Ok(v) => v,
            Err(e) => { return Err(e) },
        };
        if target_db_version < current_version {
            if current_version > self.ms.len() {
                return Err(
                    Error::MigrationDefinition(MigrationDefinitionError::DatabaseTooFarAhead),
                );
            }
            let r = self.goto_down(conn, current_version, target_db_version);
            proof {
                lemma_first_missing_down_range(
                    self@,
                    target_db_version as int,
                    current_version as int,
                );
            }
            r
        } else if target_db_version == current_version {
            Ok(())
        } else {
            self.goto_up(conn, current_version, target_db_version)
        }
    }

    /// Migrate the database to the latest schema version, applying every
    /// pending migration atomically.
    ///
    /// Running it twice in a row performs no further work: once the marker
    /// equals the catalog length, the run changes nothing and hands no
    /// further script to the store.
    pub fn to_latest(&self, conn: &mut Connection) -> (r: Result<(), Error>)
        requires
            old(conn).idle(),
        ensures
            final(conn).idle(),
            r is Err ==> final(conn).store() == old(conn).store(),
            self@.len() == 0 ==> r == Err::<(), Error>(
                Error::MigrationDefinition(MigrationDefinitionError::NoMigrationsDefined),
            ),
            self@.len() > 0 && old(conn).version() == self@.len() ==> final(conn).store() == old(
                conn,
            ).store() && (r is Ok || r matches Err(Error::RusqliteError { .. })),
            self@.len() > 0 && 0 <= old(conn).version() < self@.len() && r is Ok
                ==> migration_outcome(
                self@,
                old(conn).store(),
                final(conn).store(),
                self@.len() as int,
            ),
            self@.len() > 0 && old(conn).version() < 0 ==> r is Err,
            r == Err::<(), Error>(Error::InvalidUserVersion) ==> old(conn).version() < 0,
            self@.len() > 0 && old(conn).version() > self@.len() ==> (r matches Err(e) && (e
                == Error::MigrationDefinition(MigrationDefinitionError::DatabaseTooFarAhead) || e
                matches Error::RusqliteError { .. })),
            r matches Err(Error::ForeignKeyCheck(vs)) ==> vs@.len() > 0,
            r matches Err(Error::MigrationDefinition(md)) ==> (md
                == MigrationDefinitionError::NoMigrationsDefined && self@.len() == 0) || (md
                == MigrationDefinitionError::DatabaseTooFarAhead && old(conn).version()
                > self@.len()),
            r matches Err(Error::SpecifiedSchemaVersion(sve)) ==> sve == SchemaVersionError::TooHigh
                && self@.len() > MIGRATIONS_MAX,
            r matches Err(e) ==> (e matches Error::RusqliteError { .. } || e matches
                Error::ForeignKeyCheck(..) || e matches Error::Hook(..) || e matches
                Error::SpecifiedSchemaVersion(_) || e matches Error::MigrationDefinition(_) || e
                == Error::InvalidUserVersion),
    {
        match self.max_schema_version() {
            SchemaVersion::NoneSet => Err(
                Error::MigrationDefinition(MigrationDefinitionError::NoMigrationsDefined),
            ),
            SchemaVersion::Inside(v) => self.goto(conn, v),
            SchemaVersion::Outside(_) => {
                proof {
                    assert(false);
                }
                Err(Error::MigrationDefinition(MigrationDefinitionError::NoMigrationsDefined))
            },
        }
    }

    /// Migrate the database to a given schema version, applying or reverting
    /// migrations atomically.
    ///
    /// Version 0 means an empty store; version `v` means the first `v`
    /// migrations have been applied. A target beyond the catalog is
    /// rejected, and so is a downward move through a migration with no
    /// reverse script — in both cases before anything runs against the
    /// store. A call whose target equals the current version changes
    /// nothing, opens no transaction and hands no script to the store.
    pub fn to_version(&self, conn: &mut Connection, version: usize) -> (r: Result<(), Error>)
        requires
            old(conn).idle(),
        ensures
            final(conn).idle(),
            r is Err ==> final(conn).store() == old(conn).store(),
            self@.len() == 0 ==> r == Err::<(), Error>(
                Error::MigrationDefinition(MigrationDefinitionError::NoMigrationsDefined),
            ),
            self@.len() > 0 && version > self@.len() ==> r == Err::<(), Error>(
                Error::SpecifiedSchemaVersion(
                    SchemaVersionError::TargetVersionOutOfRange {
                        specified: spec_version_to_schema(self@.len() as int, version as int),
                        highest: SchemaVersion::Inside(self@.len() as usize),
                    },
                ),
            ),
            self@.len() > 0 && version <= self@.len() && old(conn).version() < 0 ==> r is Err,
            r == Err::<(), Error>(Error::InvalidUserVersion) ==> old(conn).version() < 0,
            self@.len() > 0 && version <= self@.len() && old(conn).version() == version as int
                ==> final(conn).store() == old(conn).store() && (r is Ok || r matches Err(
                Error::RusqliteError { .. },
            )),
            self@.len() > 0 && version <= self@.len() && 0 <= old(conn).version() < version as int
                && r is Ok ==> migration_outcome(
                self@,
                old(conn).store(),
                final(conn).store(),
                version as int,
            ),
            self@.len() > 0 && version <= self@.len() && old(conn).version() > self@.len() ==> (r
                matches Err(e) && (e == Error::MigrationDefinition(
                MigrationDefinitionError::DatabaseTooFarAhead,
            ) || e matches Error::RusqliteError { .. })),
            self@.len() > 0 && (version as int) < old(conn).version() <= self@.len()
                && !all_down_defined(self@, version as int, old(conn).version()) ==> (r matches Err(
                e,
            ) && (e == Error::MigrationDefinition(
                MigrationDefinitionError::DownNotDefined {
                    migration_index: first_missing_down(
                        self@,
                        version as int,
                        old(conn).version(),
                    ) as usize,
                },
            ) || e matches Error::RusqliteError { .. })),
            self@.len() > 0 && (version as int) < old(conn).version() <= self@.len() && r is Ok
                ==> all_down_defined(self@, version as int, old(conn).version())
                && migration_outcome(
                self@,
                old(conn).store(),
                final(conn).store(),
                version as int,
            ),
            r matches Err(Error::MigrationDefinition(MigrationDefinitionError::DownNotDefined {
                migration_index })) ==> (version as int) < old(conn).version() <= self@.len()
                && !all_down_defined(self@, version as int, old(conn).version())
                && migration_index as int == first_missing_down(
                self@,
                version as int,
                old(conn).version(),
            ),
            r matches Err(Error::ForeignKeyCheck(vs)) ==> vs@.len() > 0,
            r == Err::<(), Error>(
                Error::MigrationDefinition(MigrationDefinitionError::NoMigrationsDefined),
            ) ==> self@.len() == 0,
            r matches Err(Error::SpecifiedSchemaVersion(
                SchemaVersionError::TargetVersionOutOfRange { .. },
            )) ==> version > self@.len(),
            r == Err::<(), Error>(Error::SpecifiedSchemaVersion(SchemaVersionError::TooHigh))
                ==> version > MIGRATIONS_MAX,
            r == Err::<(), Error>(
                Error::MigrationDefinition(MigrationDefinitionError::DatabaseTooFarAhead),
            ) ==> old(conn).version() > self@.len(),
    {
        match self.max_schema_version() {
            SchemaVersion::NoneSet => Err(
                Error::MigrationDefinition(MigrationDefinitionError::NoMigrationsDefined),
            ),
            SchemaVersion::Inside(v_max) => {
                if version > v_max {
                    return Err(
                        Error::SpecifiedSchemaVersion(
                            SchemaVersionError::TargetVersionOutOfRange {
                                specified: self.db_version_to_schema(version),
                                highest: SchemaVersion::Inside(v_max),
                            },
                        ),
                    );
                }
                self.goto(conn, version)
            },
            SchemaVersion::Outside(_) => {
                proof {
                    assert(false);
                }
                Err(Error::MigrationDefinition(MigrationDefinitionError::NoMigrationsDefined))
            },
        }
    }

    /// Creates a set of migrations from an embedded directory whose
    /// subdirectories follow the `{id}-{name}` pattern, each holding an
    /// `up.sql` and optionally a `down.sql`. The ids must run consecutively
    /// from 1; the subdirectory name becomes the migration's comment.
    pub fn from_directory(dir: &'static Dir<'static>) -> (r: Result<Migrations<'static>, Error>)
        ensures
            loader::spec_load(loader::dir_units(*dir)) matches Ok(cat) ==> r matches Ok(m) && m@
                == cat,
            loader::spec_load(loader::dir_units(*dir)) matches Err(msg) ==> r matches Err(
                Error::FileLoad(s),
            ) && s@ == msg,
    {
        match loader::from_directory(dir) {
            Ok(ms) => Ok(Migrations { ms }),
            Err(e) => Err(e),
        }
    }

    /// Run all the upward migrations on a temporary in-memory database, to
    /// certify the catalog before deployment. The scratch store starts at
    /// version 0, so the no-migrations error comes exactly on an empty
    /// catalog, and a store that is ahead of the catalog cannot occur.
    pub fn validate(&self) -> (r: Result<(), Error>)
        ensures
            r is Ok ==> self@.len() > 0,
            self@.len() == 0 ==> (r == Err::<(), Error>(
                Error::MigrationDefinition(MigrationDefinitionError::NoMigrationsDefined),
            ) || r matches Err(Error::RusqliteError { .. })),
            r == Err::<(), Error>(
                Error::MigrationDefinition(MigrationDefinitionError::NoMigrationsDefined),
            ) ==> self@.len() == 0,
            r matches Err(e) ==> (e matches Error::RusqliteError { .. } || e matches
                Error::ForeignKeyCheck(..) || e matches Error::Hook(..) || e
                == Error::SpecifiedSchemaVersion(SchemaVersionError::TooHigh) || e
                == Error::MigrationDefinition(MigrationDefinitionError::NoMigrationsDefined)),
            r matches Err(Error::ForeignKeyCheck(vs)) ==> vs@.len() > 0,
    {
        match Connection::open_in_memory() {
            Ok(mut conn) => self.to_latest(&mut conn),
            Err(e) => Err(e),
        }
    }
}

} // verus!

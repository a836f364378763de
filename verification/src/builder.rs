//! Bounded, pre-finalization edits to a list of migrations: an arena of
//! slots addressed by 1-based id, compacted into an immutable catalog on
//! finalization.

use vstd::prelude::*;

use crate::errors::Error;
use crate::loader;
use crate::{Migrations, M};
use include_dir::Dir;

verus! {

/// Allows editing loaded or constructed migrations before freezing them into
/// a [`Migrations`] catalog.
pub struct MigrationsBuilder<'u> {
    migrations: Vec<Option<M<'u>>>,
}

impl<'u> View for MigrationsBuilder<'u> {
    type V = Seq<Option<M<'u>>>;

    closed spec fn view(&self) -> Seq<Option<M<'u>>> {
        self.migrations@
    }
}

impl<'u> MigrationsBuilder<'u> {
    /// Every slot of a well-formed builder is filled; a hole could only come
    /// from inside this module, never from a caller.
    pub open spec fn wf(&self) -> bool {
        forall|i: int| 0 <= i < self@.len() ==> (#[trigger] self@[i]) is Some
    }

    /// Takes an owned list of migrations into editable slots, element by
    /// element.
    pub fn from_iter(ms: Vec<M<'u>>) -> (r: Self)
        ensures
            r.wf(),
            r@ == Seq::new(ms@.len(), |i: int| Some(ms@[i])),
    {
        let ghost orig = ms@;
        let mut slots: Vec<Option<M<'u>>> = Vec::new();
        let mut rest = ms;
        while rest.len() > 0
            invariant
                slots@.len() + rest@.len() == orig.len(),
                forall|j: int| 0 <= j < slots@.len() ==> (#[trigger] slots@[j]) == Some(orig[j]),
                forall|j: int| 0 <= j < rest@.len() ==> (#[trigger] rest@[j]) == orig[slots@.len()
                    + j],
            decreases rest@.len(),
        {
            let m = rest.remove(0);
            slots.push(Some(m));
        }
        proof {
            assert(slots@ =~= Seq::new(orig.len(), |i: int| Some(orig[i])));
        }
        MigrationsBuilder { migrations: slots }
    }

    /// Allows editing the migration with a given 1-based `id` by applying a
    /// transform to it and putting the result back in its slot.
    #[must_use]
    pub fn edit<F: Fn(M<'u>) -> M<'u>>(self, id: usize, f: F) -> (r: Self)
        requires
            self.wf(),
            1 <= id <= self@.len(),
            forall|m: M<'u>| #[trigger] call_requires(f, (m,)),
        ensures
            r.wf(),
            exists|y: M<'u>|
                call_ensures(f, (self@[id - 1].unwrap(),), y) && r@ == self@.update(
                    id - 1,
                    Some(y),
                ),
    {
        let ghost pre = self.migrations@;
        let mut migrations = self.migrations;
        let slot = migrations.remove(id - 1);
        match slot {
            Some(m) => {
                let y = f(m);
                migrations.insert(id - 1, Some(y));
                proof {
                    assert(migrations@ =~= pre.update(id - 1, Some(y)));
                }
            },
            None => {
                proof {
                    assert(false);
                }
            },
        }
        MigrationsBuilder { migrations }
    }

    /// Finalizes the builder, compacting the slots into an immutable
    /// catalog.
    pub fn finalize(self) -> (r: Migrations<'u>)
        requires
            self.wf(),
        ensures
            r@ == Seq::new(self@.len(), |i: int| self@[i].unwrap()@),
    {
        let ghost orig = self.migrations@;
        let mut out: Vec<M<'u>> = Vec::new();
        let mut rest = self.migrations;
        while rest.len() > 0
            invariant
                out@.len() + rest@.len() == orig.len(),
                forall|j: int| 0 <= j < orig.len() ==> (#[trigger] orig[j]) is Some,
                forall|j: int| 0 <= j < out@.len() ==> Some(#[trigger] out@[j]) == orig[j],
                forall|j: int| 0 <= j < rest@.len() ==> (#[trigger] rest@[j]) == orig[out@.len()
                    + j],
            decreases rest@.len(),
        {
            let slot = rest.remove(0);
            match slot {
                Some(m) => {
                    out.push(m);
                },
                None => {
                    proof {
                        assert(false);
                    }
                },
            }
        }
        let r = Migrations::new(out);
        proof {
            assert forall|j: int| 0 <= j < orig.len() implies r@[j] == Seq::new(
                orig.len(),
                |i: int| orig[i].unwrap()@,
            )[j] by {
                assert(crate::views_of(out@)[j] == out@[j]@);
            }
            assert(r@ =~= Seq::new(orig.len(), |i: int| orig[i].unwrap()@));
        }
        r
    }
}

impl MigrationsBuilder<'static> {
    /// Creates editable migration slots from an embedded directory,
    /// validated exactly as [`Migrations::from_directory`] validates it.
    pub fn from_directory(dir: &'static Dir<'static>) -> (r: Result<
        MigrationsBuilder<'static>,
        Error,
    >)
        ensures
            loader::spec_load(loader::dir_units(*dir)) matches Ok(cat) ==> r matches Ok(b)
                && b.wf() && loader::opt_views(b@) == Seq::new(cat.len(), |i: int| Some(cat[i])),
            loader::spec_load(loader::dir_units(*dir)) matches Err(m) ==> r matches Err(
                Error::FileLoad(s),
            ) && s@ == m,
    {
        let ms = match loader::from_directory(dir) {
            Ok(ms) => ms,
            Err(e) => {
                return Err(e);
            },
        };
        let ghost cat = crate::views_of(ms@);
        let b = MigrationsBuilder::from_iter(ms);
        proof {
            assert forall|j: int| 0 <= j < cat.len() implies loader::opt_views(b@)[j] == Some(
                cat[j],
            ) by {
                assert(b@[j] == Some(ms@[j]));
                assert(crate::views_of(ms@)[j] == ms@[j]@);
            }
            assert(loader::opt_views(b@) =~= Seq::new(cat.len(), |i: int| Some(cat[i])));
        }
        Ok(b)
    }
}

} // verus!

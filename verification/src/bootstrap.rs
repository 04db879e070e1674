//! Bootstrap: migrates every entity's schema object in dependency order
//! (referencing entities after the entities they reference) and imports the
//! reference-data seed exactly once.

use vstd::prelude::*;

use crate::errors::{SResult, YaddakErrorKind};
use crate::monsters::{
    seed_has_sentinel, seeding_post, sentinel_present, Monster, MonsterFromJson, MonsterFromJsonV,
    MonsterV,
};
use crate::repo::{views_of, Table};
use crate::user::User;

verus! {

/// The whole store: one table per entity.
pub struct Db {
    pub users: Table<User>,
    pub monsters: Table<Monster>,
}

impl Db {
    /// An empty store with no schema objects.
    pub fn new() -> (r: Self)
        ensures
            !r.users.created,
            !r.monsters.created,
            r.users.view_rows() == Seq::<crate::user::UserV>::empty(),
            r.monsters.view_rows() == Seq::<MonsterV>::empty(),
    {
        Db { users: Table::new(), monsters: Table::new() }
    }
}

/// Migrates every known entity in dependency order, then imports the seed
/// records unless the sentinel shows a previous import.  Rows of the User
/// table are never touched.
pub fn migrate(db: &mut Db, seed: &Vec<MonsterFromJson>) -> (r: SResult<()>)
    ensures
        final(db).users.created,
        final(db).monsters.created,
        final(db).users.rows == old(db).users.rows,
        seeding_post(
            old(db).monsters.view_rows(),
            final(db).monsters.view_rows(),
            views_of(seed@),
            r is Ok,
        ),
        r is Err ==> r->Err_0.kind == YaddakErrorKind::DBError,
{
    match db.users.migrate() {
        Ok(()) => (),
        Err(e) => {
            return Err(e);
        },
    }
    match db.monsters.migrate() {
        Ok(()) => (),
        Err(e) => {
            return Err(e);
        },
    }
    Monster::migrate_json(&mut db.monsters, seed)
}

/// Law: bootstrap is idempotent.  Once a run has succeeded with a seed
/// list that carries the sentinel record (or against a store that already
/// held it), a second run with the same seed succeeds and changes no row.
pub proof fn lemma_migrate_idempotent(
    rows0: Seq<MonsterV>,
    rows1: Seq<MonsterV>,
    rows2: Seq<MonsterV>,
    seed: Seq<MonsterFromJsonV>,
    ok2: bool,
)
    requires
        seeding_post(rows0, rows1, seed, true),
        sentinel_present(rows0) || seed_has_sentinel(seed),
        seeding_post(rows1, rows2, seed, ok2),
    ensures
        ok2,
        rows2 == rows1,
{
    if sentinel_present(rows0) {
        assert(rows1 == rows0);
    } else {
        let j = choose|j: int| 0 <= j < seed.len() && seed[j].name == "Aboleth"@;
        let added = rows1.subrange(rows0.len() as int, rows1.len() as int);
        assert(added[j] == crate::monsters::convert_spec(added[j].id, seed[j]));
        assert(rows1[rows0.len() + j] == added[j]);
        assert(rows1[rows0.len() + j].name == "Aboleth"@);
        assert(sentinel_present(rows1));
    }
}

} // verus!

//! The repository contract: every persisted entity supports schema
//! migration, get-by-id, get-all, insert, update and delete against a table.
//! `Table` is the reference model of one backing table: operations on it
//! carry the exact contract that a storage adapter must honor.

use vstd::prelude::*;

use crate::errors::{SResult, YaddakError, YaddakErrorKind};

verus! {

/// A record type with an immutable 128-bit identifier, a value view, and a
/// notion of overwriting its mutable fields from another record.
pub trait Entity: View + Sized {
    /// The identifier of a record.
    spec fn key_spec(v: Self::V) -> u128;

    /// The record that results from overwriting the mutable fields of `cur`
    /// with those of `src`; the identifier of `cur` is kept.
    spec fn update_spec(cur: Self::V, src: Self::V) -> Self::V;

    fn key_of(&self) -> (r: u128)
        ensures
            r == Self::key_spec(self@),
    ;

    fn duplicate(&self) -> (r: Self)
        ensures
            r@ == self@,
    ;

    fn updated(&self, src: &Self) -> (r: Self)
        ensures
            r@ == Self::update_spec(self@, src@),
    ;
}

/// The views of a sequence of records.
pub open spec fn views_of<T: View>(s: Seq<T>) -> Seq<T::V> {
    s.map_values(|t: T| t@)
}

pub proof fn lemma_views_of_len<T: View>(s: Seq<T>)
    ensures
        views_of(s).len() == s.len(),
{
}

pub proof fn lemma_views_of_index<T: View>(s: Seq<T>, k: int)
    requires
        0 <= k < s.len(),
    ensures
        views_of(s)[k] == s[k]@,
{
}

pub proof fn lemma_views_of_push<T: View>(s: Seq<T>, t: T)
    ensures
        views_of(s.push(t)) == views_of(s).push(t@),
{
    assert(views_of(s.push(t)) =~= views_of(s).push(t@));
}

/// The first record of `s` whose identifier is `id`, if any.
pub open spec fn first_match<T: Entity>(s: Seq<T::V>, id: u128) -> Option<T::V>
    decreases s.len(),
{
    if s.len() == 0 {
        None
    } else if T::key_spec(s[0]) == id {
        Some(s[0])
    } else {
        first_match::<T>(s.drop_first(), id)
    }
}

pub proof fn lemma_first_match_at<T: Entity>(s: Seq<T::V>, id: u128, j: int)
    requires
        0 <= j < s.len(),
        T::key_spec(s[j]) == id,
        forall|k: int| 0 <= k < j ==> T::key_spec(s[k]) != id,
    ensures
        first_match::<T>(s, id) == Some(s[j]),
    decreases j,
{
    if j > 0 {
        lemma_first_match_at::<T>(s.drop_first(), id, j - 1);
    }
}

pub proof fn lemma_first_match_absent<T: Entity>(s: Seq<T::V>, id: u128)
    requires
        forall|k: int| 0 <= k < s.len() ==> T::key_spec(s[k]) != id,
    ensures
        first_match::<T>(s, id) is None,
    decreases s.len(),
{
    if s.len() > 0 {
        lemma_first_match_absent::<T>(s.drop_first(), id);
    }
}

/// Law: after appending a record whose identifier is absent, fetching that
/// identifier finds exactly the appended record.
pub proof fn lemma_insert_then_get<T: Entity>(s: Seq<T::V>, v: T::V)
    requires
        first_match::<T>(s, T::key_spec(v)) is None,
    ensures
        first_match::<T>(s.push(v), T::key_spec(v)) == Some(v),
    decreases s.len(),
{
    if s.len() == 0 {
        assert(s.push(v)[0] == v);
    } else {
        lemma_insert_then_get::<T>(s.drop_first(), v);
        assert(s.push(v).drop_first() =~= s.drop_first().push(v));
    }
}

pub proof fn lemma_filter_push<A>(s: Seq<A>, pred: spec_fn(A) -> bool, x: A)
    ensures
        s.push(x).filter(pred) == (if pred(x) {
            s.filter(pred).push(x)
        } else {
            s.filter(pred)
        }),
{
    reveal(Seq::filter);
    assert(s.push(x).drop_last() =~= s);
    assert(s.push(x).last() == x);
}

pub proof fn lemma_filter_empty_iff<A>(s: Seq<A>, pred: spec_fn(A) -> bool)
    ensures
        (s.filter(pred).len() == 0) <==> (forall|i: int| 0 <= i < s.len() ==> !pred(s[i])),
    decreases s.len(),
{
    reveal(Seq::filter);
    if s.len() > 0 {
        lemma_filter_empty_iff(s.drop_last(), pred);
        if s.filter(pred).len() == 0 {
            assert(forall|i: int| 0 <= i < s.len() - 1 ==> s.drop_last()[i] == s[i]);
        } else {
            if !pred(s.last()) {
                assert(s.filter(pred) == s.drop_last().filter(pred));
                let j = choose|j: int| 0 <= j < s.len() - 1 && pred(s.drop_last()[j]);
                assert(pred(s[j]));
            }
        }
    }
}

/// The model of one backing table: whether its schema object exists, and
/// its rows in storage order.
pub struct Table<T> {
    pub created: bool,
    pub rows: Vec<T>,
}

impl<T: Entity> Table<T> {
    /// The views of the rows.
    pub open spec fn view_rows(&self) -> Seq<T::V> {
        views_of(self.rows@)
    }

    /// An empty store whose schema object does not exist yet.
    pub fn new() -> (r: Self)
        ensures
            !r.created,
            r.view_rows() == Seq::<T::V>::empty(),
    {
        let r = Table { created: false, rows: Vec::new() };
        proof {
            assert(r.view_rows() =~= Seq::<T::V>::empty());
        }
        r
    }

    /// Creates the backing schema object if absent; the rows are untouched.
    /// Idempotent: safe to call on every process start.
    pub fn migrate(&mut self) -> (r: SResult<()>)
        ensures
            r is Ok,
            final(self).created,
            final(self).rows == old(self).rows,
    {
        self.created = true;
        Ok(())
    }

    fn find_first(&self, id: u128) -> (r: Option<usize>)
        ensures
            match r {
                Some(i) => i < self.rows@.len() && T::key_spec(self.view_rows()[i as int]) == id
                    && first_match::<T>(self.view_rows(), id) == Some(
                    self.view_rows()[i as int],
                ),
                None => first_match::<T>(self.view_rows(), id) is None,
            },
    {
        let mut i: usize = 0;
        while i < self.rows.len()
            invariant
                i <= self.rows@.len(),
                forall|k: int| 0 <= k < i ==> T::key_spec(self.view_rows()[k]) != id,
            decreases self.rows@.len() - i,
        {
            if self.rows[i].key_of() == id {
                proof {
                    lemma_first_match_at::<T>(self.view_rows(), id, i as int);
                }
                return Some(i);
            }
            i = i + 1;
        }
        proof {
            lemma_first_match_absent::<T>(self.view_rows(), id);
        }
        None
    }

    /// Fetches the one record matching `id`.  Fails when the table does not
    /// exist, and with a not-found failure when zero rows match.
    pub fn get(&self, id: u128) -> (r: SResult<T>)
        ensures
            !self.created ==> r is Err && r->Err_0.kind == YaddakErrorKind::DBError
                && r->Err_0.msg() == "no such table"@,
            self.created ==> match r {
                Ok(t) => first_match::<T>(self.view_rows(), id) == Some(t@),
                Err(e) => first_match::<T>(self.view_rows(), id) is None && e.kind
                    == YaddakErrorKind::DBError && e.msg() == "no rows returned"@,
            },
    {
        if !self.created {
            return Err(YaddakError::database_error(String::from_str("no such table")));
        }
        match self.find_first(id) {
            Some(i) => Ok(self.rows[i].duplicate()),
            None => Err(YaddakError::database_error(String::from_str("no rows returned"))),
        }
    }

    /// Returns all records in storage order.  Fails only when the table
    /// does not exist.
    pub fn get_all(&self) -> (r: SResult<Vec<T>>)
        ensures
            !self.created ==> r is Err && r->Err_0.kind == YaddakErrorKind::DBError
                && r->Err_0.msg() == "no such table"@,
            self.created ==> r is Ok && views_of(r->Ok_0@) == self.view_rows(),
    {
        if !self.created {
            return Err(YaddakError::database_error(String::from_str("no such table")));
        }
        let mut out: Vec<T> = Vec::new();
        let mut i: usize = 0;
        while i < self.rows.len()
            invariant
                i <= self.rows@.len(),
                views_of(out@) == self.view_rows().subrange(0, i as int),
            decreases self.rows@.len() - i,
        {
            let ghost prev = out@;
            let item = self.rows[i].duplicate();
            proof {
                lemma_views_of_index::<T>(self.rows@, i as int);
            }
            out.push(item);
            proof {
                lemma_views_of_push::<T>(prev, item);
                assert(self.view_rows().subrange(0, i as int).push(self.view_rows()[i as int])
                    =~= self.view_rows().subrange(0, i + 1));
            }
            i = i + 1;
        }
        proof {
            assert(self.view_rows().subrange(0, self.view_rows().len() as int)
                =~= self.view_rows());
            lemma_views_of_len::<T>(self.rows@);
        }
        Ok(out)
    }

    /// Appends one record.  Fails when the table does not exist, or with a
    /// duplicate-key conflict when a record with the same identifier is
    /// already stored; on failure the rows are unchanged.
    pub fn post(&mut self, model: &T) -> (r: SResult<()>)
        ensures
            final(self).created == old(self).created,
            !old(self).created ==> r is Err && r->Err_0.kind == YaddakErrorKind::DBError
                && r->Err_0.msg() == "no such table"@ && final(self).rows == old(self).rows,
            old(self).created && first_match::<T>(old(self).view_rows(), T::key_spec(model@))
                is Some ==> r is Err && r->Err_0.kind == YaddakErrorKind::DBError
                && r->Err_0.msg() == "duplicate key"@ && final(self).rows == old(self).rows,
            old(self).created && first_match::<T>(old(self).view_rows(), T::key_spec(model@))
                is None ==> r is Ok && final(self).view_rows() == old(self).view_rows().push(
                model@,
            ),
    {
        if !self.created {
            return Err(YaddakError::database_error(String::from_str("no such table")));
        }
        match self.find_first(model.key_of()) {
            Some(_) => Err(YaddakError::database_error(String::from_str("duplicate key"))),
            None => {
                let ghost prev = self.rows@;
                let item = model.duplicate();
                self.rows.push(item);
                proof {
                    lemma_views_of_push::<T>(prev, item);
                }
                Ok(())
            },
        }
    }

    /// Overwrites the mutable fields of every record matching `id` with
    /// those of `model`.  A zero-row match is reported as success with the
    /// rows unchanged: presence must be checked separately when it matters.
    pub fn put(&mut self, id: u128, model: &T) -> (r: SResult<()>)
        ensures
            final(self).created == old(self).created,
            !old(self).created ==> r is Err && r->Err_0.kind == YaddakErrorKind::DBError
                && r->Err_0.msg() == "no such table"@ && final(self).rows == old(self).rows,
            old(self).created ==> r is Ok && final(self).view_rows() == old(
                self,
            ).view_rows().map_values(
                |v: T::V|
                    if T::key_spec(v) == id {
                        T::update_spec(v, model@)
                    } else {
                        v
                    },
            ),
    {
        if !self.created {
            return Err(YaddakError::database_error(String::from_str("no such table")));
        }
        let ghost target = old(self).view_rows().map_values(
            |v: T::V|
                if T::key_spec(v) == id {
                    T::update_spec(v, model@)
                } else {
                    v
                },
        );
        let mut out: Vec<T> = Vec::new();
        let mut i: usize = 0;
        while i < self.rows.len()
            invariant
                i <= self.rows@.len(),
                self.rows == old(self).rows,
                self.created,
                target == old(self).view_rows().map_values(
                    |v: T::V|
                        if T::key_spec(v) == id {
                            T::update_spec(v, model@)
                        } else {
                            v
                        },
                ),
                views_of(out@) == target.subrange(0, i as int),
            decreases self.rows@.len() - i,
        {
            let ghost prev = out@;
            proof {
                lemma_views_of_index::<T>(self.rows@, i as int);
            }
            let item = if self.rows[i].key_of() == id {
                self.rows[i].updated(model)
            } else {
                self.rows[i].duplicate()
            };
            out.push(item);
            proof {
                lemma_views_of_push::<T>(prev, item);
                assert(target[i as int] == item@);
                assert(target.subrange(0, i as int).push(target[i as int]) =~= target.subrange(
                    0,
                    i + 1,
                ));
            }
            i = i + 1;
        }
        self.rows = out;
        proof {
            lemma_views_of_len::<T>(old(self).rows@);
            assert(target.subrange(0, target.len() as int) =~= target);
        }
        Ok(())
    }

    /// Removes every record matching `id`.  A zero-row match is reported as
    /// success with the rows unchanged.
    pub fn delete(&mut self, id: u128) -> (r: SResult<()>)
        ensures
            final(self).created == old(self).created,
            !old(self).created ==> r is Err && r->Err_0.kind == YaddakErrorKind::DBError
                && r->Err_0.msg() == "no such table"@ && final(self).rows == old(self).rows,
            old(self).created ==> r is Ok && final(self).view_rows() == old(
                self,
            ).view_rows().filter(|v: T::V| T::key_spec(v) != id),
    {
        if !self.created {
            return Err(YaddakError::database_error(String::from_str("no such table")));
        }
        let ghost target = old(self).view_rows().filter(|v: T::V| T::key_spec(v) != id);
        let mut out: Vec<T> = Vec::new();
        let mut i: usize = 0;
        while i < self.rows.len()
            invariant
                i <= self.rows@.len(),
                self.rows == old(self).rows,
                self.created,
                target == old(self).view_rows().filter(|v: T::V| T::key_spec(v) != id),
                views_of(out@) == self.view_rows().subrange(0, i as int).filter(
                    |v: T::V| T::key_spec(v) != id,
                ),
            decreases self.rows@.len() - i,
        {
            let ghost pred = |v: T::V| T::key_spec(v) != id;
            proof {
                lemma_views_of_index::<T>(self.rows@, i as int);
                assert(self.view_rows().subrange(0, i + 1) =~= self.view_rows().subrange(
                    0,
                    i as int,
                ).push(self.view_rows()[i as int]));
                lemma_filter_push(
                    self.view_rows().subrange(0, i as int),
                    pred,
                    self.view_rows()[i as int],
                );
            }
            if self.rows[i].key_of() != id {
                let ghost prev = out@;
                let item = self.rows[i].duplicate();
                out.push(item);
                proof {
                    lemma_views_of_push::<T>(prev, item);
                }
            }
            i = i + 1;
        }
        self.rows = out;
        proof {
            lemma_views_of_len::<T>(old(self).rows@);
            assert(old(self).view_rows().subrange(0, old(self).view_rows().len() as int) =~= old(
                self,
            ).view_rows());
        }
        Ok(())
    }
}

} // verus!

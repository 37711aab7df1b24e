use vstd::prelude::*;
use crate::model::{ServerConfig, ServerView, UpdateServerRequest, Timestamp, updated_view};

verus! {

/// No two records share an id.
pub open spec fn ids_distinct(s: Seq<ServerView>) -> bool {
    forall|i: int, j: int| 0 <= i < s.len() && 0 <= j < s.len() && s[i].id == s[j].id ==> i == j
}

/// Some record has this id.
pub open spec fn has_id(s: Seq<ServerView>, id: Seq<char>) -> bool {
    exists|i: int| 0 <= i < s.len() && s[i].id == id
}

/// The table after writing `r`: it replaces a record with the same id, or is appended.
pub open spec fn put_spec(s: Seq<ServerView>, r: ServerView) -> Seq<ServerView> {
    if has_id(s, r.id) {
        s.map(|i: int, x: ServerView| if x.id == r.id { r } else { x })
    } else {
        s.push(r)
    }
}

/// The table after an update of the record with this id; others are untouched.
pub open spec fn update_spec(
    s: Seq<ServerView>,
    id: Seq<char>,
    req: &UpdateServerRequest,
    now: int,
) -> Seq<ServerView> {
    s.map(|i: int, x: ServerView| if x.id == id { updated_view(x, req, now) } else { x })
}

/// The table after removing this id: no record holds it, every other record stays,
/// nothing new appears, and removing an absent id changes nothing.
pub open spec fn delete_relation(s: Seq<ServerView>, t: Seq<ServerView>, id: Seq<char>) -> bool {
    &&& !has_id(t, id)
    &&& !has_id(s, id) ==> t == s
    &&& forall|k: int| 0 <= k < s.len() && s[k].id != id ==> #[trigger] t.contains(s[k])
    &&& forall|k: int| 0 <= k < t.len() ==> #[trigger] s.contains(t[k])
}

/// An in-memory key-value table of server records, keyed by id.
pub struct ServerTable {
    name: String,
    records: Vec<ServerConfig>,
}

/// A failed store operation.
#[derive(Clone, Copy, Debug, PartialEq, Eq, Structural)]
pub enum StoreError {
    /// No table of the requested name exists.
    TableNotFound,
}

impl View for ServerTable {
    type V = Seq<ServerView>;

    closed spec fn view(&self) -> Seq<ServerView> {
        self.records@.map_values(|r: ServerConfig| r@)
    }
}

impl ServerTable {
    /// Each id is held by at most one record.
    pub open spec fn wf(&self) -> bool {
        ids_distinct(self@)
    }

    /// The table's name.
    pub closed spec fn name_view(&self) -> Seq<char> {
        self.name@
    }

    /// An empty table with this name.
    pub fn new(name: String) -> (r: ServerTable)
        ensures
            r.wf(),
            r@ == Seq::<ServerView>::empty(),
            r.name_view() == name@,
    {
        let r = ServerTable { name, records: Vec::new() };
        assert(r@ =~= Seq::<ServerView>::empty());
        r
    }

    /// Number of records.
    pub fn len(&self) -> (n: usize)
        ensures
            n == self@.len(),
    {
        self.records.len()
    }

    /// Position of the record with this id, if any.
    pub fn find(&self, id: &String) -> (r: Option<usize>)
        ensures
            match r {
                Some(i) => i < self@.len() && self@[i as int].id == id@,
                None => !has_id(self@, id@),
            },
    {
        let mut i: usize = 0;
        while i < self.records.len()
            invariant
                i <= self.records@.len(),
                self@.len() == self.records@.len(),
                forall|k: int| 0 <= k < i ==> self@[k].id != id@,
            decreases self.records@.len() - i,
        {
            if self.records[i].server_id == *id {
                return Some(i);
            }
            i = i + 1;
        }
        None
    }

    /// A copy of the record with this id, if present.
    fn get_record(&self, id: &String) -> (r: Option<ServerConfig>)
        ensures
            match r {
                Some(c) => exists|i: int| 0 <= i < self@.len() && self@[i] == c@ && c@.id == id@,
                None => !has_id(self@, id@),
            },
    {
        match self.find(id) {
            Some(i) => Some(self.records[i].duplicate()),
            None => None,
        }
    }

    /// Every record, in table order.
    fn scan_records(&self) -> (r: Vec<ServerConfig>)
        ensures
            r@.map_values(|c: ServerConfig| c@) == self@,
    {
        let mut out: Vec<ServerConfig> = Vec::new();
        let mut i: usize = 0;
        while i < self.records.len()
            invariant
                i <= self.records@.len(),
                self@.len() == self.records@.len(),
                out@.len() == i,
                forall|k: int| 0 <= k < i ==> out@[k]@ == self@[k],
            decreases self.records@.len() - i,
        {
            out.push(self.records[i].duplicate());
            i = i + 1;
        }
        assert(out@.map_values(|c: ServerConfig| c@) =~= self@);
        out
    }

    /// Writes `rec`, replacing any record with the same id.
    fn put_record(&mut self, rec: ServerConfig)
        requires
            old(self).wf(),
        ensures
            final(self).wf(),
            final(self).name_view() == old(self).name_view(),
            final(self)@ == put_spec(old(self)@, rec@),
    {
        let ghost r = rec@;
        match self.find(&rec.server_id) {
            Some(i) => {
                self.records.set(i, rec);
                assert(self@ =~= put_spec(old(self)@, r));
            },
            None => {
                self.records.push(rec);
                assert(self@ =~= put_spec(old(self)@, r));
            },
        }
    }

    /// Applies `req` to the record with this id at time `now`; false when there is none.
    fn update_record(&mut self, id: &String, req: &UpdateServerRequest, now: Timestamp) -> (found:
        bool)
        requires
            old(self).wf(),
        ensures
            final(self).wf(),
            final(self).name_view() == old(self).name_view(),
            found == has_id(old(self)@, id@),
            final(self)@ == update_spec(old(self)@, id@, req, now.micros as int),
    {
        match self.find(id) {
            Some(i) => {
                let mut rec = self.records[i].duplicate();
                rec.apply_update(req, now);
                self.records.set(i, rec);
                assert(self@ =~= update_spec(old(self)@, id@, req, now.micros as int));
                true
            },
            None => {
                assert(self@ =~= update_spec(old(self)@, id@, req, now.micros as int));
                false
            },
        }
    }

    /// Removes the record with this id; removing an absent id changes nothing.
    fn delete_record(&mut self, id: &String)
        requires
            old(self).wf(),
        ensures
            final(self).wf(),
            final(self).name_view() == old(self).name_view(),
            delete_relation(old(self)@, final(self)@, id@),
    {
        match self.find(id) {
            Some(i) => {
                self.records.remove(i);
                assert(self@ =~= old(self)@.remove(i as int));
                assert forall|k: int|
                    0 <= k < old(self)@.len() && old(self)@[k].id != id@ implies #[trigger] self@.contains(
                    old(self)@[k],
                ) by {
                    if k < i {
                        assert(self@[k] == old(self)@[k]);
                    } else {
                        assert(k != i);
                        assert(self@[k - 1] == old(self)@[k]);
                    }
                }
                assert forall|k: int|
                    0 <= k < self@.len() implies #[trigger] old(self)@.contains(self@[k]) by {
                    if k < i {
                        assert(old(self)@[k] == self@[k]);
                    } else {
                        assert(old(self)@[k + 1] == self@[k]);
                    }
                }
                assert forall|a: int, b: int|
                    0 <= a < self@.len() && 0 <= b < self@.len() && self@[a].id == self@[b].id
                    implies a == b by {
                    let oa = if a < i { a } else { a + 1 };
                    let ob = if b < i { b } else { b + 1 };
                    assert(self@[a] == old(self)@[oa]);
                    assert(self@[b] == old(self)@[ob]);
                }
                assert forall|k: int| 0 <= k < self@.len() implies self@[k].id != id@ by {
                    let ok = if k < i { k } else { k + 1 };
                    assert(self@[k] == old(self)@[ok]);
                }
            },
            None => {
                assert forall|k: int|
                    0 <= k < old(self)@.len() && old(self)@[k].id != id@ implies #[trigger] self@.contains(
                    old(self)@[k],
                ) by {
                    assert(self@[k] == old(self)@[k]);
                }
                assert forall|k: int|
                    0 <= k < self@.len() implies #[trigger] old(self)@.contains(self@[k]) by {
                    assert(old(self)@[k] == self@[k]);
                }
            },
        }
    }

    /// Fails unless `table` names this table.
    fn check_table(&self, table: &String) -> (r: Result<(), StoreError>)
        ensures
            r is Ok <==> table@ == self.name_view(),
            r is Err ==> r == Err::<(), StoreError>(StoreError::TableNotFound),
    {
        if *table == self.name {
            Ok(())
        } else {
            Err(StoreError::TableNotFound)
        }
    }

    /// Point read: a copy of the record with this id, if present.
    pub fn get_item(&self, table: &String, id: &String) -> (r: Result<Option<ServerConfig>, StoreError>)
        ensures
            r is Err <==> table@ != self.name_view(),
            match r {
                Ok(Some(c)) => exists|i: int| 0 <= i < self@.len() && self@[i] == c@ && c@.id == id@,
                Ok(None) => !has_id(self@, id@),
                Err(e) => e == StoreError::TableNotFound,
            },
    {
        self.check_table(table)?;
        Ok(self.get_record(id))
    }

    /// Full scan: every record, in table order.
    pub fn scan(&self, table: &String) -> (r: Result<Vec<ServerConfig>, StoreError>)
        ensures
            r is Err <==> table@ != self.name_view(),
            match r {
                Ok(v) => v@.map_values(|c: ServerConfig| c@) == self@,
                Err(e) => e == StoreError::TableNotFound,
            },
    {
        self.check_table(table)?;
        Ok(self.scan_records())
    }

    /// Writes `rec`, replacing any record with the same id.
    pub fn put_item(&mut self, table: &String, rec: ServerConfig) -> (r: Result<(), StoreError>)
        requires
            old(self).wf(),
        ensures
            final(self).wf(),
            final(self).name_view() == old(self).name_view(),
            r is Err <==> table@ != old(self).name_view(),
            match r {
                Ok(_) => final(self)@ == put_spec(old(self)@, rec@),
                Err(e) => e == StoreError::TableNotFound && final(self)@ == old(self)@,
            },
    {
        self.check_table(table)?;
        self.put_record(rec);
        Ok(())
    }

    /// Applies `req` to the record with this id at time `now`; `Ok(false)` when there is none.
    pub fn update_item(
        &mut self,
        table: &String,
        id: &String,
        req: &UpdateServerRequest,
        now: Timestamp,
    ) -> (r: Result<bool, StoreError>)
        requires
            old(self).wf(),
        ensures
            final(self).wf(),
            final(self).name_view() == old(self).name_view(),
            r is Err <==> table@ != old(self).name_view(),
            match r {
                Ok(found) => found == has_id(old(self)@, id@) && final(self)@ == update_spec(
                    old(self)@,
                    id@,
                    req,
                    now.micros as int,
                ),
                Err(e) => e == StoreError::TableNotFound && final(self)@ == old(self)@,
            },
    {
        self.check_table(table)?;
        Ok(self.update_record(id, req, now))
    }

    /// Removes the record with this id; removing an absent id changes nothing.
    pub fn delete_item(&mut self, table: &String, id: &String) -> (r: Result<(), StoreError>)
        requires
            old(self).wf(),
        ensures
            final(self).wf(),
            final(self).name_view() == old(self).name_view(),
            r is Err <==> table@ != old(self).name_view(),
            match r {
                Ok(_) => delete_relation(old(self)@, final(self)@, id@),
                Err(e) => e == StoreError::TableNotFound && final(self)@ == old(self)@,
            },
    {
        self.check_table(table)?;
        self.delete_record(id);
        Ok(())
    }
}

} // verus!

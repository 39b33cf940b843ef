//! The session: one open handle to the query engine together with the
//! catalog of relation names this harness has registered on it. The
//! catalog carries the naming discipline — a strategy-qualified suffix per
//! backing store, uniqueness of names, and refusal (never silent
//! overwrite) of a second registration under a name already in use.

use vstd::prelude::*;
use vstd::string::*;

use crate::engine;
use crate::sql;

verus! {

/// The backing-store strategy of a registered relation: rows streamed
/// from the source file on every access, or rows materialized into the
/// session's own storage.
#[derive(Clone, Copy)]
pub enum Strategy {
    Streaming,
    Materialized,
}

/// The name suffix that qualifies a relation name with its strategy at
/// the engine boundary.
pub open spec fn suffix_text(st: Strategy) -> Seq<char> {
    match st {
        Strategy::Streaming => "V"@,
        Strategy::Materialized => "M"@,
    }
}

/// The strategy-qualified engine name for a base relation name.
pub open spec fn engine_name_text(base: Seq<char>, st: Strategy) -> Seq<char> {
    base + suffix_text(st)
}

/// The suffix for a strategy, as a string slice.
pub fn suffix_str(st: Strategy) -> (r: &'static str)
    ensures
        r@ == suffix_text(st),
{
    match st {
        Strategy::Streaming => "V",
        Strategy::Materialized => "M",
    }
}

/// Produces the strategy-qualified engine name for a base name.
pub fn engine_name(base: &str, st: Strategy) -> (r: String)
    ensures
        r@ == engine_name_text(base@, st),
{
    let mut out = base.to_owned();
    out.append(suffix_str(st));
    out
}

/// A schema-loading failure: a relation name already taken in this
/// session, or any failure surfaced by the engine (missing file,
/// malformed header, copy failure), propagated unchanged as the cause.
#[derive(Debug)]
pub enum LoadError {
    NameConflict(String),
    Engine(rusqlite::Error),
}

/// A query failure: the engine refused the statement, or a count query
/// produced no result row where exactly one is contractually expected.
#[derive(Debug)]
pub enum QueryError {
    NoRow,
    Engine(rusqlite::Error),
}

/// The outcome of one count query: the exact SQL text issued, the
/// reported count, and the elapsed wall-clock time from immediately
/// before statement preparation to immediately after the result row was
/// obtained.
pub struct QueryOutcome {
    pub sql: String,
    pub count: i64,
    pub elapsed_secs: u64,
}

/// The outcome of materializing one relation: the exact SQL text issued
/// and the elapsed wall-clock time of the copy.
pub struct MaterializeOutcome {
    pub sql: String,
    pub elapsed_secs: u64,
}

/// The outcome of a full strategy switch: one materialization per source
/// relation (timed separately, as the copy cost dominates the run) and
/// the statement that re-derived the join view over the copies.
pub struct SwitchReport {
    pub first: MaterializeOutcome,
    pub second: MaterializeOutcome,
    pub view_sql: String,
}

/// One open handle to the query engine, owning the catalog of relation
/// names registered through this harness.
pub struct Session {
    conn: rusqlite::Connection,
    names: Vec<String>,
}

impl View for Session {
    type V = Seq<Seq<char>>;

    /// The catalog: the sequence of engine names registered so far, in
    /// registration order.
    closed spec fn view(&self) -> Seq<Seq<char>> {
        Seq::new(self.names@.len(), |i: int| self.names@[i]@)
    }
}

impl Session {
    /// The catalog's invariant: a relation name is unique within the
    /// session at any point in time.
    pub open spec fn wf(self) -> bool {
        forall|i: int, j: int| 0 <= i < j < self@.len() ==> self@[i] != self@[j]
    }

    /// Whether `name` is registered in this session's catalog.
    pub open spec fn registered(self, name: Seq<char>) -> bool {
        exists|i: int| 0 <= i < self@.len() && self@[i] == name
    }

    /// Opens a fresh in-memory engine with the CSV virtual-table module
    /// loaded, and an empty catalog.
    pub fn open() -> (r: Result<Session, LoadError>)
        ensures
            r matches Ok(s) ==> s@ == Seq::<Seq<char>>::empty() && s.wf(),
            r matches Err(e) ==> e matches LoadError::Engine(_),
    {
        match engine::open_in_memory() {
            Ok(conn) => match engine::load_csv_module(&conn) {
                Ok(_) => {
                    let s = Session { conn, names: Vec::new() };
                    proof {
                        assert(s@ =~= Seq::<Seq<char>>::empty());
                    }
                    Ok(s)
                },
                Err(e) => Err(LoadError::Engine(e)),
            },
            Err(e) => Err(LoadError::Engine(e)),
        }
    }

    /// Wraps an already open engine connection in a session with an empty
    /// catalog. Relations created on the connection before this call are
    /// queryable but are not the session's own registrations.
    pub fn from_connection(conn: rusqlite::Connection) -> (s: Session)
        ensures
            s@ == Seq::<Seq<char>>::empty(),
            s.wf(),
    {
        let s = Session { conn, names: Vec::new() };
        proof {
            assert(s@ =~= Seq::<Seq<char>>::empty());
        }
        s
    }

    /// Whether `name` is in the catalog, as an executable test.
    fn contains_name(&self, name: &String) -> (r: bool)
        ensures
            r == self.registered(name@),
    {
        let mut i: usize = 0;
        while i < self.names.len()
            invariant
                i <= self.names@.len(),
                forall|k: int| 0 <= k < i ==> self@[k] != name@,
            decreases self.names@.len() - i,
        {
            if self.names[i].eq(name) {
                proof {
                    assert(self@[i as int] == name@);
                }
                return true;
            }
            i = i + 1;
        }
        false
    }

    /// Registers the file at `path` as a streaming (CSV virtual table)
    /// relation under the strategy-qualified name for `base`, returning
    /// the schema statement issued. A name already in the catalog is
    /// refused with a naming conflict and the catalog is left unchanged;
    /// an engine failure likewise leaves the catalog unchanged.
    pub fn register_streaming(&mut self, base: &str, path: &str) -> (r: Result<String, LoadError>)
        ensures
            old(self).wf() ==> final(self).wf(),
            old(self).registered(engine_name_text(base@, Strategy::Streaming)) ==> final(self)@ == old(
                self,
            )@ && (r matches Err(LoadError::NameConflict(n)) && n@ == engine_name_text(
                base@,
                Strategy::Streaming,
            )),
            !old(self).registered(engine_name_text(base@, Strategy::Streaming)) ==> match r {
                Ok(stmt) => stmt@ == sql::create_virtual_table_text(
                    engine_name_text(base@, Strategy::Streaming),
                    path@,
                ) && final(self)@ == old(self)@.push(engine_name_text(base@, Strategy::Streaming)),
                Err(e) => e matches LoadError::Engine(_) && final(self)@ == old(self)@,
            },
    {
        let name = engine_name(base, Strategy::Streaming);
        if self.contains_name(&name) {
            return Err(LoadError::NameConflict(name));
        }
        let stmt = sql::create_virtual_table_sql(name.as_str(), path);
        match engine::execute_batch(&self.conn, stmt.as_str()) {
            Ok(_) => {
                proof {
                    assert(forall|k: int|
                        0 <= k < self@.len() ==> old(self)@[k] == #[trigger] self@[k]);
                }
                self.names.push(name);
                proof {
                    assert(self@ =~= old(self)@.push(engine_name_text(base@, Strategy::Streaming)));
                }
                Ok(stmt)
            },
            Err(e) => Err(LoadError::Engine(e)),
        }
    }

    /// Defines the join view for a strategy: `view_base` over the two
    /// strategy-qualified sources for `left_base` and `right_base`,
    /// returning the schema statement issued. Conflict and failure
    /// behave as in `register_streaming`.
    pub fn define_join_view(
        &mut self,
        view_base: &str,
        left_base: &str,
        right_base: &str,
        st: Strategy,
    ) -> (r: Result<String, LoadError>)
        ensures
            old(self).wf() ==> final(self).wf(),
            old(self).registered(engine_name_text(view_base@, st)) ==> final(self)@ == old(self)@ && (
            r matches Err(LoadError::NameConflict(n)) && n@ == engine_name_text(view_base@, st)),
            !old(self).registered(engine_name_text(view_base@, st)) ==> match r {
                Ok(stmt) => stmt@ == sql::create_join_view_text(
                    engine_name_text(view_base@, st),
                    engine_name_text(left_base@, st),
                    engine_name_text(right_base@, st),
                ) && final(self)@ == old(self)@.push(engine_name_text(view_base@, st)),
                Err(e) => e matches LoadError::Engine(_) && final(self)@ == old(self)@,
            },
    {
        let name = engine_name(view_base, st);
        if self.contains_name(&name) {
            return Err(LoadError::NameConflict(name));
        }
        let left = engine_name(left_base, st);
        let right = engine_name(right_base, st);
        let stmt = sql::create_join_view_sql(name.as_str(), left.as_str(), right.as_str());
        match engine::execute_batch(&self.conn, stmt.as_str()) {
            Ok(_) => {
                proof {
                    assert(forall|k: int|
                        0 <= k < self@.len() ==> old(self)@[k] == #[trigger] self@[k]);
                }
                self.names.push(name);
                proof {
                    assert(self@ =~= old(self)@.push(engine_name_text(view_base@, st)));
                }
                Ok(stmt)
            },
            Err(e) => Err(LoadError::Engine(e)),
        }
    }

    /// The strategy switch for one relation: copies the full row set of
    /// the streaming relation for `base` into a session-local table under
    /// the materialized name, reporting the statement issued and the
    /// elapsed copy time. Conflict and failure behave as in
    /// `register_streaming`.
    pub fn materialize(&mut self, base: &str) -> (r: Result<MaterializeOutcome, LoadError>)
        ensures
            old(self).wf() ==> final(self).wf(),
            old(self).registered(engine_name_text(base@, Strategy::Materialized)) ==> final(self)@ == old(
                self,
            )@ && (r matches Err(LoadError::NameConflict(n)) && n@ == engine_name_text(
                base@,
                Strategy::Materialized,
            )),
            !old(self).registered(engine_name_text(base@, Strategy::Materialized)) ==> match r {
                Ok(o) => o.sql@ == sql::create_table_as_text(
                    engine_name_text(base@, Strategy::Materialized),
                    engine_name_text(base@, Strategy::Streaming),
                ) && final(self)@ == old(self)@.push(engine_name_text(base@, Strategy::Materialized)),
                Err(e) => e matches LoadError::Engine(_) && final(self)@ == old(self)@,
            },
    {
        let name = engine_name(base, Strategy::Materialized);
        if self.contains_name(&name) {
            return Err(LoadError::NameConflict(name));
        }
        let src = engine_name(base, Strategy::Streaming);
        let stmt = sql::create_table_as_sql(name.as_str(), src.as_str());
        let t0 = engine::instant_now();
        match engine::execute_batch(&self.conn, stmt.as_str()) {
            Ok(_) => {
                let d = engine::instant_elapsed(&t0);
                let secs = engine::duration_secs(&d);
                proof {
                    assert(forall|k: int|
                        0 <= k < self@.len() ==> old(self)@[k] == #[trigger] self@[k]);
                }
                self.names.push(name);
                proof {
                    assert(self@ =~= old(self)@.push(
                        engine_name_text(base@, Strategy::Materialized),
                    ));
                }
                Ok(MaterializeOutcome { sql: stmt, elapsed_secs: secs })
            },
            Err(e) => Err(LoadError::Engine(e)),
        }
    }

    /// Runs the filtered count query against the named relation: the
    /// count of rows whose `stop_id` equals the filter literal. The
    /// statement is prepared and its single result row pulled lazily;
    /// the elapsed time brackets exactly that work.
    pub fn run_count(&self, relation: &str, literal: &str) -> (r: Result<QueryOutcome, QueryError>)
        ensures
            r matches Ok(o) ==> o.sql@ == sql::count_where_text(relation@, literal@),
    {
        let stmt = sql::count_where_sql(relation, literal);
        let t0 = engine::instant_now();
        match engine::query_first_i64(&self.conn, stmt.as_str()) {
            Ok(c) => match c {
                Some(count) => {
                    let d = engine::instant_elapsed(&t0);
                    let secs = engine::duration_secs(&d);
                    Ok(QueryOutcome { sql: stmt, count, elapsed_secs: secs })
                },
                None => Err(QueryError::NoRow),
            },
            Err(e) => Err(QueryError::Engine(e)),
        }
    }

    /// Runs the unfiltered count query against the named relation: its
    /// total row count.
    pub fn run_count_all(&self, relation: &str) -> (r: Result<QueryOutcome, QueryError>)
        ensures
            r matches Ok(o) ==> o.sql@ == sql::count_all_text(relation@),
    {
        let stmt = sql::count_all_sql(relation);
        let t0 = engine::instant_now();
        match engine::query_first_i64(&self.conn, stmt.as_str()) {
            Ok(c) => match c {
                Some(count) => {
                    let d = engine::instant_elapsed(&t0);
                    let secs = engine::duration_secs(&d);
                    Ok(QueryOutcome { sql: stmt, count, elapsed_secs: secs })
                },
                None => Err(QueryError::NoRow),
            },
            Err(e) => Err(QueryError::Engine(e)),
        }
    }

    /// Runs the filtered count query once per probe literal against the
    /// same relation, in order, stopping at the first failure.
    pub fn run_probes(&self, relation: &str, probes: &Vec<String>) -> (r: Result<
        Vec<QueryOutcome>,
        QueryError,
    >)
        ensures
            r matches Ok(v) ==> v@.len() == probes@.len() && forall|k: int|
                0 <= k < v@.len() ==> #[trigger] v@[k].sql@ == sql::count_where_text(
                    relation@,
                    probes@[k]@,
                ),
    {
        let mut out: Vec<QueryOutcome> = Vec::new();
        let mut i: usize = 0;
        while i < probes.len()
            invariant
                i <= probes@.len(),
                out@.len() == i,
                forall|k: int|
                    0 <= k < i ==> #[trigger] out@[k].sql@ == sql::count_where_text(
                        relation@,
                        probes@[k]@,
                    ),
            decreases probes@.len() - i,
        {
            match self.run_count(relation, probes[i].as_str()) {
                Ok(o) => out.push(o),
                Err(e) => {
                    return Err(e);
                },
            }
            i = i + 1;
        }
        Ok(out)
    }

    /// The schema-loading pass: registers the two source files as
    /// streaming relations and defines the streaming join view over them,
    /// returning the three schema statements issued. On failure the
    /// catalog holds exactly the registrations that had already
    /// succeeded, and the cause is either a naming conflict carrying the
    /// strategy-qualified name that was refused (in particular, a left
    /// source name already in use is refused before anything is issued)
    /// or the engine's error propagated unchanged; the run must not
    /// proceed to querying.
    pub fn load_streaming_pair(
        &mut self,
        left_base: &str,
        left_path: &str,
        right_base: &str,
        right_path: &str,
        view_base: &str,
    ) -> (r: Result<Vec<String>, LoadError>)
        ensures
            old(self).wf() ==> final(self).wf(),
            r matches Ok(v) ==> v@.len() == 3 && v@[0]@ == sql::create_virtual_table_text(
                engine_name_text(left_base@, Strategy::Streaming),
                left_path@,
            ) && v@[1]@ == sql::create_virtual_table_text(
                engine_name_text(right_base@, Strategy::Streaming),
                right_path@,
            ) && v@[2]@ == sql::create_join_view_text(
                engine_name_text(view_base@, Strategy::Streaming),
                engine_name_text(left_base@, Strategy::Streaming),
                engine_name_text(right_base@, Strategy::Streaming),
            ) && final(self)@ == old(self)@.push(engine_name_text(left_base@, Strategy::Streaming)).push(
                engine_name_text(right_base@, Strategy::Streaming),
            ).push(engine_name_text(view_base@, Strategy::Streaming)),
            r matches Err(e) ==> final(self)@ == old(self)@ || final(self)@ == old(self)@.push(
                engine_name_text(left_base@, Strategy::Streaming),
            ) || final(self)@ == old(self)@.push(engine_name_text(left_base@, Strategy::Streaming)).push(
                engine_name_text(right_base@, Strategy::Streaming),
            ),
            old(self).registered(engine_name_text(left_base@, Strategy::Streaming))
                ==> final(self)@ == old(self)@ && (r matches Err(LoadError::NameConflict(n))
                && n@ == engine_name_text(left_base@, Strategy::Streaming)),
            r matches Err(e) ==> e matches LoadError::Engine(_) || (
            e matches LoadError::NameConflict(n) && (n@ == engine_name_text(
                left_base@,
                Strategy::Streaming,
            ) || n@ == engine_name_text(right_base@, Strategy::Streaming) || n@
                == engine_name_text(view_base@, Strategy::Streaming))),
    {
        let mut stmts: Vec<String> = Vec::new();
        match self.register_streaming(left_base, left_path) {
            Ok(s) => stmts.push(s),
            Err(e) => {
                return Err(e);
            },
        }
        match self.register_streaming(right_base, right_path) {
            Ok(s) => stmts.push(s),
            Err(e) => {
                return Err(e);
            },
        }
        match self.define_join_view(view_base, left_base, right_base, Strategy::Streaming) {
            Ok(s) => stmts.push(s),
            Err(e) => {
                return Err(e);
            },
        }
        Ok(stmts)
    }

    /// The strategy switch: materializes both source relations and
    /// defines the materialized join view over the copies. On failure the
    /// catalog holds exactly the registrations that had already
    /// succeeded, and the cause is either a naming conflict carrying the
    /// strategy-qualified name that was refused (in particular, a left
    /// materialized name already in use is refused before anything is
    /// issued) or the engine's error propagated unchanged.
    pub fn materialize_pair(
        &mut self,
        left_base: &str,
        right_base: &str,
        view_base: &str,
    ) -> (r: Result<SwitchReport, LoadError>)
        ensures
            old(self).wf() ==> final(self).wf(),
            r matches Ok(rep) ==> rep.first.sql@ == sql::create_table_as_text(
                engine_name_text(left_base@, Strategy::Materialized),
                engine_name_text(left_base@, Strategy::Streaming),
            ) && rep.second.sql@ == sql::create_table_as_text(
                engine_name_text(right_base@, Strategy::Materialized),
                engine_name_text(right_base@, Strategy::Streaming),
            ) && rep.view_sql@ == sql::create_join_view_text(
                engine_name_text(view_base@, Strategy::Materialized),
                engine_name_text(left_base@, Strategy::Materialized),
                engine_name_text(right_base@, Strategy::Materialized),
            ) && final(self)@ == old(self)@.push(
                engine_name_text(left_base@, Strategy::Materialized),
            ).push(engine_name_text(right_base@, Strategy::Materialized)).push(
                engine_name_text(view_base@, Strategy::Materialized),
            ),
            r matches Err(e) ==> final(self)@ == old(self)@ || final(self)@ == old(self)@.push(
                engine_name_text(left_base@, Strategy::Materialized),
            ) || final(self)@ == old(self)@.push(
                engine_name_text(left_base@, Strategy::Materialized),
            ).push(engine_name_text(right_base@, Strategy::Materialized)),
            old(self).registered(engine_name_text(left_base@, Strategy::Materialized))
                ==> final(self)@ == old(self)@ && (r matches Err(LoadError::NameConflict(n))
                && n@ == engine_name_text(left_base@, Strategy::Materialized)),
            r matches Err(e) ==> e matches LoadError::Engine(_) || (
            e matches LoadError::NameConflict(n) && (n@ == engine_name_text(
                left_base@,
                Strategy::Materialized,
            ) || n@ == engine_name_text(right_base@, Strategy::Materialized) || n@
                == engine_name_text(view_base@, Strategy::Materialized))),
    {
        let first = match self.materialize(left_base) {
            Ok(o) => o,
            Err(e) => {
                return Err(e);
            },
        };
        let second = match self.materialize(right_base) {
            Ok(o) => o,
            Err(e) => {
                return Err(e);
            },
        };
        let view_sql = match self.define_join_view(
            view_base,
            left_base,
            right_base,
            Strategy::Materialized,
        ) {
            Ok(s) => s,
            Err(e) => {
                return Err(e);
            },
        };
        Ok(SwitchReport { first, second, view_sql })
    }

    /// Every session produced and maintained by this harness keeps its
    /// relation names unique: no two catalog entries are equal.
    pub proof fn lemma_names_unique(self, i: int, j: int)
        requires
            self.wf(),
            0 <= i < j < self@.len(),
        ensures
            self@[i] != self@[j],
    {
    }
}

} // verus!


//! The in-process backend: a policy module evaluated by an engine.
//!
//! The client keeps the module's entrypoint table. It says which entrypoint
//! to evaluate for a query and what the engine's answer means. Running the
//! module is the caller's: it performs the [`Evaluate`] and reports what the
//! engine returned.
use vstd::prelude::*;
use crate::json::elements;
use crate::json::json_elements;
use crate::OpaClientError;
use crate::OpenPolicyAgentClient;

verus! {

/// Whether no name occurs twice among the entries.
pub open spec fn distinct_names(entries: Seq<(String, i32)>) -> bool {
    forall|i: int, j: int| 0 <= i < j < entries.len() ==> entries[i].0@ != entries[j].0@
}

/// The table that a list of entries spells: each name with its id, a later
/// entry replacing an earlier one of the same name.
pub open spec fn table_of(entries: Seq<(String, i32)>) -> Map<Seq<char>, i32>
    decreases entries.len(),
{
    if entries.len() == 0 {
        Map::empty()
    } else {
        table_of(entries.drop_last()).insert(entries.last().0@, entries.last().1)
    }
}

/// Whether a name occurs among the entries.
pub open spec fn has_name(entries: Seq<(String, i32)>, name: Seq<char>) -> bool {
    exists|i: int| 0 <= i < entries.len() && #[trigger] entries[i].0@ == name
}

/// A table knows exactly the names of its entries.
proof fn lemma_table_names(entries: Seq<(String, i32)>, name: Seq<char>)
    ensures
        table_of(entries).contains_key(name) <==> has_name(entries, name),
    decreases entries.len(),
{
    if entries.len() > 0 {
        let front = entries.drop_last();
        let last = entries.len() - 1;
        lemma_table_names(front, name);
        if has_name(entries, name) {
            let i = choose|i: int| 0 <= i < entries.len() && #[trigger] entries[i].0@ == name;
            if i < last {
                assert(front[i].0@ == name);
            }
        }
        if table_of(entries).contains_key(name) {
            if entries[last].0@ != name {
                let i = choose|i: int| 0 <= i < front.len() && #[trigger] front[i].0@ == name;
                assert(entries[i].0@ == name);
            }
        }
    }
}

/// Where no name occurs twice, a table gives each entry's name the entry's
/// id.
proof fn lemma_table_value(entries: Seq<(String, i32)>, i: int)
    requires
        distinct_names(entries),
        0 <= i < entries.len(),
    ensures
        table_of(entries).contains_key(entries[i].0@),
        table_of(entries)[entries[i].0@] == entries[i].1,
    decreases entries.len(),
{
    let front = entries.drop_last();
    let last = entries.len() - 1;
    if i < last {
        assert(entries[i].0@ != entries[last].0@);
        assert(front[i] == entries[i]);
        assert forall|a: int, b: int| 0 <= a < b < front.len() implies front[a].0@
            != front[b].0@ by {
            assert(entries[a].0@ != entries[b].0@);
        }
        lemma_table_value(front, i);
    }
}

/// The id under which a table knows a policy, or `PolicyError` where it does
/// not know it.
pub open spec fn resolution(table: Map<Seq<char>, i32>, policy: Seq<char>) -> Result<
    i32,
    OpaClientError,
> {
    if table.contains_key(policy) {
        Ok(table[policy])
    } else {
        Err(OpaClientError::PolicyError)
    }
}

/// What to ask of the engine: the entrypoint to evaluate, and the two
/// documents to evaluate it with.
#[derive(Debug)]
pub struct Evaluate<I, D> {
    pub entrypoint: i32,
    pub input: I,
    pub data: D,
}

/// What the engine made of an evaluation.
#[derive(Debug)]
pub enum Evaluation<R> {
    /// The engine failed.
    Failed,
    /// The engine returned these results.
    Rows(Vec<R>),
}

impl<R> Evaluation<R> {
    /// The results, where the engine returned any.
    pub open spec fn rows(self) -> Option<Seq<R>> {
        match self {
            Evaluation::Failed => None,
            Evaluation::Rows(rows) => Some(rows@),
        }
    }
}

/// What an evaluation says of the decision: the first result where there is
/// one, no decision where there is none, and a `PolicyError` where the
/// engine failed.
pub open spec fn rows_decision<R>(rows: Option<Seq<R>>) -> Result<Option<R>, OpaClientError> {
    match rows {
        None => Err(OpaClientError::PolicyError),
        Some(rows) => Ok(
            if rows.len() > 0 {
                Some(rows[0])
            } else {
                None
            },
        ),
    }
}

/// The results that the engine's answer holds: its elements where it is an
/// array, and a failure where it is not or where the engine gave no answer.
pub open spec fn answer_rows(answer: Option<serde_json::Value>) -> Option<Seq<serde_json::Value>> {
    match answer {
        Some(value) => json_elements(value),
        None => None,
    }
}

/// Unwraps the decision from what the engine made of an evaluation.
pub fn decision<R>(evaluation: Evaluation<R>) -> (r: Result<Option<R>, OpaClientError>)
    ensures
        r == rows_decision(evaluation.rows()),
{
    match evaluation {
        Evaluation::Failed => Err(OpaClientError::PolicyError),
        Evaluation::Rows(rows) => {
            let mut rows = rows;
            if rows.len() > 0 {
                Ok(Some(rows.swap_remove(0)))
            } else {
                Ok(None)
            }
        },
    }
}

/// Reads the engine's answer: `None` where the engine failed.
pub fn evaluation_of(answer: Option<serde_json::Value>) -> (r: Evaluation<serde_json::Value>)
    ensures
        r.rows() == answer_rows(answer),
{
    match answer {
        Some(value) => match elements(&value) {
            Some(rows) => Evaluation::Rows(rows),
            None => Evaluation::Failed,
        },
        None => Evaluation::Failed,
    }
}

/// The position of a name among the entries.
fn position(entries: &Vec<(String, i32)>, name: &String) -> (r: Option<usize>)
    ensures
        match r {
            Some(k) => k < entries.len() && entries[k as int].0@ == name@,
            None => forall|i: int| 0 <= i < entries.len() ==> entries[i].0@ != name@,
        },
{
    let mut i: usize = 0;
    while i < entries.len()
        invariant
            i <= entries.len(),
            forall|j: int| 0 <= j < i ==> entries[j].0@ != name@,
        decreases entries.len() - i,
    {
        if entries[i].0 == *name {
            return Some(i);
        }
        i = i + 1;
    }
    None
}

/// Enters a name with its id, in place of the entry of that name where
/// there is one.
fn enter(entries: &mut Vec<(String, i32)>, name: String, id: i32)
    requires
        distinct_names(old(entries)@),
    ensures
        distinct_names(final(entries)@),
        table_of(final(entries)@) == table_of(old(entries)@).insert(name@, id),
{
    let ghost before = entries@;
    let ghost key = name@;
    match position(entries, &name) {
        Some(k) => {
            entries.set(k, (name, id));
            proof {
                let after = entries@;
                let wanted = table_of(before).insert(key, id);
                assert(distinct_names(after)) by {
                    assert forall|a: int, b: int| 0 <= a < b < after.len() implies after[a].0@
                        != after[b].0@ by {
                        assert(before[a].0@ != before[b].0@);
                    }
                }
                assert forall|other: Seq<char>|
                    #![trigger table_of(after).dom().contains(other)]
                    #![trigger wanted.dom().contains(other)]
                    #![trigger table_of(after)[other]]
                    #![trigger wanted[other]]
                    table_of(after).dom().contains(other) == wanted.dom().contains(other) && (
                    wanted.dom().contains(other) ==> table_of(after)[other] == wanted[other]) by {
                    lemma_table_names(before, other);
                    lemma_table_names(after, other);
                    if other == key {
                        assert(after[k as int].0@ == key);
                        lemma_table_value(after, k as int);
                    } else {
                        if has_name(before, other) {
                            let i = choose|i: int|
                                0 <= i < before.len() && #[trigger] before[i].0@ == other;
                            assert(after[i].0@ == other);
                            lemma_table_value(before, i);
                            lemma_table_value(after, i);
                        }
                        if has_name(after, other) {
                            let i = choose|i: int|
                                0 <= i < after.len() && #[trigger] after[i].0@ == other;
                            assert(before[i].0@ == other);
                        }
                    }
                }
                assert(table_of(after) =~= wanted);
            }
        },
        None => {
            entries.push((name, id));
            proof {
                let after = entries@;
                assert(after.drop_last() =~= before);
                assert forall|a: int, b: int| 0 <= a < b < after.len() implies after[a].0@
                    != after[b].0@ by {
                    if b < before.len() {
                        assert(before[a].0@ != before[b].0@);
                    }
                }
            }
        },
    }
}

/// A client for one loaded policy module.
pub struct OpenPolicyAgentWasmClient {
    entrypoints: Vec<(String, i32)>,
}

impl OpenPolicyAgentWasmClient {
    #[verifier::type_invariant]
    spec fn well_formed(self) -> bool {
        distinct_names(self.entrypoints@)
    }

    /// The module's entrypoint table: the id of each policy that the module
    /// can be asked for.
    pub closed spec fn table(self) -> Map<Seq<char>, i32> {
        table_of(self.entrypoints@)
    }

    /// Makes a client for a module from what the engine reported on loading
    /// it: its entrypoints, or `None` where the engine refused the module.
    pub fn new(loaded: Option<Vec<(String, i32)>>) -> (r: Result<Self, OpaClientError>)
        ensures
            match loaded {
                Some(entries) => r is Ok && r->Ok_0.table() == table_of(entries@),
                None => r == Err::<Self, OpaClientError>(OpaClientError::PolicyError),
            },
    {
        let entries = match loaded {
            Some(entries) => entries,
            None => {
                return Err(OpaClientError::PolicyError);
            },
        };
        let mut entrypoints: Vec<(String, i32)> = Vec::new();
        let mut i: usize = 0;
        assert(entries@.take(0) =~= Seq::<(String, i32)>::empty());
        while i < entries.len()
            invariant
                i <= entries.len(),
                distinct_names(entrypoints@),
                table_of(entrypoints@) == table_of(entries@.take(i as int)),
            decreases entries.len() - i,
        {
            let name = entries[i].0.clone();
            let id = entries[i].1;
            enter(&mut entrypoints, name, id);
            proof {
                let next = entries@.take(i + 1);
                assert(next.drop_last() =~= entries@.take(i as int));
                assert(next.last() == entries@[i as int]);
            }
            i = i + 1;
        }
        assert(entries@.take(entries.len() as int) =~= entries@);
        Ok(OpenPolicyAgentWasmClient { entrypoints })
    }

    /// Lists the entrypoint table, each name once.
    pub fn entrypoints(&self) -> (r: Result<Vec<(String, i32)>, OpaClientError>)
        ensures
            r is Ok,
            distinct_names(r->Ok_0@),
            table_of(r->Ok_0@) == self.table(),
    {
        proof {
            use_type_invariant(self);
        }
        let mut listing: Vec<(String, i32)> = Vec::new();
        let mut i: usize = 0;
        while i < self.entrypoints.len()
            invariant
                i <= self.entrypoints.len(),
                listing@ == self.entrypoints@.take(i as int),
            decreases self.entrypoints.len() - i,
        {
            let name = self.entrypoints[i].0.clone();
            listing.push((name, self.entrypoints[i].1));
            assert(listing@ =~= self.entrypoints@.take(i + 1));
            i = i + 1;
        }
        assert(listing@ =~= self.entrypoints@);
        Ok(listing)
    }

    /// Resolves a policy to the id of its entrypoint.
    pub fn entrypoint_id(&self, policy: &str) -> (r: Result<i32, OpaClientError>)
        ensures
            r == resolution(self.table(), policy@),
    {
        let name = policy.to_owned();
        let found = position(&self.entrypoints, &name);
        proof {
            use_type_invariant(self);
            lemma_table_names(self.entrypoints@, policy@);
            if let Some(k) = found {
                lemma_table_value(self.entrypoints@, k as int);
            }
        }
        match found {
            Some(k) => Ok(self.entrypoints[k].1),
            None => Err(OpaClientError::PolicyError),
        }
    }

    /// Says what to ask of the engine for a query: the policy's entrypoint,
    /// with the two documents as they were given.
    pub fn evaluation<I, D>(&self, policy: &str, input: I, data: D) -> (r: Result<
        Evaluate<I, D>,
        OpaClientError,
    >)
        ensures
            r == match resolution(self.table(), policy@) {
                Ok(entrypoint) => Ok::<Evaluate<I, D>, OpaClientError>(
                    Evaluate { entrypoint, input, data },
                ),
                Err(e) => Err(e),
            },
    {
        let entrypoint = self.entrypoint_id(policy)?;
        Ok(Evaluate { entrypoint, input, data })
    }
}

impl OpenPolicyAgentClient for OpenPolicyAgentWasmClient {
    type Request = Evaluate<serde_json::Value, serde_json::Value>;

    /// The engine's answer, or `None` where the engine failed.
    type Outcome = Option<serde_json::Value>;

    open spec fn refusal(&self, rule: Seq<char>) -> Option<OpaClientError> {
        match resolution(self.table(), rule) {
            Ok(_) => None,
            Err(e) => Some(e),
        }
    }

    open spec fn asks_for(
        &self,
        request: Evaluate<serde_json::Value, serde_json::Value>,
        rule: Seq<char>,
        input: serde_json::Value,
        data: serde_json::Value,
    ) -> bool {
        request == (Evaluate { entrypoint: self.table()[rule], input, data })
    }

    open spec fn decision_of(outcome: Option<serde_json::Value>) -> Result<
        Option<serde_json::Value>,
        OpaClientError,
    > {
        rows_decision(answer_rows(outcome))
    }

    fn ask(&self, rule: &str, input: serde_json::Value, data: serde_json::Value) -> (r: Result<
        Evaluate<serde_json::Value, serde_json::Value>,
        OpaClientError,
    >) {
        self.evaluation(rule, input, data)
    }

    fn decide(outcome: Option<serde_json::Value>) -> (r: Result<
        Option<serde_json::Value>,
        OpaClientError,
    >) {
        decision(evaluation_of(outcome))
    }
}

/// A listing of a client's entrypoints holds every policy that the client
/// resolves, with the id that it resolves to; so any two listings of one
/// client give a known policy the same id.
pub proof fn lemma_listing_holds_resolved(
    client: OpenPolicyAgentWasmClient,
    listing: Seq<(String, i32)>,
    policy: Seq<char>,
)
    requires
        distinct_names(listing),
        table_of(listing) == client.table(),
        client.table().contains_key(policy),
    ensures
        resolution(client.table(), policy) == Ok::<i32, OpaClientError>(client.table()[policy]),
        exists|i: int|
            0 <= i < listing.len() && #[trigger] listing[i].0@ == policy && listing[i].1
                == client.table()[policy],
{
    lemma_table_names(listing, policy);
    let i = choose|i: int| 0 <= i < listing.len() && #[trigger] listing[i].0@ == policy;
    lemma_table_value(listing, i);
}

/// A query for a policy that the module knows, whose evaluation returns at
/// most one result, never fails: its entrypoint resolves, and the decision is
/// that result where there is one and absent where there is none.
pub proof fn lemma_valid_query_decides<R>(
    client: OpenPolicyAgentWasmClient,
    policy: Seq<char>,
    rows: Seq<R>,
)
    requires
        client.table().contains_key(policy),
        rows.len() <= 1,
    ensures
        client.refusal(policy) is None,
        rows.len() == 1 ==> rows_decision(Some(rows)) == Ok::<Option<R>, OpaClientError>(
            Some(rows[0]),
        ),
        rows.len() == 0 ==> rows_decision(Some(rows)) == Ok::<Option<R>, OpaClientError>(None),
{
}

/// Asking twice gives the same decision: where the engine returns the same
/// results for two evaluations, the two decisions are equal.
pub proof fn lemma_same_rows_same_decision<R>(first: Evaluation<R>, second: Evaluation<R>)
    requires
        first.rows() == second.rows(),
    ensures
        rows_decision(first.rows()) == rows_decision(second.rows()),
{
}

} // verus!

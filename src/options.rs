//! Options of the API's verbs and their query parameters.
//!
//! Each options value lists its query parameters as (name, value) pairs in
//! field order, leaving out every field that holds its default value.

use vstd::prelude::*;

verus! {

/// Query parameters as (name, value) pairs.
pub type QueryPairs = Vec<(String, String)>;

/// A pair list seen as sequences of characters.
pub open spec fn pairs_view(p: Seq<(String, String)>) -> Seq<(Seq<char>, Seq<char>)> {
    p.map_values(|x: (String, String)| (x.0@, x.1@))
}

/// One pair for a text field, none when it is empty.
pub open spec fn text_param(key: Seq<char>, v: Seq<char>) -> Seq<(Seq<char>, Seq<char>)> {
    if v.len() == 0 { seq![] } else { seq![(key, v)] }
}

/// One pair `key=true` for a set flag, none when it is clear.
pub open spec fn flag_param(key: Seq<char>, v: bool) -> Seq<(Seq<char>, Seq<char>)> {
    if v { seq![(key, "true"@)] } else { seq![] }
}

/// One pair for a non-zero count, none for zero.
pub open spec fn count_param(key: Seq<char>, v: nat) -> Seq<(Seq<char>, Seq<char>)> {
    if v == 0 { seq![] } else { seq![(key, decimal_of(v))] }
}

pub open spec fn digit_char(d: nat) -> char {
    if d == 0 { '0' } else if d == 1 { '1' } else if d == 2 { '2' } else if d == 3 { '3' }
    else if d == 4 { '4' } else if d == 5 { '5' } else if d == 6 { '6' } else if d == 7 { '7' }
    else if d == 8 { '8' } else { '9' }
}

/// The decimal digits of `n`, without leading zeros.
pub open spec fn decimal_of(n: nat) -> Seq<char>
    decreases n,
{
    if n < 10 {
        seq![digit_char(n)]
    } else {
        decimal_of(n / 10) + seq![digit_char(n % 10)]
    }
}

fn digit_str(d: u64) -> (r: &'static str)
    requires
        d < 10,
    ensures
        r@ == seq![digit_char(d as nat)],
{
    proof {
        reveal_strlit("0"); reveal_strlit("1"); reveal_strlit("2"); reveal_strlit("3");
        reveal_strlit("4"); reveal_strlit("5"); reveal_strlit("6"); reveal_strlit("7");
        reveal_strlit("8"); reveal_strlit("9");
    }
    if d == 0 { assert("0"@ =~= seq!['0']); "0" }
    else if d == 1 { assert("1"@ =~= seq!['1']); "1" }
    else if d == 2 { assert("2"@ =~= seq!['2']); "2" }
    else if d == 3 { assert("3"@ =~= seq!['3']); "3" }
    else if d == 4 { assert("4"@ =~= seq!['4']); "4" }
    else if d == 5 { assert("5"@ =~= seq!['5']); "5" }
    else if d == 6 { assert("6"@ =~= seq!['6']); "6" }
    else if d == 7 { assert("7"@ =~= seq!['7']); "7" }
    else if d == 8 { assert("8"@ =~= seq!['8']); "8" }
    else { assert("9"@ =~= seq!['9']); "9" }
}

/// Writes `n` in decimal.
pub fn decimal(n: u64) -> (r: String)
    ensures
        r@ == decimal_of(n as nat),
    decreases n,
{
    if n < 10 {
        digit_str(n).to_owned()
    } else {
        let mut s = decimal(n / 10);
        s.append(digit_str(n % 10));
        s
    }
}

/// `v` in decimal, with a leading `-` when negative.
pub open spec fn signed_decimal_of(v: int) -> Seq<char> {
    if v < 0 {
        seq!['-'] + decimal_of((-v) as nat)
    } else {
        decimal_of(v as nat)
    }
}

/// Writes `v` in decimal.
pub fn signed_decimal(v: i64) -> (r: String)
    ensures
        r@ == signed_decimal_of(v as int),
{
    if v < 0 {
        let mut t = "-".to_owned();
        let m: u64 = if v == i64::MIN { 0x8000_0000_0000_0000 } else { (0 - v) as u64 };
        t.append(decimal(m).as_str());
        proof {
            reveal_strlit("-");
        }
        t
    } else {
        decimal(v as u64)
    }
}

/// One pair for a value that is set, none when it is not.
pub open spec fn opt_count_param(key: Seq<char>, v: Option<i64>) -> Seq<(Seq<char>, Seq<char>)> {
    match v {
        Some(n) => seq![(key, signed_decimal_of(n as int))],
        None => seq![],
    }
}

pub open spec fn opt_text_param(key: Seq<char>, v: Option<String>) -> Seq<(Seq<char>, Seq<char>)> {
    match v {
        Some(t) => seq![(key, t@)],
        None => seq![],
    }
}

fn push_opt_count(q: &mut QueryPairs, key: &str, v: Option<i64>)
    ensures
        pairs_view(final(q)@) == pairs_view(old(q)@) + opt_count_param(key@, v),
{
    if let Some(n) = v {
        q.push((key.to_owned(), signed_decimal(n)));
    }
    proof {
        assert(pairs_view(final(q)@) =~= pairs_view(old(q)@) + opt_count_param(key@, v));
    }
}

fn push_opt_text(q: &mut QueryPairs, key: &str, v: &Option<String>)
    ensures
        pairs_view(final(q)@) == pairs_view(old(q)@) + opt_text_param(key@, *v),
{
    if let Some(t) = v {
        q.push((key.to_owned(), t.as_str().to_owned()));
    }
    proof {
        assert(pairs_view(final(q)@) =~= pairs_view(old(q)@) + opt_text_param(key@, *v));
    }
}

fn push_text(q: &mut QueryPairs, key: &str, v: &String)
    ensures
        pairs_view(final(q)@) == pairs_view(old(q)@) + text_param(key@, v@),
{
    if v.as_str().unicode_len() != 0 {
        q.push((key.to_owned(), v.as_str().to_owned()));
    }
    proof {
        assert(pairs_view(final(q)@) =~= pairs_view(old(q)@) + text_param(key@, v@));
    }
}

fn push_flag(q: &mut QueryPairs, key: &str, v: bool)
    ensures
        pairs_view(final(q)@) == pairs_view(old(q)@) + flag_param(key@, v),
{
    if v {
        q.push((key.to_owned(), "true".to_owned()));
    }
    proof {
        assert(pairs_view(final(q)@) =~= pairs_view(old(q)@) + flag_param(key@, v));
    }
}

fn push_count(q: &mut QueryPairs, key: &str, v: u64)
    ensures
        pairs_view(final(q)@) == pairs_view(old(q)@) + count_param(key@, v as nat),
{
    if v != 0 {
        q.push((key.to_owned(), decimal(v)));
    }
    proof {
        assert(pairs_view(final(q)@) =~= pairs_view(old(q)@) + count_param(key@, v as nat));
    }
}

/// Asks the server to only simulate a change.
#[derive(Debug, Clone, Copy, PartialEq, Eq)]
pub enum DryRun {
    All,
}

/// One `dryRun=All` pair per entry.
pub open spec fn dry_run_params(d: Seq<DryRun>) -> Seq<(Seq<char>, Seq<char>)> {
    d.map_values(|x: DryRun| ("dryRun"@, "All"@))
}

fn push_dry_run(q: &mut QueryPairs, d: &Vec<DryRun>)
    ensures
        pairs_view(final(q)@) == pairs_view(old(q)@) + dry_run_params(d@),
{
    let ghost start = pairs_view(q@);
    let mut i: usize = 0;
    while i < d.len()
        invariant
            i <= d@.len(),
            pairs_view(q@) == start + dry_run_params(d@.subrange(0, i as int)),
        decreases d@.len() - i,
    {
        let ghost before = pairs_view(q@);
        q.push(("dryRun".to_owned(), "All".to_owned()));
        proof {
            assert(pairs_view(q@) =~= before.push(("dryRun"@, "All"@)));
            assert(dry_run_params(d@.subrange(0, i + 1)) =~= dry_run_params(d@.subrange(0, i as int)).push(("dryRun"@, "All"@)));
        }
        i = i + 1;
    }
    proof {
        assert(d@.subrange(0, d@.len() as int) =~= d@);
    }
}

/// Options of a read.
#[derive(Debug, Clone, Default, PartialEq, Eq)]
pub struct GetOptions {
    pub pretty: bool,
    pub resource_version: String,
    pub include_uninitialized: bool,
}

impl GetOptions {
    pub open spec fn spec_query(&self) -> Seq<(Seq<char>, Seq<char>)> {
        flag_param("pretty"@, self.pretty)
            + text_param("resourceVersion"@, self.resource_version@)
            + flag_param("includeUninitialized"@, self.include_uninitialized)
    }

    pub fn query_pairs(&self) -> (r: QueryPairs)
        ensures
            pairs_view(r@) == self.spec_query(),
    {
        let mut q: QueryPairs = Vec::new();
        proof { assert(pairs_view(q@) =~= seq![]); }
        push_flag(&mut q, "pretty", self.pretty);
        push_text(&mut q, "resourceVersion", &self.resource_version);
        push_flag(&mut q, "includeUninitialized", self.include_uninitialized);
        proof { assert(pairs_view(q@) =~= self.spec_query()); }
        q
    }
}

/// Options of a create.
#[derive(Debug, Clone, Default, PartialEq, Eq)]
pub struct CreateOptions {
    pub include_uninitialized: bool,
    pub dry_run: Vec<DryRun>,
}

impl CreateOptions {
    pub open spec fn spec_query(&self) -> Seq<(Seq<char>, Seq<char>)> {
        flag_param("includeUninitialized"@, self.include_uninitialized) + dry_run_params(self.dry_run@)
    }

    pub fn query_pairs(&self) -> (r: QueryPairs)
        ensures
            pairs_view(r@) == self.spec_query(),
    {
        let mut q: QueryPairs = Vec::new();
        proof { assert(pairs_view(q@) =~= seq![]); }
        push_flag(&mut q, "includeUninitialized", self.include_uninitialized);
        push_dry_run(&mut q, &self.dry_run);
        proof { assert(pairs_view(q@) =~= self.spec_query()); }
        q
    }
}

/// Options of an update or a patch.
#[derive(Debug, Clone, Default, PartialEq, Eq)]
pub struct UpdateOptions {
    pub dry_run: Vec<DryRun>,
}

impl UpdateOptions {
    pub open spec fn spec_query(&self) -> Seq<(Seq<char>, Seq<char>)> {
        dry_run_params(self.dry_run@)
    }

    pub fn query_pairs(&self) -> (r: QueryPairs)
        ensures
            pairs_view(r@) == self.spec_query(),
    {
        let mut q: QueryPairs = Vec::new();
        proof { assert(pairs_view(q@) =~= seq![]); }
        push_dry_run(&mut q, &self.dry_run);
        proof { assert(pairs_view(q@) =~= self.spec_query()); }
        q
    }
}

/// A condition that must hold for a delete to go ahead.
#[derive(Debug, Clone, Default, PartialEq, Eq)]
pub struct Preconditions {
    pub uid: String,
}

/// Whether and how dependents of a deleted object are collected.
#[derive(Debug, Clone, Copy, PartialEq, Eq)]
pub enum DeletionPropagation {
    Orphan,
    Background,
    Foreground,
}

impl DeletionPropagation {
    pub open spec fn spec_name(self) -> Seq<char> {
        match self {
            DeletionPropagation::Orphan => "Orphan"@,
            DeletionPropagation::Background => "Background"@,
            DeletionPropagation::Foreground => "Foreground"@,
        }
    }

    pub fn name(self) -> (r: &'static str)
        ensures
            r@ == self.spec_name(),
    {
        match self {
            DeletionPropagation::Orphan => "Orphan",
            DeletionPropagation::Background => "Background",
            DeletionPropagation::Foreground => "Foreground",
        }
    }
}

/// Options of a delete. Preconditions travel in the request body, not in
/// the query.
#[derive(Debug, Clone, Default, PartialEq, Eq)]
pub struct DeleteOptions {
    pub grace_period_seconds: Option<u64>,
    pub preconditions: Vec<Preconditions>,
    pub orphan_dependents: Option<bool>,
    pub propagation_policy: Option<DeletionPropagation>,
    pub dry_run: Vec<DryRun>,
}

impl DeleteOptions {
    pub open spec fn spec_query(&self) -> Seq<(Seq<char>, Seq<char>)> {
        (match self.grace_period_seconds {
            Some(n) => seq![("gracePeriodSeconds"@, decimal_of(n as nat))],
            None => seq![],
        }) + (match self.orphan_dependents {
            Some(b) => seq![("orphanDependents"@, if b { "true"@ } else { "false"@ })],
            None => seq![],
        }) + (match self.propagation_policy {
            Some(p) => seq![("propagationPolicy"@, p.spec_name())],
            None => seq![],
        }) + dry_run_params(self.dry_run@)
    }

    pub fn query_pairs(&self) -> (r: QueryPairs)
        ensures
            pairs_view(r@) == self.spec_query(),
    {
        let mut q: QueryPairs = Vec::new();
        if let Some(n) = self.grace_period_seconds {
            q.push(("gracePeriodSeconds".to_owned(), decimal(n)));
        }
        if let Some(b) = self.orphan_dependents {
            q.push(("orphanDependents".to_owned(), (if b { "true" } else { "false" }).to_owned()));
        }
        if let Some(p) = self.propagation_policy {
            q.push(("propagationPolicy".to_owned(), p.name().to_owned()));
        }
        proof {
            assert(pairs_view(q@) =~= (match self.grace_period_seconds {
                Some(n) => seq![("gracePeriodSeconds"@, decimal_of(n as nat))],
                None => seq![],
            }) + (match self.orphan_dependents {
                Some(b) => seq![("orphanDependents"@, if b { "true"@ } else { "false"@ })],
                None => seq![],
            }) + (match self.propagation_policy {
                Some(p) => seq![("propagationPolicy"@, p.spec_name())],
                None => seq![],
            }));
        }
        push_dry_run(&mut q, &self.dry_run);
        proof { assert(pairs_view(q@) =~= self.spec_query()); }
        q
    }
}

/// Options of a list or a watch.
#[derive(Debug, Clone, Default, PartialEq, Eq)]
pub struct ListOptions {
    pub resource_version: String,
    pub timeout_seconds: u32,
    pub watch: bool,
    pub pretty: bool,
    pub field_selector: String,
    pub label_selector: String,
    pub include_uninitialized: bool,
    pub limit: u32,
    pub continu: String,
}

impl ListOptions {
    pub open spec fn spec_query(&self) -> Seq<(Seq<char>, Seq<char>)> {
        text_param("resourceVersion"@, self.resource_version@)
            + count_param("timeoutSeconds"@, self.timeout_seconds as nat)
            + flag_param("watch"@, self.watch)
            + flag_param("pretty"@, self.pretty)
            + text_param("fieldSelector"@, self.field_selector@)
            + text_param("labelSelector"@, self.label_selector@)
            + flag_param("includeUninitialized"@, self.include_uninitialized)
            + count_param("limit"@, self.limit as nat)
            + text_param("continue"@, self.continu@)
    }

    pub fn query_pairs(&self) -> (r: QueryPairs)
        ensures
            pairs_view(r@) == self.spec_query(),
    {
        let mut q: QueryPairs = Vec::new();
        proof { assert(pairs_view(q@) =~= seq![]); }
        push_text(&mut q, "resourceVersion", &self.resource_version);
        push_count(&mut q, "timeoutSeconds", self.timeout_seconds as u64);
        push_flag(&mut q, "watch", self.watch);
        push_flag(&mut q, "pretty", self.pretty);
        push_text(&mut q, "fieldSelector", &self.field_selector);
        push_text(&mut q, "labelSelector", &self.label_selector);
        push_flag(&mut q, "includeUninitialized", self.include_uninitialized);
        push_count(&mut q, "limit", self.limit as u64);
        push_text(&mut q, "continue", &self.continu);
        proof { assert(pairs_view(q@) =~= self.spec_query()); }
        q
    }
}

/// Options of reading a pod's log.
#[derive(Debug, Clone, Default, PartialEq, Eq)]
pub struct PodLogOptions {
    pub container: Option<String>,
    pub follow: bool,
    pub previous: bool,
    pub since_seconds: Option<i64>,
    pub since_time: Option<String>,
    pub timestamps: bool,
    pub tail_lines: Option<i64>,
    pub limit_bytes: Option<i64>,
}

impl PodLogOptions {
    pub open spec fn spec_query(&self) -> Seq<(Seq<char>, Seq<char>)> {
        opt_text_param("container"@, self.container)
            + flag_param("follow"@, self.follow)
            + flag_param("previous"@, self.previous)
            + opt_count_param("sinceSeconds"@, self.since_seconds)
            + opt_text_param("sinceTime"@, self.since_time)
            + flag_param("timestamps"@, self.timestamps)
            + opt_count_param("tailLines"@, self.tail_lines)
            + opt_count_param("limitBytes"@, self.limit_bytes)
    }

    pub fn query_pairs(&self) -> (r: QueryPairs)
        ensures
            pairs_view(r@) == self.spec_query(),
    {
        let mut q: QueryPairs = Vec::new();
        proof { assert(pairs_view(q@) =~= seq![]); }
        push_opt_text(&mut q, "container", &self.container);
        push_flag(&mut q, "follow", self.follow);
        push_flag(&mut q, "previous", self.previous);
        push_opt_count(&mut q, "sinceSeconds", self.since_seconds);
        push_opt_text(&mut q, "sinceTime", &self.since_time);
        push_flag(&mut q, "timestamps", self.timestamps);
        push_opt_count(&mut q, "tailLines", self.tail_lines);
        push_opt_count(&mut q, "limitBytes", self.limit_bytes);
        proof { assert(pairs_view(q@) =~= self.spec_query()); }
        q
    }
}

} // verus!

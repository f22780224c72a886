//! The search for an output path that does not exist yet: the same base name
//! with the new extension, then " (1)", " (2)", ... up to " (999)".
//!
//! Looking at the disk is left to the caller: the search says which path to
//! look at next (`action`) and is told whether it exists (`resume`).

use crate::paths::{file_stem, join_path, opt_str_view, opt_view, parent_dir, path_file_stem, path_join, path_parent};
use crate::text::{decimal, lemma_decimal_injective, lemma_decimal_len, push_decimal};
use vstd::prelude::*;

verus! {

/// The highest number that is tried in " (n)".
pub const LAST_ATTEMPT: u32 = 999;

/// The file name tried at a given attempt: "stem.ext" first, then "stem (n).ext".
pub open spec fn candidate_file_name(stem: Seq<char>, ext: Seq<char>, attempt: nat) -> Seq<char> {
    if attempt == 0 {
        stem + seq!['.'] + ext
    } else {
        stem + seq![' ', '('] + decimal(attempt) + seq![')', '.'] + ext
    }
}

/// The view of a `Result` of strings.
pub open spec fn result_view(r: Result<String, String>) -> Result<Seq<char>, Seq<char>> {
    match r {
        Ok(s) => Ok(s@),
        Err(e) => Err(e@),
    }
}

pub open spec fn no_folder_message() -> Seq<char> {
    "Cannot determine output folder"@
}

pub open spec fn folder_missing_message(dir: Seq<char>) -> Seq<char> {
    "Output folder does not exist: "@ + dir
}

pub open spec fn no_file_name_message() -> Seq<char> {
    "Cannot determine file name"@
}

pub open spec fn no_free_name_message() -> Seq<char> {
    "Could not find a free output file name"@
}

/// A search for a free output path.
#[allow(inconsistent_fields)]
#[derive(Debug, PartialEq, Eq)]
pub enum OutputSearch {
    /// The output folder is known; whether it exists is asked next.
    CheckingDir { dir: String, stem: Option<String>, ext: String },
    /// `candidate` is tried next; it is `dir` joined with the file name of `attempt`.
    Probing { dir: String, stem: String, ext: String, attempt: u32, candidate: String },
    /// The search is over.
    Finished(Result<String, String>),
}

/// The mathematical view of an `OutputSearch`.
#[allow(inconsistent_fields)]
pub enum SearchView {
    CheckingDir { dir: Seq<char>, stem: Option<Seq<char>>, ext: Seq<char> },
    Probing { dir: Seq<char>, stem: Seq<char>, ext: Seq<char>, attempt: nat, candidate: Seq<char> },
    Finished(Result<Seq<char>, Seq<char>>),
}

impl View for OutputSearch {
    type V = SearchView;

    open spec fn view(&self) -> SearchView {
        match self {
            OutputSearch::CheckingDir { dir, stem, ext } => SearchView::CheckingDir {
                dir: dir@,
                stem: opt_view(*stem),
                ext: ext@,
            },
            OutputSearch::Probing { dir, stem, ext, attempt, candidate } => SearchView::Probing {
                dir: dir@,
                stem: stem@,
                ext: ext@,
                attempt: *attempt as nat,
                candidate: candidate@,
            },
            OutputSearch::Finished(r) => SearchView::Finished(result_view(*r)),
        }
    }
}

/// What the search asks of its caller.
#[derive(Debug, PartialEq, Eq)]
pub enum SearchAction {
    /// Tell whether this folder exists.
    CheckDir(String),
    /// Tell whether this path exists.
    CheckExists(String),
    /// The search is over, with this result.
    Found(Result<String, String>),
}

pub enum SearchActionView {
    CheckDir(Seq<char>),
    CheckExists(Seq<char>),
    Found(Result<Seq<char>, Seq<char>>),
}

impl View for SearchAction {
    type V = SearchActionView;

    open spec fn view(&self) -> SearchActionView {
        match self {
            SearchAction::CheckDir(d) => SearchActionView::CheckDir(d@),
            SearchAction::CheckExists(p) => SearchActionView::CheckExists(p@),
            SearchAction::Found(r) => SearchActionView::Found(result_view(*r)),
        }
    }
}

/// The state in which the file name of `attempt` is tried.
pub open spec fn probing(dir: Seq<char>, stem: Seq<char>, ext: Seq<char>, attempt: nat) -> SearchView {
    SearchView::Probing {
        dir,
        stem,
        ext,
        attempt,
        candidate: path_join(dir, candidate_file_name(stem, ext, attempt)),
    }
}

/// The current folder, written as a path.
pub open spec fn current_folder() -> Seq<char> {
    seq!['.']
}

/// The folder that holds `input`: its parent, where a bare file name (whose
/// parent is the empty path) lies in the current folder.
pub open spec fn input_folder(input: Seq<char>) -> Option<Seq<char>> {
    match path_parent(input) {
        Some(p) => if p.len() == 0 {
            Some(current_folder())
        } else {
            Some(p)
        },
        None => None,
    }
}

/// Where a search starts: in the given folder, or else in the folder of the input.
pub open spec fn search_start(input: Seq<char>, ext: Seq<char>, out_dir: Option<Seq<char>>) -> SearchView {
    let dir = match out_dir {
        Some(d) => Some(d),
        None => input_folder(input),
    };
    match dir {
        None => SearchView::Finished(Err(no_folder_message())),
        Some(d) => SearchView::CheckingDir { dir: d, stem: path_file_stem(input), ext },
    }
}

/// One step of the search, told whether the folder or path it asked about exists.
pub open spec fn search_step(s: SearchView, exists: bool) -> SearchView {
    match s {
        SearchView::CheckingDir { dir, stem, ext } => {
            if !exists {
                SearchView::Finished(Err(folder_missing_message(dir)))
            } else {
                match stem {
                    None => SearchView::Finished(Err(no_file_name_message())),
                    Some(st) => probing(dir, st, ext, 0),
                }
            }
        },
        SearchView::Probing { dir, stem, ext, attempt, candidate } => {
            if !exists {
                SearchView::Finished(Ok(candidate))
            } else if attempt < LAST_ATTEMPT {
                probing(dir, stem, ext, attempt + 1)
            } else {
                SearchView::Finished(Err(no_free_name_message()))
            }
        },
        SearchView::Finished(r) => SearchView::Finished(r),
    }
}

/// What the search asks in a given state.
pub open spec fn search_action(s: SearchView) -> SearchActionView {
    match s {
        SearchView::CheckingDir { dir, .. } => SearchActionView::CheckDir(dir),
        SearchView::Probing { candidate, .. } => SearchActionView::CheckExists(candidate),
        SearchView::Finished(r) => SearchActionView::Found(r),
    }
}

/// The file name tried at `attempt`: "stem.ext", or "stem (attempt).ext".
pub fn output_file_name(stem: &str, ext: &str, attempt: u32) -> (r: String)
    ensures
        r@ == candidate_file_name(stem@, ext@, attempt as nat),
{
    let mut s = String::from_str(stem);
    if attempt == 0 {
        s.push('.');
        s.append(ext);
    } else {
        s.push(' ');
        s.push('(');
        push_decimal(&mut s, attempt as u64);
        s.push(')');
        s.push('.');
        s.append(ext);
    }
    assert(s@ =~= candidate_file_name(stem@, ext@, attempt as nat));
    s
}

pub(crate) fn clone_result(r: &Result<String, String>) -> (c: Result<String, String>)
    ensures
        result_view(c) == result_view(*r),
{
    match r {
        Ok(s) => Ok(s.clone()),
        Err(e) => Err(e.clone()),
    }
}

fn clone_opt(o: &Option<String>) -> (c: Option<String>)
    ensures
        opt_view(c) == opt_view(*o),
{
    match o {
        Some(s) => Some(s.clone()),
        None => None,
    }
}

fn start_probing(dir: String, stem: String, ext: String, attempt: u32) -> (r: OutputSearch)
    ensures
        r@ == probing(dir@, stem@, ext@, attempt as nat),
{
    let name = output_file_name(stem.as_str(), ext.as_str(), attempt);
    let candidate = join_path(dir.as_str(), name.as_str());
    OutputSearch::Probing { dir, stem, ext, attempt, candidate }
}

/// Starts the search for a free output path for `input` with extension `ext`,
/// in `out_dir` or, without one, in the folder that holds `input` (the
/// current folder for a bare file name).
pub fn unique_output_path(input: &str, ext: &str, out_dir: Option<&str>) -> (r: OutputSearch)
    ensures
        r@ == search_start(input@, ext@, opt_str_view(out_dir)),
{
    let dir = match out_dir {
        Some(d) => Some(String::from_str(d)),
        None => match parent_dir(input) {
            Some(p) => if p.unicode_len() == 0 {
                let mut here = String::new();
                here.push('.');
                assert(here@ =~= current_folder());
                Some(here)
            } else {
                Some(p)
            },
            None => None,
        },
    };
    match dir {
        None => OutputSearch::Finished(Err(String::from_str("Cannot determine output folder"))),
        Some(d) => OutputSearch::CheckingDir {
            dir: d,
            stem: file_stem(input),
            ext: String::from_str(ext),
        },
    }
}

impl OutputSearch {
    /// What the search asks next.
    pub fn action(&self) -> (a: SearchAction)
        ensures
            a@ == search_action(self@),
    {
        match self {
            OutputSearch::CheckingDir { dir, .. } => SearchAction::CheckDir(dir.clone()),
            OutputSearch::Probing { candidate, .. } => SearchAction::CheckExists(candidate.clone()),
            OutputSearch::Finished(r) => SearchAction::Found(clone_result(r)),
        }
    }

    /// Whether the search is over.
    pub fn is_finished(&self) -> (b: bool)
        ensures
            b == (self@ is Finished),
    {
        match self {
            OutputSearch::Finished(_) => true,
            _ => false,
        }
    }

    /// Goes on, told whether the folder or path last asked about exists.
    pub fn resume(&mut self, exists: bool)
        ensures
            final(self)@ == search_step(old(self)@, exists),
    {
        let next = match &*self {
            OutputSearch::CheckingDir { dir, stem, ext } => {
                if !exists {
                    let mut msg = String::from_str("Output folder does not exist: ");
                    msg.append(dir.as_str());
                    OutputSearch::Finished(Err(msg))
                } else {
                    match clone_opt(stem) {
                        None => OutputSearch::Finished(
                            Err(String::from_str("Cannot determine file name")),
                        ),
                        Some(st) => start_probing(dir.clone(), st, ext.clone(), 0),
                    }
                }
            },
            OutputSearch::Probing { dir, stem, ext, attempt, candidate } => {
                if !exists {
                    OutputSearch::Finished(Ok(candidate.clone()))
                } else if *attempt < LAST_ATTEMPT {
                    start_probing(dir.clone(), stem.clone(), ext.clone(), *attempt + 1)
                } else {
                    OutputSearch::Finished(
                        Err(String::from_str("Could not find a free output file name")),
                    )
                }
            },
            OutputSearch::Finished(r) => OutputSearch::Finished(clone_result(r)),
        };
        *self = next;
    }
}

/// The states a search can reach: a number tried is at most `LAST_ATTEMPT`,
/// and the path tried is the folder joined with the file name of that number.
pub open spec fn search_wf(s: SearchView) -> bool {
    match s {
        SearchView::Probing { dir, stem, ext, attempt, candidate } => {
            &&& attempt <= LAST_ATTEMPT
            &&& candidate == path_join(dir, candidate_file_name(stem, ext, attempt))
        },
        _ => true,
    }
}

/// How many more answers a search can take before it is over.
pub open spec fn search_remaining(s: SearchView) -> nat {
    match s {
        SearchView::CheckingDir { .. } => (LAST_ATTEMPT + 2) as nat,
        SearchView::Probing { attempt, .. } => (LAST_ATTEMPT + 1 - attempt) as nat,
        SearchView::Finished(_) => 0,
    }
}

/// A search after it was given a sequence of answers, one per question.
pub open spec fn search_run(s: SearchView, answers: Seq<bool>) -> SearchView
    decreases answers.len(),
{
    if answers.len() == 0 {
        s
    } else {
        search_run(search_step(s, answers[0]), answers.drop_first())
    }
}

/// `n` answers "it exists".
pub open spec fn all_taken(n: nat) -> Seq<bool> {
    Seq::new(n, |i: int| true)
}

/// The file names tried by one search are pairwise different, so no name is
/// tried twice and the search covers 1000 distinct names.
pub proof fn lemma_candidate_names_distinct(stem: Seq<char>, ext: Seq<char>, i: nat, j: nat)
    requires
        i != j,
    ensures
        candidate_file_name(stem, ext, i) != candidate_file_name(stem, ext, j),
{
    let a = candidate_file_name(stem, ext, i);
    let b = candidate_file_name(stem, ext, j);
    lemma_decimal_len(i);
    lemma_decimal_len(j);
    if i != 0 && j != 0 {
        if a == b {
            let lo = stem.len() + 2;
            assert(a.len() == stem.len() + 4 + decimal(i).len() + ext.len());
            assert(b.len() == stem.len() + 4 + decimal(j).len() + ext.len());
            assert(decimal(i).len() == decimal(j).len());
            assert(a.subrange(lo as int, (lo + decimal(i).len()) as int) =~= decimal(i));
            assert(b.subrange(lo as int, (lo + decimal(j).len()) as int) =~= decimal(j));
            lemma_decimal_injective(i, j);
        }
    } else {
        assert(a.len() != b.len());
    }
}

/// Output goes next to the input: without a chosen folder, a bare file name
/// such as "photo.heic" is searched for in the current folder, and any other
/// input in its parent folder.
pub proof fn lemma_output_next_to_input(input: Seq<char>, ext: Seq<char>, parent: Seq<char>)
    requires
        path_parent(input) == Some(parent),
    ensures
        parent.len() == 0 ==> search_start(input, ext, None) == (SearchView::CheckingDir {
            dir: current_folder(),
            stem: path_file_stem(input),
            ext,
        }),
        parent.len() > 0 ==> search_start(input, ext, None) == (SearchView::CheckingDir {
            dir: parent,
            stem: path_file_stem(input),
            ext,
        }),
{
}

/// Every search starts in a reachable state.
pub proof fn lemma_start_wf(input: Seq<char>, ext: Seq<char>, out_dir: Option<Seq<char>>)
    ensures
        search_wf(search_start(input, ext, out_dir)),
{
}

/// Each answer keeps a search in a reachable state, and a search that is not
/// over gets closer to its end with each answer.
pub proof fn lemma_step_wf(s: SearchView, exists: bool)
    requires
        search_wf(s),
    ensures
        search_wf(search_step(s, exists)),
        !(s is Finished) ==> search_remaining(search_step(s, exists)) < search_remaining(s),
        s is Finished ==> search_step(s, exists) == s,
{
}

/// Answers given one after the other: a run over `a + b` is a run over `b`
/// from where the run over `a` ended.
pub proof fn lemma_run_append(s: SearchView, a: Seq<bool>, b: Seq<bool>)
    ensures
        search_run(s, a + b) == search_run(search_run(s, a), b),
    decreases a.len(),
{
    if a.len() == 0 {
        assert(a + b =~= b);
    } else {
        assert((a + b)[0] == a[0]);
        assert((a + b).drop_first() =~= a.drop_first() + b);
        lemma_run_append(search_step(s, a[0]), a.drop_first(), b);
    }
}

/// Whatever the answers, a search is over after `search_remaining` of them
/// (at most 1001): it never asks forever.
pub proof fn lemma_run_finishes(s: SearchView, answers: Seq<bool>)
    requires
        search_wf(s),
        answers.len() >= search_remaining(s),
    ensures
        search_run(s, answers) is Finished,
    decreases answers.len(),
{
    if answers.len() > 0 {
        lemma_step_wf(s, answers[0]);
        if s is Finished {
            lemma_run_stays_finished(search_step(s, answers[0]), answers.drop_first());
        } else {
            lemma_run_finishes(search_step(s, answers[0]), answers.drop_first());
        }
    }
}

/// A search that is over stays over, with its result.
pub proof fn lemma_run_stays_finished(s: SearchView, answers: Seq<bool>)
    requires
        s is Finished,
    ensures
        search_run(s, answers) == s,
    decreases answers.len(),
{
    if answers.len() > 0 {
        lemma_run_stays_finished(search_step(s, answers[0]), answers.drop_first());
    }
}

/// One answer: a run over a single answer is one step.
pub proof fn lemma_run_one(s: SearchView, exists: bool)
    ensures
        search_run(s, seq![exists]) == search_step(s, exists),
{
    assert(seq![exists].drop_first() =~= Seq::<bool>::empty());
    assert(search_run(search_step(s, exists), Seq::<bool>::empty()) == search_step(s, exists));
}

/// In an existing folder, while every path tried exists, the names are tried
/// in order: after `k + 1` such answers the name of attempt `k` is tried next.
pub proof fn lemma_tries_in_order(dir: Seq<char>, stem: Seq<char>, ext: Seq<char>, k: nat)
    requires
        k <= LAST_ATTEMPT,
    ensures
        search_run(
            SearchView::CheckingDir { dir, stem: Some(stem), ext },
            all_taken(k + 1),
        ) == probing(dir, stem, ext, k),
    decreases k,
{
    let s = SearchView::CheckingDir { dir, stem: Some(stem), ext };
    if k == 0 {
        assert(all_taken(1) =~= seq![true]);
        lemma_run_one(s, true);
    } else {
        lemma_tries_in_order(dir, stem, ext, (k - 1) as nat);
        assert(all_taken(k + 1) =~= all_taken(k) + seq![true]);
        lemma_run_append(s, all_taken(k), seq![true]);
        lemma_run_one(probing(dir, stem, ext, (k - 1) as nat), true);
    }
}

/// The path found is the first name, in order of attempts, that does not exist
/// yet: after `k` names were found taken, a free `k`-th name is the result.
pub proof fn lemma_first_free_name(dir: Seq<char>, stem: Seq<char>, ext: Seq<char>, k: nat)
    requires
        k <= LAST_ATTEMPT,
    ensures
        search_run(
            SearchView::CheckingDir { dir, stem: Some(stem), ext },
            all_taken(k + 1).push(false),
        ) == SearchView::Finished(Ok(path_join(dir, candidate_file_name(stem, ext, k)))),
{
    let s = SearchView::CheckingDir { dir, stem: Some(stem), ext };
    lemma_tries_in_order(dir, stem, ext, k);
    assert(all_taken(k + 1).push(false) =~= all_taken(k + 1) + seq![false]);
    lemma_run_append(s, all_taken(k + 1), seq![false]);
    lemma_run_one(probing(dir, stem, ext, k), false);
}

/// When all 1000 names are taken the search gives up with its error.
pub proof fn lemma_all_names_taken(dir: Seq<char>, stem: Seq<char>, ext: Seq<char>)
    ensures
        search_run(
            SearchView::CheckingDir { dir, stem: Some(stem), ext },
            all_taken((LAST_ATTEMPT + 2) as nat),
        ) == SearchView::Finished(Err(no_free_name_message())),
{
    let s = SearchView::CheckingDir { dir, stem: Some(stem), ext };
    let n = (LAST_ATTEMPT + 1) as nat;
    lemma_tries_in_order(dir, stem, ext, LAST_ATTEMPT as nat);
    assert(all_taken(n + 1) =~= all_taken(n) + seq![true]);
    lemma_run_append(s, all_taken(n), seq![true]);
    lemma_run_one(probing(dir, stem, ext, LAST_ATTEMPT as nat), true);
}

/// A search only ever succeeds with the path it just asked about, and only
/// when that path was reported not to exist: it never picks an existing file.
pub proof fn lemma_found_path_was_free(s: SearchView, exists: bool, p: Seq<char>)
    requires
        !(s is Finished),
        search_step(s, exists) == SearchView::Finished(Ok(p)),
    ensures
        s is Probing,
        search_action(s) == SearchActionView::CheckExists(p),
        !exists,
{
}

}

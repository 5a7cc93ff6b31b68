//! Folder names that collide with nothing: a name is tried as it is, then
//! with the suffixes `_1`, `_2` and so on, until one is free.

use crate::digits::{decimal, lemma_decimal_injective, push_decimal};
use vstd::pervasive::unreached;
use vstd::prelude::*;

verus! {

/// The `k`-th name that is tried for `name`: the name itself, then the name
/// followed by an underscore and `k`.
pub open spec fn candidate(name: Seq<char>, k: nat) -> Seq<char> {
    if k == 0 {
        name
    } else {
        name + seq!['_'] + decimal(k)
    }
}

/// The names that `entries` hold, as plain text.
pub open spec fn names(entries: Seq<String>) -> Seq<Seq<char>> {
    entries.map_values(|entry: String| entry@)
}

/// Whether `k` is the first candidate for `name` that is not among `taken`.
pub open spec fn first_free(taken: Seq<Seq<char>>, name: Seq<char>, k: nat) -> bool {
    &&& !taken.contains(candidate(name, k))
    &&& forall|j: nat| j < k ==> taken.contains(#[trigger] candidate(name, j))
}

/// Different candidates for one name are different texts.
pub proof fn lemma_candidates_distinct(name: Seq<char>, j: nat, k: nat)
    requires
        j != k,
    ensures
        candidate(name, j) != candidate(name, k),
{
    if j > 0 && k > 0 {
        let a = candidate(name, j);
        let b = candidate(name, k);
        if a == b {
            let start = name.len() + 1;
            assert(a.subrange(start as int, a.len() as int) =~= decimal(j));
            assert(b.subrange(start as int, b.len() as int) =~= decimal(k));
            lemma_decimal_injective(j, k);
        }
    } else if j > 0 {
        assert(candidate(name, j).len() == name.len() + 1 + decimal(j).len());
    } else {
        assert(candidate(name, k).len() == name.len() + 1 + decimal(k).len());
    }
}

/// A listing cannot hold more candidates than it has entries: among the
/// first candidates, one more than the listing is long, some is free.
pub proof fn lemma_some_candidate_free(taken: Seq<Seq<char>>, name: Seq<char>)
    ensures
        exists|j: nat| j <= taken.len() && !taken.contains(#[trigger] candidate(name, j)),
    decreases taken.len(),
{
    let n = taken.len();
    if taken.contains(candidate(name, n)) {
        let at = choose|i: int| 0 <= i < n && taken[i] == candidate(name, n);
        let fewer = taken.remove(at);
        lemma_some_candidate_free(fewer, name);
        let j = choose|j: nat| j <= fewer.len() && !fewer.contains(#[trigger] candidate(name, j));
        if taken.contains(candidate(name, j)) {
            let t = choose|i: int| 0 <= i < n && taken[i] == candidate(name, j);
            lemma_candidates_distinct(name, j, n);
            if t < at {
                assert(fewer[t] == taken[t]);
            } else {
                assert(fewer[t - 1] == taken[t]);
            }
            assert(false);
        }
    }
}

/// There is at most one first free candidate.
pub proof fn lemma_first_free_unique(taken: Seq<Seq<char>>, name: Seq<char>, j: nat, k: nat)
    requires
        first_free(taken, name, j),
        first_free(taken, name, k),
    ensures
        j == k,
{
}

/// The `k`-th name that is tried for `folder_name`.
pub fn candidate_name(folder_name: &str, k: u64) -> (text: String)
    ensures
        text@ == candidate(folder_name@, k as nat),
{
    let mut text = String::from_str(folder_name);
    if k > 0 {
        proof {
            reveal_strlit("_");
        }
        text.append("_");
        push_decimal(&mut text, k);
        assert(text@ =~= candidate(folder_name@, k as nat));
    }
    text
}

/// What a search asks of its caller after a report.
#[derive(Clone, Debug, PartialEq, Eq)]
pub enum NameStep {
    /// The candidate is free: the search is over and this is the name.
    Free(String),
    /// The candidate is taken: look whether the next one exists.
    TryNext,
    /// The candidate is taken and no number is left to try.
    Exhausted,
}

/// What Verus sees of a [`NameSearch`].
pub struct NameSearchView {
    pub name: Seq<char>,
    /// The number of the candidate whose existence is being looked up.
    pub counter: nat,
}

/// A search for a free folder name. The caller looks up whether the
/// current candidate exists and reports what it found.
#[derive(Debug)]
pub struct NameSearch {
    folder_name: String,
    counter: u64,
}

impl View for NameSearch {
    type V = NameSearchView;

    closed spec fn view(&self) -> NameSearchView {
        NameSearchView { name: self.folder_name@, counter: self.counter as nat }
    }
}

impl NameSearch {
    /// A search that begins with the name as it is.
    pub fn new(folder_name: &str) -> (search: NameSearch)
        ensures
            search@.name == folder_name@,
            search@.counter == 0,
    {
        NameSearch { folder_name: String::from_str(folder_name), counter: 0 }
    }

    /// A search that takes up at candidate number `counter`, where an
    /// earlier search had come to.
    pub fn resume(folder_name: &str, counter: u64) -> (search: NameSearch)
        ensures
            search@.name == folder_name@,
            search@.counter == counter,
    {
        NameSearch { folder_name: String::from_str(folder_name), counter }
    }

    /// The number of the current candidate.
    pub fn counter(&self) -> (counter: u64)
        ensures
            counter == self@.counter,
    {
        self.counter
    }

    /// The candidate whose existence the caller is to look up.
    pub fn candidate(&self) -> (text: String)
        ensures
            text@ == candidate(self@.name, self@.counter),
    {
        candidate_name(self.folder_name.as_str(), self.counter)
    }

    /// Takes the caller's report on the current candidate. A candidate that
    /// does not exist ends the search; one that exists moves the search to
    /// the next number.
    pub fn report(&mut self, exists: bool) -> (step: NameStep)
        ensures
            final(self)@.name == old(self)@.name,
            !exists ==> final(self)@ == old(self)@ && (step matches NameStep::Free(text) && text@
                == candidate(old(self)@.name, old(self)@.counter)),
            exists && old(self)@.counter < u64::MAX ==> step == NameStep::TryNext
                && final(self)@.counter == old(self)@.counter + 1,
            exists && old(self)@.counter >= u64::MAX ==> step == NameStep::Exhausted
                && final(self)@ == old(self)@,
    {
        if !exists {
            NameStep::Free(self.candidate())
        } else if self.counter < u64::MAX {
            self.counter = self.counter + 1;
            NameStep::TryNext
        } else {
            NameStep::Exhausted
        }
    }
}

/// Why no folder name could be given.
#[derive(Clone, Copy, Debug, PartialEq, Eq)]
pub enum NameError {
    /// The base directory itself does not exist.
    NotFound,
}

/// Whether `text` is among `entries`.
pub fn contains_name(entries: &Vec<String>, text: &String) -> (found: bool)
    ensures
        found == names(entries@).contains(text@),
{
    let mut i: usize = 0;
    while i < entries.len()
        invariant
            i <= entries.len(),
            forall|j: int| 0 <= j < i ==> names(entries@)[j] != text@,
        decreases entries.len() - i,
    {
        if entries[i] == *text {
            assert(names(entries@)[i as int] == text@);
            return true;
        }
        i = i + 1;
    }
    false
}

/// The first name for `folder_name` that collides with nothing in the base
/// directory, whose entries are `base`; `None` stands for a base directory
/// that does not exist.
///
/// The name is `folder_name` itself if that is free, and otherwise
/// `folder_name` with the smallest suffix `_1`, `_2`, ... that is free.
pub fn generate_unique_folder_name(base: Option<&Vec<String>>, folder_name: &str) -> (result: Result<
    String,
    NameError,
>)
    ensures
        base is None <==> result is Err,
        result matches Err(e) ==> e == NameError::NotFound,
        base matches Some(entries) ==> (result matches Ok(text) && exists|k: nat|
            k <= entries@.len() && first_free(names(entries@), folder_name@, k) && text@
                == #[trigger] candidate(folder_name@, k)),
{
    let entries = match base {
        Some(entries) => entries,
        None => {
            return Err(NameError::NotFound);
        },
    };
    let ghost taken = names(entries@);
    let mut search = NameSearch::new(folder_name);
    let mut tried: usize = 0;
    loop
        invariant
            taken == names(entries@),
            search@.name == folder_name@,
            search@.counter == tried,
            tried <= entries.len(),
            base == Some(entries),
            forall|j: nat| j < tried ==> taken.contains(#[trigger] candidate(folder_name@, j)),
        decreases entries.len() - tried,
    {
        let text = search.candidate();
        let exists = contains_name(entries, &text);
        proof {
            if exists && tried >= entries.len() {
                lemma_some_candidate_free(taken, folder_name@);
            }
        }
        match search.report(exists) {
            NameStep::Free(name) => {
                assert(first_free(taken, folder_name@, tried as nat));
                return Ok(name);
            },
            NameStep::TryNext => {
                tried = tried + 1;
            },
            NameStep::Exhausted => {
                return unreached();
            },
        }
    }
}

} // verus!

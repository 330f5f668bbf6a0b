//! The bookkeeping of one open index: its name, the fields of its schema,
//! and how many added documents no commit has flushed yet.
//!
//! The holder keeps a descriptor under the same exclusive lock as the
//! engine's writer, so that adds and commits see one count.
use vstd::prelude::*;
use crate::error::{doc_parsing_err_to_string, parse_error_text, CatalogError, DocParsingError};

verus! {

/// Options of one add.
#[derive(Debug, Copy, Clone, PartialEq, Eq, Structural)]
pub struct AddDocConfig {
    /// Commit at once, instead of leaving it to the maintenance loop.
    pub commit: bool,
}

/// A raw document, and how to add it.
pub struct Doc<'a> {
    pub doc: &'a str,
    pub config: AddDocConfig,
}

/// The count after one more uncommitted add; it stops at the largest `u64`.
pub open spec fn count_after_add(c: u64) -> u64 {
    if c < u64::MAX {
        (c + 1) as u64
    } else {
        c
    }
}

/// The count after `m` uncommitted adds.
pub open spec fn count_after_adds(c: u64, m: nat) -> u64
    decreases m,
{
    if m == 0 {
        c
    } else {
        count_after_add(count_after_adds(c, (m - 1) as nat))
    }
}

/// The count after a commit: zero after a success, unchanged after a failure.
pub open spec fn count_after_commit(c: u64, committed: bool) -> u64 {
    if committed {
        0
    } else {
        c
    }
}

/// What to do after the engine has taken a document.
#[derive(Debug, PartialEq, Eq)]
pub enum AddStep {
    /// Reply with this.
    Done(Result<u64, CatalogError>),
    /// Commit the writer, then hand the outcome to `commit_finished`.
    Commit,
}

pub struct IndexDescriptor {
    name: String,
    raw_fields: Vec<String>,
    uncommited_count: u64,
}

impl IndexDescriptor {
    pub closed spec fn name(&self) -> Seq<char> {
        self.name@
    }

    pub closed spec fn fields(&self) -> Seq<Seq<char>> {
        self.raw_fields@.map_values(|s: String| s@)
    }

    /// Writes applied since the last successful commit.
    pub closed spec fn uncommitted(&self) -> u64 {
        self.uncommited_count
    }

    /// A freshly opened or created index: nothing is pending.
    pub fn new(name: &str, raw_fields: Vec<String>) -> (r: Self)
        ensures
            r.name() == name@,
            r.fields() == raw_fields@.map_values(|s: String| s@),
            r.uncommitted() == 0,
    {
        Self { name: name.to_owned(), raw_fields, uncommited_count: 0 }
    }

    pub fn get_name(&self) -> (r: &str)
        ensures
            r@ == self.name(),
    {
        self.name.as_str()
    }

    /// The names of the schema's fields, in order.
    pub fn get_raw_fields(&self) -> (r: Vec<String>)
        ensures
            r@.map_values(|s: String| s@) == self.fields(),
    {
        let mut r: Vec<String> = Vec::new();
        let mut i: usize = 0;
        while i < self.raw_fields.len()
            invariant
                i <= self.raw_fields@.len(),
                r@.len() == i,
                forall|j: int| 0 <= j < i ==> #[trigger] r@[j]@ == self.raw_fields@[j]@,
            decreases self.raw_fields@.len() - i,
        {
            r.push(self.raw_fields[i].as_str().to_owned());
            i = i + 1;
        }
        assert(r@.map_values(|s: String| s@) =~= self.fields());
        r
    }

    pub fn uncommitted_count(&self) -> (r: u64)
        ensures
            r == self.uncommitted(),
    {
        self.uncommited_count
    }

    /// Whether the maintenance loop has something to commit.
    pub fn needs_commit(&self) -> (r: bool)
        ensures
            r == (self.uncommitted() > 0),
    {
        self.uncommited_count > 0
    }

    /// Accounts for one document, given how the engine parsed it.
    ///
    /// A document that did not parse is refused and nothing is counted. A
    /// parsed one, under the writer's lock, gets its id `parsed`; without a
    /// commit it is counted and its id returned; with one, the count is left
    /// alone and the caller commits.
    pub fn add_document(&mut self, parsed: Result<u64, DocParsingError>, config: AddDocConfig) -> (r:
        AddStep)
        ensures
            final(self).name() == old(self).name(),
            final(self).fields() == old(self).fields(),
            parsed matches Err(e) ==> final(self).uncommitted() == old(self).uncommitted() && (
            r matches AddStep::Done(Err(CatalogError::DocumentParseError(m))) && m@
                == parse_error_text(e)),
            parsed matches Ok(id) ==> (!config.commit ==> final(self).uncommitted()
                == count_after_add(old(self).uncommitted()) && r == AddStep::Done(Ok(id))),
            parsed is Ok && config.commit ==> final(self).uncommitted() == old(self).uncommitted()
                && r == AddStep::Commit,
    {
        match parsed {
            Err(e) => AddStep::Done(Err(CatalogError::DocumentParseError(doc_parsing_err_to_string(e)))),
            Ok(id) => {
                if !config.commit {
                    if self.uncommited_count < u64::MAX {
                        self.uncommited_count = self.uncommited_count + 1;
                    }
                    AddStep::Done(Ok(id))
                } else {
                    AddStep::Commit
                }
            },
        }
    }

    /// Accounts for a commit of everything counted so far, by a caller's add
    /// or by the maintenance loop: the count drops to zero on success and is
    /// kept on failure, so that the next tick tries again.
    pub fn commit_finished(&mut self, outcome: Result<u64, String>) -> (r: Result<u64, CatalogError>)
        ensures
            final(self).name() == old(self).name(),
            final(self).fields() == old(self).fields(),
            final(self).uncommitted() == count_after_commit(old(self).uncommitted(), outcome is Ok),
            outcome matches Ok(t) ==> r == Ok::<u64, CatalogError>(t),
            outcome matches Err(m) ==> r == Err::<u64, CatalogError>(CatalogError::CommitError(m)),
    {
        match outcome {
            Ok(t) => {
                self.uncommited_count = 0;
                Ok(t)
            },
            Err(m) => Err(CatalogError::CommitError(m)),
        }
    }
}

/// A new index's descriptor, with the sender that stops its maintenance loop.
pub struct IndexResult<S> {
    pub descriptor: IndexDescriptor,
    pub shut_down_handle: S,
}

impl<S> IndexResult<S> {
    pub fn new(desc: IndexDescriptor, shutdown: S) -> (r: Self)
        ensures
            r.descriptor == desc,
            r.shut_down_handle == shutdown,
    {
        Self { descriptor: desc, shut_down_handle: shutdown }
    }
}

/// Uncommitted adds are all counted, as long as the count fits a `u64`.
pub proof fn lemma_adds_counted(c: u64, m: nat)
    requires
        c + m <= u64::MAX,
    ensures
        count_after_adds(c, m) == c + m,
    decreases m,
{
    if m > 0 {
        lemma_adds_counted(c, (m - 1) as nat);
    }
}

} // verus!

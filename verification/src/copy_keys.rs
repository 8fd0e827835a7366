//! The decisions of the tool that copies blobs, key by key, from one
//! repository to another: which key a line of the input names, where the
//! outcome of a copy is recorded, when progress is reported, and which inner
//! blobstore of a multiplexed one is meant. Reading, copying and writing are
//! the caller's.

use vstd::prelude::*;

verus! {

/// Why a key was not copied.
#[derive(Debug)]
pub enum CopyError {
    /// The source holds no blob under the key.
    NotFound,
    /// Reading or writing the blob failed.
    Error(anyhow::Error),
}

/// The lists of keys that the tool writes.
#[derive(Debug, Clone, Copy, PartialEq, Eq, Structural)]
pub enum KeyList {
    /// The keys that were copied.
    Successful,
    /// The keys that the source does not hold.
    Missing,
    /// The keys whose copy failed.
    Error,
}

/// The list on which a key with this outcome belongs.
pub open spec fn list_of(res: Result<(), CopyError>) -> KeyList {
    match res {
        Ok(()) => KeyList::Successful,
        Err(CopyError::NotFound) => KeyList::Missing,
        Err(CopyError::Error(_)) => KeyList::Error,
    }
}

/// The list on which a key with this outcome belongs.
pub fn record_copy_result(res: &Result<(), CopyError>) -> (list: KeyList)
    ensures
        list == list_of(*res),
{
    match res {
        Ok(()) => KeyList::Successful,
        Err(CopyError::NotFound) => KeyList::Missing,
        Err(CopyError::Error(_)) => KeyList::Error,
    }
}

/// What is written to a list for `key`: the key and a line feed.
pub fn key_line(key: &str) -> (line: Vec<u8>)
    ensures
        line@ == vstd::utf8::encode_utf8(key@).push(10u8),
{
    let mut line: Vec<u8> = Vec::new();
    line.extend_from_slice(key.as_bytes());
    line.push(10u8);
    assert(line@ =~= vstd::utf8::encode_utf8(key@).push(10u8));
    line
}

/// A line of the input that does not start with the prefix of the source
/// repository, though the prefix was to be stripped.
#[derive(Debug, PartialEq, Eq)]
pub struct MissingPrefix {
    /// The line as it was read.
    pub line: String,
}

/// `str::strip_prefix`: if `line` starts with `prefix`, what follows the
/// prefix; else nothing.
#[verifier::external_body]
fn strip_prefix<'a>(line: &'a str, prefix: &str) -> (rest: Option<&'a str>)
    ensures
        match rest {
            Some(rest) => line@ == prefix@ + rest@,
            None => !prefix@.is_prefix_of(line@),
        },
{
    line.strip_prefix(prefix)
}

/// The key that a line of the input names: the line itself, or, where the
/// prefix of the source repository is to be stripped, the line without it.
pub fn source_key(line: String, prefix: &str, strip: bool) -> (r: Result<String, MissingPrefix>)
    ensures
        !strip ==> r == Ok::<String, MissingPrefix>(line),
        strip && prefix@.is_prefix_of(line@) ==> r is Ok && r->Ok_0@ == line@.skip(
            prefix@.len() as int,
        ),
        strip && !prefix@.is_prefix_of(line@) ==> r == Err::<String, MissingPrefix>(
            MissingPrefix { line },
        ),
{
    if strip {
        match strip_prefix(line.as_str(), prefix) {
            Some(key) => {
                assert(line@.skip(prefix@.len() as int) =~= key@);
                assert(prefix@.is_prefix_of(line@)) by {
                    assert(line@.subrange(0, prefix@.len() as int) =~= prefix@);
                }
                Ok(key.to_owned())
            },
            None => Err(MissingPrefix { line }),
        }
    } else {
        Ok(line)
    }
}

/// After how many keys progress is reported: a tenth of all keys, and at
/// least one.
pub open spec fn log_step_of(total: nat) -> nat {
    if total / 10 >= 1 {
        total / 10
    } else {
        1
    }
}

/// What the tool does after the outcome of one copy.
#[derive(Debug, Clone, Copy, PartialEq, Eq, Structural)]
pub enum Recorded {
    /// The copy failed and failures are not ignored: the tool stops.
    Abort,
    /// The tool goes on. `warn`: the copy failed, which is worth a warning.
    /// `log`: it is time to report how many keys were processed.
    Continue { warn: bool, log: bool },
}

/// How far the tool has come.
#[derive(Debug)]
pub struct CopyProgress {
    total: usize,
    processed: usize,
    copied: usize,
    log_step: usize,
    ignore_errors: bool,
}

impl CopyProgress {
    /// The number of keys to copy.
    pub closed spec fn spec_total(&self) -> nat {
        self.total as nat
    }

    /// The number of keys whose outcome was recorded.
    pub closed spec fn spec_processed(&self) -> nat {
        self.processed as nat
    }

    /// The number of keys that were copied.
    pub closed spec fn spec_copied(&self) -> nat {
        self.copied as nat
    }

    /// Whether a failed copy stops the tool.
    pub closed spec fn spec_ignore_errors(&self) -> bool {
        self.ignore_errors
    }

    /// The counts fit together.
    pub closed spec fn wf(&self) -> bool {
        &&& self.copied <= self.processed <= self.total
        &&& self.log_step == log_step_of(self.total as nat)
    }

    /// Nothing processed yet, of `total` keys.
    pub fn new(total: usize, ignore_errors: bool) -> (p: Self)
        ensures
            p.wf(),
            p.spec_total() == total,
            p.spec_processed() == 0,
            p.spec_copied() == 0,
            p.spec_ignore_errors() == ignore_errors,
    {
        let tenth = total / 10;
        let log_step = if tenth >= 1 { tenth } else { 1 };
        CopyProgress { total, processed: 0, copied: 0, log_step, ignore_errors }
    }

    /// The number of keys to copy.
    pub fn total(&self) -> (n: usize)
        ensures
            n == self.spec_total(),
    {
        self.total
    }

    /// The number of keys whose outcome was recorded.
    pub fn processed(&self) -> (n: usize)
        ensures
            n == self.spec_processed(),
    {
        self.processed
    }

    /// The number of keys that were copied.
    pub fn copied(&self) -> (n: usize)
        ensures
            n == self.spec_copied(),
    {
        self.copied
    }

    /// After how many keys progress is reported.
    pub fn log_step(&self) -> (n: usize)
        requires
            self.wf(),
        ensures
            n == log_step_of(self.spec_total()),
    {
        self.log_step
    }

    /// Takes note of the outcome of one copy. A failure stops the tool
    /// unless failures are ignored, and is then not counted as processed.
    pub fn record(&mut self, copied: bool) -> (r: Recorded)
        requires
            old(self).wf(),
            old(self).spec_processed() < old(self).spec_total(),
        ensures
            final(self).wf(),
            final(self).spec_total() == old(self).spec_total(),
            final(self).spec_ignore_errors() == old(self).spec_ignore_errors(),
            !copied && !old(self).spec_ignore_errors() ==> r == Recorded::Abort && *final(self)
                == *old(self),
            copied || old(self).spec_ignore_errors() ==> {
                &&& final(self).spec_processed() == old(self).spec_processed() + 1
                &&& final(self).spec_copied() == old(self).spec_copied() + if copied {
                    1nat
                } else {
                    0nat
                }
                &&& r == Recorded::Continue {
                    warn: !copied,
                    log: final(self).spec_processed() % log_step_of(old(self).spec_total()) == 0,
                }
            },
    {
        if copied {
            self.copied += 1;
        } else if !self.ignore_errors {
            return Recorded::Abort;
        }
        self.processed += 1;
        Recorded::Continue { warn: !copied, log: self.processed % self.log_step == 0 }
    }
}

/// Why no inner blobstore was chosen.
#[derive(Debug, Clone, Copy, PartialEq, Eq, Structural)]
pub enum OverrideError {
    /// The multiplexed blobstore has no inner blobstore with the id.
    NotFound,
    /// The blobstore is not a multiplexed one.
    NotMultiplexed,
}

/// The place of the inner blobstore that takes the place of a multiplexed
/// one: the first with the id `sought`. `inner_ids` holds the ids of the
/// inner blobstores in the order of the configuration, where the blobstore is
/// a multiplexed one.
pub fn select_inner_blobstore(inner_ids: Option<&Vec<u64>>, sought: u64) -> (r: Result<
    usize,
    OverrideError,
>)
    ensures
        inner_ids is None ==> r == Err::<usize, OverrideError>(OverrideError::NotMultiplexed),
        inner_ids is Some && !inner_ids->Some_0@.contains(sought) ==> r == Err::<
            usize,
            OverrideError,
        >(OverrideError::NotFound),
        inner_ids is Some && inner_ids->Some_0@.contains(sought) ==> r is Ok && r->Ok_0
            < inner_ids->Some_0@.len() && inner_ids->Some_0@[r->Ok_0 as int] == sought && forall|
            j: int,
        |
            0 <= j < r->Ok_0 ==> inner_ids->Some_0@[j] != sought,
{
    match inner_ids {
        None => Err(OverrideError::NotMultiplexed),
        Some(ids) => {
            let mut i: usize = 0;
            while i < ids.len()
                invariant
                    inner_ids == Some(ids),
                    i <= ids.len(),
                    forall|j: int| 0 <= j < i ==> ids@[j] != sought,
                decreases ids.len() - i,
            {
                if ids[i] == sought {
                    return Ok(i);
                }
                i += 1;
            }
            Err(OverrideError::NotFound)
        },
    }
}

} // verus!

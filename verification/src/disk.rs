//! A model of the files on disk, and what the steps of a write can do to
//! them. The model says what the library relies on: a step changes no file
//! but the one it names, and a rename either happens whole or not at all.

use vstd::prelude::*;
use crate::writer::{Flushing, Opening, Placement, Renaming, Transfer, Writing};

verus! {

/// The files on disk: each path that exists, with its content.
pub type Disk = Map<Seq<char>, Seq<char>>;

/// One thing a write asks of the file system.
pub ghost enum Request {
    /// Create a directory and its ancestors.
    CreateDirectory(Seq<char>),
    /// Open a file for writing: create it, or empty it.
    Open(Seq<char>),
    /// Write a text to an open file.
    Write(Seq<char>, Seq<char>),
    /// Flush an open file.
    Flush(Seq<char>),
    /// Rename the first path onto the second.
    Rename(Seq<char>, Seq<char>),
}

impl Request {
    /// True where the request can change what is found at `path`.
    pub open spec fn touches(self, path: Seq<char>) -> bool {
        match self {
            Request::CreateDirectory(_) => false,
            Request::Open(file) => file == path,
            Request::Write(file, _) => file == path,
            Request::Flush(_) => false,
            Request::Rename(from, to) => from == path || to == path,
        }
    }
}

/// True where `path` is the same on both disks: absent on both, or present
/// with the same content.
pub open spec fn same_at(before: Disk, after: Disk, path: Seq<char>) -> bool {
    before.contains_key(path) == after.contains_key(path) && (before.contains_key(path)
        ==> before[path] == after[path])
}

/// The disk after a request that succeeded.
pub open spec fn succeeded(before: Disk, request: Request, after: Disk) -> bool {
    match request {
        Request::CreateDirectory(_) => after == before,
        Request::Open(file) => after == before.insert(file, Seq::<char>::empty()),
        Request::Write(file, text) => after == before.insert(file, text),
        Request::Flush(_) => after == before,
        Request::Rename(from, to) => before.contains_key(from) && after == before.remove(
            from,
        ).insert(to, before[from]),
    }
}

/// The disk after a request that failed. A failed open or write may leave
/// anything at its file and changes nothing else; every other failed
/// request changes nothing.
pub open spec fn failed(before: Disk, request: Request, after: Disk) -> bool {
    match request {
        Request::Open(file) => forall|path: Seq<char>|
            path != file ==> #[trigger] same_at(before, after, path),
        Request::Write(file, _) => forall|path: Seq<char>|
            path != file ==> #[trigger] same_at(before, after, path),
        _ => after == before,
    }
}

/// What the steps of a write ask, in their order, once a staging path was
/// found free.
pub open spec fn requests(transfer: Transfer) -> Seq<Request> {
    seq![
        Request::Open(transfer.staging),
        Request::Write(transfer.staging, transfer.text),
        Request::Flush(transfer.staging),
        Request::Rename(transfer.staging, transfer.target),
    ]
}

impl Placement {
    /// What this step asks: the directory, created with its ancestors.
    pub open spec fn request(&self) -> Request {
        Request::CreateDirectory(self@.directory)
    }
}

impl Opening {
    /// What this step asks: the staging file, opened.
    pub open spec fn request(&self) -> Request {
        requests(self@)[0]
    }
}

impl Writing {
    /// What this step asks: the text, written to the staging file.
    pub open spec fn request(&self) -> Request {
        requests(self@)[1]
    }
}

impl Flushing {
    /// What this step asks: the staging file, flushed.
    pub open spec fn request(&self) -> Request {
        requests(self@)[2]
    }
}

impl Renaming {
    /// What this step asks: the staging file, renamed onto the target.
    pub open spec fn request(&self) -> Request {
        requests(self@)[3]
    }
}

/// No step before the rename names a target that differs from the staging
/// path: not the creation of the directory, nor opening, writing or
/// flushing the staging file.
pub proof fn lemma_only_rename_names_target(
    placement: Placement,
    opening: Opening,
    writing: Writing,
    flushing: Flushing,
    target: Seq<char>,
)
    requires
        opening@.staging != target,
        writing@.staging != target,
        flushing@.staging != target,
    ensures
        !placement.request().touches(target),
        !opening.request().touches(target),
        !writing.request().touches(target),
        !flushing.request().touches(target),
{
}

/// A request changes no file that it does not name, whether it succeeds or
/// fails.
pub proof fn lemma_untouched_is_kept(before: Disk, request: Request, after: Disk, path: Seq<char>)
    requires
        succeeded(before, request, after) || failed(before, request, after),
        !request.touches(path),
    ensures
        same_at(before, after, path),
{
}

/// A write that ends in a failure leaves the target as it was: absent, or
/// with its content. The steps before the rename name the staging path
/// only, and a rename that fails changes nothing. The staging path was
/// found free before the first step, so it is not a target that exists; a
/// target that does not exist must differ from it. `ran` is the number of
/// requests made, the last of which failed; `disks` holds the disk before
/// each request and after the last.
pub proof fn lemma_failed_write_keeps_target(transfer: Transfer, disks: Seq<Disk>, ran: int)
    requires
        1 <= ran <= 4,
        disks.len() == ran + 1,
        !disks[0].contains_key(transfer.staging),
        disks[0].contains_key(transfer.target) || transfer.staging != transfer.target,
        forall|i: int|
            0 <= i < ran - 1 ==> succeeded(disks[i], #[trigger] requests(transfer)[i], disks[i + 1]),
        failed(disks[ran - 1], requests(transfer)[ran - 1], disks[ran]),
    ensures
        same_at(disks[0], disks[ran], transfer.target),
{
    let steps = requests(transfer);
    assert forall|i: int| 0 <= i < ran implies #[trigger] same_at(
        disks[i],
        disks[i + 1],
        transfer.target,
    ) by {
        if i < ran - 1 {
            assert(succeeded(disks[i], steps[i], disks[i + 1]));
        }
        if i < 3 {
            lemma_untouched_is_kept(disks[i], steps[i], disks[i + 1], transfer.target);
        }
    }
    assert(same_at(disks[0], disks[1], transfer.target));
    assert(ran >= 2 ==> same_at(disks[1], disks[2], transfer.target));
    assert(ran >= 3 ==> same_at(disks[2], disks[3], transfer.target));
    assert(ran >= 4 ==> same_at(disks[3], disks[4], transfer.target));
}

/// A value that cannot be encoded ends a write after its first request,
/// the creation of the directory, which changes no file whether it
/// succeeds or fails.
pub proof fn lemma_directory_request_keeps_files(before: Disk, directory: Seq<char>, after: Disk)
    requires
        succeeded(before, Request::CreateDirectory(directory), after) || failed(
            before,
            Request::CreateDirectory(directory),
            after,
        ),
    ensures
        after == before,
{
}

/// A write whose every step succeeds puts the whole text at the target,
/// removes the staging file, and leaves every other file as it was.
pub proof fn lemma_finished_write_installs_text(transfer: Transfer, disks: Seq<Disk>)
    requires
        disks.len() == 5,
        !disks[0].contains_key(transfer.staging),
        disks[0].contains_key(transfer.target) || transfer.staging != transfer.target,
        forall|i: int|
            0 <= i < 4 ==> succeeded(disks[i], #[trigger] requests(transfer)[i], disks[i + 1]),
    ensures
        disks[4].contains_key(transfer.target),
        disks[4][transfer.target] == transfer.text,
        !disks[4].contains_key(transfer.staging),
        forall|path: Seq<char>|
            path != transfer.target && path != transfer.staging ==> #[trigger] same_at(
                disks[0],
                disks[4],
                path,
            ),
{
    let steps = requests(transfer);
    assert(succeeded(disks[0], steps[0], disks[1]));
    assert(succeeded(disks[1], steps[1], disks[2]));
    assert(succeeded(disks[2], steps[2], disks[3]));
    assert(succeeded(disks[3], steps[3], disks[4]));
}

} // verus!

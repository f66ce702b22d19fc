//! What operations are said to be, piece by piece.

use vstd::prelude::*;

use crate::ll::request::{Operation, Piece, PieceView, Request, RequestError};
use crate::text::{decimal, hex, hex16, octal3};

verus! {

proof fn lemma_piece_by_piece(op: Operation, r: Vec<Piece>)
    requires
        call_ensures(Operation::pieces, (&op,), r),
    ensures
        op.spec_pieces().len() == r@.len(),
        forall|i: int| 0 <= i < r@.len() ==> #[trigger] r@[i]@ == op.spec_pieces()[i],
{
    let views = crate::ll::request::piece_views(r@);
    assert forall|i: int| 0 <= i < r@.len() implies #[trigger] r@[i]@ == op.spec_pieces()[i] by {
        assert(views[i] == r@[i]@);
    }
}

/// An operation is described by its name, and behind it each argument behind the name of it: names
/// as they are, flags in hexadecimal, modes in octal and other numbers in decimal.
pub proof fn lemma_operation_is_described(op: Operation, r: Vec<Piece>)
    requires
        call_ensures(Operation::pieces, (&op,), r),
    ensures
        op matches Operation::Lookup(x) ==> r@.len() == 2
            && PieceView::Text("LOOKUP name "@) == r@[0]@
            && PieceView::Name(x.name@) == r@[1]@,
        op matches Operation::Forget(x) ==> r@.len() == 2
            && PieceView::Text("FORGET nlookup "@) == r@[0]@
            && PieceView::Text(decimal(x.arg.nlookup as int)) == r@[1]@,
        op is GetAttr ==> r@.len() == 1
            && PieceView::Text("GETATTR"@) == r@[0]@,
        op matches Operation::SetAttr(x) ==> r@.len() == 2
            && PieceView::Text("SETATTR valid "@) == r@[0]@
            && PieceView::Text(hex((x.arg.valid as u32) as nat)) == r@[1]@,
        op is ReadLink ==> r@.len() == 1
            && PieceView::Text("READLINK"@) == r@[0]@,
        op matches Operation::SymLink(x) ==> r@.len() == 4
            && PieceView::Text("SYMLINK name "@) == r@[0]@
            && PieceView::Name(x.name@) == r@[1]@
            && PieceView::Text(", link "@) == r@[2]@
            && PieceView::Name(x.link@) == r@[3]@,
        op matches Operation::MkNod(x) ==> r@.len() == 6
            && PieceView::Text("MKNOD name "@) == r@[0]@
            && PieceView::Name(x.name@) == r@[1]@
            && PieceView::Text(", mode "@) == r@[2]@
            && PieceView::Text(octal3((x.arg.mode as u32) as nat)) == r@[3]@
            && PieceView::Text(", rdev "@) == r@[4]@
            && PieceView::Text(decimal(x.arg.rdev as int)) == r@[5]@,
        op matches Operation::MkDir(x) ==> r@.len() == 4
            && PieceView::Text("MKDIR name "@) == r@[0]@
            && PieceView::Name(x.name@) == r@[1]@
            && PieceView::Text(", mode "@) == r@[2]@
            && PieceView::Text(octal3((x.arg.mode as u32) as nat)) == r@[3]@,
        op matches Operation::Unlink(x) ==> r@.len() == 2
            && PieceView::Text("UNLINK name "@) == r@[0]@
            && PieceView::Name(x.name@) == r@[1]@,
        op matches Operation::RmDir(x) ==> r@.len() == 2
            && PieceView::Text("RMDIR name "@) == r@[0]@
            && PieceView::Name(x.name@) == r@[1]@,
        op matches Operation::Rename(x) ==> r@.len() == 6
            && PieceView::Text("RENAME name "@) == r@[0]@
            && PieceView::Name(x.name@) == r@[1]@
            && PieceView::Text(", newdir "@) == r@[2]@
            && PieceView::Text(hex16(x.arg.newdir as nat)) == r@[3]@
            && PieceView::Text(", newname "@) == r@[4]@
            && PieceView::Name(x.newname@) == r@[5]@,
        op matches Operation::Link(x) ==> r@.len() == 4
            && PieceView::Text("LINK name "@) == r@[0]@
            && PieceView::Name(x.name@) == r@[1]@
            && PieceView::Text(", oldnodeid "@) == r@[2]@
            && PieceView::Text(hex16(x.arg.oldnodeid as nat)) == r@[3]@,
        op matches Operation::Open(x) ==> r@.len() == 2
            && PieceView::Text("OPEN flags "@) == r@[0]@
            && PieceView::Text(hex((x.arg.flags as u32) as nat)) == r@[1]@,
        op matches Operation::Read(x) ==> r@.len() == 6
            && PieceView::Text("READ fh "@) == r@[0]@
            && PieceView::Text(decimal(x.arg.fh as int)) == r@[1]@
            && PieceView::Text(", offset "@) == r@[2]@
            && PieceView::Text(decimal(x.arg.offset as int)) == r@[3]@
            && PieceView::Text(", size "@) == r@[4]@
            && PieceView::Text(decimal(x.arg.size as int)) == r@[5]@,
        op matches Operation::Write(x) ==> r@.len() == 8
            && PieceView::Text("WRITE fh "@) == r@[0]@
            && PieceView::Text(decimal(x.arg.fh as int)) == r@[1]@
            && PieceView::Text(", offset "@) == r@[2]@
            && PieceView::Text(decimal(x.arg.offset as int)) == r@[3]@
            && PieceView::Text(", size "@) == r@[4]@
            && PieceView::Text(decimal(x.arg.size as int)) == r@[5]@
            && PieceView::Text(", write flags "@) == r@[6]@
            && PieceView::Text(hex((x.arg.write_flags as u32) as nat)) == r@[7]@,
        op is StatFs ==> r@.len() == 1
            && PieceView::Text("STATFS"@) == r@[0]@,
        op matches Operation::Release(x) ==> r@.len() == 8
            && PieceView::Text("RELEASE fh "@) == r@[0]@
            && PieceView::Text(decimal(x.arg.fh as int)) == r@[1]@
            && PieceView::Text(", flags "@) == r@[2]@
            && PieceView::Text(hex((x.arg.flags as u32) as nat)) == r@[3]@
            && PieceView::Text(", release flags "@) == r@[4]@
            && PieceView::Text(hex((x.arg.release_flags as u32) as nat)) == r@[5]@
            && PieceView::Text(", lock owner "@) == r@[6]@
            && PieceView::Text(decimal(x.arg.lock_owner as int)) == r@[7]@,
        op matches Operation::FSync(x) ==> r@.len() == 4
            && PieceView::Text("FSYNC fh "@) == r@[0]@
            && PieceView::Text(decimal(x.arg.fh as int)) == r@[1]@
            && PieceView::Text(", fsync flags "@) == r@[2]@
            && PieceView::Text(hex((x.arg.fsync_flags as u32) as nat)) == r@[3]@,
        op matches Operation::SetXAttr(x) ==> r@.len() == 6
            && PieceView::Text("SETXATTR name "@) == r@[0]@
            && PieceView::Name(x.name@) == r@[1]@
            && PieceView::Text(", size "@) == r@[2]@
            && PieceView::Text(decimal(x.arg.size as int)) == r@[3]@
            && PieceView::Text(", flags "@) == r@[4]@
            && PieceView::Text(hex((x.arg.flags as u32) as nat)) == r@[5]@,
        op matches Operation::GetXAttr(x) ==> r@.len() == 4
            && PieceView::Text("GETXATTR name "@) == r@[0]@
            && PieceView::Name(x.name@) == r@[1]@
            && PieceView::Text(", size "@) == r@[2]@
            && PieceView::Text(decimal(x.arg.size as int)) == r@[3]@,
        op matches Operation::ListXAttr(x) ==> r@.len() == 2
            && PieceView::Text("LISTXATTR size "@) == r@[0]@
            && PieceView::Text(decimal(x.arg.size as int)) == r@[1]@,
        op matches Operation::RemoveXAttr(x) ==> r@.len() == 2
            && PieceView::Text("REMOVEXATTR name "@) == r@[0]@
            && PieceView::Name(x.name@) == r@[1]@,
        op matches Operation::Flush(x) ==> r@.len() == 4
            && PieceView::Text("FLUSH fh "@) == r@[0]@
            && PieceView::Text(decimal(x.arg.fh as int)) == r@[1]@
            && PieceView::Text(", lock owner "@) == r@[2]@
            && PieceView::Text(decimal(x.arg.lock_owner as int)) == r@[3]@,
        op matches Operation::Init(x) ==> r@.len() == 8
            && PieceView::Text("INIT kernel ABI "@) == r@[0]@
            && PieceView::Text(decimal(x.arg.major as int)) == r@[1]@
            && PieceView::Text("."@) == r@[2]@
            && PieceView::Text(decimal(x.arg.minor as int)) == r@[3]@
            && PieceView::Text(", flags "@) == r@[4]@
            && PieceView::Text(hex((x.arg.flags as u32) as nat)) == r@[5]@
            && PieceView::Text(", max readahead "@) == r@[6]@
            && PieceView::Text(decimal(x.arg.max_readahead as int)) == r@[7]@,
        op matches Operation::OpenDir(x) ==> r@.len() == 2
            && PieceView::Text("OPENDIR flags "@) == r@[0]@
            && PieceView::Text(hex((x.arg.flags as u32) as nat)) == r@[1]@,
        op matches Operation::ReadDir(x) ==> r@.len() == 6
            && PieceView::Text("READDIR fh "@) == r@[0]@
            && PieceView::Text(decimal(x.arg.fh as int)) == r@[1]@
            && PieceView::Text(", offset "@) == r@[2]@
            && PieceView::Text(decimal(x.arg.offset as int)) == r@[3]@
            && PieceView::Text(", size "@) == r@[4]@
            && PieceView::Text(decimal(x.arg.size as int)) == r@[5]@,
        op matches Operation::ReleaseDir(x) ==> r@.len() == 8
            && PieceView::Text("RELEASEDIR fh "@) == r@[0]@
            && PieceView::Text(decimal(x.arg.fh as int)) == r@[1]@
            && PieceView::Text(", flags "@) == r@[2]@
            && PieceView::Text(hex((x.arg.flags as u32) as nat)) == r@[3]@
            && PieceView::Text(", release flags "@) == r@[4]@
            && PieceView::Text(hex((x.arg.release_flags as u32) as nat)) == r@[5]@
            && PieceView::Text(", lock owner "@) == r@[6]@
            && PieceView::Text(decimal(x.arg.lock_owner as int)) == r@[7]@,
        op matches Operation::FSyncDir(x) ==> r@.len() == 4
            && PieceView::Text("FSYNCDIR fh "@) == r@[0]@
            && PieceView::Text(decimal(x.arg.fh as int)) == r@[1]@
            && PieceView::Text(", fsync flags "@) == r@[2]@
            && PieceView::Text(hex((x.arg.fsync_flags as u32) as nat)) == r@[3]@,
        op matches Operation::GetLk(x) ==> r@.len() == 4
            && PieceView::Text("GETLK fh "@) == r@[0]@
            && PieceView::Text(decimal(x.arg.fh as int)) == r@[1]@
            && PieceView::Text(", lock owner "@) == r@[2]@
            && PieceView::Text(decimal(x.arg.owner as int)) == r@[3]@,
        op matches Operation::SetLk(x) ==> r@.len() == 4
            && PieceView::Text("SETLK fh "@) == r@[0]@
            && PieceView::Text(decimal(x.arg.fh as int)) == r@[1]@
            && PieceView::Text(", lock owner "@) == r@[2]@
            && PieceView::Text(decimal(x.arg.owner as int)) == r@[3]@,
        op matches Operation::SetLkW(x) ==> r@.len() == 4
            && PieceView::Text("SETLKW fh "@) == r@[0]@
            && PieceView::Text(decimal(x.arg.fh as int)) == r@[1]@
            && PieceView::Text(", lock owner "@) == r@[2]@
            && PieceView::Text(decimal(x.arg.owner as int)) == r@[3]@,
        op matches Operation::Access(x) ==> r@.len() == 2
            && PieceView::Text("ACCESS mask "@) == r@[0]@
            && PieceView::Text(octal3((x.arg.mask as u32) as nat)) == r@[1]@,
        op matches Operation::Create(x) ==> r@.len() == 6
            && PieceView::Text("CREATE name "@) == r@[0]@
            && PieceView::Name(x.name@) == r@[1]@
            && PieceView::Text(", mode "@) == r@[2]@
            && PieceView::Text(octal3((x.arg.mode as u32) as nat)) == r@[3]@
            && PieceView::Text(", flags "@) == r@[4]@
            && PieceView::Text(hex((x.arg.flags as u32) as nat)) == r@[5]@,
        op matches Operation::Interrupt(x) ==> r@.len() == 2
            && PieceView::Text("INTERRUPT unique "@) == r@[0]@
            && PieceView::Text(decimal(x.arg.unique as int)) == r@[1]@,
        op matches Operation::BMap(x) ==> r@.len() == 4
            && PieceView::Text("BMAP blocksize "@) == r@[0]@
            && PieceView::Text(decimal(x.arg.blocksize as int)) == r@[1]@
            && PieceView::Text(", ids "@) == r@[2]@
            && PieceView::Text(decimal(x.arg.block as int)) == r@[3]@,
        op is Destroy ==> r@.len() == 1
            && PieceView::Text("DESTROY"@) == r@[0]@,
        op matches Operation::IoCtl(x) ==> r@.len() == 8
            && PieceView::Text("IOCTL fh "@) == r@[0]@
            && PieceView::Text(decimal(x.arg.fh as int)) == r@[1]@
            && PieceView::Text(", cmd "@) == r@[2]@
            && PieceView::Text(decimal(x.arg.cmd as int)) == r@[3]@
            && PieceView::Text(", data size "@) == r@[4]@
            && PieceView::Text(decimal(x.data@.len() as int)) == r@[5]@
            && PieceView::Text(", flags "@) == r@[6]@
            && PieceView::Text(hex((x.arg.flags as u32) as nat)) == r@[7]@,
        op matches Operation::Poll(x) ==> r@.len() == 4
            && PieceView::Text("POLL fh "@) == r@[0]@
            && PieceView::Text(decimal(x.arg.fh as int)) == r@[1]@
            && PieceView::Text(", flags "@) == r@[2]@
            && PieceView::Text(hex((x.arg.flags as u32) as nat)) == r@[3]@,
        op matches Operation::NotifyReply(x) ==> r@.len() == 2
            && PieceView::Text("NOTIFYREPLY data len "@) == r@[0]@
            && PieceView::Text(decimal(x.data@.len() as int)) == r@[1]@,
        op matches Operation::BatchForget(x) ==> r@.len() == 4
            && PieceView::Text("BATCHFORGET nodes "@) == r@[0]@
            && PieceView::Text(decimal(x.nodes@.len() as int)) == r@[1]@
            && PieceView::Text(", nlookup "@) == r@[2]@
            && PieceView::Text(decimal(x.arg.nlookup as int)) == r@[3]@,
        op is FAllocate ==> r@.len() == 1
            && PieceView::Text("FALLOCATE"@) == r@[0]@,
        op matches Operation::ReadDirPlus(x) ==> r@.len() == 6
            && PieceView::Text("READDIRPLUS fh "@) == r@[0]@
            && PieceView::Text(decimal(x.arg.fh as int)) == r@[1]@
            && PieceView::Text(", offset "@) == r@[2]@
            && PieceView::Text(decimal(x.arg.offset as int)) == r@[3]@
            && PieceView::Text(", size "@) == r@[4]@
            && PieceView::Text(decimal(x.arg.size as int)) == r@[5]@,
        op matches Operation::Rename2(x) ==> r@.len() == 6
            && PieceView::Text("RENAME2 name "@) == r@[0]@
            && PieceView::Name(x.name@) == r@[1]@
            && PieceView::Text(", newdir "@) == r@[2]@
            && PieceView::Text(hex16(x.arg.newdir as nat)) == r@[3]@
            && PieceView::Text(", newname "@) == r@[4]@
            && PieceView::Name(x.newname@) == r@[5]@,
        op matches Operation::Lseek(x) ==> r@.len() == 6
            && PieceView::Text("LSEEK fh "@) == r@[0]@
            && PieceView::Text(decimal(x.arg.fh as int)) == r@[1]@
            && PieceView::Text(", offset "@) == r@[2]@
            && PieceView::Text(decimal(x.arg.offset as int)) == r@[3]@
            && PieceView::Text(", whence "@) == r@[4]@
            && PieceView::Text(decimal(x.arg.whence as int)) == r@[5]@,
        op matches Operation::CopyFileRange(x) ==> r@.len() == 12
            && PieceView::Text("COPY_FILE_RANGE fh_in "@) == r@[0]@
            && PieceView::Text(decimal(x.arg.fh_in as int)) == r@[1]@
            && PieceView::Text(", offset_in "@) == r@[2]@
            && PieceView::Text(decimal(x.arg.off_in as int)) == r@[3]@
            && PieceView::Text(", fh_out "@) == r@[4]@
            && PieceView::Text(decimal(x.arg.fh_out as int)) == r@[5]@
            && PieceView::Text(", offset_out "@) == r@[6]@
            && PieceView::Text(decimal(x.arg.off_out as int)) == r@[7]@
            && PieceView::Text(", inode_out "@) == r@[8]@
            && PieceView::Text(decimal(x.arg.nodeid_out as int)) == r@[9]@
            && PieceView::Text(", len "@) == r@[10]@
            && PieceView::Text(decimal(x.arg.len as int)) == r@[11]@,
        op matches Operation::CuseInit(x) ==> r@.len() == 8
            && PieceView::Text("CUSE_INIT kernel ABI "@) == r@[0]@
            && PieceView::Text(decimal(x.arg.major as int)) == r@[1]@
            && PieceView::Text("."@) == r@[2]@
            && PieceView::Text(decimal(x.arg.minor as int)) == r@[3]@
            && PieceView::Text(", flags "@) == r@[4]@
            && PieceView::Text(hex((x.arg.flags as u32) as nat)) == r@[5]@
            && PieceView::Text(", max readahead "@) == r@[6]@
            && PieceView::Text(decimal(x.arg.max_readahead as int)) == r@[7]@,
{
    lemma_piece_by_piece(op, r);
}

/// A request is described by its identifier and its inode before its operation.
pub proof fn lemma_request_is_described(request: Request, r: Vec<Piece>, op: Vec<Piece>)
    requires
        call_ensures(Request::pieces, (&request,), r),
        call_ensures(Operation::pieces, (&request.operation,), op),
    ensures
        r@.len() == 5 + op@.len(),
        r@[0]@ == PieceView::Text("FUSE("@),
        r@[1]@ is Text && r@[1]@->Text_0.len() >= 3,
        request.header.unique >= 100 ==> r@[1]@ == PieceView::Text(
            decimal(request.header.unique as int),
        ),
        r@[2]@ == PieceView::Text(") ino "@),
        r@[3]@ == PieceView::Text(hex16(request.header.nodeid as nat)),
        r@[4]@ == PieceView::Text(": "@),
        forall|i: int| 0 <= i < op@.len() ==> #[trigger] op@[i]@ == r@[5 + i]@,
{
    let views = crate::ll::request::piece_views(r@);
    lemma_piece_by_piece(request.operation, op);
    assert(views.len() == r@.len());
    assert forall|i: int| 0 <= i < r@.len() implies views[i] == #[trigger] r@[i]@ by {
    }
    if request.header.unique >= 100 {
        lemma_three_digits(request.header.unique as nat);
    }
}

proof fn lemma_three_digits(n: nat)
    requires
        n >= 100,
    ensures
        decimal(n as int).len() >= 3,
{
    let tens = n / 10;
    let hundreds = tens / 10;
    assert(crate::text::digits(hundreds, 10).len() >= 1);
    assert(crate::text::digits(tens, 10).len() >= 2);
    assert(crate::text::digits(n, 10).len() >= 3);
}

/// What is said of a request that cannot be read.
pub proof fn lemma_error_is_described(e: RequestError, r: String)
    requires
        call_ensures(RequestError::text, (&e,), r),
    ensures
        e matches RequestError::ShortReadHeader(len) ==> "Short read of FUSE request header ("@
            + decimal(len as int) + " < 40)"@ == r@,
        e matches RequestError::UnknownOperation(opcode) ==> "Unknown FUSE opcode ("@ + decimal(
            opcode as int,
        ) + ")"@ == r@,
        e matches RequestError::ShortRead(len, total) ==> "Short read of FUSE request ("@ + decimal(
            len as int,
        ) + " < "@ + decimal(total as int) + ")"@ == r@,
        e is InsufficientData ==> "Insufficient argument data"@ == r@,
{
}

} // verus!

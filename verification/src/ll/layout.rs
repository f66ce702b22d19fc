//! Where each field stands in what the kernel sends and is sent, and what its numbers mean.

use vstd::prelude::*;

use crate::ll::argument::{arg_at, ends_at, lemma_name_at, name_at};
use crate::ll::fuse_abi::{
    cuse_init_in, fuse_access_in, fuse_attr, fuse_attr_out, fuse_batch_forget_in, fuse_bmap_in,
    fuse_bmap_out, fuse_copy_file_range_in, fuse_create_in, fuse_create_out, fuse_dirent,
    fuse_direntplus, fuse_entry_out, fuse_fallocate_in, fuse_file_lock, fuse_flush_in,
    fuse_forget_in, fuse_forget_one, fuse_fsync_in, fuse_getattr_in, fuse_getxattr_in,
    fuse_getxattr_out, fuse_in_header, fuse_init_in, fuse_init_out, fuse_interrupt_in,
    fuse_ioctl_in, fuse_ioctl_out, fuse_kstatfs, fuse_link_in, fuse_lk_in, fuse_lk_out,
    fuse_lseek_in, fuse_lseek_out, fuse_mkdir_in, fuse_mknod_in, fuse_notify_delete_out,
    fuse_notify_inval_entry_out, fuse_notify_inval_inode_out, fuse_notify_poll_wakeup_out,
    fuse_notify_retrieve_in, fuse_notify_store_out, fuse_opcode, fuse_open_in, fuse_open_out,
    fuse_out_header, fuse_poll_in, fuse_poll_out, fuse_read_in, fuse_release_in, fuse_rename2_in,
    fuse_rename_in, fuse_setattr_in, fuse_setxattr_in, fuse_statfs_out, fuse_write_in,
    fuse_write_out,
};
use crate::ll::request::{parses, parses_request, Operation, Request, RequestError};
use crate::ll::wire::{
    group_fields, group_lengths, holds_from, i32_at, i32_bytes, i64_at, i64_bytes, u16_bytes,
        u32_at,
    u32_bytes, u64_at, u64_bytes, FromBytes, IntoBytes,
};

verus! {

/// The numbers by which the kernel names operations.
pub proof fn lemma_opcode_numbers(code: fuse_opcode)
    ensures
        code.spec_number() == 1 <==> code is FUSE_LOOKUP,
        code.spec_number() == 2 <==> code is FUSE_FORGET,
        code.spec_number() == 3 <==> code is FUSE_GETATTR,
        code.spec_number() == 4 <==> code is FUSE_SETATTR,
        code.spec_number() == 5 <==> code is FUSE_READLINK,
        code.spec_number() == 6 <==> code is FUSE_SYMLINK,
        code.spec_number() == 8 <==> code is FUSE_MKNOD,
        code.spec_number() == 9 <==> code is FUSE_MKDIR,
        code.spec_number() == 10 <==> code is FUSE_UNLINK,
        code.spec_number() == 11 <==> code is FUSE_RMDIR,
        code.spec_number() == 12 <==> code is FUSE_RENAME,
        code.spec_number() == 13 <==> code is FUSE_LINK,
        code.spec_number() == 14 <==> code is FUSE_OPEN,
        code.spec_number() == 15 <==> code is FUSE_READ,
        code.spec_number() == 16 <==> code is FUSE_WRITE,
        code.spec_number() == 17 <==> code is FUSE_STATFS,
        code.spec_number() == 18 <==> code is FUSE_RELEASE,
        code.spec_number() == 20 <==> code is FUSE_FSYNC,
        code.spec_number() == 21 <==> code is FUSE_SETXATTR,
        code.spec_number() == 22 <==> code is FUSE_GETXATTR,
        code.spec_number() == 23 <==> code is FUSE_LISTXATTR,
        code.spec_number() == 24 <==> code is FUSE_REMOVEXATTR,
        code.spec_number() == 25 <==> code is FUSE_FLUSH,
        code.spec_number() == 26 <==> code is FUSE_INIT,
        code.spec_number() == 27 <==> code is FUSE_OPENDIR,
        code.spec_number() == 28 <==> code is FUSE_READDIR,
        code.spec_number() == 29 <==> code is FUSE_RELEASEDIR,
        code.spec_number() == 30 <==> code is FUSE_FSYNCDIR,
        code.spec_number() == 31 <==> code is FUSE_GETLK,
        code.spec_number() == 32 <==> code is FUSE_SETLK,
        code.spec_number() == 33 <==> code is FUSE_SETLKW,
        code.spec_number() == 34 <==> code is FUSE_ACCESS,
        code.spec_number() == 35 <==> code is FUSE_CREATE,
        code.spec_number() == 36 <==> code is FUSE_INTERRUPT,
        code.spec_number() == 37 <==> code is FUSE_BMAP,
        code.spec_number() == 38 <==> code is FUSE_DESTROY,
        code.spec_number() == 39 <==> code is FUSE_IOCTL,
        code.spec_number() == 40 <==> code is FUSE_POLL,
        code.spec_number() == 41 <==> code is FUSE_NOTIFY_REPLY,
        code.spec_number() == 42 <==> code is FUSE_BATCH_FORGET,
        code.spec_number() == 43 <==> code is FUSE_FALLOCATE,
        code.spec_number() == 44 <==> code is FUSE_READDIRPLUS,
        code.spec_number() == 45 <==> code is FUSE_RENAME2,
        code.spec_number() == 46 <==> code is FUSE_LSEEK,
        code.spec_number() == 47 <==> code is FUSE_COPY_FILE_RANGE,
        code.spec_number() == 4096 <==> code is CUSE_INIT,
        [
            1u32, 2, 3, 4, 5, 6, 8, 9, 10, 11, 12, 13, 14, 15, 16, 17, 18, 20, 21, 22, 23, 24, 25,
                26, 27, 28, 29, 30, 31, 32, 33, 34, 35, 36, 37, 38, 39, 40, 41, 42, 43, 44, 45, 46,
                47, 4096,
        ]@.contains(code.spec_number()),
{
    let all: Seq<u32> = [
            1u32, 2, 3, 4, 5, 6, 8, 9, 10, 11, 12, 13, 14, 15, 16, 17, 18, 20, 21, 22, 23, 24, 25,
                26, 27, 28, 29, 30, 31, 32, 33, 34, 35, 36, 37, 38, 39, 40, 41, 42, 43, 44, 45, 46,
                47, 4096,
        ]@;
    assert(all[0] == 1);
    assert(all[1] == 2);
    assert(all[2] == 3);
    assert(all[3] == 4);
    assert(all[4] == 5);
    assert(all[5] == 6);
    assert(all[6] == 8);
    assert(all[7] == 9);
    assert(all[8] == 10);
    assert(all[9] == 11);
    assert(all[10] == 12);
    assert(all[11] == 13);
    assert(all[12] == 14);
    assert(all[13] == 15);
    assert(all[14] == 16);
    assert(all[15] == 17);
    assert(all[16] == 18);
    assert(all[17] == 20);
    assert(all[18] == 21);
    assert(all[19] == 22);
    assert(all[20] == 23);
    assert(all[21] == 24);
    assert(all[22] == 25);
    assert(all[23] == 26);
    assert(all[24] == 27);
    assert(all[25] == 28);
    assert(all[26] == 29);
    assert(all[27] == 30);
    assert(all[28] == 31);
    assert(all[29] == 32);
    assert(all[30] == 33);
    assert(all[31] == 34);
    assert(all[32] == 35);
    assert(all[33] == 36);
    assert(all[34] == 37);
    assert(all[35] == 38);
    assert(all[36] == 39);
    assert(all[37] == 40);
    assert(all[38] == 41);
    assert(all[39] == 42);
    assert(all[40] == 43);
    assert(all[41] == 44);
    assert(all[42] == 45);
    assert(all[43] == 46);
    assert(all[44] == 47);
    assert(all[45] == 4096);
}

/// Where the fields of `fuse_in_header` are read.
pub proof fn lemma_fuse_in_header_is_read(s: Seq<u8>)
    ensures
        <fuse_in_header as FromBytes>::spec_size() == 40,
        <fuse_in_header as FromBytes>::spec_decode(s).len == u32_at(s, 0),
        <fuse_in_header as FromBytes>::spec_decode(s).opcode == u32_at(s, 4),
        <fuse_in_header as FromBytes>::spec_decode(s).unique == u64_at(s, 8),
        <fuse_in_header as FromBytes>::spec_decode(s).nodeid == u64_at(s, 16),
        <fuse_in_header as FromBytes>::spec_decode(s).uid == u32_at(s, 24),
        <fuse_in_header as FromBytes>::spec_decode(s).gid == u32_at(s, 28),
        <fuse_in_header as FromBytes>::spec_decode(s).pid == u32_at(s, 32),
        <fuse_in_header as FromBytes>::spec_decode(s).padding == u32_at(s, 36),
{
}

/// Where the fields of `fuse_forget_in` are read.
pub proof fn lemma_fuse_forget_in_is_read(s: Seq<u8>)
    ensures
        <fuse_forget_in as FromBytes>::spec_size() == 8,
        <fuse_forget_in as FromBytes>::spec_decode(s).nlookup == u64_at(s, 0),
{
}

/// Where the fields of `fuse_forget_one` are read.
pub proof fn lemma_fuse_forget_one_is_read(s: Seq<u8>)
    ensures
        <fuse_forget_one as FromBytes>::spec_size() == 16,
        <fuse_forget_one as FromBytes>::spec_decode(s).nodeid == u64_at(s, 0),
        <fuse_forget_one as FromBytes>::spec_decode(s).nlookup == u64_at(s, 8),
{
}

/// Where the fields of `fuse_batch_forget_in` are read.
pub proof fn lemma_fuse_batch_forget_in_is_read(s: Seq<u8>)
    ensures
        <fuse_batch_forget_in as FromBytes>::spec_size() == 8,
        <fuse_batch_forget_in as FromBytes>::spec_decode(s).count == u32_at(s, 0),
        <fuse_batch_forget_in as FromBytes>::spec_decode(s).dummy == u32_at(s, 4),
{
}

/// Where the fields of `fuse_getattr_in` are read.
pub proof fn lemma_fuse_getattr_in_is_read(s: Seq<u8>)
    ensures
        <fuse_getattr_in as FromBytes>::spec_size() == 16,
        <fuse_getattr_in as FromBytes>::spec_decode(s).getattr_flags == u32_at(s, 0),
        <fuse_getattr_in as FromBytes>::spec_decode(s).dummy == u32_at(s, 4),
        <fuse_getattr_in as FromBytes>::spec_decode(s).fh == u64_at(s, 8),
{
}

/// Where the fields of `fuse_mknod_in` are read.
pub proof fn lemma_fuse_mknod_in_is_read(s: Seq<u8>)
    ensures
        <fuse_mknod_in as FromBytes>::spec_size() == 16,
        <fuse_mknod_in as FromBytes>::spec_decode(s).mode == u32_at(s, 0),
        <fuse_mknod_in as FromBytes>::spec_decode(s).rdev == u32_at(s, 4),
        <fuse_mknod_in as FromBytes>::spec_decode(s).umask == u32_at(s, 8),
        <fuse_mknod_in as FromBytes>::spec_decode(s).padding == u32_at(s, 12),
{
}

/// Where the fields of `fuse_mkdir_in` are read.
pub proof fn lemma_fuse_mkdir_in_is_read(s: Seq<u8>)
    ensures
        <fuse_mkdir_in as FromBytes>::spec_size() == 8,
        <fuse_mkdir_in as FromBytes>::spec_decode(s).mode == u32_at(s, 0),
        <fuse_mkdir_in as FromBytes>::spec_decode(s).umask == u32_at(s, 4),
{
}

/// Where the fields of `fuse_rename_in` are read.
pub proof fn lemma_fuse_rename_in_is_read(s: Seq<u8>)
    ensures
        <fuse_rename_in as FromBytes>::spec_size() == 8,
        <fuse_rename_in as FromBytes>::spec_decode(s).newdir == u64_at(s, 0),
{
}

/// Where the fields of `fuse_rename2_in` are read.
pub proof fn lemma_fuse_rename2_in_is_read(s: Seq<u8>)
    ensures
        <fuse_rename2_in as FromBytes>::spec_size() == 16,
        <fuse_rename2_in as FromBytes>::spec_decode(s).newdir == u64_at(s, 0),
        <fuse_rename2_in as FromBytes>::spec_decode(s).flags == u32_at(s, 8),
        <fuse_rename2_in as FromBytes>::spec_decode(s).padding == u32_at(s, 12),
{
}

/// Where the fields of `fuse_link_in` are read.
pub proof fn lemma_fuse_link_in_is_read(s: Seq<u8>)
    ensures
        <fuse_link_in as FromBytes>::spec_size() == 8,
        <fuse_link_in as FromBytes>::spec_decode(s).oldnodeid == u64_at(s, 0),
{
}

/// Where the fields of `fuse_setattr_in` are read.
pub proof fn lemma_fuse_setattr_in_is_read(s: Seq<u8>)
    ensures
        <fuse_setattr_in as FromBytes>::spec_size() == 88,
        <fuse_setattr_in as FromBytes>::spec_decode(s).valid == u32_at(s, 0),
        <fuse_setattr_in as FromBytes>::spec_decode(s).padding == u32_at(s, 4),
        <fuse_setattr_in as FromBytes>::spec_decode(s).fh == u64_at(s, 8),
        <fuse_setattr_in as FromBytes>::spec_decode(s).size == u64_at(s, 16),
        <fuse_setattr_in as FromBytes>::spec_decode(s).lock_owner == u64_at(s, 24),
        <fuse_setattr_in as FromBytes>::spec_decode(s).atime == i64_at(s, 32),
        <fuse_setattr_in as FromBytes>::spec_decode(s).mtime == i64_at(s, 40),
        <fuse_setattr_in as FromBytes>::spec_decode(s).ctime == i64_at(s, 48),
        <fuse_setattr_in as FromBytes>::spec_decode(s).atimensec == u32_at(s, 56),
        <fuse_setattr_in as FromBytes>::spec_decode(s).mtimensec == u32_at(s, 60),
        <fuse_setattr_in as FromBytes>::spec_decode(s).ctimensec == u32_at(s, 64),
        <fuse_setattr_in as FromBytes>::spec_decode(s).mode == u32_at(s, 68),
        <fuse_setattr_in as FromBytes>::spec_decode(s).unused4 == u32_at(s, 72),
        <fuse_setattr_in as FromBytes>::spec_decode(s).uid == u32_at(s, 76),
        <fuse_setattr_in as FromBytes>::spec_decode(s).gid == u32_at(s, 80),
        <fuse_setattr_in as FromBytes>::spec_decode(s).unused5 == u32_at(s, 84),
{
}

/// Where the fields of `fuse_open_in` are read.
pub proof fn lemma_fuse_open_in_is_read(s: Seq<u8>)
    ensures
        <fuse_open_in as FromBytes>::spec_size() == 8,
        <fuse_open_in as FromBytes>::spec_decode(s).flags == i32_at(s, 0),
        <fuse_open_in as FromBytes>::spec_decode(s).unused == u32_at(s, 4),
{
}

/// Where the fields of `fuse_create_in` are read.
pub proof fn lemma_fuse_create_in_is_read(s: Seq<u8>)
    ensures
        <fuse_create_in as FromBytes>::spec_size() == 16,
        <fuse_create_in as FromBytes>::spec_decode(s).flags == i32_at(s, 0),
        <fuse_create_in as FromBytes>::spec_decode(s).mode == u32_at(s, 4),
        <fuse_create_in as FromBytes>::spec_decode(s).umask == u32_at(s, 8),
        <fuse_create_in as FromBytes>::spec_decode(s).padding == u32_at(s, 12),
{
}

/// Where the fields of `fuse_release_in` are read.
pub proof fn lemma_fuse_release_in_is_read(s: Seq<u8>)
    ensures
        <fuse_release_in as FromBytes>::spec_size() == 24,
        <fuse_release_in as FromBytes>::spec_decode(s).fh == u64_at(s, 0),
        <fuse_release_in as FromBytes>::spec_decode(s).flags == i32_at(s, 8),
        <fuse_release_in as FromBytes>::spec_decode(s).release_flags == u32_at(s, 12),
        <fuse_release_in as FromBytes>::spec_decode(s).lock_owner == u64_at(s, 16),
{
}

/// Where the fields of `fuse_flush_in` are read.
pub proof fn lemma_fuse_flush_in_is_read(s: Seq<u8>)
    ensures
        <fuse_flush_in as FromBytes>::spec_size() == 24,
        <fuse_flush_in as FromBytes>::spec_decode(s).fh == u64_at(s, 0),
        <fuse_flush_in as FromBytes>::spec_decode(s).unused == u32_at(s, 8),
        <fuse_flush_in as FromBytes>::spec_decode(s).padding == u32_at(s, 12),
        <fuse_flush_in as FromBytes>::spec_decode(s).lock_owner == u64_at(s, 16),
{
}

/// Where the fields of `fuse_read_in` are read.
pub proof fn lemma_fuse_read_in_is_read(s: Seq<u8>)
    ensures
        <fuse_read_in as FromBytes>::spec_size() == 40,
        <fuse_read_in as FromBytes>::spec_decode(s).fh == u64_at(s, 0),
        <fuse_read_in as FromBytes>::spec_decode(s).offset == u64_at(s, 8),
        <fuse_read_in as FromBytes>::spec_decode(s).size == u32_at(s, 16),
        <fuse_read_in as FromBytes>::spec_decode(s).read_flags == u32_at(s, 20),
        <fuse_read_in as FromBytes>::spec_decode(s).lock_owner == u64_at(s, 24),
        <fuse_read_in as FromBytes>::spec_decode(s).flags == u32_at(s, 32),
        <fuse_read_in as FromBytes>::spec_decode(s).padding == u32_at(s, 36),
{
}

/// Where the fields of `fuse_write_in` are read.
pub proof fn lemma_fuse_write_in_is_read(s: Seq<u8>)
    ensures
        <fuse_write_in as FromBytes>::spec_size() == 40,
        <fuse_write_in as FromBytes>::spec_decode(s).fh == u64_at(s, 0),
        <fuse_write_in as FromBytes>::spec_decode(s).offset == i64_at(s, 8),
        <fuse_write_in as FromBytes>::spec_decode(s).size == u32_at(s, 16),
        <fuse_write_in as FromBytes>::spec_decode(s).write_flags == u32_at(s, 20),
        <fuse_write_in as FromBytes>::spec_decode(s).lock_owner == u64_at(s, 24),
        <fuse_write_in as FromBytes>::spec_decode(s).flags == i32_at(s, 32),
        <fuse_write_in as FromBytes>::spec_decode(s).padding == u32_at(s, 36),
{
}

/// Where the fields of `fuse_fsync_in` are read.
pub proof fn lemma_fuse_fsync_in_is_read(s: Seq<u8>)
    ensures
        <fuse_fsync_in as FromBytes>::spec_size() == 16,
        <fuse_fsync_in as FromBytes>::spec_decode(s).fh == u64_at(s, 0),
        <fuse_fsync_in as FromBytes>::spec_decode(s).fsync_flags == u32_at(s, 8),
        <fuse_fsync_in as FromBytes>::spec_decode(s).padding == u32_at(s, 12),
{
}

/// Where the fields of `fuse_setxattr_in` are read.
pub proof fn lemma_fuse_setxattr_in_is_read(s: Seq<u8>)
    ensures
        <fuse_setxattr_in as FromBytes>::spec_size() == 8,
        <fuse_setxattr_in as FromBytes>::spec_decode(s).size == u32_at(s, 0),
        <fuse_setxattr_in as FromBytes>::spec_decode(s).flags == i32_at(s, 4),
{
}

/// Where the fields of `fuse_getxattr_in` are read.
pub proof fn lemma_fuse_getxattr_in_is_read(s: Seq<u8>)
    ensures
        <fuse_getxattr_in as FromBytes>::spec_size() == 8,
        <fuse_getxattr_in as FromBytes>::spec_decode(s).size == u32_at(s, 0),
        <fuse_getxattr_in as FromBytes>::spec_decode(s).padding == u32_at(s, 4),
{
}

/// Where the fields of `fuse_file_lock` are read.
pub proof fn lemma_fuse_file_lock_is_read(s: Seq<u8>)
    ensures
        <fuse_file_lock as FromBytes>::spec_size() == 24,
        <fuse_file_lock as FromBytes>::spec_decode(s).start == u64_at(s, 0),
        <fuse_file_lock as FromBytes>::spec_decode(s).end == u64_at(s, 8),
        <fuse_file_lock as FromBytes>::spec_decode(s).typ == i32_at(s, 16),
        <fuse_file_lock as FromBytes>::spec_decode(s).pid == u32_at(s, 20),
{
}

/// Where the fields of `fuse_lk_in` are read.
pub proof fn lemma_fuse_lk_in_is_read(s: Seq<u8>)
    ensures
        <fuse_lk_in as FromBytes>::spec_size() == 48,
        <fuse_lk_in as FromBytes>::spec_decode(s).fh == u64_at(s, 0),
        <fuse_lk_in as FromBytes>::spec_decode(s).owner == u64_at(s, 8),
        <fuse_lk_in as FromBytes>::spec_decode(s).lk.start == u64_at(s, 16),
        <fuse_lk_in as FromBytes>::spec_decode(s).lk.end == u64_at(s, 24),
        <fuse_lk_in as FromBytes>::spec_decode(s).lk.typ == i32_at(s, 32),
        <fuse_lk_in as FromBytes>::spec_decode(s).lk.pid == u32_at(s, 36),
        <fuse_lk_in as FromBytes>::spec_decode(s).lk_flags == u32_at(s, 40),
        <fuse_lk_in as FromBytes>::spec_decode(s).padding == u32_at(s, 44),
{
}

/// Where the fields of `fuse_access_in` are read.
pub proof fn lemma_fuse_access_in_is_read(s: Seq<u8>)
    ensures
        <fuse_access_in as FromBytes>::spec_size() == 8,
        <fuse_access_in as FromBytes>::spec_decode(s).mask == i32_at(s, 0),
        <fuse_access_in as FromBytes>::spec_decode(s).padding == u32_at(s, 4),
{
}

/// Where the fields of `fuse_init_in` are read.
pub proof fn lemma_fuse_init_in_is_read(s: Seq<u8>)
    ensures
        <fuse_init_in as FromBytes>::spec_size() == 64,
        <fuse_init_in as FromBytes>::spec_decode(s).major == u32_at(s, 0),
        <fuse_init_in as FromBytes>::spec_decode(s).minor == u32_at(s, 4),
        <fuse_init_in as FromBytes>::spec_decode(s).max_readahead == u32_at(s, 8),
        <fuse_init_in as FromBytes>::spec_decode(s).flags == u32_at(s, 12),
        <fuse_init_in as FromBytes>::spec_decode(s).flags2 == u32_at(s, 16),
        <fuse_init_in as FromBytes>::spec_decode(s).unused[0] == u32_at(s, 20),
        <fuse_init_in as FromBytes>::spec_decode(s).unused[1] == u32_at(s, 24),
        <fuse_init_in as FromBytes>::spec_decode(s).unused[2] == u32_at(s, 28),
        <fuse_init_in as FromBytes>::spec_decode(s).unused[3] == u32_at(s, 32),
        <fuse_init_in as FromBytes>::spec_decode(s).unused[4] == u32_at(s, 36),
        <fuse_init_in as FromBytes>::spec_decode(s).unused[5] == u32_at(s, 40),
        <fuse_init_in as FromBytes>::spec_decode(s).unused[6] == u32_at(s, 44),
        <fuse_init_in as FromBytes>::spec_decode(s).unused[7] == u32_at(s, 48),
        <fuse_init_in as FromBytes>::spec_decode(s).unused[8] == u32_at(s, 52),
        <fuse_init_in as FromBytes>::spec_decode(s).unused[9] == u32_at(s, 56),
        <fuse_init_in as FromBytes>::spec_decode(s).unused[10] == u32_at(s, 60),
{
}

/// Where the fields of `cuse_init_in` are read.
pub proof fn lemma_cuse_init_in_is_read(s: Seq<u8>)
    ensures
        <cuse_init_in as FromBytes>::spec_size() == 16,
        <cuse_init_in as FromBytes>::spec_decode(s).major == u32_at(s, 0),
        <cuse_init_in as FromBytes>::spec_decode(s).minor == u32_at(s, 4),
        <cuse_init_in as FromBytes>::spec_decode(s).unused == u32_at(s, 8),
        <cuse_init_in as FromBytes>::spec_decode(s).flags == u32_at(s, 12),
{
}

/// Where the fields of `fuse_interrupt_in` are read.
pub proof fn lemma_fuse_interrupt_in_is_read(s: Seq<u8>)
    ensures
        <fuse_interrupt_in as FromBytes>::spec_size() == 8,
        <fuse_interrupt_in as FromBytes>::spec_decode(s).unique == u64_at(s, 0),
{
}

/// Where the fields of `fuse_bmap_in` are read.
pub proof fn lemma_fuse_bmap_in_is_read(s: Seq<u8>)
    ensures
        <fuse_bmap_in as FromBytes>::spec_size() == 16,
        <fuse_bmap_in as FromBytes>::spec_decode(s).block == u64_at(s, 0),
        <fuse_bmap_in as FromBytes>::spec_decode(s).blocksize == u32_at(s, 8),
        <fuse_bmap_in as FromBytes>::spec_decode(s).padding == u32_at(s, 12),
{
}

/// Where the fields of `fuse_ioctl_in` are read.
pub proof fn lemma_fuse_ioctl_in_is_read(s: Seq<u8>)
    ensures
        <fuse_ioctl_in as FromBytes>::spec_size() == 32,
        <fuse_ioctl_in as FromBytes>::spec_decode(s).fh == u64_at(s, 0),
        <fuse_ioctl_in as FromBytes>::spec_decode(s).flags == u32_at(s, 8),
        <fuse_ioctl_in as FromBytes>::spec_decode(s).cmd == u32_at(s, 12),
        <fuse_ioctl_in as FromBytes>::spec_decode(s).arg == u64_at(s, 16),
        <fuse_ioctl_in as FromBytes>::spec_decode(s).in_size == u32_at(s, 24),
        <fuse_ioctl_in as FromBytes>::spec_decode(s).out_size == u32_at(s, 28),
{
}

/// Where the fields of `fuse_poll_in` are read.
pub proof fn lemma_fuse_poll_in_is_read(s: Seq<u8>)
    ensures
        <fuse_poll_in as FromBytes>::spec_size() == 24,
        <fuse_poll_in as FromBytes>::spec_decode(s).fh == u64_at(s, 0),
        <fuse_poll_in as FromBytes>::spec_decode(s).kh == u64_at(s, 8),
        <fuse_poll_in as FromBytes>::spec_decode(s).flags == u32_at(s, 16),
        <fuse_poll_in as FromBytes>::spec_decode(s).events == u32_at(s, 20),
{
}

/// Where the fields of `fuse_fallocate_in` are read.
pub proof fn lemma_fuse_fallocate_in_is_read(s: Seq<u8>)
    ensures
        <fuse_fallocate_in as FromBytes>::spec_size() == 32,
        <fuse_fallocate_in as FromBytes>::spec_decode(s).fh == u64_at(s, 0),
        <fuse_fallocate_in as FromBytes>::spec_decode(s).offset == i64_at(s, 8),
        <fuse_fallocate_in as FromBytes>::spec_decode(s).length == i64_at(s, 16),
        <fuse_fallocate_in as FromBytes>::spec_decode(s).mode == i32_at(s, 24),
        <fuse_fallocate_in as FromBytes>::spec_decode(s).padding == u32_at(s, 28),
{
}

/// Where the fields of `fuse_notify_retrieve_in` are read.
pub proof fn lemma_fuse_notify_retrieve_in_is_read(s: Seq<u8>)
    ensures
        <fuse_notify_retrieve_in as FromBytes>::spec_size() == 40,
        <fuse_notify_retrieve_in as FromBytes>::spec_decode(s).dummy1 == u64_at(s, 0),
        <fuse_notify_retrieve_in as FromBytes>::spec_decode(s).offset == u64_at(s, 8),
        <fuse_notify_retrieve_in as FromBytes>::spec_decode(s).size == u32_at(s, 16),
        <fuse_notify_retrieve_in as FromBytes>::spec_decode(s).dummy2 == u32_at(s, 20),
        <fuse_notify_retrieve_in as FromBytes>::spec_decode(s).dummy3 == u64_at(s, 24),
        <fuse_notify_retrieve_in as FromBytes>::spec_decode(s).dummy4 == u64_at(s, 32),
{
}

/// Where the fields of `fuse_lseek_in` are read.
pub proof fn lemma_fuse_lseek_in_is_read(s: Seq<u8>)
    ensures
        <fuse_lseek_in as FromBytes>::spec_size() == 24,
        <fuse_lseek_in as FromBytes>::spec_decode(s).fh == u64_at(s, 0),
        <fuse_lseek_in as FromBytes>::spec_decode(s).offset == i64_at(s, 8),
        <fuse_lseek_in as FromBytes>::spec_decode(s).whence == i32_at(s, 16),
        <fuse_lseek_in as FromBytes>::spec_decode(s).padding == u32_at(s, 20),
{
}

/// Where the fields of `fuse_copy_file_range_in` are read.
pub proof fn lemma_fuse_copy_file_range_in_is_read(s: Seq<u8>)
    ensures
        <fuse_copy_file_range_in as FromBytes>::spec_size() == 56,
        <fuse_copy_file_range_in as FromBytes>::spec_decode(s).fh_in == u64_at(s, 0),
        <fuse_copy_file_range_in as FromBytes>::spec_decode(s).off_in == i64_at(s, 8),
        <fuse_copy_file_range_in as FromBytes>::spec_decode(s).nodeid_out == u64_at(s, 16),
        <fuse_copy_file_range_in as FromBytes>::spec_decode(s).fh_out == u64_at(s, 24),
        <fuse_copy_file_range_in as FromBytes>::spec_decode(s).off_out == i64_at(s, 32),
        <fuse_copy_file_range_in as FromBytes>::spec_decode(s).len == u64_at(s, 40),
        <fuse_copy_file_range_in as FromBytes>::spec_decode(s).flags == u64_at(s, 48),
{
}

/// What is read in a part is what is read at its place in the whole.
pub proof fn lemma_within(b: Seq<u8>, start: int, part: Seq<u8>)
    requires
        0 <= start,
        start + part.len() <= b.len(),
        b.subrange(start, start + part.len()) == part,
    ensures
        forall|k: int| 0 <= k < part.len() ==> #[trigger] part[k] == b[start + k],
        forall|k: int|
            0 <= k && k + 4 <= part.len() ==> #[trigger] u32_at(part, k) == u32_at(b, start + k),
        forall|k: int|
            0 <= k && k + 8 <= part.len() ==> #[trigger] u64_at(part, k) == u64_at(b, start + k),
        forall|k: int|
            0 <= k && k + 4 <= part.len() ==> #[trigger] i32_at(part, k) == i32_at(b, start + k),
        forall|k: int|
            0 <= k && k + 8 <= part.len() ==> #[trigger] i64_at(part, k) == i64_at(b, start + k),
{
    assert forall|k: int| 0 <= k < part.len() implies #[trigger] part[k] == b[start + k] by {
        assert(b.subrange(start, start + part.len())[k] == b[start + k]);
    }
    assert forall|k: int| 0 <= k && k + 4 <= part.len() implies #[trigger] u32_at(part, k)
        == u32_at(
        b,
        start + k,
    ) by {
        assert(part[k] == b[start + k] && part[k + 1] == b[start + (k + 1)] && part[k + 2]
            == b[start + (k + 2)] && part[k + 3] == b[start + (k + 3)]);
    }
    assert forall|k: int| 0 <= k && k + 8 <= part.len() implies #[trigger] u64_at(part, k)
        == u64_at(
        b,
        start + k,
    ) by {
        assert(u32_at(part, k) == u32_at(b, start + k));
        assert(u32_at(part, k + 4) == u32_at(b, start + (k + 4)));
    }
}

/// Where the bytes of `x` stand, they are those of the number, and what follows them comes next.
proof fn lemma_u16_stands(s: Seq<u8>, i: int, x: u16, rest: Seq<u8>)
    requires
        holds_from(s, i, u16_bytes(x) + rest),
    ensures
        s[i] + s[i + 1] * 256 == x,
        holds_from(s, i + 2, rest),
{
    reveal(u16_bytes);
    let t = u16_bytes(x) + rest;
    assert(s.skip(i).len() == t.len());
    assert(s.skip(i)[0] == t[0] && s.skip(i)[1] == t[1]);
    assert(s.skip(i + 2) =~= rest) by {
        assert forall|k: int| 0 <= k < rest.len() implies s.skip(i + 2)[k] == rest[k] by {
            assert(s.skip(i)[k + 2] == t[k + 2]);
        }
    }
}

/// Where the fields of `fuse_out_header` stand.
pub proof fn lemma_fuse_out_header_is_written(x: fuse_out_header)
    ensures
        x.spec_bytes().len() == 16,
        u32_at(x.spec_bytes(), 0) == x.len,
        i32_at(x.spec_bytes(), 4) == x.error,
        u64_at(x.spec_bytes(), 8) == x.unique,
{
    broadcast use {group_fields, group_lengths};

    let b = x.spec_bytes();
    let t = u32_bytes(x.len) + (i32_bytes(x.error) + (u64_bytes(x.unique) + Seq::<u8>::empty()));
    assert(b =~= t);
    assert(b.skip(0) =~= b);
    assert(holds_from(b, 0, t));
}

/// Where the fields of `fuse_attr` stand.
pub proof fn lemma_fuse_attr_is_written(x: fuse_attr)
    ensures
        x.spec_bytes().len() == 88,
        u64_at(x.spec_bytes(), 0) == x.ino,
        u64_at(x.spec_bytes(), 8) == x.size,
        u64_at(x.spec_bytes(), 16) == x.blocks,
        i64_at(x.spec_bytes(), 24) == x.atime,
        i64_at(x.spec_bytes(), 32) == x.mtime,
        i64_at(x.spec_bytes(), 40) == x.ctime,
        u32_at(x.spec_bytes(), 48) == x.atimensec,
        u32_at(x.spec_bytes(), 52) == x.mtimensec,
        u32_at(x.spec_bytes(), 56) == x.ctimensec,
        u32_at(x.spec_bytes(), 60) == x.mode,
        u32_at(x.spec_bytes(), 64) == x.nlink,
        u32_at(x.spec_bytes(), 68) == x.uid,
        u32_at(x.spec_bytes(), 72) == x.gid,
        u32_at(x.spec_bytes(), 76) == x.rdev,
        u32_at(x.spec_bytes(), 80) == x.blksize,
        u32_at(x.spec_bytes(), 84) == x.padding,
{
    broadcast use {group_fields, group_lengths};

    let b = x.spec_bytes();
    let t = u64_bytes(x.ino) + (u64_bytes(x.size) + (u64_bytes(x.blocks) + (i64_bytes(x.atime)
        + (i64_bytes(x.mtime) + (i64_bytes(x.ctime) + (u32_bytes(x.atimensec)
        + (u32_bytes(x.mtimensec) + (u32_bytes(x.ctimensec) + (u32_bytes(x.mode)
        + (u32_bytes(x.nlink) + (u32_bytes(x.uid) + (u32_bytes(x.gid) + (u32_bytes(x.rdev)
        + (u32_bytes(x.blksize) + (u32_bytes(x.padding) + Seq::<u8>::empty())))))))))))))));
    assert(b =~= t);
    assert(b.skip(0) =~= b);
    assert(holds_from(b, 0, t));
}

/// Where the fields of `fuse_kstatfs` stand.
pub proof fn lemma_fuse_kstatfs_is_written(x: fuse_kstatfs)
    ensures
        x.spec_bytes().len() == 80,
        u64_at(x.spec_bytes(), 0) == x.blocks,
        u64_at(x.spec_bytes(), 8) == x.bfree,
        u64_at(x.spec_bytes(), 16) == x.bavail,
        u64_at(x.spec_bytes(), 24) == x.files,
        u64_at(x.spec_bytes(), 32) == x.ffree,
        u32_at(x.spec_bytes(), 40) == x.bsize,
        u32_at(x.spec_bytes(), 44) == x.namelen,
        u32_at(x.spec_bytes(), 48) == x.frsize,
        u32_at(x.spec_bytes(), 52) == x.padding,
        u32_at(x.spec_bytes(), 56) == x.spare[0],
        u32_at(x.spec_bytes(), 60) == x.spare[1],
        u32_at(x.spec_bytes(), 64) == x.spare[2],
        u32_at(x.spec_bytes(), 68) == x.spare[3],
        u32_at(x.spec_bytes(), 72) == x.spare[4],
        u32_at(x.spec_bytes(), 76) == x.spare[5],
{
    broadcast use {group_fields, group_lengths};

    let b = x.spec_bytes();
    let t = u64_bytes(x.blocks) + (u64_bytes(x.bfree) + (u64_bytes(x.bavail) + (u64_bytes(x.files)
        + (u64_bytes(x.ffree) + (u32_bytes(x.bsize) + (u32_bytes(x.namelen) + (u32_bytes(x.frsize)
        + (u32_bytes(x.padding) + (u32_bytes(x.spare[0]) + (u32_bytes(x.spare[1])
        + (u32_bytes(x.spare[2]) + (u32_bytes(x.spare[3]) + (u32_bytes(x.spare[4])
        + (u32_bytes(x.spare[5]) + Seq::<u8>::empty()))))))))))))));
    assert(b =~= t);
    assert(b.skip(0) =~= b);
    assert(holds_from(b, 0, t));
}

/// Where the fields of `fuse_file_lock` stand.
pub proof fn lemma_fuse_file_lock_is_written(x: fuse_file_lock)
    ensures
        x.spec_bytes().len() == 24,
        u64_at(x.spec_bytes(), 0) == x.start,
        u64_at(x.spec_bytes(), 8) == x.end,
        i32_at(x.spec_bytes(), 16) == x.typ,
        u32_at(x.spec_bytes(), 20) == x.pid,
{
    broadcast use {group_fields, group_lengths};

    let b = x.spec_bytes();
    let t = u64_bytes(x.start) + (u64_bytes(x.end) + (i32_bytes(x.typ) + (u32_bytes(x.pid)
        + Seq::<u8>::empty())));
    assert(b =~= t);
    assert(b.skip(0) =~= b);
    assert(holds_from(b, 0, t));
}

/// Where the fields of `fuse_entry_out` stand.
pub proof fn lemma_fuse_entry_out_is_written(x: fuse_entry_out)
    ensures
        x.spec_bytes().len() == 128,
        u64_at(x.spec_bytes(), 0) == x.nodeid,
        u64_at(x.spec_bytes(), 8) == x.generation,
        u64_at(x.spec_bytes(), 16) == x.entry_valid,
        u64_at(x.spec_bytes(), 24) == x.attr_valid,
        u32_at(x.spec_bytes(), 32) == x.entry_valid_nsec,
        u32_at(x.spec_bytes(), 36) == x.attr_valid_nsec,
        x.spec_bytes().subrange(40, 128) == x.attr.spec_bytes(),
        u64_at(x.spec_bytes(), 40) == x.attr.ino,
        u64_at(x.spec_bytes(), 48) == x.attr.size,
        u64_at(x.spec_bytes(), 56) == x.attr.blocks,
        i64_at(x.spec_bytes(), 64) == x.attr.atime,
        i64_at(x.spec_bytes(), 72) == x.attr.mtime,
        i64_at(x.spec_bytes(), 80) == x.attr.ctime,
        u32_at(x.spec_bytes(), 88) == x.attr.atimensec,
        u32_at(x.spec_bytes(), 92) == x.attr.mtimensec,
        u32_at(x.spec_bytes(), 96) == x.attr.ctimensec,
        u32_at(x.spec_bytes(), 100) == x.attr.mode,
        u32_at(x.spec_bytes(), 104) == x.attr.nlink,
        u32_at(x.spec_bytes(), 108) == x.attr.uid,
        u32_at(x.spec_bytes(), 112) == x.attr.gid,
        u32_at(x.spec_bytes(), 116) == x.attr.rdev,
        u32_at(x.spec_bytes(), 120) == x.attr.blksize,
        u32_at(x.spec_bytes(), 124) == x.attr.padding,
{
    broadcast use {group_fields, group_lengths};

    lemma_fuse_attr_is_written(x.attr);
    let b = x.spec_bytes();
    let t = u64_bytes(x.nodeid) + (u64_bytes(x.generation) + (u64_bytes(x.entry_valid)
        + (u64_bytes(x.attr_valid) + (u32_bytes(x.entry_valid_nsec) + (u32_bytes(x.attr_valid_nsec)
        + (x.attr.spec_bytes() + Seq::<u8>::empty()))))));
    assert(b =~= t);
    assert(b.skip(0) =~= b);
    assert(holds_from(b, 0, t));
    assert(b.subrange(40, 128) =~= x.attr.spec_bytes());
    lemma_within(b, 40, x.attr.spec_bytes());
    assert(u64_at(x.attr.spec_bytes(), 0) == u64_at(b, 40));
    assert(u64_at(x.attr.spec_bytes(), 8) == u64_at(b, 48));
    assert(u64_at(x.attr.spec_bytes(), 16) == u64_at(b, 56));
    assert(i64_at(x.attr.spec_bytes(), 24) == i64_at(b, 64));
    assert(i64_at(x.attr.spec_bytes(), 32) == i64_at(b, 72));
    assert(i64_at(x.attr.spec_bytes(), 40) == i64_at(b, 80));
    assert(u32_at(x.attr.spec_bytes(), 48) == u32_at(b, 88));
    assert(u32_at(x.attr.spec_bytes(), 52) == u32_at(b, 92));
    assert(u32_at(x.attr.spec_bytes(), 56) == u32_at(b, 96));
    assert(u32_at(x.attr.spec_bytes(), 60) == u32_at(b, 100));
    assert(u32_at(x.attr.spec_bytes(), 64) == u32_at(b, 104));
    assert(u32_at(x.attr.spec_bytes(), 68) == u32_at(b, 108));
    assert(u32_at(x.attr.spec_bytes(), 72) == u32_at(b, 112));
    assert(u32_at(x.attr.spec_bytes(), 76) == u32_at(b, 116));
    assert(u32_at(x.attr.spec_bytes(), 80) == u32_at(b, 120));
    assert(u32_at(x.attr.spec_bytes(), 84) == u32_at(b, 124));
}

/// Where the fields of `fuse_attr_out` stand.
pub proof fn lemma_fuse_attr_out_is_written(x: fuse_attr_out)
    ensures
        x.spec_bytes().len() == 104,
        u64_at(x.spec_bytes(), 0) == x.attr_valid,
        u32_at(x.spec_bytes(), 8) == x.attr_valid_nsec,
        u32_at(x.spec_bytes(), 12) == x.dummy,
        x.spec_bytes().subrange(16, 104) == x.attr.spec_bytes(),
        u64_at(x.spec_bytes(), 16) == x.attr.ino,
        u64_at(x.spec_bytes(), 24) == x.attr.size,
        u64_at(x.spec_bytes(), 32) == x.attr.blocks,
        i64_at(x.spec_bytes(), 40) == x.attr.atime,
        i64_at(x.spec_bytes(), 48) == x.attr.mtime,
        i64_at(x.spec_bytes(), 56) == x.attr.ctime,
        u32_at(x.spec_bytes(), 64) == x.attr.atimensec,
        u32_at(x.spec_bytes(), 68) == x.attr.mtimensec,
        u32_at(x.spec_bytes(), 72) == x.attr.ctimensec,
        u32_at(x.spec_bytes(), 76) == x.attr.mode,
        u32_at(x.spec_bytes(), 80) == x.attr.nlink,
        u32_at(x.spec_bytes(), 84) == x.attr.uid,
        u32_at(x.spec_bytes(), 88) == x.attr.gid,
        u32_at(x.spec_bytes(), 92) == x.attr.rdev,
        u32_at(x.spec_bytes(), 96) == x.attr.blksize,
        u32_at(x.spec_bytes(), 100) == x.attr.padding,
{
    broadcast use {group_fields, group_lengths};

    lemma_fuse_attr_is_written(x.attr);
    let b = x.spec_bytes();
    let t = u64_bytes(x.attr_valid) + (u32_bytes(x.attr_valid_nsec) + (u32_bytes(x.dummy)
        + (x.attr.spec_bytes() + Seq::<u8>::empty())));
    assert(b =~= t);
    assert(b.skip(0) =~= b);
    assert(holds_from(b, 0, t));
    assert(b.subrange(16, 104) =~= x.attr.spec_bytes());
    lemma_within(b, 16, x.attr.spec_bytes());
    assert(u64_at(x.attr.spec_bytes(), 0) == u64_at(b, 16));
    assert(u64_at(x.attr.spec_bytes(), 8) == u64_at(b, 24));
    assert(u64_at(x.attr.spec_bytes(), 16) == u64_at(b, 32));
    assert(i64_at(x.attr.spec_bytes(), 24) == i64_at(b, 40));
    assert(i64_at(x.attr.spec_bytes(), 32) == i64_at(b, 48));
    assert(i64_at(x.attr.spec_bytes(), 40) == i64_at(b, 56));
    assert(u32_at(x.attr.spec_bytes(), 48) == u32_at(b, 64));
    assert(u32_at(x.attr.spec_bytes(), 52) == u32_at(b, 68));
    assert(u32_at(x.attr.spec_bytes(), 56) == u32_at(b, 72));
    assert(u32_at(x.attr.spec_bytes(), 60) == u32_at(b, 76));
    assert(u32_at(x.attr.spec_bytes(), 64) == u32_at(b, 80));
    assert(u32_at(x.attr.spec_bytes(), 68) == u32_at(b, 84));
    assert(u32_at(x.attr.spec_bytes(), 72) == u32_at(b, 88));
    assert(u32_at(x.attr.spec_bytes(), 76) == u32_at(b, 92));
    assert(u32_at(x.attr.spec_bytes(), 80) == u32_at(b, 96));
    assert(u32_at(x.attr.spec_bytes(), 84) == u32_at(b, 100));
}

/// Where the fields of `fuse_open_out` stand.
pub proof fn lemma_fuse_open_out_is_written(x: fuse_open_out)
    ensures
        x.spec_bytes().len() == 16,
        u64_at(x.spec_bytes(), 0) == x.fh,
        u32_at(x.spec_bytes(), 8) == x.open_flags,
        u32_at(x.spec_bytes(), 12) == x.backing_id,
{
    broadcast use {group_fields, group_lengths};

    let b = x.spec_bytes();
    let t = u64_bytes(x.fh) + (u32_bytes(x.open_flags) + (u32_bytes(x.backing_id)
        + Seq::<u8>::empty()));
    assert(b =~= t);
    assert(b.skip(0) =~= b);
    assert(holds_from(b, 0, t));
}

/// Where the parts of `fuse_create_out` stand.
pub proof fn lemma_fuse_create_out_is_written(x: fuse_create_out)
    ensures
        x.spec_bytes().len() == 144,
        x.spec_bytes().take(128) == x.entry.spec_bytes(),
        x.spec_bytes().skip(128) == x.open.spec_bytes(),
        u64_at(x.spec_bytes(), 0) == x.entry.nodeid,
        u64_at(x.spec_bytes(), 8) == x.entry.generation,
        u64_at(x.spec_bytes(), 16) == x.entry.entry_valid,
        u64_at(x.spec_bytes(), 24) == x.entry.attr_valid,
        u32_at(x.spec_bytes(), 32) == x.entry.entry_valid_nsec,
        u32_at(x.spec_bytes(), 36) == x.entry.attr_valid_nsec,
        u64_at(x.spec_bytes(), 40) == x.entry.attr.ino,
        u64_at(x.spec_bytes(), 48) == x.entry.attr.size,
        u64_at(x.spec_bytes(), 56) == x.entry.attr.blocks,
        i64_at(x.spec_bytes(), 64) == x.entry.attr.atime,
        i64_at(x.spec_bytes(), 72) == x.entry.attr.mtime,
        i64_at(x.spec_bytes(), 80) == x.entry.attr.ctime,
        u32_at(x.spec_bytes(), 88) == x.entry.attr.atimensec,
        u32_at(x.spec_bytes(), 92) == x.entry.attr.mtimensec,
        u32_at(x.spec_bytes(), 96) == x.entry.attr.ctimensec,
        u32_at(x.spec_bytes(), 100) == x.entry.attr.mode,
        u32_at(x.spec_bytes(), 104) == x.entry.attr.nlink,
        u32_at(x.spec_bytes(), 108) == x.entry.attr.uid,
        u32_at(x.spec_bytes(), 112) == x.entry.attr.gid,
        u32_at(x.spec_bytes(), 116) == x.entry.attr.rdev,
        u32_at(x.spec_bytes(), 120) == x.entry.attr.blksize,
        u32_at(x.spec_bytes(), 124) == x.entry.attr.padding,
        u64_at(x.spec_bytes(), 128) == x.open.fh,
        u32_at(x.spec_bytes(), 136) == x.open.open_flags,
        u32_at(x.spec_bytes(), 140) == x.open.backing_id,
{
    lemma_fuse_entry_out_is_written(x.entry);
    lemma_fuse_open_out_is_written(x.open);
    assert(x.spec_bytes().take(128) =~= x.entry.spec_bytes());
    assert(x.spec_bytes().skip(128) =~= x.open.spec_bytes());
    let b = x.spec_bytes();
    assert(b.subrange(0, 128) =~= x.entry.spec_bytes());
    assert(b.subrange(128, 144) =~= x.open.spec_bytes());
    lemma_within(b, 0, x.entry.spec_bytes());
    lemma_within(b, 128, x.open.spec_bytes());
    assert(u64_at(x.entry.spec_bytes(), 0) == u64_at(b, 0));
    assert(u64_at(x.entry.spec_bytes(), 8) == u64_at(b, 8));
    assert(u64_at(x.entry.spec_bytes(), 16) == u64_at(b, 16));
    assert(u64_at(x.entry.spec_bytes(), 24) == u64_at(b, 24));
    assert(u32_at(x.entry.spec_bytes(), 32) == u32_at(b, 32));
    assert(u32_at(x.entry.spec_bytes(), 36) == u32_at(b, 36));
    assert(u64_at(x.entry.spec_bytes(), 40) == u64_at(b, 40));
    assert(u64_at(x.entry.spec_bytes(), 48) == u64_at(b, 48));
    assert(u64_at(x.entry.spec_bytes(), 56) == u64_at(b, 56));
    assert(i64_at(x.entry.spec_bytes(), 64) == i64_at(b, 64));
    assert(i64_at(x.entry.spec_bytes(), 72) == i64_at(b, 72));
    assert(i64_at(x.entry.spec_bytes(), 80) == i64_at(b, 80));
    assert(u32_at(x.entry.spec_bytes(), 88) == u32_at(b, 88));
    assert(u32_at(x.entry.spec_bytes(), 92) == u32_at(b, 92));
    assert(u32_at(x.entry.spec_bytes(), 96) == u32_at(b, 96));
    assert(u32_at(x.entry.spec_bytes(), 100) == u32_at(b, 100));
    assert(u32_at(x.entry.spec_bytes(), 104) == u32_at(b, 104));
    assert(u32_at(x.entry.spec_bytes(), 108) == u32_at(b, 108));
    assert(u32_at(x.entry.spec_bytes(), 112) == u32_at(b, 112));
    assert(u32_at(x.entry.spec_bytes(), 116) == u32_at(b, 116));
    assert(u32_at(x.entry.spec_bytes(), 120) == u32_at(b, 120));
    assert(u32_at(x.entry.spec_bytes(), 124) == u32_at(b, 124));
    assert(u64_at(x.open.spec_bytes(), 0) == u64_at(b, 128));
    assert(u32_at(x.open.spec_bytes(), 8) == u32_at(b, 136));
    assert(u32_at(x.open.spec_bytes(), 12) == u32_at(b, 140));
}

/// Where the fields of `fuse_write_out` stand.
pub proof fn lemma_fuse_write_out_is_written(x: fuse_write_out)
    ensures
        x.spec_bytes().len() == 8,
        u32_at(x.spec_bytes(), 0) == x.size,
        u32_at(x.spec_bytes(), 4) == x.padding,
{
    broadcast use {group_fields, group_lengths};

    let b = x.spec_bytes();
    let t = u32_bytes(x.size) + (u32_bytes(x.padding) + Seq::<u8>::empty());
    assert(b =~= t);
    assert(b.skip(0) =~= b);
    assert(holds_from(b, 0, t));
}

/// Where the fields of `fuse_statfs_out` stand.
pub proof fn lemma_fuse_statfs_out_is_written(x: fuse_statfs_out)
    ensures
        x.spec_bytes().len() == 80,
        x.spec_bytes().subrange(0, 80) == x.st.spec_bytes(),
        u64_at(x.spec_bytes(), 0) == x.st.blocks,
        u64_at(x.spec_bytes(), 8) == x.st.bfree,
        u64_at(x.spec_bytes(), 16) == x.st.bavail,
        u64_at(x.spec_bytes(), 24) == x.st.files,
        u64_at(x.spec_bytes(), 32) == x.st.ffree,
        u32_at(x.spec_bytes(), 40) == x.st.bsize,
        u32_at(x.spec_bytes(), 44) == x.st.namelen,
        u32_at(x.spec_bytes(), 48) == x.st.frsize,
        u32_at(x.spec_bytes(), 52) == x.st.padding,
        u32_at(x.spec_bytes(), 56) == x.st.spare[0],
        u32_at(x.spec_bytes(), 60) == x.st.spare[1],
        u32_at(x.spec_bytes(), 64) == x.st.spare[2],
        u32_at(x.spec_bytes(), 68) == x.st.spare[3],
        u32_at(x.spec_bytes(), 72) == x.st.spare[4],
        u32_at(x.spec_bytes(), 76) == x.st.spare[5],
{
    broadcast use {group_fields, group_lengths};

    lemma_fuse_kstatfs_is_written(x.st);
    let b = x.spec_bytes();
    let t = x.st.spec_bytes() + Seq::<u8>::empty();
    assert(b =~= t);
    assert(b.skip(0) =~= b);
    assert(holds_from(b, 0, t));
    assert(b.subrange(0, 80) =~= x.st.spec_bytes());
    lemma_within(b, 0, x.st.spec_bytes());
    assert(u64_at(x.st.spec_bytes(), 0) == u64_at(b, 0));
    assert(u64_at(x.st.spec_bytes(), 8) == u64_at(b, 8));
    assert(u64_at(x.st.spec_bytes(), 16) == u64_at(b, 16));
    assert(u64_at(x.st.spec_bytes(), 24) == u64_at(b, 24));
    assert(u64_at(x.st.spec_bytes(), 32) == u64_at(b, 32));
    assert(u32_at(x.st.spec_bytes(), 40) == u32_at(b, 40));
    assert(u32_at(x.st.spec_bytes(), 44) == u32_at(b, 44));
    assert(u32_at(x.st.spec_bytes(), 48) == u32_at(b, 48));
    assert(u32_at(x.st.spec_bytes(), 52) == u32_at(b, 52));
    assert(u32_at(x.st.spec_bytes(), 56) == u32_at(b, 56));
    assert(u32_at(x.st.spec_bytes(), 60) == u32_at(b, 60));
    assert(u32_at(x.st.spec_bytes(), 64) == u32_at(b, 64));
    assert(u32_at(x.st.spec_bytes(), 68) == u32_at(b, 68));
    assert(u32_at(x.st.spec_bytes(), 72) == u32_at(b, 72));
    assert(u32_at(x.st.spec_bytes(), 76) == u32_at(b, 76));
}

/// Where the fields of `fuse_getxattr_out` stand.
pub proof fn lemma_fuse_getxattr_out_is_written(x: fuse_getxattr_out)
    ensures
        x.spec_bytes().len() == 8,
        u32_at(x.spec_bytes(), 0) == x.size,
        u32_at(x.spec_bytes(), 4) == x.padding,
{
    broadcast use {group_fields, group_lengths};

    let b = x.spec_bytes();
    let t = u32_bytes(x.size) + (u32_bytes(x.padding) + Seq::<u8>::empty());
    assert(b =~= t);
    assert(b.skip(0) =~= b);
    assert(holds_from(b, 0, t));
}

/// Where the fields of `fuse_lk_out` stand.
pub proof fn lemma_fuse_lk_out_is_written(x: fuse_lk_out)
    ensures
        x.spec_bytes().len() == 24,
        x.spec_bytes().subrange(0, 24) == x.lk.spec_bytes(),
        u64_at(x.spec_bytes(), 0) == x.lk.start,
        u64_at(x.spec_bytes(), 8) == x.lk.end,
        i32_at(x.spec_bytes(), 16) == x.lk.typ,
        u32_at(x.spec_bytes(), 20) == x.lk.pid,
{
    broadcast use {group_fields, group_lengths};

    lemma_fuse_file_lock_is_written(x.lk);
    let b = x.spec_bytes();
    let t = x.lk.spec_bytes() + Seq::<u8>::empty();
    assert(b =~= t);
    assert(b.skip(0) =~= b);
    assert(holds_from(b, 0, t));
    assert(b.subrange(0, 24) =~= x.lk.spec_bytes());
    lemma_within(b, 0, x.lk.spec_bytes());
    assert(u64_at(x.lk.spec_bytes(), 0) == u64_at(b, 0));
    assert(u64_at(x.lk.spec_bytes(), 8) == u64_at(b, 8));
    assert(i32_at(x.lk.spec_bytes(), 16) == i32_at(b, 16));
    assert(u32_at(x.lk.spec_bytes(), 20) == u32_at(b, 20));
}

/// Where the fields of `fuse_init_out` stand.
pub proof fn lemma_fuse_init_out_is_written(x: fuse_init_out)
    ensures
        x.spec_bytes().len() == 64,
        u32_at(x.spec_bytes(), 0) == x.major,
        u32_at(x.spec_bytes(), 4) == x.minor,
        u32_at(x.spec_bytes(), 8) == x.max_readahead,
        u32_at(x.spec_bytes(), 12) == x.flags,
        x.spec_bytes()[16] + x.spec_bytes()[17] * 256 == x.max_background,
        x.spec_bytes()[18] + x.spec_bytes()[19] * 256 == x.congestion_threshold,
        u32_at(x.spec_bytes(), 20) == x.max_write,
        u32_at(x.spec_bytes(), 24) == x.time_gran,
        x.spec_bytes()[28] + x.spec_bytes()[29] * 256 == x.max_pages,
        x.spec_bytes()[30] + x.spec_bytes()[31] * 256 == x.unused2,
        u32_at(x.spec_bytes(), 32) == x.flags2,
        u32_at(x.spec_bytes(), 36) == x.max_stack_depth,
        u32_at(x.spec_bytes(), 40) == x.reserved[0],
        u32_at(x.spec_bytes(), 44) == x.reserved[1],
        u32_at(x.spec_bytes(), 48) == x.reserved[2],
        u32_at(x.spec_bytes(), 52) == x.reserved[3],
        u32_at(x.spec_bytes(), 56) == x.reserved[4],
        u32_at(x.spec_bytes(), 60) == x.reserved[5],
{
    broadcast use {group_fields, group_lengths};

    let b = x.spec_bytes();
    let t = u32_bytes(x.major) + (u32_bytes(x.minor) + (u32_bytes(x.max_readahead)
        + (u32_bytes(x.flags) + (u16_bytes(x.max_background) + (u16_bytes(x.congestion_threshold)
        + (u32_bytes(x.max_write) + (u32_bytes(x.time_gran) + (u16_bytes(x.max_pages)
        + (u16_bytes(x.unused2) + (u32_bytes(x.flags2) + (u32_bytes(x.max_stack_depth)
        + (u32_bytes(x.reserved[0]) + (u32_bytes(x.reserved[1]) + (u32_bytes(x.reserved[2])
        + (u32_bytes(x.reserved[3]) + (u32_bytes(x.reserved[4]) + (u32_bytes(x.reserved[5])
        + Seq::<u8>::empty())))))))))))))))));
    assert(b =~= t);
    assert(b.skip(0) =~= b);
    assert(holds_from(b, 0, t));
    lemma_u16_stands(b, 16, x.max_background, u16_bytes(x.congestion_threshold)
        + (u32_bytes(x.max_write) + (u32_bytes(x.time_gran) + (u16_bytes(x.max_pages)
        + (u16_bytes(x.unused2) + (u32_bytes(x.flags2) + (u32_bytes(x.max_stack_depth)
        + (u32_bytes(x.reserved[0]) + (u32_bytes(x.reserved[1]) + (u32_bytes(x.reserved[2])
        + (u32_bytes(x.reserved[3]) + (u32_bytes(x.reserved[4]) + (u32_bytes(x.reserved[5])
        + Seq::<u8>::empty())))))))))))));
    lemma_u16_stands(b, 18, x.congestion_threshold, u32_bytes(x.max_write) + (u32_bytes(x.time_gran)
        + (u16_bytes(x.max_pages) + (u16_bytes(x.unused2) + (u32_bytes(x.flags2)
        + (u32_bytes(x.max_stack_depth) + (u32_bytes(x.reserved[0]) + (u32_bytes(x.reserved[1])
        + (u32_bytes(x.reserved[2]) + (u32_bytes(x.reserved[3]) + (u32_bytes(x.reserved[4])
        + (u32_bytes(x.reserved[5]) + Seq::<u8>::empty()))))))))))));
    lemma_u16_stands(b, 28, x.max_pages, u16_bytes(x.unused2) + (u32_bytes(x.flags2)
        + (u32_bytes(x.max_stack_depth) + (u32_bytes(x.reserved[0]) + (u32_bytes(x.reserved[1])
        + (u32_bytes(x.reserved[2]) + (u32_bytes(x.reserved[3]) + (u32_bytes(x.reserved[4])
        + (u32_bytes(x.reserved[5]) + Seq::<u8>::empty())))))))));
    lemma_u16_stands(b, 30, x.unused2, u32_bytes(x.flags2) + (u32_bytes(x.max_stack_depth)
        + (u32_bytes(x.reserved[0]) + (u32_bytes(x.reserved[1]) + (u32_bytes(x.reserved[2])
        + (u32_bytes(x.reserved[3]) + (u32_bytes(x.reserved[4]) + (u32_bytes(x.reserved[5])
        + Seq::<u8>::empty()))))))));
}

/// Where the fields of `fuse_bmap_out` stand.
pub proof fn lemma_fuse_bmap_out_is_written(x: fuse_bmap_out)
    ensures
        x.spec_bytes().len() == 8,
        u64_at(x.spec_bytes(), 0) == x.block,
{
    broadcast use {group_fields, group_lengths};

    let b = x.spec_bytes();
    let t = u64_bytes(x.block) + Seq::<u8>::empty();
    assert(b =~= t);
    assert(b.skip(0) =~= b);
    assert(holds_from(b, 0, t));
}

/// Where the fields of `fuse_ioctl_out` stand.
pub proof fn lemma_fuse_ioctl_out_is_written(x: fuse_ioctl_out)
    ensures
        x.spec_bytes().len() == 16,
        i32_at(x.spec_bytes(), 0) == x.result,
        u32_at(x.spec_bytes(), 4) == x.flags,
        u32_at(x.spec_bytes(), 8) == x.in_iovs,
        u32_at(x.spec_bytes(), 12) == x.out_iovs,
{
    broadcast use {group_fields, group_lengths};

    let b = x.spec_bytes();
    let t = i32_bytes(x.result) + (u32_bytes(x.flags) + (u32_bytes(x.in_iovs)
        + (u32_bytes(x.out_iovs) + Seq::<u8>::empty())));
    assert(b =~= t);
    assert(b.skip(0) =~= b);
    assert(holds_from(b, 0, t));
}

/// Where the fields of `fuse_poll_out` stand.
pub proof fn lemma_fuse_poll_out_is_written(x: fuse_poll_out)
    ensures
        x.spec_bytes().len() == 8,
        u32_at(x.spec_bytes(), 0) == x.revents,
        u32_at(x.spec_bytes(), 4) == x.padding,
{
    broadcast use {group_fields, group_lengths};

    let b = x.spec_bytes();
    let t = u32_bytes(x.revents) + (u32_bytes(x.padding) + Seq::<u8>::empty());
    assert(b =~= t);
    assert(b.skip(0) =~= b);
    assert(holds_from(b, 0, t));
}

/// Where the fields of `fuse_notify_poll_wakeup_out` stand.
pub proof fn lemma_fuse_notify_poll_wakeup_out_is_written(x: fuse_notify_poll_wakeup_out)
    ensures
        x.spec_bytes().len() == 8,
        u64_at(x.spec_bytes(), 0) == x.kh,
{
    broadcast use {group_fields, group_lengths};

    let b = x.spec_bytes();
    let t = u64_bytes(x.kh) + Seq::<u8>::empty();
    assert(b =~= t);
    assert(b.skip(0) =~= b);
    assert(holds_from(b, 0, t));
}

/// Where the fields of `fuse_lseek_out` stand.
pub proof fn lemma_fuse_lseek_out_is_written(x: fuse_lseek_out)
    ensures
        x.spec_bytes().len() == 8,
        i64_at(x.spec_bytes(), 0) == x.offset,
{
    broadcast use {group_fields, group_lengths};

    let b = x.spec_bytes();
    let t = i64_bytes(x.offset) + Seq::<u8>::empty();
    assert(b =~= t);
    assert(b.skip(0) =~= b);
    assert(holds_from(b, 0, t));
}

/// Where the fields of `fuse_dirent` stand.
pub proof fn lemma_fuse_dirent_is_written(x: fuse_dirent)
    ensures
        x.spec_bytes().len() == 24,
        u64_at(x.spec_bytes(), 0) == x.ino,
        u64_at(x.spec_bytes(), 8) == x.off,
        u32_at(x.spec_bytes(), 16) == x.namelen,
        u32_at(x.spec_bytes(), 20) == x.typ,
{
    broadcast use {group_fields, group_lengths};

    let b = x.spec_bytes();
    let t = u64_bytes(x.ino) + (u64_bytes(x.off) + (u32_bytes(x.namelen) + (u32_bytes(x.typ)
        + Seq::<u8>::empty())));
    assert(b =~= t);
    assert(b.skip(0) =~= b);
    assert(holds_from(b, 0, t));
}

/// Where the fields of `fuse_direntplus` stand.
pub proof fn lemma_fuse_direntplus_is_written(x: fuse_direntplus)
    ensures
        x.spec_bytes().len() == 152,
        x.spec_bytes().subrange(0, 128) == x.entry_out.spec_bytes(),
        u64_at(x.spec_bytes(), 0) == x.entry_out.nodeid,
        u64_at(x.spec_bytes(), 8) == x.entry_out.generation,
        u64_at(x.spec_bytes(), 16) == x.entry_out.entry_valid,
        u64_at(x.spec_bytes(), 24) == x.entry_out.attr_valid,
        u32_at(x.spec_bytes(), 32) == x.entry_out.entry_valid_nsec,
        u32_at(x.spec_bytes(), 36) == x.entry_out.attr_valid_nsec,
        u64_at(x.spec_bytes(), 40) == x.entry_out.attr.ino,
        u64_at(x.spec_bytes(), 48) == x.entry_out.attr.size,
        u64_at(x.spec_bytes(), 56) == x.entry_out.attr.blocks,
        i64_at(x.spec_bytes(), 64) == x.entry_out.attr.atime,
        i64_at(x.spec_bytes(), 72) == x.entry_out.attr.mtime,
        i64_at(x.spec_bytes(), 80) == x.entry_out.attr.ctime,
        u32_at(x.spec_bytes(), 88) == x.entry_out.attr.atimensec,
        u32_at(x.spec_bytes(), 92) == x.entry_out.attr.mtimensec,
        u32_at(x.spec_bytes(), 96) == x.entry_out.attr.ctimensec,
        u32_at(x.spec_bytes(), 100) == x.entry_out.attr.mode,
        u32_at(x.spec_bytes(), 104) == x.entry_out.attr.nlink,
        u32_at(x.spec_bytes(), 108) == x.entry_out.attr.uid,
        u32_at(x.spec_bytes(), 112) == x.entry_out.attr.gid,
        u32_at(x.spec_bytes(), 116) == x.entry_out.attr.rdev,
        u32_at(x.spec_bytes(), 120) == x.entry_out.attr.blksize,
        u32_at(x.spec_bytes(), 124) == x.entry_out.attr.padding,
        x.spec_bytes().subrange(128, 152) == x.dirent.spec_bytes(),
        u64_at(x.spec_bytes(), 128) == x.dirent.ino,
        u64_at(x.spec_bytes(), 136) == x.dirent.off,
        u32_at(x.spec_bytes(), 144) == x.dirent.namelen,
        u32_at(x.spec_bytes(), 148) == x.dirent.typ,
{
    broadcast use {group_fields, group_lengths};

    lemma_fuse_entry_out_is_written(x.entry_out);
    lemma_fuse_dirent_is_written(x.dirent);
    let b = x.spec_bytes();
    let t = x.entry_out.spec_bytes() + (x.dirent.spec_bytes() + Seq::<u8>::empty());
    assert(b =~= t);
    assert(b.skip(0) =~= b);
    assert(holds_from(b, 0, t));
    assert(b.subrange(0, 128) =~= x.entry_out.spec_bytes());
    lemma_within(b, 0, x.entry_out.spec_bytes());
    assert(u64_at(x.entry_out.spec_bytes(), 0) == u64_at(b, 0));
    assert(u64_at(x.entry_out.spec_bytes(), 8) == u64_at(b, 8));
    assert(u64_at(x.entry_out.spec_bytes(), 16) == u64_at(b, 16));
    assert(u64_at(x.entry_out.spec_bytes(), 24) == u64_at(b, 24));
    assert(u32_at(x.entry_out.spec_bytes(), 32) == u32_at(b, 32));
    assert(u32_at(x.entry_out.spec_bytes(), 36) == u32_at(b, 36));
    assert(u64_at(x.entry_out.spec_bytes(), 40) == u64_at(b, 40));
    assert(u64_at(x.entry_out.spec_bytes(), 48) == u64_at(b, 48));
    assert(u64_at(x.entry_out.spec_bytes(), 56) == u64_at(b, 56));
    assert(i64_at(x.entry_out.spec_bytes(), 64) == i64_at(b, 64));
    assert(i64_at(x.entry_out.spec_bytes(), 72) == i64_at(b, 72));
    assert(i64_at(x.entry_out.spec_bytes(), 80) == i64_at(b, 80));
    assert(u32_at(x.entry_out.spec_bytes(), 88) == u32_at(b, 88));
    assert(u32_at(x.entry_out.spec_bytes(), 92) == u32_at(b, 92));
    assert(u32_at(x.entry_out.spec_bytes(), 96) == u32_at(b, 96));
    assert(u32_at(x.entry_out.spec_bytes(), 100) == u32_at(b, 100));
    assert(u32_at(x.entry_out.spec_bytes(), 104) == u32_at(b, 104));
    assert(u32_at(x.entry_out.spec_bytes(), 108) == u32_at(b, 108));
    assert(u32_at(x.entry_out.spec_bytes(), 112) == u32_at(b, 112));
    assert(u32_at(x.entry_out.spec_bytes(), 116) == u32_at(b, 116));
    assert(u32_at(x.entry_out.spec_bytes(), 120) == u32_at(b, 120));
    assert(u32_at(x.entry_out.spec_bytes(), 124) == u32_at(b, 124));
    assert(b.subrange(128, 152) =~= x.dirent.spec_bytes());
    lemma_within(b, 128, x.dirent.spec_bytes());
    assert(u64_at(x.dirent.spec_bytes(), 0) == u64_at(b, 128));
    assert(u64_at(x.dirent.spec_bytes(), 8) == u64_at(b, 136));
    assert(u32_at(x.dirent.spec_bytes(), 16) == u32_at(b, 144));
    assert(u32_at(x.dirent.spec_bytes(), 20) == u32_at(b, 148));
}

/// Where the fields of `fuse_notify_inval_inode_out` stand.
pub proof fn lemma_fuse_notify_inval_inode_out_is_written(x: fuse_notify_inval_inode_out)
    ensures
        x.spec_bytes().len() == 24,
        u64_at(x.spec_bytes(), 0) == x.ino,
        i64_at(x.spec_bytes(), 8) == x.off,
        i64_at(x.spec_bytes(), 16) == x.len,
{
    broadcast use {group_fields, group_lengths};

    let b = x.spec_bytes();
    let t = u64_bytes(x.ino) + (i64_bytes(x.off) + (i64_bytes(x.len) + Seq::<u8>::empty()));
    assert(b =~= t);
    assert(b.skip(0) =~= b);
    assert(holds_from(b, 0, t));
}

/// Where the fields of `fuse_notify_inval_entry_out` stand.
pub proof fn lemma_fuse_notify_inval_entry_out_is_written(x: fuse_notify_inval_entry_out)
    ensures
        x.spec_bytes().len() == 16,
        u64_at(x.spec_bytes(), 0) == x.parent,
        u32_at(x.spec_bytes(), 8) == x.namelen,
        u32_at(x.spec_bytes(), 12) == x.padding,
{
    broadcast use {group_fields, group_lengths};

    let b = x.spec_bytes();
    let t = u64_bytes(x.parent) + (u32_bytes(x.namelen) + (u32_bytes(x.padding)
        + Seq::<u8>::empty()));
    assert(b =~= t);
    assert(b.skip(0) =~= b);
    assert(holds_from(b, 0, t));
}

/// Where the fields of `fuse_notify_delete_out` stand.
pub proof fn lemma_fuse_notify_delete_out_is_written(x: fuse_notify_delete_out)
    ensures
        x.spec_bytes().len() == 24,
        u64_at(x.spec_bytes(), 0) == x.parent,
        u64_at(x.spec_bytes(), 8) == x.child,
        u32_at(x.spec_bytes(), 16) == x.namelen,
        u32_at(x.spec_bytes(), 20) == x.padding,
{
    broadcast use {group_fields, group_lengths};

    let b = x.spec_bytes();
    let t = u64_bytes(x.parent) + (u64_bytes(x.child) + (u32_bytes(x.namelen)
        + (u32_bytes(x.padding) + Seq::<u8>::empty())));
    assert(b =~= t);
    assert(b.skip(0) =~= b);
    assert(holds_from(b, 0, t));
}

/// Where the fields of `fuse_notify_store_out` stand.
pub proof fn lemma_fuse_notify_store_out_is_written(x: fuse_notify_store_out)
    ensures
        x.spec_bytes().len() == 24,
        u64_at(x.spec_bytes(), 0) == x.nodeid,
        u64_at(x.spec_bytes(), 8) == x.offset,
        u32_at(x.spec_bytes(), 16) == x.size,
        u32_at(x.spec_bytes(), 20) == x.padding,
{
    broadcast use {group_fields, group_lengths};

    let b = x.spec_bytes();
    let t = u64_bytes(x.nodeid) + (u64_bytes(x.offset) + (u32_bytes(x.size) + (u32_bytes(x.padding)
        + Seq::<u8>::empty())));
    assert(b =~= t);
    assert(b.skip(0) =~= b);
    assert(holds_from(b, 0, t));
}

/// Whether `name` stands in `s` from `start` on, with the first zero byte behind it.
pub open spec fn name_stands(s: Seq<u8>, start: int, name: Seq<u8>) -> bool {
    let end = start + name.len();
    &&& 0 <= start && end < s.len()
    &&& s[end] == 0
    &&& forall|k: int| 0 <= k < name.len() ==> s[start + k] == name[k] && name[k] != 0
}

/// What is found as a name stands there, and what follows begins behind its zero byte.
proof fn lemma_name_stands(s: Seq<u8>, start: int)
    requires
        0 <= start <= s.len(),
    ensures
        match name_at(s.skip(start)) {
            Some((name, rest)) => name_stands(s, start, name) && rest == s.skip(
                start + name.len() + 1,
            ),
            None => forall|k: int| start <= k < s.len() ==> s[k] != 0,
        },
{
    let t = s.skip(start);
    if exists|n: int| ends_at(t, n) {
        let n = choose|n: int| ends_at(t, n);
        lemma_name_at(t, n);
        assert((name_at(t)->0).1 =~= s.skip(start + n + 1));
        assert forall|k: int| 0 <= k < n implies s[start + k] == t.take(n)[k]
            && t.take(n)[k] != 0 by {
            assert(t[k] == s[start + k]);
        }
    } else {
        assert forall|k: int| start <= k < s.len() implies s[k] != 0 by {
            if s[k] == 0 {
                lemma_first_zero(t, k - start);
            }
        }
    }
}

/// Where there is a zero byte there is a first one.
proof fn lemma_first_zero(s: Seq<u8>, k: int)
    requires
        0 <= k < s.len(),
        s[k] == 0,
    ensures
        exists|n: int| ends_at(s, n),
    decreases k,
{
    if exists|j: int| 0 <= j < k && s[j] == 0 {
        let j = choose|j: int| 0 <= j < k && s[j] == 0;
        lemma_first_zero(s, j);
    } else {
        assert(ends_at(s, k));
    }
}

/// What comes of the arguments `s` of operation 1.
#[verifier::spinoff_prover]
proof fn lemma_operation_1(code: fuse_opcode, s: Seq<u8>, r: Option<Operation>)
    requires
        code.spec_number() == 1,
        parses(code, s, r),
    ensures
        r matches Some(op) ==> {
            &&& op matches Operation::Lookup(x)
            &&& s.len() >= 0
            &&& name_stands(s, 0, x.name@)
        },
        r is None <==> (s.len() < 0 || forall|k: int| 0 <= k < s.len() ==> s[k] != 0),
{
    lemma_opcode_numbers(code);
    if s.len() >= 0 {
        assert(s.skip(0) =~= s);
        lemma_name_stands(s, 0);
    }
}

/// What comes of the arguments `s` of operation 2.
#[verifier::spinoff_prover]
proof fn lemma_operation_2(code: fuse_opcode, s: Seq<u8>, r: Option<Operation>)
    requires
        code.spec_number() == 2,
        parses(code, s, r),
    ensures
        r matches Some(op) ==> {
            &&& op matches Operation::Forget(x)
            &&& s.len() >= 8
            &&& x.arg.nlookup == u64_at(s, 0)
        },
        r is None <==> s.len() < 8,
{
    lemma_opcode_numbers(code);
    lemma_fuse_forget_in_is_read(s);
}

/// What comes of the arguments `s` of operation 3.
#[verifier::spinoff_prover]
proof fn lemma_operation_3(code: fuse_opcode, s: Seq<u8>, r: Option<Operation>)
    requires
        code.spec_number() == 3,
        parses(code, s, r),
    ensures
        r matches Some(op) && op is GetAttr,
{
    lemma_opcode_numbers(code);
}

/// What comes of the arguments `s` of operation 4.
#[verifier::spinoff_prover]
proof fn lemma_operation_4(code: fuse_opcode, s: Seq<u8>, r: Option<Operation>)
    requires
        code.spec_number() == 4,
        parses(code, s, r),
    ensures
        r matches Some(op) ==> {
            &&& op matches Operation::SetAttr(x)
            &&& s.len() >= 88
            &&& x.arg.valid == u32_at(s, 0)
            &&& x.arg.padding == u32_at(s, 4)
            &&& x.arg.fh == u64_at(s, 8)
            &&& x.arg.size == u64_at(s, 16)
            &&& x.arg.lock_owner == u64_at(s, 24)
            &&& x.arg.atime == i64_at(s, 32)
            &&& x.arg.mtime == i64_at(s, 40)
            &&& x.arg.ctime == i64_at(s, 48)
            &&& x.arg.atimensec == u32_at(s, 56)
            &&& x.arg.mtimensec == u32_at(s, 60)
            &&& x.arg.ctimensec == u32_at(s, 64)
            &&& x.arg.mode == u32_at(s, 68)
            &&& x.arg.unused4 == u32_at(s, 72)
            &&& x.arg.uid == u32_at(s, 76)
            &&& x.arg.gid == u32_at(s, 80)
            &&& x.arg.unused5 == u32_at(s, 84)
        },
        r is None <==> s.len() < 88,
{
    lemma_opcode_numbers(code);
    lemma_fuse_setattr_in_is_read(s);
}

/// What comes of the arguments `s` of operation 5.
#[verifier::spinoff_prover]
proof fn lemma_operation_5(code: fuse_opcode, s: Seq<u8>, r: Option<Operation>)
    requires
        code.spec_number() == 5,
        parses(code, s, r),
    ensures
        r matches Some(op) && op is ReadLink,
{
    lemma_opcode_numbers(code);
}

/// What comes of the arguments `s` of operation 6.
#[verifier::spinoff_prover]
proof fn lemma_operation_6(code: fuse_opcode, s: Seq<u8>, r: Option<Operation>)
    requires
        code.spec_number() == 6,
        parses(code, s, r),
    ensures
        r matches Some(op) ==> {
            &&& op matches Operation::SymLink(x)
            &&& s.len() >= 0
            &&& name_stands(s, 0, x.name@)
            &&& name_stands(s, x.name@.len() + 1int, x.link@)
        },
        r is None <==> (s.len() < 0 || forall|j: int, k: int| 0 <= j < k < s.len() ==> s[j] != 0
            || s[k] != 0),
{
    lemma_opcode_numbers(code);
    if s.len() >= 0 {
        assert(s.skip(0) =~= s);
        lemma_name_stands(s, 0);
        if let Some((first, rest)) = name_at(s.skip(0)) {
            lemma_name_stands(s, 0 + first.len() + 1int);
            assert forall|j: int| 0 <= j < 0 + first.len() implies s[j] != 0 by {
                assert(s[0 + (j - 0)] == first[j - 0]);
            }
            assert(s[0 + first.len() as int] == 0);
        }
    }
}

/// What comes of the arguments `s` of operation 8.
#[verifier::spinoff_prover]
proof fn lemma_operation_8(code: fuse_opcode, s: Seq<u8>, r: Option<Operation>)
    requires
        code.spec_number() == 8,
        parses(code, s, r),
    ensures
        r matches Some(op) ==> {
            &&& op matches Operation::MkNod(x)
            &&& s.len() >= 16
            &&& x.arg.mode == u32_at(s, 0)
            &&& x.arg.rdev == u32_at(s, 4)
            &&& x.arg.umask == u32_at(s, 8)
            &&& x.arg.padding == u32_at(s, 12)
            &&& name_stands(s, 16, x.name@)
        },
        r is None <==> (s.len() < 16 || forall|k: int| 16 <= k < s.len() ==> s[k] != 0),
{
    lemma_opcode_numbers(code);
    lemma_fuse_mknod_in_is_read(s);
    if s.len() >= 16 {
        assert(s.skip(0) =~= s);
        lemma_name_stands(s, 16);
    }
}

/// What comes of the arguments `s` of operation 9.
#[verifier::spinoff_prover]
proof fn lemma_operation_9(code: fuse_opcode, s: Seq<u8>, r: Option<Operation>)
    requires
        code.spec_number() == 9,
        parses(code, s, r),
    ensures
        r matches Some(op) ==> {
            &&& op matches Operation::MkDir(x)
            &&& s.len() >= 8
            &&& x.arg.mode == u32_at(s, 0)
            &&& x.arg.umask == u32_at(s, 4)
            &&& name_stands(s, 8, x.name@)
        },
        r is None <==> (s.len() < 8 || forall|k: int| 8 <= k < s.len() ==> s[k] != 0),
{
    lemma_opcode_numbers(code);
    lemma_fuse_mkdir_in_is_read(s);
    if s.len() >= 8 {
        assert(s.skip(0) =~= s);
        lemma_name_stands(s, 8);
    }
}

/// What comes of the arguments `s` of operation 10.
#[verifier::spinoff_prover]
proof fn lemma_operation_10(code: fuse_opcode, s: Seq<u8>, r: Option<Operation>)
    requires
        code.spec_number() == 10,
        parses(code, s, r),
    ensures
        r matches Some(op) ==> {
            &&& op matches Operation::Unlink(x)
            &&& s.len() >= 0
            &&& name_stands(s, 0, x.name@)
        },
        r is None <==> (s.len() < 0 || forall|k: int| 0 <= k < s.len() ==> s[k] != 0),
{
    lemma_opcode_numbers(code);
    if s.len() >= 0 {
        assert(s.skip(0) =~= s);
        lemma_name_stands(s, 0);
    }
}

/// What comes of the arguments `s` of operation 11.
#[verifier::spinoff_prover]
proof fn lemma_operation_11(code: fuse_opcode, s: Seq<u8>, r: Option<Operation>)
    requires
        code.spec_number() == 11,
        parses(code, s, r),
    ensures
        r matches Some(op) ==> {
            &&& op matches Operation::RmDir(x)
            &&& s.len() >= 0
            &&& name_stands(s, 0, x.name@)
        },
        r is None <==> (s.len() < 0 || forall|k: int| 0 <= k < s.len() ==> s[k] != 0),
{
    lemma_opcode_numbers(code);
    if s.len() >= 0 {
        assert(s.skip(0) =~= s);
        lemma_name_stands(s, 0);
    }
}

/// What comes of the arguments `s` of operation 12.
#[verifier::spinoff_prover]
proof fn lemma_operation_12(code: fuse_opcode, s: Seq<u8>, r: Option<Operation>)
    requires
        code.spec_number() == 12,
        parses(code, s, r),
    ensures
        r matches Some(op) ==> {
            &&& op matches Operation::Rename(x)
            &&& s.len() >= 8
            &&& x.arg.newdir == u64_at(s, 0)
            &&& name_stands(s, 8, x.name@)
            &&& name_stands(s, 8 + x.name@.len() + 1int, x.newname@)
        },
        r is None <==> (s.len() < 8 || forall|j: int, k: int| 8 <= j < k < s.len() ==> s[j] != 0
            || s[k] != 0),
{
    lemma_opcode_numbers(code);
    lemma_fuse_rename_in_is_read(s);
    if s.len() >= 8 {
        assert(s.skip(0) =~= s);
        lemma_name_stands(s, 8);
        if let Some((first, rest)) = name_at(s.skip(8)) {
            lemma_name_stands(s, 8 + first.len() + 1int);
            assert forall|j: int| 8 <= j < 8 + first.len() implies s[j] != 0 by {
                assert(s[8 + (j - 8)] == first[j - 8]);
            }
            assert(s[8 + first.len() as int] == 0);
        }
    }
}

/// What comes of the arguments `s` of operation 13.
#[verifier::spinoff_prover]
proof fn lemma_operation_13(code: fuse_opcode, s: Seq<u8>, r: Option<Operation>)
    requires
        code.spec_number() == 13,
        parses(code, s, r),
    ensures
        r matches Some(op) ==> {
            &&& op matches Operation::Link(x)
            &&& s.len() >= 8
            &&& x.arg.oldnodeid == u64_at(s, 0)
            &&& name_stands(s, 8, x.name@)
        },
        r is None <==> (s.len() < 8 || forall|k: int| 8 <= k < s.len() ==> s[k] != 0),
{
    lemma_opcode_numbers(code);
    lemma_fuse_link_in_is_read(s);
    if s.len() >= 8 {
        assert(s.skip(0) =~= s);
        lemma_name_stands(s, 8);
    }
}

/// What comes of the arguments `s` of operation 14.
#[verifier::spinoff_prover]
proof fn lemma_operation_14(code: fuse_opcode, s: Seq<u8>, r: Option<Operation>)
    requires
        code.spec_number() == 14,
        parses(code, s, r),
    ensures
        r matches Some(op) ==> {
            &&& op matches Operation::Open(x)
            &&& s.len() >= 8
            &&& x.arg.flags == i32_at(s, 0)
            &&& x.arg.unused == u32_at(s, 4)
        },
        r is None <==> s.len() < 8,
{
    lemma_opcode_numbers(code);
    lemma_fuse_open_in_is_read(s);
}

/// What comes of the arguments `s` of operation 15.
#[verifier::spinoff_prover]
proof fn lemma_operation_15(code: fuse_opcode, s: Seq<u8>, r: Option<Operation>)
    requires
        code.spec_number() == 15,
        parses(code, s, r),
    ensures
        r matches Some(op) ==> {
            &&& op matches Operation::Read(x)
            &&& s.len() >= 40
            &&& x.arg.fh == u64_at(s, 0)
            &&& x.arg.offset == u64_at(s, 8)
            &&& x.arg.size == u32_at(s, 16)
            &&& x.arg.read_flags == u32_at(s, 20)
            &&& x.arg.lock_owner == u64_at(s, 24)
            &&& x.arg.flags == u32_at(s, 32)
            &&& x.arg.padding == u32_at(s, 36)
        },
        r is None <==> s.len() < 40,
{
    lemma_opcode_numbers(code);
    lemma_fuse_read_in_is_read(s);
}

/// What comes of the arguments `s` of operation 16.
#[verifier::spinoff_prover]
proof fn lemma_operation_16(code: fuse_opcode, s: Seq<u8>, r: Option<Operation>)
    requires
        code.spec_number() == 16,
        parses(code, s, r),
    ensures
        r matches Some(op) ==> {
            &&& op matches Operation::Write(x)
            &&& s.len() >= 40
            &&& x.arg.fh == u64_at(s, 0)
            &&& x.arg.offset == i64_at(s, 8)
            &&& x.arg.size == u32_at(s, 16)
            &&& x.arg.write_flags == u32_at(s, 20)
            &&& x.arg.lock_owner == u64_at(s, 24)
            &&& x.arg.flags == i32_at(s, 32)
            &&& x.arg.padding == u32_at(s, 36)
            &&& x.data@ == s.skip(40)
        },
        r is None <==> s.len() < 40,
{
    lemma_opcode_numbers(code);
    lemma_fuse_write_in_is_read(s);
}

/// What comes of the arguments `s` of operation 17.
#[verifier::spinoff_prover]
proof fn lemma_operation_17(code: fuse_opcode, s: Seq<u8>, r: Option<Operation>)
    requires
        code.spec_number() == 17,
        parses(code, s, r),
    ensures
        r matches Some(op) && op is StatFs,
{
    lemma_opcode_numbers(code);
}

/// What comes of the arguments `s` of operation 18.
#[verifier::spinoff_prover]
proof fn lemma_operation_18(code: fuse_opcode, s: Seq<u8>, r: Option<Operation>)
    requires
        code.spec_number() == 18,
        parses(code, s, r),
    ensures
        r matches Some(op) ==> {
            &&& op matches Operation::Release(x)
            &&& s.len() >= 24
            &&& x.arg.fh == u64_at(s, 0)
            &&& x.arg.flags == i32_at(s, 8)
            &&& x.arg.release_flags == u32_at(s, 12)
            &&& x.arg.lock_owner == u64_at(s, 16)
        },
        r is None <==> s.len() < 24,
{
    lemma_opcode_numbers(code);
    lemma_fuse_release_in_is_read(s);
}

/// What comes of the arguments `s` of operation 20.
#[verifier::spinoff_prover]
proof fn lemma_operation_20(code: fuse_opcode, s: Seq<u8>, r: Option<Operation>)
    requires
        code.spec_number() == 20,
        parses(code, s, r),
    ensures
        r matches Some(op) ==> {
            &&& op matches Operation::FSync(x)
            &&& s.len() >= 16
            &&& x.arg.fh == u64_at(s, 0)
            &&& x.arg.fsync_flags == u32_at(s, 8)
            &&& x.arg.padding == u32_at(s, 12)
        },
        r is None <==> s.len() < 16,
{
    lemma_opcode_numbers(code);
    lemma_fuse_fsync_in_is_read(s);
}

/// What comes of the arguments `s` of operation 21.
#[verifier::spinoff_prover]
proof fn lemma_operation_21(code: fuse_opcode, s: Seq<u8>, r: Option<Operation>)
    requires
        code.spec_number() == 21,
        parses(code, s, r),
    ensures
        r matches Some(op) ==> {
            &&& op matches Operation::SetXAttr(x)
            &&& s.len() >= 8
            &&& x.arg.size == u32_at(s, 0)
            &&& x.arg.flags == i32_at(s, 4)
            &&& name_stands(s, 8, x.name@)
            &&& x.value@ == s.skip(8 + x.name@.len() + 1int)
        },
        r is None <==> (s.len() < 8 || forall|k: int| 8 <= k < s.len() ==> s[k] != 0),
{
    lemma_opcode_numbers(code);
    lemma_fuse_setxattr_in_is_read(s);
    if s.len() >= 8 {
        assert(s.skip(0) =~= s);
        lemma_name_stands(s, 8);
    }
}

/// What comes of the arguments `s` of operation 22.
#[verifier::spinoff_prover]
proof fn lemma_operation_22(code: fuse_opcode, s: Seq<u8>, r: Option<Operation>)
    requires
        code.spec_number() == 22,
        parses(code, s, r),
    ensures
        r matches Some(op) ==> {
            &&& op matches Operation::GetXAttr(x)
            &&& s.len() >= 8
            &&& x.arg.size == u32_at(s, 0)
            &&& x.arg.padding == u32_at(s, 4)
            &&& name_stands(s, 8, x.name@)
        },
        r is None <==> (s.len() < 8 || forall|k: int| 8 <= k < s.len() ==> s[k] != 0),
{
    lemma_opcode_numbers(code);
    lemma_fuse_getxattr_in_is_read(s);
    if s.len() >= 8 {
        assert(s.skip(0) =~= s);
        lemma_name_stands(s, 8);
    }
}

/// What comes of the arguments `s` of operation 23.
#[verifier::spinoff_prover]
proof fn lemma_operation_23(code: fuse_opcode, s: Seq<u8>, r: Option<Operation>)
    requires
        code.spec_number() == 23,
        parses(code, s, r),
    ensures
        r matches Some(op) ==> {
            &&& op matches Operation::ListXAttr(x)
            &&& s.len() >= 8
            &&& x.arg.size == u32_at(s, 0)
            &&& x.arg.padding == u32_at(s, 4)
        },
        r is None <==> s.len() < 8,
{
    lemma_opcode_numbers(code);
    lemma_fuse_getxattr_in_is_read(s);
}

/// What comes of the arguments `s` of operation 24.
#[verifier::spinoff_prover]
proof fn lemma_operation_24(code: fuse_opcode, s: Seq<u8>, r: Option<Operation>)
    requires
        code.spec_number() == 24,
        parses(code, s, r),
    ensures
        r matches Some(op) ==> {
            &&& op matches Operation::RemoveXAttr(x)
            &&& s.len() >= 0
            &&& name_stands(s, 0, x.name@)
        },
        r is None <==> (s.len() < 0 || forall|k: int| 0 <= k < s.len() ==> s[k] != 0),
{
    lemma_opcode_numbers(code);
    if s.len() >= 0 {
        assert(s.skip(0) =~= s);
        lemma_name_stands(s, 0);
    }
}

/// What comes of the arguments `s` of operation 25.
#[verifier::spinoff_prover]
proof fn lemma_operation_25(code: fuse_opcode, s: Seq<u8>, r: Option<Operation>)
    requires
        code.spec_number() == 25,
        parses(code, s, r),
    ensures
        r matches Some(op) ==> {
            &&& op matches Operation::Flush(x)
            &&& s.len() >= 24
            &&& x.arg.fh == u64_at(s, 0)
            &&& x.arg.unused == u32_at(s, 8)
            &&& x.arg.padding == u32_at(s, 12)
            &&& x.arg.lock_owner == u64_at(s, 16)
        },
        r is None <==> s.len() < 24,
{
    lemma_opcode_numbers(code);
    lemma_fuse_flush_in_is_read(s);
}

/// What comes of the arguments `s` of operation 26.
#[verifier::spinoff_prover]
proof fn lemma_operation_26(code: fuse_opcode, s: Seq<u8>, r: Option<Operation>)
    requires
        code.spec_number() == 26,
        parses(code, s, r),
    ensures
        r matches Some(op) ==> {
            &&& op matches Operation::Init(x)
            &&& s.len() >= 16
            &&& x.arg.major == u32_at(s, 0)
            &&& x.arg.minor == u32_at(s, 4)
            &&& x.arg.max_readahead == u32_at(s, 8)
            &&& x.arg.flags == u32_at(s, 12)
            &&& s.len() >= 64 ==> x.arg.flags2 == u32_at(s, 16)
            &&& s.len() < 64 ==> x.arg.flags2 == 0
        },
        r is None <==> s.len() < 16,
{
    lemma_opcode_numbers(code);
    lemma_fuse_init_in_is_read(s);
}

/// What comes of the arguments `s` of operation 27.
#[verifier::spinoff_prover]
proof fn lemma_operation_27(code: fuse_opcode, s: Seq<u8>, r: Option<Operation>)
    requires
        code.spec_number() == 27,
        parses(code, s, r),
    ensures
        r matches Some(op) ==> {
            &&& op matches Operation::OpenDir(x)
            &&& s.len() >= 8
            &&& x.arg.flags == i32_at(s, 0)
            &&& x.arg.unused == u32_at(s, 4)
        },
        r is None <==> s.len() < 8,
{
    lemma_opcode_numbers(code);
    lemma_fuse_open_in_is_read(s);
}

/// What comes of the arguments `s` of operation 28.
#[verifier::spinoff_prover]
proof fn lemma_operation_28(code: fuse_opcode, s: Seq<u8>, r: Option<Operation>)
    requires
        code.spec_number() == 28,
        parses(code, s, r),
    ensures
        r matches Some(op) ==> {
            &&& op matches Operation::ReadDir(x)
            &&& s.len() >= 40
            &&& x.arg.fh == u64_at(s, 0)
            &&& x.arg.offset == u64_at(s, 8)
            &&& x.arg.size == u32_at(s, 16)
            &&& x.arg.read_flags == u32_at(s, 20)
            &&& x.arg.lock_owner == u64_at(s, 24)
            &&& x.arg.flags == u32_at(s, 32)
            &&& x.arg.padding == u32_at(s, 36)
        },
        r is None <==> s.len() < 40,
{
    lemma_opcode_numbers(code);
    lemma_fuse_read_in_is_read(s);
}

/// What comes of the arguments `s` of operation 29.
#[verifier::spinoff_prover]
proof fn lemma_operation_29(code: fuse_opcode, s: Seq<u8>, r: Option<Operation>)
    requires
        code.spec_number() == 29,
        parses(code, s, r),
    ensures
        r matches Some(op) ==> {
            &&& op matches Operation::ReleaseDir(x)
            &&& s.len() >= 24
            &&& x.arg.fh == u64_at(s, 0)
            &&& x.arg.flags == i32_at(s, 8)
            &&& x.arg.release_flags == u32_at(s, 12)
            &&& x.arg.lock_owner == u64_at(s, 16)
        },
        r is None <==> s.len() < 24,
{
    lemma_opcode_numbers(code);
    lemma_fuse_release_in_is_read(s);
}

/// What comes of the arguments `s` of operation 30.
#[verifier::spinoff_prover]
proof fn lemma_operation_30(code: fuse_opcode, s: Seq<u8>, r: Option<Operation>)
    requires
        code.spec_number() == 30,
        parses(code, s, r),
    ensures
        r matches Some(op) ==> {
            &&& op matches Operation::FSyncDir(x)
            &&& s.len() >= 16
            &&& x.arg.fh == u64_at(s, 0)
            &&& x.arg.fsync_flags == u32_at(s, 8)
            &&& x.arg.padding == u32_at(s, 12)
        },
        r is None <==> s.len() < 16,
{
    lemma_opcode_numbers(code);
    lemma_fuse_fsync_in_is_read(s);
}

/// What comes of the arguments `s` of operation 31.
#[verifier::spinoff_prover]
proof fn lemma_operation_31(code: fuse_opcode, s: Seq<u8>, r: Option<Operation>)
    requires
        code.spec_number() == 31,
        parses(code, s, r),
    ensures
        r matches Some(op) ==> {
            &&& op matches Operation::GetLk(x)
            &&& s.len() >= 48
            &&& x.arg.fh == u64_at(s, 0)
            &&& x.arg.owner == u64_at(s, 8)
            &&& x.arg.lk.start == u64_at(s, 16)
            &&& x.arg.lk.end == u64_at(s, 24)
            &&& x.arg.lk.typ == i32_at(s, 32)
            &&& x.arg.lk.pid == u32_at(s, 36)
            &&& x.arg.lk_flags == u32_at(s, 40)
            &&& x.arg.padding == u32_at(s, 44)
        },
        r is None <==> s.len() < 48,
{
    lemma_opcode_numbers(code);
    lemma_fuse_lk_in_is_read(s);
}

/// What comes of the arguments `s` of operation 32.
#[verifier::spinoff_prover]
proof fn lemma_operation_32(code: fuse_opcode, s: Seq<u8>, r: Option<Operation>)
    requires
        code.spec_number() == 32,
        parses(code, s, r),
    ensures
        r matches Some(op) ==> {
            &&& op matches Operation::SetLk(x)
            &&& s.len() >= 48
            &&& x.arg.fh == u64_at(s, 0)
            &&& x.arg.owner == u64_at(s, 8)
            &&& x.arg.lk.start == u64_at(s, 16)
            &&& x.arg.lk.end == u64_at(s, 24)
            &&& x.arg.lk.typ == i32_at(s, 32)
            &&& x.arg.lk.pid == u32_at(s, 36)
            &&& x.arg.lk_flags == u32_at(s, 40)
            &&& x.arg.padding == u32_at(s, 44)
        },
        r is None <==> s.len() < 48,
{
    lemma_opcode_numbers(code);
    lemma_fuse_lk_in_is_read(s);
}

/// What comes of the arguments `s` of operation 33.
#[verifier::spinoff_prover]
proof fn lemma_operation_33(code: fuse_opcode, s: Seq<u8>, r: Option<Operation>)
    requires
        code.spec_number() == 33,
        parses(code, s, r),
    ensures
        r matches Some(op) ==> {
            &&& op matches Operation::SetLkW(x)
            &&& s.len() >= 48
            &&& x.arg.fh == u64_at(s, 0)
            &&& x.arg.owner == u64_at(s, 8)
            &&& x.arg.lk.start == u64_at(s, 16)
            &&& x.arg.lk.end == u64_at(s, 24)
            &&& x.arg.lk.typ == i32_at(s, 32)
            &&& x.arg.lk.pid == u32_at(s, 36)
            &&& x.arg.lk_flags == u32_at(s, 40)
            &&& x.arg.padding == u32_at(s, 44)
        },
        r is None <==> s.len() < 48,
{
    lemma_opcode_numbers(code);
    lemma_fuse_lk_in_is_read(s);
}

/// What comes of the arguments `s` of operation 34.
#[verifier::spinoff_prover]
proof fn lemma_operation_34(code: fuse_opcode, s: Seq<u8>, r: Option<Operation>)
    requires
        code.spec_number() == 34,
        parses(code, s, r),
    ensures
        r matches Some(op) ==> {
            &&& op matches Operation::Access(x)
            &&& s.len() >= 8
            &&& x.arg.mask == i32_at(s, 0)
            &&& x.arg.padding == u32_at(s, 4)
        },
        r is None <==> s.len() < 8,
{
    lemma_opcode_numbers(code);
    lemma_fuse_access_in_is_read(s);
}

/// What comes of the arguments `s` of operation 35.
#[verifier::spinoff_prover]
proof fn lemma_operation_35(code: fuse_opcode, s: Seq<u8>, r: Option<Operation>)
    requires
        code.spec_number() == 35,
        parses(code, s, r),
    ensures
        r matches Some(op) ==> {
            &&& op matches Operation::Create(x)
            &&& s.len() >= 16
            &&& x.arg.flags == i32_at(s, 0)
            &&& x.arg.mode == u32_at(s, 4)
            &&& x.arg.umask == u32_at(s, 8)
            &&& x.arg.padding == u32_at(s, 12)
            &&& name_stands(s, 16, x.name@)
        },
        r is None <==> (s.len() < 16 || forall|k: int| 16 <= k < s.len() ==> s[k] != 0),
{
    lemma_opcode_numbers(code);
    lemma_fuse_create_in_is_read(s);
    if s.len() >= 16 {
        assert(s.skip(0) =~= s);
        lemma_name_stands(s, 16);
    }
}

/// What comes of the arguments `s` of operation 36.
#[verifier::spinoff_prover]
proof fn lemma_operation_36(code: fuse_opcode, s: Seq<u8>, r: Option<Operation>)
    requires
        code.spec_number() == 36,
        parses(code, s, r),
    ensures
        r matches Some(op) ==> {
            &&& op matches Operation::Interrupt(x)
            &&& s.len() >= 8
            &&& x.arg.unique == u64_at(s, 0)
        },
        r is None <==> s.len() < 8,
{
    lemma_opcode_numbers(code);
    lemma_fuse_interrupt_in_is_read(s);
}

/// What comes of the arguments `s` of operation 37.
#[verifier::spinoff_prover]
proof fn lemma_operation_37(code: fuse_opcode, s: Seq<u8>, r: Option<Operation>)
    requires
        code.spec_number() == 37,
        parses(code, s, r),
    ensures
        r matches Some(op) ==> {
            &&& op matches Operation::BMap(x)
            &&& s.len() >= 16
            &&& x.arg.block == u64_at(s, 0)
            &&& x.arg.blocksize == u32_at(s, 8)
            &&& x.arg.padding == u32_at(s, 12)
        },
        r is None <==> s.len() < 16,
{
    lemma_opcode_numbers(code);
    lemma_fuse_bmap_in_is_read(s);
}

/// What comes of the arguments `s` of operation 38.
#[verifier::spinoff_prover]
proof fn lemma_operation_38(code: fuse_opcode, s: Seq<u8>, r: Option<Operation>)
    requires
        code.spec_number() == 38,
        parses(code, s, r),
    ensures
        r matches Some(op) && op is Destroy,
{
    lemma_opcode_numbers(code);
}

/// What comes of the arguments `s` of operation 39.
#[verifier::spinoff_prover]
proof fn lemma_operation_39(code: fuse_opcode, s: Seq<u8>, r: Option<Operation>)
    requires
        code.spec_number() == 39,
        parses(code, s, r),
    ensures
        r matches Some(op) ==> {
            &&& op matches Operation::IoCtl(x)
            &&& s.len() >= 32
            &&& x.arg.fh == u64_at(s, 0)
            &&& x.arg.flags == u32_at(s, 8)
            &&& x.arg.cmd == u32_at(s, 12)
            &&& x.arg.arg == u64_at(s, 16)
            &&& x.arg.in_size == u32_at(s, 24)
            &&& x.arg.out_size == u32_at(s, 28)
            &&& x.data@ == s.skip(32)
        },
        r is None <==> s.len() < 32,
{
    lemma_opcode_numbers(code);
    lemma_fuse_ioctl_in_is_read(s);
}

/// What comes of the arguments `s` of operation 40.
#[verifier::spinoff_prover]
proof fn lemma_operation_40(code: fuse_opcode, s: Seq<u8>, r: Option<Operation>)
    requires
        code.spec_number() == 40,
        parses(code, s, r),
    ensures
        r matches Some(op) ==> {
            &&& op matches Operation::Poll(x)
            &&& s.len() >= 24
            &&& x.arg.fh == u64_at(s, 0)
            &&& x.arg.kh == u64_at(s, 8)
            &&& x.arg.flags == u32_at(s, 16)
            &&& x.arg.events == u32_at(s, 20)
        },
        r is None <==> s.len() < 24,
{
    lemma_opcode_numbers(code);
    lemma_fuse_poll_in_is_read(s);
}

/// What comes of the arguments `s` of operation 41.
#[verifier::spinoff_prover]
proof fn lemma_operation_41(code: fuse_opcode, s: Seq<u8>, r: Option<Operation>)
    requires
        code.spec_number() == 41,
        parses(code, s, r),
    ensures
        r matches Some(op) ==> {
            &&& op matches Operation::NotifyReply(x)
            &&& s.len() >= 0
            &&& x.data@ == s.skip(0)
        },
        r is None <==> s.len() < 0,
{
    lemma_opcode_numbers(code);
}

/// What comes of the arguments `s` of operation 42.
#[verifier::spinoff_prover]
proof fn lemma_operation_42(code: fuse_opcode, s: Seq<u8>, r: Option<Operation>)
    requires
        code.spec_number() == 42,
        parses(code, s, r),
    ensures
        r matches Some(op) ==> {
            &&& op matches Operation::BatchForget(x)
            &&& s.len() >= 8
            &&& x.arg.nlookup == u64_at(s, 0)
            &&& x.nodes@.len() == 0
        },
        r is None <==> s.len() < 8,
{
    lemma_opcode_numbers(code);
    lemma_fuse_forget_in_is_read(s);
}

/// What comes of the arguments `s` of operation 43.
#[verifier::spinoff_prover]
proof fn lemma_operation_43(code: fuse_opcode, s: Seq<u8>, r: Option<Operation>)
    requires
        code.spec_number() == 43,
        parses(code, s, r),
    ensures
        r matches Some(op) ==> {
            &&& op matches Operation::FAllocate(x)
            &&& s.len() >= 32
            &&& x.arg.fh == u64_at(s, 0)
            &&& x.arg.offset == i64_at(s, 8)
            &&& x.arg.length == i64_at(s, 16)
            &&& x.arg.mode == i32_at(s, 24)
            &&& x.arg.padding == u32_at(s, 28)
        },
        r is None <==> s.len() < 32,
{
    lemma_opcode_numbers(code);
    lemma_fuse_fallocate_in_is_read(s);
}

/// What comes of the arguments `s` of operation 44.
#[verifier::spinoff_prover]
proof fn lemma_operation_44(code: fuse_opcode, s: Seq<u8>, r: Option<Operation>)
    requires
        code.spec_number() == 44,
        parses(code, s, r),
    ensures
        r matches Some(op) ==> {
            &&& op matches Operation::ReadDirPlus(x)
            &&& s.len() >= 40
            &&& x.arg.fh == u64_at(s, 0)
            &&& x.arg.offset == u64_at(s, 8)
            &&& x.arg.size == u32_at(s, 16)
            &&& x.arg.read_flags == u32_at(s, 20)
            &&& x.arg.lock_owner == u64_at(s, 24)
            &&& x.arg.flags == u32_at(s, 32)
            &&& x.arg.padding == u32_at(s, 36)
        },
        r is None <==> s.len() < 40,
{
    lemma_opcode_numbers(code);
    lemma_fuse_read_in_is_read(s);
}

/// What comes of the arguments `s` of operation 45.
#[verifier::spinoff_prover]
proof fn lemma_operation_45(code: fuse_opcode, s: Seq<u8>, r: Option<Operation>)
    requires
        code.spec_number() == 45,
        parses(code, s, r),
    ensures
        r matches Some(op) ==> {
            &&& op matches Operation::Rename2(x)
            &&& s.len() >= 16
            &&& x.arg.newdir == u64_at(s, 0)
            &&& x.arg.flags == u32_at(s, 8)
            &&& x.arg.padding == u32_at(s, 12)
            &&& name_stands(s, 16, x.name@)
            &&& name_stands(s, 16 + x.name@.len() + 1int, x.newname@)
        },
        r is None <==> (s.len() < 16 || forall|j: int, k: int| 16 <= j < k < s.len() ==> s[j] != 0
            || s[k] != 0),
{
    lemma_opcode_numbers(code);
    lemma_fuse_rename2_in_is_read(s);
    if s.len() >= 16 {
        assert(s.skip(0) =~= s);
        lemma_name_stands(s, 16);
        if let Some((first, rest)) = name_at(s.skip(16)) {
            lemma_name_stands(s, 16 + first.len() + 1int);
            assert forall|j: int| 16 <= j < 16 + first.len() implies s[j] != 0 by {
                assert(s[16 + (j - 16)] == first[j - 16]);
            }
            assert(s[16 + first.len() as int] == 0);
        }
    }
}

/// What comes of the arguments `s` of operation 46.
#[verifier::spinoff_prover]
proof fn lemma_operation_46(code: fuse_opcode, s: Seq<u8>, r: Option<Operation>)
    requires
        code.spec_number() == 46,
        parses(code, s, r),
    ensures
        r matches Some(op) ==> {
            &&& op matches Operation::Lseek(x)
            &&& s.len() >= 24
            &&& x.arg.fh == u64_at(s, 0)
            &&& x.arg.offset == i64_at(s, 8)
            &&& x.arg.whence == i32_at(s, 16)
            &&& x.arg.padding == u32_at(s, 20)
        },
        r is None <==> s.len() < 24,
{
    lemma_opcode_numbers(code);
    lemma_fuse_lseek_in_is_read(s);
}

/// What comes of the arguments `s` of operation 47.
#[verifier::spinoff_prover]
proof fn lemma_operation_47(code: fuse_opcode, s: Seq<u8>, r: Option<Operation>)
    requires
        code.spec_number() == 47,
        parses(code, s, r),
    ensures
        r matches Some(op) ==> {
            &&& op matches Operation::CopyFileRange(x)
            &&& s.len() >= 56
            &&& x.arg.fh_in == u64_at(s, 0)
            &&& x.arg.off_in == i64_at(s, 8)
            &&& x.arg.nodeid_out == u64_at(s, 16)
            &&& x.arg.fh_out == u64_at(s, 24)
            &&& x.arg.off_out == i64_at(s, 32)
            &&& x.arg.len == u64_at(s, 40)
            &&& x.arg.flags == u64_at(s, 48)
        },
        r is None <==> s.len() < 56,
{
    lemma_opcode_numbers(code);
    lemma_fuse_copy_file_range_in_is_read(s);
}

/// What comes of the arguments `s` of operation 4096.
#[verifier::spinoff_prover]
proof fn lemma_operation_4096(code: fuse_opcode, s: Seq<u8>, r: Option<Operation>)
    requires
        code.spec_number() == 4096,
        parses(code, s, r),
    ensures
        r matches Some(op) ==> {
            &&& op matches Operation::CuseInit(x)
            &&& s.len() >= 64
            &&& x.arg.major == u32_at(s, 0)
            &&& x.arg.minor == u32_at(s, 4)
            &&& x.arg.max_readahead == u32_at(s, 8)
            &&& x.arg.flags == u32_at(s, 12)
            &&& x.arg.flags2 == u32_at(s, 16)
            &&& x.arg.unused[0] == u32_at(s, 20)
            &&& x.arg.unused[1] == u32_at(s, 24)
            &&& x.arg.unused[2] == u32_at(s, 28)
            &&& x.arg.unused[3] == u32_at(s, 32)
            &&& x.arg.unused[4] == u32_at(s, 36)
            &&& x.arg.unused[5] == u32_at(s, 40)
            &&& x.arg.unused[6] == u32_at(s, 44)
            &&& x.arg.unused[7] == u32_at(s, 48)
            &&& x.arg.unused[8] == u32_at(s, 52)
            &&& x.arg.unused[9] == u32_at(s, 56)
            &&& x.arg.unused[10] == u32_at(s, 60)
        },
        r is None <==> s.len() < 64,
{
    lemma_opcode_numbers(code);
    lemma_fuse_init_in_is_read(s);
}

/// What is said in the header of a packet, and what follows it, decide what the packet asks for.
/// Each operation has its number, and each of its arguments its place: behind the header stand the
/// fields of its structure, and behind them its names, each up to a zero byte, and its data.
#[verifier::rlimit(60)]
pub proof fn lemma_packet_says(data: Seq<u8>, request: Request)
    requires
        parses_request(data, Ok::<Request, RequestError>(request)),
    ensures
        40 <= data.len() && u32_at(data, 0) <= data.len(),
        request.header.unique == u64_at(data, 8),
        request.header.nodeid == u64_at(data, 16),
        request.header.uid == u32_at(data, 24),
        request.header.gid == u32_at(data, 28),
        request.header.pid == u32_at(data, 32),
        u32_at(data, 4) == 1 ==> {
            &&& request.operation matches Operation::Lookup(x)
            &&& name_stands(data.skip(40), 0, x.name@)
        },
        u32_at(data, 4) == 2 ==> {
            &&& request.operation matches Operation::Forget(x)
            &&& x.arg.nlookup == u64_at(data.skip(40), 0)
        },
        u32_at(data, 4) == 3 ==> request.operation is GetAttr,
        u32_at(data, 4) == 4 ==> {
            &&& request.operation matches Operation::SetAttr(x)
            &&& x.arg.valid == u32_at(data.skip(40), 0)
            &&& x.arg.padding == u32_at(data.skip(40), 4)
            &&& x.arg.fh == u64_at(data.skip(40), 8)
            &&& x.arg.size == u64_at(data.skip(40), 16)
            &&& x.arg.lock_owner == u64_at(data.skip(40), 24)
            &&& x.arg.atime == i64_at(data.skip(40), 32)
            &&& x.arg.mtime == i64_at(data.skip(40), 40)
            &&& x.arg.ctime == i64_at(data.skip(40), 48)
            &&& x.arg.atimensec == u32_at(data.skip(40), 56)
            &&& x.arg.mtimensec == u32_at(data.skip(40), 60)
            &&& x.arg.ctimensec == u32_at(data.skip(40), 64)
            &&& x.arg.mode == u32_at(data.skip(40), 68)
            &&& x.arg.unused4 == u32_at(data.skip(40), 72)
            &&& x.arg.uid == u32_at(data.skip(40), 76)
            &&& x.arg.gid == u32_at(data.skip(40), 80)
            &&& x.arg.unused5 == u32_at(data.skip(40), 84)
        },
        u32_at(data, 4) == 5 ==> request.operation is ReadLink,
        u32_at(data, 4) == 6 ==> {
            &&& request.operation matches Operation::SymLink(x)
            &&& name_stands(data.skip(40), 0, x.name@)
            &&& name_stands(data.skip(40), x.name@.len() + 1int, x.link@)
        },
        u32_at(data, 4) == 8 ==> {
            &&& request.operation matches Operation::MkNod(x)
            &&& x.arg.mode == u32_at(data.skip(40), 0)
            &&& x.arg.rdev == u32_at(data.skip(40), 4)
            &&& x.arg.umask == u32_at(data.skip(40), 8)
            &&& x.arg.padding == u32_at(data.skip(40), 12)
            &&& name_stands(data.skip(40), 16, x.name@)
        },
        u32_at(data, 4) == 9 ==> {
            &&& request.operation matches Operation::MkDir(x)
            &&& x.arg.mode == u32_at(data.skip(40), 0)
            &&& x.arg.umask == u32_at(data.skip(40), 4)
            &&& name_stands(data.skip(40), 8, x.name@)
        },
        u32_at(data, 4) == 10 ==> {
            &&& request.operation matches Operation::Unlink(x)
            &&& name_stands(data.skip(40), 0, x.name@)
        },
        u32_at(data, 4) == 11 ==> {
            &&& request.operation matches Operation::RmDir(x)
            &&& name_stands(data.skip(40), 0, x.name@)
        },
        u32_at(data, 4) == 12 ==> {
            &&& request.operation matches Operation::Rename(x)
            &&& x.arg.newdir == u64_at(data.skip(40), 0)
            &&& name_stands(data.skip(40), 8, x.name@)
            &&& name_stands(data.skip(40), 8 + x.name@.len() + 1int, x.newname@)
        },
        u32_at(data, 4) == 13 ==> {
            &&& request.operation matches Operation::Link(x)
            &&& x.arg.oldnodeid == u64_at(data.skip(40), 0)
            &&& name_stands(data.skip(40), 8, x.name@)
        },
        u32_at(data, 4) == 14 ==> {
            &&& request.operation matches Operation::Open(x)
            &&& x.arg.flags == i32_at(data.skip(40), 0)
            &&& x.arg.unused == u32_at(data.skip(40), 4)
        },
        u32_at(data, 4) == 15 ==> {
            &&& request.operation matches Operation::Read(x)
            &&& x.arg.fh == u64_at(data.skip(40), 0)
            &&& x.arg.offset == u64_at(data.skip(40), 8)
            &&& x.arg.size == u32_at(data.skip(40), 16)
            &&& x.arg.read_flags == u32_at(data.skip(40), 20)
            &&& x.arg.lock_owner == u64_at(data.skip(40), 24)
            &&& x.arg.flags == u32_at(data.skip(40), 32)
            &&& x.arg.padding == u32_at(data.skip(40), 36)
        },
        u32_at(data, 4) == 16 ==> {
            &&& request.operation matches Operation::Write(x)
            &&& x.arg.fh == u64_at(data.skip(40), 0)
            &&& x.arg.offset == i64_at(data.skip(40), 8)
            &&& x.arg.size == u32_at(data.skip(40), 16)
            &&& x.arg.write_flags == u32_at(data.skip(40), 20)
            &&& x.arg.lock_owner == u64_at(data.skip(40), 24)
            &&& x.arg.flags == i32_at(data.skip(40), 32)
            &&& x.arg.padding == u32_at(data.skip(40), 36)
            &&& x.data@ == data.skip(40).skip(40)
        },
        u32_at(data, 4) == 17 ==> request.operation is StatFs,
        u32_at(data, 4) == 18 ==> {
            &&& request.operation matches Operation::Release(x)
            &&& x.arg.fh == u64_at(data.skip(40), 0)
            &&& x.arg.flags == i32_at(data.skip(40), 8)
            &&& x.arg.release_flags == u32_at(data.skip(40), 12)
            &&& x.arg.lock_owner == u64_at(data.skip(40), 16)
        },
        u32_at(data, 4) == 20 ==> {
            &&& request.operation matches Operation::FSync(x)
            &&& x.arg.fh == u64_at(data.skip(40), 0)
            &&& x.arg.fsync_flags == u32_at(data.skip(40), 8)
            &&& x.arg.padding == u32_at(data.skip(40), 12)
        },
        u32_at(data, 4) == 21 ==> {
            &&& request.operation matches Operation::SetXAttr(x)
            &&& x.arg.size == u32_at(data.skip(40), 0)
            &&& x.arg.flags == i32_at(data.skip(40), 4)
            &&& name_stands(data.skip(40), 8, x.name@)
            &&& x.value@ == data.skip(40).skip(8 + x.name@.len() + 1int)
        },
        u32_at(data, 4) == 22 ==> {
            &&& request.operation matches Operation::GetXAttr(x)
            &&& x.arg.size == u32_at(data.skip(40), 0)
            &&& x.arg.padding == u32_at(data.skip(40), 4)
            &&& name_stands(data.skip(40), 8, x.name@)
        },
        u32_at(data, 4) == 23 ==> {
            &&& request.operation matches Operation::ListXAttr(x)
            &&& x.arg.size == u32_at(data.skip(40), 0)
            &&& x.arg.padding == u32_at(data.skip(40), 4)
        },
        u32_at(data, 4) == 24 ==> {
            &&& request.operation matches Operation::RemoveXAttr(x)
            &&& name_stands(data.skip(40), 0, x.name@)
        },
        u32_at(data, 4) == 25 ==> {
            &&& request.operation matches Operation::Flush(x)
            &&& x.arg.fh == u64_at(data.skip(40), 0)
            &&& x.arg.unused == u32_at(data.skip(40), 8)
            &&& x.arg.padding == u32_at(data.skip(40), 12)
            &&& x.arg.lock_owner == u64_at(data.skip(40), 16)
        },
        u32_at(data, 4) == 26 ==> {
            &&& request.operation matches Operation::Init(x)
            &&& x.arg.major == u32_at(data.skip(40), 0)
            &&& x.arg.minor == u32_at(data.skip(40), 4)
            &&& x.arg.max_readahead == u32_at(data.skip(40), 8)
            &&& x.arg.flags == u32_at(data.skip(40), 12)
            &&& data.skip(40).len() >= 64 ==> x.arg.flags2 == u32_at(data.skip(40), 16)
            &&& data.skip(40).len() < 64 ==> x.arg.flags2 == 0
        },
        u32_at(data, 4) == 27 ==> {
            &&& request.operation matches Operation::OpenDir(x)
            &&& x.arg.flags == i32_at(data.skip(40), 0)
            &&& x.arg.unused == u32_at(data.skip(40), 4)
        },
        u32_at(data, 4) == 28 ==> {
            &&& request.operation matches Operation::ReadDir(x)
            &&& x.arg.fh == u64_at(data.skip(40), 0)
            &&& x.arg.offset == u64_at(data.skip(40), 8)
            &&& x.arg.size == u32_at(data.skip(40), 16)
            &&& x.arg.read_flags == u32_at(data.skip(40), 20)
            &&& x.arg.lock_owner == u64_at(data.skip(40), 24)
            &&& x.arg.flags == u32_at(data.skip(40), 32)
            &&& x.arg.padding == u32_at(data.skip(40), 36)
        },
        u32_at(data, 4) == 29 ==> {
            &&& request.operation matches Operation::ReleaseDir(x)
            &&& x.arg.fh == u64_at(data.skip(40), 0)
            &&& x.arg.flags == i32_at(data.skip(40), 8)
            &&& x.arg.release_flags == u32_at(data.skip(40), 12)
            &&& x.arg.lock_owner == u64_at(data.skip(40), 16)
        },
        u32_at(data, 4) == 30 ==> {
            &&& request.operation matches Operation::FSyncDir(x)
            &&& x.arg.fh == u64_at(data.skip(40), 0)
            &&& x.arg.fsync_flags == u32_at(data.skip(40), 8)
            &&& x.arg.padding == u32_at(data.skip(40), 12)
        },
        u32_at(data, 4) == 31 ==> {
            &&& request.operation matches Operation::GetLk(x)
            &&& x.arg.fh == u64_at(data.skip(40), 0)
            &&& x.arg.owner == u64_at(data.skip(40), 8)
            &&& x.arg.lk.start == u64_at(data.skip(40), 16)
            &&& x.arg.lk.end == u64_at(data.skip(40), 24)
            &&& x.arg.lk.typ == i32_at(data.skip(40), 32)
            &&& x.arg.lk.pid == u32_at(data.skip(40), 36)
            &&& x.arg.lk_flags == u32_at(data.skip(40), 40)
            &&& x.arg.padding == u32_at(data.skip(40), 44)
        },
        u32_at(data, 4) == 32 ==> {
            &&& request.operation matches Operation::SetLk(x)
            &&& x.arg.fh == u64_at(data.skip(40), 0)
            &&& x.arg.owner == u64_at(data.skip(40), 8)
            &&& x.arg.lk.start == u64_at(data.skip(40), 16)
            &&& x.arg.lk.end == u64_at(data.skip(40), 24)
            &&& x.arg.lk.typ == i32_at(data.skip(40), 32)
            &&& x.arg.lk.pid == u32_at(data.skip(40), 36)
            &&& x.arg.lk_flags == u32_at(data.skip(40), 40)
            &&& x.arg.padding == u32_at(data.skip(40), 44)
        },
        u32_at(data, 4) == 33 ==> {
            &&& request.operation matches Operation::SetLkW(x)
            &&& x.arg.fh == u64_at(data.skip(40), 0)
            &&& x.arg.owner == u64_at(data.skip(40), 8)
            &&& x.arg.lk.start == u64_at(data.skip(40), 16)
            &&& x.arg.lk.end == u64_at(data.skip(40), 24)
            &&& x.arg.lk.typ == i32_at(data.skip(40), 32)
            &&& x.arg.lk.pid == u32_at(data.skip(40), 36)
            &&& x.arg.lk_flags == u32_at(data.skip(40), 40)
            &&& x.arg.padding == u32_at(data.skip(40), 44)
        },
        u32_at(data, 4) == 34 ==> {
            &&& request.operation matches Operation::Access(x)
            &&& x.arg.mask == i32_at(data.skip(40), 0)
            &&& x.arg.padding == u32_at(data.skip(40), 4)
        },
        u32_at(data, 4) == 35 ==> {
            &&& request.operation matches Operation::Create(x)
            &&& x.arg.flags == i32_at(data.skip(40), 0)
            &&& x.arg.mode == u32_at(data.skip(40), 4)
            &&& x.arg.umask == u32_at(data.skip(40), 8)
            &&& x.arg.padding == u32_at(data.skip(40), 12)
            &&& name_stands(data.skip(40), 16, x.name@)
        },
        u32_at(data, 4) == 36 ==> {
            &&& request.operation matches Operation::Interrupt(x)
            &&& x.arg.unique == u64_at(data.skip(40), 0)
        },
        u32_at(data, 4) == 37 ==> {
            &&& request.operation matches Operation::BMap(x)
            &&& x.arg.block == u64_at(data.skip(40), 0)
            &&& x.arg.blocksize == u32_at(data.skip(40), 8)
            &&& x.arg.padding == u32_at(data.skip(40), 12)
        },
        u32_at(data, 4) == 38 ==> request.operation is Destroy,
        u32_at(data, 4) == 39 ==> {
            &&& request.operation matches Operation::IoCtl(x)
            &&& x.arg.fh == u64_at(data.skip(40), 0)
            &&& x.arg.flags == u32_at(data.skip(40), 8)
            &&& x.arg.cmd == u32_at(data.skip(40), 12)
            &&& x.arg.arg == u64_at(data.skip(40), 16)
            &&& x.arg.in_size == u32_at(data.skip(40), 24)
            &&& x.arg.out_size == u32_at(data.skip(40), 28)
            &&& x.data@ == data.skip(40).skip(32)
        },
        u32_at(data, 4) == 40 ==> {
            &&& request.operation matches Operation::Poll(x)
            &&& x.arg.fh == u64_at(data.skip(40), 0)
            &&& x.arg.kh == u64_at(data.skip(40), 8)
            &&& x.arg.flags == u32_at(data.skip(40), 16)
            &&& x.arg.events == u32_at(data.skip(40), 20)
        },
        u32_at(data, 4) == 41 ==> {
            &&& request.operation matches Operation::NotifyReply(x)
            &&& x.data@ == data.skip(40).skip(0)
        },
        u32_at(data, 4) == 42 ==> {
            &&& request.operation matches Operation::BatchForget(x)
            &&& x.arg.nlookup == u64_at(data.skip(40), 0)
            &&& x.nodes@.len() == 0
        },
        u32_at(data, 4) == 43 ==> {
            &&& request.operation matches Operation::FAllocate(x)
            &&& x.arg.fh == u64_at(data.skip(40), 0)
            &&& x.arg.offset == i64_at(data.skip(40), 8)
            &&& x.arg.length == i64_at(data.skip(40), 16)
            &&& x.arg.mode == i32_at(data.skip(40), 24)
            &&& x.arg.padding == u32_at(data.skip(40), 28)
        },
        u32_at(data, 4) == 44 ==> {
            &&& request.operation matches Operation::ReadDirPlus(x)
            &&& x.arg.fh == u64_at(data.skip(40), 0)
            &&& x.arg.offset == u64_at(data.skip(40), 8)
            &&& x.arg.size == u32_at(data.skip(40), 16)
            &&& x.arg.read_flags == u32_at(data.skip(40), 20)
            &&& x.arg.lock_owner == u64_at(data.skip(40), 24)
            &&& x.arg.flags == u32_at(data.skip(40), 32)
            &&& x.arg.padding == u32_at(data.skip(40), 36)
        },
        u32_at(data, 4) == 45 ==> {
            &&& request.operation matches Operation::Rename2(x)
            &&& x.arg.newdir == u64_at(data.skip(40), 0)
            &&& x.arg.flags == u32_at(data.skip(40), 8)
            &&& x.arg.padding == u32_at(data.skip(40), 12)
            &&& name_stands(data.skip(40), 16, x.name@)
            &&& name_stands(data.skip(40), 16 + x.name@.len() + 1int, x.newname@)
        },
        u32_at(data, 4) == 46 ==> {
            &&& request.operation matches Operation::Lseek(x)
            &&& x.arg.fh == u64_at(data.skip(40), 0)
            &&& x.arg.offset == i64_at(data.skip(40), 8)
            &&& x.arg.whence == i32_at(data.skip(40), 16)
            &&& x.arg.padding == u32_at(data.skip(40), 20)
        },
        u32_at(data, 4) == 47 ==> {
            &&& request.operation matches Operation::CopyFileRange(x)
            &&& x.arg.fh_in == u64_at(data.skip(40), 0)
            &&& x.arg.off_in == i64_at(data.skip(40), 8)
            &&& x.arg.nodeid_out == u64_at(data.skip(40), 16)
            &&& x.arg.fh_out == u64_at(data.skip(40), 24)
            &&& x.arg.off_out == i64_at(data.skip(40), 32)
            &&& x.arg.len == u64_at(data.skip(40), 40)
            &&& x.arg.flags == u64_at(data.skip(40), 48)
        },
        u32_at(data, 4) == 4096 ==> {
            &&& request.operation matches Operation::CuseInit(x)
            &&& x.arg.major == u32_at(data.skip(40), 0)
            &&& x.arg.minor == u32_at(data.skip(40), 4)
            &&& x.arg.max_readahead == u32_at(data.skip(40), 8)
            &&& x.arg.flags == u32_at(data.skip(40), 12)
            &&& x.arg.flags2 == u32_at(data.skip(40), 16)
            &&& x.arg.unused[0] == u32_at(data.skip(40), 20)
            &&& x.arg.unused[1] == u32_at(data.skip(40), 24)
            &&& x.arg.unused[2] == u32_at(data.skip(40), 28)
            &&& x.arg.unused[3] == u32_at(data.skip(40), 32)
            &&& x.arg.unused[4] == u32_at(data.skip(40), 36)
            &&& x.arg.unused[5] == u32_at(data.skip(40), 40)
            &&& x.arg.unused[6] == u32_at(data.skip(40), 44)
            &&& x.arg.unused[7] == u32_at(data.skip(40), 48)
            &&& x.arg.unused[8] == u32_at(data.skip(40), 52)
            &&& x.arg.unused[9] == u32_at(data.skip(40), 56)
            &&& x.arg.unused[10] == u32_at(data.skip(40), 60)
        },
{
    lemma_fuse_in_header_is_read(data);
    let s = data.skip(40);
    let code = choose|code: fuse_opcode| #[trigger]
        code.spec_number() == u32_at(data, 4) && parses(code, s, Some(request.operation));
    lemma_opcode_numbers(code);
    assert((arg_at::<fuse_in_header>(data)->0).1 =~= s);
    match u32_at(data, 4) {
        1 => lemma_operation_1(code, s, Some(request.operation)),
        2 => lemma_operation_2(code, s, Some(request.operation)),
        3 => lemma_operation_3(code, s, Some(request.operation)),
        4 => lemma_operation_4(code, s, Some(request.operation)),
        5 => lemma_operation_5(code, s, Some(request.operation)),
        6 => lemma_operation_6(code, s, Some(request.operation)),
        8 => lemma_operation_8(code, s, Some(request.operation)),
        9 => lemma_operation_9(code, s, Some(request.operation)),
        10 => lemma_operation_10(code, s, Some(request.operation)),
        11 => lemma_operation_11(code, s, Some(request.operation)),
        12 => lemma_operation_12(code, s, Some(request.operation)),
        13 => lemma_operation_13(code, s, Some(request.operation)),
        14 => lemma_operation_14(code, s, Some(request.operation)),
        15 => lemma_operation_15(code, s, Some(request.operation)),
        16 => lemma_operation_16(code, s, Some(request.operation)),
        17 => lemma_operation_17(code, s, Some(request.operation)),
        18 => lemma_operation_18(code, s, Some(request.operation)),
        20 => lemma_operation_20(code, s, Some(request.operation)),
        21 => lemma_operation_21(code, s, Some(request.operation)),
        22 => lemma_operation_22(code, s, Some(request.operation)),
        23 => lemma_operation_23(code, s, Some(request.operation)),
        24 => lemma_operation_24(code, s, Some(request.operation)),
        25 => lemma_operation_25(code, s, Some(request.operation)),
        26 => lemma_operation_26(code, s, Some(request.operation)),
        27 => lemma_operation_27(code, s, Some(request.operation)),
        28 => lemma_operation_28(code, s, Some(request.operation)),
        29 => lemma_operation_29(code, s, Some(request.operation)),
        30 => lemma_operation_30(code, s, Some(request.operation)),
        31 => lemma_operation_31(code, s, Some(request.operation)),
        32 => lemma_operation_32(code, s, Some(request.operation)),
        33 => lemma_operation_33(code, s, Some(request.operation)),
        34 => lemma_operation_34(code, s, Some(request.operation)),
        35 => lemma_operation_35(code, s, Some(request.operation)),
        36 => lemma_operation_36(code, s, Some(request.operation)),
        37 => lemma_operation_37(code, s, Some(request.operation)),
        38 => lemma_operation_38(code, s, Some(request.operation)),
        39 => lemma_operation_39(code, s, Some(request.operation)),
        40 => lemma_operation_40(code, s, Some(request.operation)),
        41 => lemma_operation_41(code, s, Some(request.operation)),
        42 => lemma_operation_42(code, s, Some(request.operation)),
        43 => lemma_operation_43(code, s, Some(request.operation)),
        44 => lemma_operation_44(code, s, Some(request.operation)),
        45 => lemma_operation_45(code, s, Some(request.operation)),
        46 => lemma_operation_46(code, s, Some(request.operation)),
        47 => lemma_operation_47(code, s, Some(request.operation)),
        4096 => lemma_operation_4096(code, s, Some(request.operation)),
        _ => {},
    }
}

/// What is wrong with a packet that asks for nothing: there is no header, its operation has none of
/// the numbers, it is shorter than its header says, or its arguments are too short for its
/// operation.
#[verifier::rlimit(60)]
pub proof fn lemma_packet_is_refused(data: Seq<u8>, r: Result<Request, RequestError>)
    requires
        parses_request(data, r),
        data.len() <= usize::MAX,
    ensures
        data.len() < 40 <==> r == Err::<Request, RequestError>(
            RequestError::ShortReadHeader(data.len() as usize),
        ),
        data.len() >= 40 && ![
            1u32, 2, 3, 4, 5, 6, 8, 9, 10, 11, 12, 13, 14, 15, 16, 17, 18, 20, 21, 22, 23, 24, 25,
                26, 27, 28, 29, 30, 31, 32, 33, 34, 35, 36, 37, 38, 39, 40, 41, 42, 43, 44, 45, 46,
                47, 4096,
        ]@.contains(u32_at(data, 4)) <==> r == Err::<Request, RequestError>(
            RequestError::UnknownOperation(u32_at(data, 4)),
        ),
        r matches Err(RequestError::ShortRead(have, want)) ==> have == data.len() && want == u32_at(
            data,
            0,
        ) && have < want,
        r is Ok ==> data.len() >= u32_at(data, 0),
        data.len() >= 40 && data.len() >= u32_at(data, 0) && u32_at(data, 4) == 1 ==> (r
            == Err::<Request, RequestError>(
            RequestError::InsufficientData,
        ) <==> (data.len() < 40 || forall|k: int| 40 <= k < data.len() ==> data[k] != 0)),
        data.len() >= 40 && data.len() >= u32_at(data, 0) && u32_at(data, 4) == 2 ==> (r
            == Err::<Request, RequestError>(
            RequestError::InsufficientData,
        ) <==> (data.len() < 48)),
        data.len() >= 40 && data.len() >= u32_at(data, 0) && u32_at(data, 4) == 3 ==> (r
            == Err::<Request, RequestError>(
            RequestError::InsufficientData,
        ) <==> (false)),
        data.len() >= 40 && data.len() >= u32_at(data, 0) && u32_at(data, 4) == 4 ==> (r
            == Err::<Request, RequestError>(
            RequestError::InsufficientData,
        ) <==> (data.len() < 128)),
        data.len() >= 40 && data.len() >= u32_at(data, 0) && u32_at(data, 4) == 5 ==> (r
            == Err::<Request, RequestError>(
            RequestError::InsufficientData,
        ) <==> (false)),
        data.len() >= 40 && data.len() >= u32_at(data, 0) && u32_at(data, 4) == 6 ==> (r
            == Err::<Request, RequestError>(
            RequestError::InsufficientData,
        ) <==> (data.len() < 40 || forall|j: int, k: int| 40 <= j < k < data.len() ==> data[j] != 0
            || data[k] != 0)),
        data.len() >= 40 && data.len() >= u32_at(data, 0) && u32_at(data, 4) == 8 ==> (r
            == Err::<Request, RequestError>(
            RequestError::InsufficientData,
        ) <==> (data.len() < 56 || forall|k: int| 56 <= k < data.len() ==> data[k] != 0)),
        data.len() >= 40 && data.len() >= u32_at(data, 0) && u32_at(data, 4) == 9 ==> (r
            == Err::<Request, RequestError>(
            RequestError::InsufficientData,
        ) <==> (data.len() < 48 || forall|k: int| 48 <= k < data.len() ==> data[k] != 0)),
        data.len() >= 40 && data.len() >= u32_at(data, 0) && u32_at(data, 4) == 10 ==> (r
            == Err::<Request, RequestError>(
            RequestError::InsufficientData,
        ) <==> (data.len() < 40 || forall|k: int| 40 <= k < data.len() ==> data[k] != 0)),
        data.len() >= 40 && data.len() >= u32_at(data, 0) && u32_at(data, 4) == 11 ==> (r
            == Err::<Request, RequestError>(
            RequestError::InsufficientData,
        ) <==> (data.len() < 40 || forall|k: int| 40 <= k < data.len() ==> data[k] != 0)),
        data.len() >= 40 && data.len() >= u32_at(data, 0) && u32_at(data, 4) == 12 ==> (r
            == Err::<Request, RequestError>(
            RequestError::InsufficientData,
        ) <==> (data.len() < 48 || forall|j: int, k: int| 48 <= j < k < data.len() ==> data[j] != 0
            || data[k] != 0)),
        data.len() >= 40 && data.len() >= u32_at(data, 0) && u32_at(data, 4) == 13 ==> (r
            == Err::<Request, RequestError>(
            RequestError::InsufficientData,
        ) <==> (data.len() < 48 || forall|k: int| 48 <= k < data.len() ==> data[k] != 0)),
        data.len() >= 40 && data.len() >= u32_at(data, 0) && u32_at(data, 4) == 14 ==> (r
            == Err::<Request, RequestError>(
            RequestError::InsufficientData,
        ) <==> (data.len() < 48)),
        data.len() >= 40 && data.len() >= u32_at(data, 0) && u32_at(data, 4) == 15 ==> (r
            == Err::<Request, RequestError>(
            RequestError::InsufficientData,
        ) <==> (data.len() < 80)),
        data.len() >= 40 && data.len() >= u32_at(data, 0) && u32_at(data, 4) == 16 ==> (r
            == Err::<Request, RequestError>(
            RequestError::InsufficientData,
        ) <==> (data.len() < 80)),
        data.len() >= 40 && data.len() >= u32_at(data, 0) && u32_at(data, 4) == 17 ==> (r
            == Err::<Request, RequestError>(
            RequestError::InsufficientData,
        ) <==> (false)),
        data.len() >= 40 && data.len() >= u32_at(data, 0) && u32_at(data, 4) == 18 ==> (r
            == Err::<Request, RequestError>(
            RequestError::InsufficientData,
        ) <==> (data.len() < 64)),
        data.len() >= 40 && data.len() >= u32_at(data, 0) && u32_at(data, 4) == 20 ==> (r
            == Err::<Request, RequestError>(
            RequestError::InsufficientData,
        ) <==> (data.len() < 56)),
        data.len() >= 40 && data.len() >= u32_at(data, 0) && u32_at(data, 4) == 21 ==> (r
            == Err::<Request, RequestError>(
            RequestError::InsufficientData,
        ) <==> (data.len() < 48 || forall|k: int| 48 <= k < data.len() ==> data[k] != 0)),
        data.len() >= 40 && data.len() >= u32_at(data, 0) && u32_at(data, 4) == 22 ==> (r
            == Err::<Request, RequestError>(
            RequestError::InsufficientData,
        ) <==> (data.len() < 48 || forall|k: int| 48 <= k < data.len() ==> data[k] != 0)),
        data.len() >= 40 && data.len() >= u32_at(data, 0) && u32_at(data, 4) == 23 ==> (r
            == Err::<Request, RequestError>(
            RequestError::InsufficientData,
        ) <==> (data.len() < 48)),
        data.len() >= 40 && data.len() >= u32_at(data, 0) && u32_at(data, 4) == 24 ==> (r
            == Err::<Request, RequestError>(
            RequestError::InsufficientData,
        ) <==> (data.len() < 40 || forall|k: int| 40 <= k < data.len() ==> data[k] != 0)),
        data.len() >= 40 && data.len() >= u32_at(data, 0) && u32_at(data, 4) == 25 ==> (r
            == Err::<Request, RequestError>(
            RequestError::InsufficientData,
        ) <==> (data.len() < 64)),
        data.len() >= 40 && data.len() >= u32_at(data, 0) && u32_at(data, 4) == 26 ==> (r
            == Err::<Request, RequestError>(
            RequestError::InsufficientData,
        ) <==> (data.len() < 56)),
        data.len() >= 40 && data.len() >= u32_at(data, 0) && u32_at(data, 4) == 27 ==> (r
            == Err::<Request, RequestError>(
            RequestError::InsufficientData,
        ) <==> (data.len() < 48)),
        data.len() >= 40 && data.len() >= u32_at(data, 0) && u32_at(data, 4) == 28 ==> (r
            == Err::<Request, RequestError>(
            RequestError::InsufficientData,
        ) <==> (data.len() < 80)),
        data.len() >= 40 && data.len() >= u32_at(data, 0) && u32_at(data, 4) == 29 ==> (r
            == Err::<Request, RequestError>(
            RequestError::InsufficientData,
        ) <==> (data.len() < 64)),
        data.len() >= 40 && data.len() >= u32_at(data, 0) && u32_at(data, 4) == 30 ==> (r
            == Err::<Request, RequestError>(
            RequestError::InsufficientData,
        ) <==> (data.len() < 56)),
        data.len() >= 40 && data.len() >= u32_at(data, 0) && u32_at(data, 4) == 31 ==> (r
            == Err::<Request, RequestError>(
            RequestError::InsufficientData,
        ) <==> (data.len() < 88)),
        data.len() >= 40 && data.len() >= u32_at(data, 0) && u32_at(data, 4) == 32 ==> (r
            == Err::<Request, RequestError>(
            RequestError::InsufficientData,
        ) <==> (data.len() < 88)),
        data.len() >= 40 && data.len() >= u32_at(data, 0) && u32_at(data, 4) == 33 ==> (r
            == Err::<Request, RequestError>(
            RequestError::InsufficientData,
        ) <==> (data.len() < 88)),
        data.len() >= 40 && data.len() >= u32_at(data, 0) && u32_at(data, 4) == 34 ==> (r
            == Err::<Request, RequestError>(
            RequestError::InsufficientData,
        ) <==> (data.len() < 48)),
        data.len() >= 40 && data.len() >= u32_at(data, 0) && u32_at(data, 4) == 35 ==> (r
            == Err::<Request, RequestError>(
            RequestError::InsufficientData,
        ) <==> (data.len() < 56 || forall|k: int| 56 <= k < data.len() ==> data[k] != 0)),
        data.len() >= 40 && data.len() >= u32_at(data, 0) && u32_at(data, 4) == 36 ==> (r
            == Err::<Request, RequestError>(
            RequestError::InsufficientData,
        ) <==> (data.len() < 48)),
        data.len() >= 40 && data.len() >= u32_at(data, 0) && u32_at(data, 4) == 37 ==> (r
            == Err::<Request, RequestError>(
            RequestError::InsufficientData,
        ) <==> (data.len() < 56)),
        data.len() >= 40 && data.len() >= u32_at(data, 0) && u32_at(data, 4) == 38 ==> (r
            == Err::<Request, RequestError>(
            RequestError::InsufficientData,
        ) <==> (false)),
        data.len() >= 40 && data.len() >= u32_at(data, 0) && u32_at(data, 4) == 39 ==> (r
            == Err::<Request, RequestError>(
            RequestError::InsufficientData,
        ) <==> (data.len() < 72)),
        data.len() >= 40 && data.len() >= u32_at(data, 0) && u32_at(data, 4) == 40 ==> (r
            == Err::<Request, RequestError>(
            RequestError::InsufficientData,
        ) <==> (data.len() < 64)),
        data.len() >= 40 && data.len() >= u32_at(data, 0) && u32_at(data, 4) == 41 ==> (r
            == Err::<Request, RequestError>(
            RequestError::InsufficientData,
        ) <==> (data.len() < 40)),
        data.len() >= 40 && data.len() >= u32_at(data, 0) && u32_at(data, 4) == 42 ==> (r
            == Err::<Request, RequestError>(
            RequestError::InsufficientData,
        ) <==> (data.len() < 48)),
        data.len() >= 40 && data.len() >= u32_at(data, 0) && u32_at(data, 4) == 43 ==> (r
            == Err::<Request, RequestError>(
            RequestError::InsufficientData,
        ) <==> (data.len() < 72)),
        data.len() >= 40 && data.len() >= u32_at(data, 0) && u32_at(data, 4) == 44 ==> (r
            == Err::<Request, RequestError>(
            RequestError::InsufficientData,
        ) <==> (data.len() < 80)),
        data.len() >= 40 && data.len() >= u32_at(data, 0) && u32_at(data, 4) == 45 ==> (r
            == Err::<Request, RequestError>(
            RequestError::InsufficientData,
        ) <==> (data.len() < 56 || forall|j: int, k: int| 56 <= j < k < data.len() ==> data[j] != 0
            || data[k] != 0)),
        data.len() >= 40 && data.len() >= u32_at(data, 0) && u32_at(data, 4) == 46 ==> (r
            == Err::<Request, RequestError>(
            RequestError::InsufficientData,
        ) <==> (data.len() < 64)),
        data.len() >= 40 && data.len() >= u32_at(data, 0) && u32_at(data, 4) == 47 ==> (r
            == Err::<Request, RequestError>(
            RequestError::InsufficientData,
        ) <==> (data.len() < 96)),
        data.len() >= 40 && data.len() >= u32_at(data, 0) && u32_at(data, 4) == 4096 ==> (r
            == Err::<Request, RequestError>(
            RequestError::InsufficientData,
        ) <==> (data.len() < 104)),
{
    lemma_fuse_in_header_is_read(data);
    let s = data.skip(40);
    let n = u32_at(data, 4);
    let all: Seq<u32> = [
            1u32, 2, 3, 4, 5, 6, 8, 9, 10, 11, 12, 13, 14, 15, 16, 17, 18, 20, 21, 22, 23, 24, 25,
                26, 27, 28, 29, 30, 31, 32, 33, 34, 35, 36, 37, 38, 39, 40, 41, 42, 43, 44, 45, 46,
                47, 4096,
        ]@;
    if data.len() >= 40 {
        assert((arg_at::<fuse_in_header>(data)->0).1 =~= s);
        assert forall|k: int| 0 <= k < s.len() implies s[k] == data[k + 40] by {
        }
        if all.contains(n) {
            lemma_number_is_known(n);
        } else {
            assert forall|code: fuse_opcode| #[trigger] code.spec_number() != n by {
                lemma_opcode_numbers(code);
            }
        }
        if all.contains(n) && data.len() >= u32_at(data, 0) {
            let op = match r {
                Ok(request) => Some(request.operation),
                Err(_) => None,
            };
            let code = choose|code: fuse_opcode| #[trigger]
                code.spec_number() == n && match r {
                    Ok(request) => parses(code, s, Some(request.operation)),
                    Err(e) => e is InsufficientData && parses(code, s, None),
                };
            lemma_opcode_numbers(code);
            assert(parses(code, s, op));
            match n {
                1 => {
                    lemma_operation_1(code, s, op);
                    assert forall|k: int| 40 <= k < data.len() implies data[k] == s[k - 40] by {
                    }
                    assert forall|k: int| 0 <= k < s.len() implies s[k] == data[k + 40] by {
                    }
                },
                2 => {
                    lemma_operation_2(code, s, op);
                },
                3 => {
                    lemma_operation_3(code, s, op);
                },
                4 => {
                    lemma_operation_4(code, s, op);
                },
                5 => {
                    lemma_operation_5(code, s, op);
                },
                6 => {
                    lemma_operation_6(code, s, op);
                    assert forall|k: int| 40 <= k < data.len() implies data[k] == s[k - 40] by {
                    }
                    assert forall|k: int| 0 <= k < s.len() implies s[k] == data[k + 40] by {
                    }
                },
                8 => {
                    lemma_operation_8(code, s, op);
                    assert forall|k: int| 56 <= k < data.len() implies data[k] == s[k - 40] by {
                    }
                    assert forall|k: int| 16 <= k < s.len() implies s[k] == data[k + 40] by {
                    }
                },
                9 => {
                    lemma_operation_9(code, s, op);
                    assert forall|k: int| 48 <= k < data.len() implies data[k] == s[k - 40] by {
                    }
                    assert forall|k: int| 8 <= k < s.len() implies s[k] == data[k + 40] by {
                    }
                },
                10 => {
                    lemma_operation_10(code, s, op);
                    assert forall|k: int| 40 <= k < data.len() implies data[k] == s[k - 40] by {
                    }
                    assert forall|k: int| 0 <= k < s.len() implies s[k] == data[k + 40] by {
                    }
                },
                11 => {
                    lemma_operation_11(code, s, op);
                    assert forall|k: int| 40 <= k < data.len() implies data[k] == s[k - 40] by {
                    }
                    assert forall|k: int| 0 <= k < s.len() implies s[k] == data[k + 40] by {
                    }
                },
                12 => {
                    lemma_operation_12(code, s, op);
                    assert forall|k: int| 48 <= k < data.len() implies data[k] == s[k - 40] by {
                    }
                    assert forall|k: int| 8 <= k < s.len() implies s[k] == data[k + 40] by {
                    }
                },
                13 => {
                    lemma_operation_13(code, s, op);
                    assert forall|k: int| 48 <= k < data.len() implies data[k] == s[k - 40] by {
                    }
                    assert forall|k: int| 8 <= k < s.len() implies s[k] == data[k + 40] by {
                    }
                },
                14 => {
                    lemma_operation_14(code, s, op);
                },
                15 => {
                    lemma_operation_15(code, s, op);
                },
                16 => {
                    lemma_operation_16(code, s, op);
                },
                17 => {
                    lemma_operation_17(code, s, op);
                },
                18 => {
                    lemma_operation_18(code, s, op);
                },
                20 => {
                    lemma_operation_20(code, s, op);
                },
                21 => {
                    lemma_operation_21(code, s, op);
                    assert forall|k: int| 48 <= k < data.len() implies data[k] == s[k - 40] by {
                    }
                    assert forall|k: int| 8 <= k < s.len() implies s[k] == data[k + 40] by {
                    }
                },
                22 => {
                    lemma_operation_22(code, s, op);
                    assert forall|k: int| 48 <= k < data.len() implies data[k] == s[k - 40] by {
                    }
                    assert forall|k: int| 8 <= k < s.len() implies s[k] == data[k + 40] by {
                    }
                },
                23 => {
                    lemma_operation_23(code, s, op);
                },
                24 => {
                    lemma_operation_24(code, s, op);
                    assert forall|k: int| 40 <= k < data.len() implies data[k] == s[k - 40] by {
                    }
                    assert forall|k: int| 0 <= k < s.len() implies s[k] == data[k + 40] by {
                    }
                },
                25 => {
                    lemma_operation_25(code, s, op);
                },
                26 => {
                    lemma_operation_26(code, s, op);
                },
                27 => {
                    lemma_operation_27(code, s, op);
                },
                28 => {
                    lemma_operation_28(code, s, op);
                },
                29 => {
                    lemma_operation_29(code, s, op);
                },
                30 => {
                    lemma_operation_30(code, s, op);
                },
                31 => {
                    lemma_operation_31(code, s, op);
                },
                32 => {
                    lemma_operation_32(code, s, op);
                },
                33 => {
                    lemma_operation_33(code, s, op);
                },
                34 => {
                    lemma_operation_34(code, s, op);
                },
                35 => {
                    lemma_operation_35(code, s, op);
                    assert forall|k: int| 56 <= k < data.len() implies data[k] == s[k - 40] by {
                    }
                    assert forall|k: int| 16 <= k < s.len() implies s[k] == data[k + 40] by {
                    }
                },
                36 => {
                    lemma_operation_36(code, s, op);
                },
                37 => {
                    lemma_operation_37(code, s, op);
                },
                38 => {
                    lemma_operation_38(code, s, op);
                },
                39 => {
                    lemma_operation_39(code, s, op);
                },
                40 => {
                    lemma_operation_40(code, s, op);
                },
                41 => {
                    lemma_operation_41(code, s, op);
                },
                42 => {
                    lemma_operation_42(code, s, op);
                },
                43 => {
                    lemma_operation_43(code, s, op);
                },
                44 => {
                    lemma_operation_44(code, s, op);
                },
                45 => {
                    lemma_operation_45(code, s, op);
                    assert forall|k: int| 56 <= k < data.len() implies data[k] == s[k - 40] by {
                    }
                    assert forall|k: int| 16 <= k < s.len() implies s[k] == data[k + 40] by {
                    }
                },
                46 => {
                    lemma_operation_46(code, s, op);
                },
                47 => {
                    lemma_operation_47(code, s, op);
                },
                4096 => {
                    lemma_operation_4096(code, s, op);
                },
                _ => {},
            }
        }
    }
}

/// Each of the numbers is that of an operation.
proof fn lemma_number_is_known(n: u32)
    requires
        [
            1u32, 2, 3, 4, 5, 6, 8, 9, 10, 11, 12, 13, 14, 15, 16, 17, 18, 20, 21, 22, 23, 24, 25,
                26, 27, 28, 29, 30, 31, 32, 33, 34, 35, 36, 37, 38, 39, 40, 41, 42, 43, 44, 45, 46,
                47, 4096,
        ]@.contains(n),
    ensures
        exists|code: fuse_opcode| #[trigger] code.spec_number() == n,
{
    lemma_opcode_numbers(fuse_opcode::FUSE_LOOKUP);
    assert(fuse_opcode::FUSE_LOOKUP.spec_number() == 1);
    lemma_opcode_numbers(fuse_opcode::FUSE_FORGET);
    assert(fuse_opcode::FUSE_FORGET.spec_number() == 2);
    lemma_opcode_numbers(fuse_opcode::FUSE_GETATTR);
    assert(fuse_opcode::FUSE_GETATTR.spec_number() == 3);
    lemma_opcode_numbers(fuse_opcode::FUSE_SETATTR);
    assert(fuse_opcode::FUSE_SETATTR.spec_number() == 4);
    lemma_opcode_numbers(fuse_opcode::FUSE_READLINK);
    assert(fuse_opcode::FUSE_READLINK.spec_number() == 5);
    lemma_opcode_numbers(fuse_opcode::FUSE_SYMLINK);
    assert(fuse_opcode::FUSE_SYMLINK.spec_number() == 6);
    lemma_opcode_numbers(fuse_opcode::FUSE_MKNOD);
    assert(fuse_opcode::FUSE_MKNOD.spec_number() == 8);
    lemma_opcode_numbers(fuse_opcode::FUSE_MKDIR);
    assert(fuse_opcode::FUSE_MKDIR.spec_number() == 9);
    lemma_opcode_numbers(fuse_opcode::FUSE_UNLINK);
    assert(fuse_opcode::FUSE_UNLINK.spec_number() == 10);
    lemma_opcode_numbers(fuse_opcode::FUSE_RMDIR);
    assert(fuse_opcode::FUSE_RMDIR.spec_number() == 11);
    lemma_opcode_numbers(fuse_opcode::FUSE_RENAME);
    assert(fuse_opcode::FUSE_RENAME.spec_number() == 12);
    lemma_opcode_numbers(fuse_opcode::FUSE_LINK);
    assert(fuse_opcode::FUSE_LINK.spec_number() == 13);
    lemma_opcode_numbers(fuse_opcode::FUSE_OPEN);
    assert(fuse_opcode::FUSE_OPEN.spec_number() == 14);
    lemma_opcode_numbers(fuse_opcode::FUSE_READ);
    assert(fuse_opcode::FUSE_READ.spec_number() == 15);
    lemma_opcode_numbers(fuse_opcode::FUSE_WRITE);
    assert(fuse_opcode::FUSE_WRITE.spec_number() == 16);
    lemma_opcode_numbers(fuse_opcode::FUSE_STATFS);
    assert(fuse_opcode::FUSE_STATFS.spec_number() == 17);
    lemma_opcode_numbers(fuse_opcode::FUSE_RELEASE);
    assert(fuse_opcode::FUSE_RELEASE.spec_number() == 18);
    lemma_opcode_numbers(fuse_opcode::FUSE_FSYNC);
    assert(fuse_opcode::FUSE_FSYNC.spec_number() == 20);
    lemma_opcode_numbers(fuse_opcode::FUSE_SETXATTR);
    assert(fuse_opcode::FUSE_SETXATTR.spec_number() == 21);
    lemma_opcode_numbers(fuse_opcode::FUSE_GETXATTR);
    assert(fuse_opcode::FUSE_GETXATTR.spec_number() == 22);
    lemma_opcode_numbers(fuse_opcode::FUSE_LISTXATTR);
    assert(fuse_opcode::FUSE_LISTXATTR.spec_number() == 23);
    lemma_opcode_numbers(fuse_opcode::FUSE_REMOVEXATTR);
    assert(fuse_opcode::FUSE_REMOVEXATTR.spec_number() == 24);
    lemma_opcode_numbers(fuse_opcode::FUSE_FLUSH);
    assert(fuse_opcode::FUSE_FLUSH.spec_number() == 25);
    lemma_opcode_numbers(fuse_opcode::FUSE_INIT);
    assert(fuse_opcode::FUSE_INIT.spec_number() == 26);
    lemma_opcode_numbers(fuse_opcode::FUSE_OPENDIR);
    assert(fuse_opcode::FUSE_OPENDIR.spec_number() == 27);
    lemma_opcode_numbers(fuse_opcode::FUSE_READDIR);
    assert(fuse_opcode::FUSE_READDIR.spec_number() == 28);
    lemma_opcode_numbers(fuse_opcode::FUSE_RELEASEDIR);
    assert(fuse_opcode::FUSE_RELEASEDIR.spec_number() == 29);
    lemma_opcode_numbers(fuse_opcode::FUSE_FSYNCDIR);
    assert(fuse_opcode::FUSE_FSYNCDIR.spec_number() == 30);
    lemma_opcode_numbers(fuse_opcode::FUSE_GETLK);
    assert(fuse_opcode::FUSE_GETLK.spec_number() == 31);
    lemma_opcode_numbers(fuse_opcode::FUSE_SETLK);
    assert(fuse_opcode::FUSE_SETLK.spec_number() == 32);
    lemma_opcode_numbers(fuse_opcode::FUSE_SETLKW);
    assert(fuse_opcode::FUSE_SETLKW.spec_number() == 33);
    lemma_opcode_numbers(fuse_opcode::FUSE_ACCESS);
    assert(fuse_opcode::FUSE_ACCESS.spec_number() == 34);
    lemma_opcode_numbers(fuse_opcode::FUSE_CREATE);
    assert(fuse_opcode::FUSE_CREATE.spec_number() == 35);
    lemma_opcode_numbers(fuse_opcode::FUSE_INTERRUPT);
    assert(fuse_opcode::FUSE_INTERRUPT.spec_number() == 36);
    lemma_opcode_numbers(fuse_opcode::FUSE_BMAP);
    assert(fuse_opcode::FUSE_BMAP.spec_number() == 37);
    lemma_opcode_numbers(fuse_opcode::FUSE_DESTROY);
    assert(fuse_opcode::FUSE_DESTROY.spec_number() == 38);
    lemma_opcode_numbers(fuse_opcode::FUSE_IOCTL);
    assert(fuse_opcode::FUSE_IOCTL.spec_number() == 39);
    lemma_opcode_numbers(fuse_opcode::FUSE_POLL);
    assert(fuse_opcode::FUSE_POLL.spec_number() == 40);
    lemma_opcode_numbers(fuse_opcode::FUSE_NOTIFY_REPLY);
    assert(fuse_opcode::FUSE_NOTIFY_REPLY.spec_number() == 41);
    lemma_opcode_numbers(fuse_opcode::FUSE_BATCH_FORGET);
    assert(fuse_opcode::FUSE_BATCH_FORGET.spec_number() == 42);
    lemma_opcode_numbers(fuse_opcode::FUSE_FALLOCATE);
    assert(fuse_opcode::FUSE_FALLOCATE.spec_number() == 43);
    lemma_opcode_numbers(fuse_opcode::FUSE_READDIRPLUS);
    assert(fuse_opcode::FUSE_READDIRPLUS.spec_number() == 44);
    lemma_opcode_numbers(fuse_opcode::FUSE_RENAME2);
    assert(fuse_opcode::FUSE_RENAME2.spec_number() == 45);
    lemma_opcode_numbers(fuse_opcode::FUSE_LSEEK);
    assert(fuse_opcode::FUSE_LSEEK.spec_number() == 46);
    lemma_opcode_numbers(fuse_opcode::FUSE_COPY_FILE_RANGE);
    assert(fuse_opcode::FUSE_COPY_FILE_RANGE.spec_number() == 47);
    lemma_opcode_numbers(fuse_opcode::CUSE_INIT);
    assert(fuse_opcode::CUSE_INIT.spec_number() == 4096);
    assert(exists|code: fuse_opcode| #[trigger] code.spec_number() == n);
}

} // verus!
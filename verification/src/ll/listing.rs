//! What can be read of a directory listing.

use vstd::prelude::*;

use crate::ll::fuse_abi::fuse_dirent;
use crate::ll::reply::{aligned, aligned_entry, lemma_entry_len, DirEntry, DirEntryPlus, EntListBuf};
use crate::ll::wire::{
    group_fields, group_lengths, holds_from, u32_at, u32_bytes, u64_at, u64_bytes, IntoBytes,
};

verus! {

broadcast use {group_lengths, group_fields};

/// An entry as it is read.
#[verifier::ext_equal]
pub ghost struct Listed {
    /// What stands before the entry itself: nothing, or its attributes.
    pub front: Seq<u8>,
    pub ino: u64,
    pub off: u64,
    pub typ: u32,
    pub name: Seq<u8>,
}

/// How many bytes the first entry takes; `front` bytes stand before each entry itself.
pub open spec fn entry_size(bytes: Seq<u8>, front: int) -> int {
    aligned(front + 24 + u32_at(bytes, front + 16))
}

/// The first entry.
pub open spec fn first_entry(bytes: Seq<u8>, front: int) -> Listed {
    Listed {
        front: bytes.take(front),
        ino: u64_at(bytes, front),
        off: u64_at(bytes, front + 8),
        typ: u32_at(bytes, front + 20),
        name: bytes.subrange(front + 24, front + 24 + u32_at(bytes, front + 16)),
    }
}

/// The entries that are read one after the other, where they end with the bytes.
pub open spec fn listing(bytes: Seq<u8>, front: int) -> Option<Seq<Listed>>
    decreases bytes.len(),
{
    if bytes.len() == 0 {
        Some(Seq::empty())
    } else if front < 0 || bytes.len() < front + 24 || bytes.len() < entry_size(bytes, front) {
        None
    } else {
        match listing(bytes.skip(entry_size(bytes, front)), front) {
            Some(rest) => Some(seq![first_entry(bytes, front)] + rest),
            None => None,
        }
    }
}

/// What is read of two listings one behind the other is what is read of each.
pub proof fn lemma_listings_join(a: Seq<u8>, b: Seq<u8>, front: int)
    requires
        listing(a, front) is Some,
        listing(b, front) is Some,
    ensures
        listing(a + b, front) == Some(listing(a, front)->0 + listing(b, front)->0),
    decreases a.len(),
{
    if a.len() == 0 {
        assert(a + b =~= b);
        assert(listing(a, front)->0 + listing(b, front)->0 =~= listing(b, front)->0);
    } else {
        let size = entry_size(a, front);
        let rest = a.skip(size);
        lemma_listings_join(rest, b, front);
        assert(entry_size(a + b, front) == size);
        assert((a + b).skip(size) =~= rest + b);
        assert(first_entry(a + b, front) =~= first_entry(a, front));
        assert(listing(a + b, front)->0 =~= listing(a, front)->0 + listing(b, front)->0);
    }
}

/// What is read of one entry.
proof fn lemma_one_entry(before: Seq<u8>, d: fuse_dirent, name: Seq<u8>)
    requires
        d.namelen == name.len(),
    ensures
        listing(aligned_entry(before + d.spec_bytes() + name), before.len() as int) == Some(
            seq![Listed { front: before, ino: d.ino, off: d.off, typ: d.typ, name }],
        ),
{
    let front = before.len() as int;
    let entry = before + d.spec_bytes() + name;
    let bytes = aligned_entry(entry);
    let pad = bytes.skip(entry.len() as int);
    let tail = u32_bytes(d.typ) + (name + pad);
    assert(holds_from(
        bytes,
        front,
        u64_bytes(d.ino) + (u64_bytes(d.off) + (u32_bytes(d.namelen) + tail)),
    )) by {
        assert(bytes.skip(front) =~= u64_bytes(d.ino) + (u64_bytes(d.off) + (u32_bytes(
            d.namelen,
        ) + tail)));
    }
    assert(u32_at(bytes, front + 16) == d.namelen);
    assert(entry_size(bytes, front) == bytes.len());
    assert(bytes.skip(entry_size(bytes, front)) =~= Seq::<u8>::empty());
    assert(first_entry(bytes, front) =~= Listed {
        front: before,
        ino: d.ino,
        off: d.off,
        typ: d.typ,
        name,
    });
    assert(listing(Seq::<u8>::empty(), front) == Some(Seq::<Listed>::empty()));
    assert(seq![first_entry(bytes, front)] + Seq::<Listed>::empty() =~= seq![
        first_entry(bytes, front),
    ]);
}

/// What is read of a directory entry.
pub open spec fn as_listed(entry: DirEntry) -> Listed {
    Listed {
        front: Seq::empty(),
        ino: entry.ino.0,
        off: entry.offset.0,
        typ: crate::ll::reply::dirent_type(entry.kind),
        name: entry.name@,
    }
}

/// A directory listing reads as the entries that were added to it: one that was added is read
/// behind those before it, and one for which there was no room leaves them as they were.
pub proof fn lemma_listing_grows(before: EntListBuf, entry: DirEntry, after: EntListBuf)
    requires
        listing(before.buf@, 0) is Some,
        entry.name@.len() <= u32::MAX,
        EntListBuf::pushed(before, entry.spec_bytes(), after),
    ensures
        listing(after.buf@, 0) == Some(
            if before.full_for(entry.spec_bytes()) {
                listing(before.buf@, 0)->0
            } else {
                listing(before.buf@, 0)->0.push(as_listed(entry))
            },
        ),
{
    if !before.full_for(entry.spec_bytes()) {
        let d = fuse_dirent {
            ino: entry.ino.0,
            off: entry.offset.0,
            namelen: entry.name@.len() as u32,
            typ: crate::ll::reply::dirent_type(entry.kind),
        };
        let before_entry = Seq::<u8>::empty();
        lemma_one_entry(before_entry, d, entry.name@);
        assert(before_entry + d.spec_bytes() + entry.name@ =~= entry.spec_bytes());
        lemma_listings_join(before.buf@, aligned_entry(entry.spec_bytes()), 0);
        assert(listing(before.buf@, 0)->0 + seq![as_listed(entry)] =~= listing(
            before.buf@,
            0,
        )->0.push(as_listed(entry)));
    }
}

/// What is read of a directory entry with its attributes.
pub open spec fn as_listed_plus(entry: DirEntryPlus) -> Listed {
    Listed {
        front: entry.spec_header().entry_out.spec_bytes(),
        ino: entry.attr.attr.ino,
        off: entry.offset.0,
        typ: entry.attr.attr.mode >> 12,
        name: entry.name@,
    }
}

/// A directory listing with attributes reads as the entries that were added to it.
pub proof fn lemma_listing_plus_grows(before: EntListBuf, entry: DirEntryPlus, after: EntListBuf)
    requires
        listing(before.buf@, 128) is Some,
        entry.name@.len() <= u32::MAX,
        EntListBuf::pushed(before, entry.spec_bytes(), after),
    ensures
        listing(after.buf@, 128) == Some(
            if before.full_for(entry.spec_bytes()) {
                listing(before.buf@, 128)->0
            } else {
                listing(before.buf@, 128)->0.push(as_listed_plus(entry))
            },
        ),
{
    if !before.full_for(entry.spec_bytes()) {
        let header = entry.spec_header();
        let before_entry = header.entry_out.spec_bytes();
        lemma_entry_len(header.entry_out);
        lemma_one_entry(before_entry, header.dirent, entry.name@);
        assert(before_entry + header.dirent.spec_bytes() + entry.name@ =~= entry.spec_bytes());
        lemma_listings_join(before.buf@, aligned_entry(entry.spec_bytes()), 128);
        assert(listing(before.buf@, 128)->0 + seq![as_listed_plus(entry)] =~= listing(
            before.buf@,
            128,
        )->0.push(as_listed_plus(entry)));
    }
}

} // verus!

//! The table of mounted filesystems, as `/etc/mtab` and `/proc/mounts` hold it.

use vstd::prelude::*;
use vstd::slice::slice_subrange;

verus! {

/// Whether `b` separates fields: a space, a tab, a line feed, a form feed or a carriage return.
pub open spec fn is_space(b: u8) -> bool {
    b == 0x20 || b == 0x09 || b == 0x0a || b == 0x0c || b == 0x0d
}

/// Whether `n` is the first position of `s` at which there is a space, or none where `space` is
/// false; the length of `s` stands for no such position.
pub open spec fn is_first(s: Seq<u8>, space: bool, n: int) -> bool {
    &&& 0 <= n <= s.len()
    &&& forall|k: int| 0 <= k < n ==> is_space(#[trigger] s[k]) != space
    &&& n < s.len() ==> is_space(s[n]) == space
}

/// The first position of `s` at which there is a space, or none where `space` is false.
pub open spec fn first(s: Seq<u8>, space: bool) -> int {
    choose|n: int| is_first(s, space, n)
}

/// There is only one first position.
proof fn lemma_first(s: Seq<u8>, space: bool, n: int)
    requires
        is_first(s, space, n),
    ensures
        first(s, space) == n,
{
    let m = first(s, space);
    assert(is_first(s, space, m));
    if m < n {
        assert(is_space(s[m]) != space);
    } else if n < m {
        assert(is_space(s[n]) != space);
    }
}

/// The first position of `s` at which there is a space, or none where `space` is false.
fn find(s: &[u8], space: bool) -> (n: usize)
    ensures
        n == first(s@, space),
        n <= s@.len(),
{
    let mut n: usize = 0;
    while n < s.len()
        invariant
            n <= s@.len(),
            forall|k: int| 0 <= k < n ==> is_space(#[trigger] s@[k]) != space,
        decreases s.len() - n,
    {
        let b: u8 = s[n];
        if (b == 0x20 || b == 0x09 || b == 0x0a || b == 0x0c || b == 0x0d) == space {
            proof {
                lemma_first(s@, space, n as int);
            }
            return n;
        }
        n += 1;
    }
    proof {
        lemma_first(s@, space, n as int);
    }
    n
}

/// The second and the third field of a line, where something follows each of them: the path, as it
/// is written, and the type of the filesystem.
pub open spec fn path_and_type(line: Seq<u8>) -> Option<(Seq<u8>, Seq<u8>)> {
    let after_source = line.skip(first(line, true));
    let at_path = after_source.skip(first(after_source, false));
    let path = at_path.take(first(at_path, true));
    let after_path = at_path.skip(first(at_path, true));
    let at_type = after_path.skip(first(after_path, false));
    let fstype = at_type.take(first(at_type, true));
    if after_source.len() == 0 || at_path.len() == 0 || after_path.len() == 0 || at_type.len() == 0
        || fstype.len() == at_type.len() {
        None
    } else {
        Some((path, fstype))
    }
}

/// The path and the type that a line names.
fn fields<'a>(line: &'a [u8]) -> (r: Option<(&'a [u8], &'a [u8])>)
    ensures
        match r {
            Some((path, fstype)) => path_and_type(line@) == Some((path@, fstype@)),
            None => path_and_type(line@) is None,
        },
{
    let n: usize = find(line, true);
    let after_source: &'a [u8] = slice_subrange(line, n, line.len());
    assert(after_source@ =~= line@.skip(n as int));
    if after_source.len() == 0 {
        return None;
    }
    let n: usize = find(after_source, false);
    let at_path: &'a [u8] = slice_subrange(after_source, n, after_source.len());
    assert(at_path@ =~= after_source@.skip(n as int));
    if at_path.len() == 0 {
        return None;
    }
    let n: usize = find(at_path, true);
    let path: &'a [u8] = slice_subrange(at_path, 0, n);
    assert(path@ =~= at_path@.take(n as int));
    let after_path: &'a [u8] = slice_subrange(at_path, n, at_path.len());
    assert(after_path@ =~= at_path@.skip(n as int));
    if after_path.len() == 0 {
        return None;
    }
    let n: usize = find(after_path, false);
    let at_type: &'a [u8] = slice_subrange(after_path, n, after_path.len());
    assert(at_type@ =~= after_path@.skip(n as int));
    if at_type.len() == 0 {
        return None;
    }
    let n: usize = find(at_type, true);
    let fstype: &'a [u8] = slice_subrange(at_type, 0, n);
    assert(fstype@ =~= at_type@.take(n as int));
    if n == at_type.len() {
        return None;
    }
    Some((path, fstype))
}

/// The value of an octal digit.
pub open spec fn octal_value(digit: u8) -> Option<u8> {
    if 0x30 <= digit <= 0x37 {
        Some((digit - 0x30) as u8)
    } else {
        None
    }
}

/// The value of an octal digit.
pub fn oct_digit(digit: u8) -> (r: Option<u8>)
    ensures
        r == octal_value(digit),
{
    if 0x30 <= digit && digit <= 0x37 {
        Some(digit - 0x30)
    } else {
        None
    }
}

/// What a field is decoded to: a backslash and three octal digits stand for the byte with that
/// number, of which the low eight bits count. A backslash before anything else is an error.
pub open spec fn decoded_field(s: Seq<u8>) -> Option<Seq<u8>>
    decreases s.len(),
{
    if s.len() == 0 {
        Some(Seq::empty())
    } else if s[0] != 0x5c {
        match decoded_field(s.skip(1)) {
            Some(rest) => Some(seq![s[0]] + rest),
            None => None,
        }
    } else if s.len() < 4 {
        None
    } else {
        match (octal_value(s[1]), octal_value(s[2]), octal_value(s[3])) {
            (Some(a), Some(b), Some(c)) => match decoded_field(s.skip(4)) {
                Some(rest) => Some(seq![((a * 64 + b * 8 + c) % 256) as u8] + rest),
                None => None,
            },
            _ => None,
        }
    }
}

/// Decodes a field.
pub fn decode_mtab_str(s: &[u8]) -> (r: Option<Vec<u8>>)
    ensures
        match r {
            Some(out) => decoded_field(s@) == Some(out@),
            None => decoded_field(s@) is None,
        },
{
    let mut out: Vec<u8> = Vec::new();
    let mut i: usize = 0;
    proof {
        assert(s@.skip(0) =~= s@);
        if let Some(rest) = decoded_field(s@) {
            assert(out@ + rest =~= rest);
        }
    }
    while i < s.len()
        invariant
            i <= s@.len(),
            match decoded_field(s@.skip(i as int)) {
                Some(rest) => decoded_field(s@) == Some(out@ + rest),
                None => decoded_field(s@) is None,
            },
        decreases s.len() - i,
    {
        let ghost tail = s@.skip(i as int);
        let ghost before = out@;
        if s[i] != 0x5c {
            out.push(s[i]);
            proof {
                assert(tail.skip(1) =~= s@.skip(i + 1));
                if let Some(rest) = decoded_field(tail.skip(1)) {
                    assert(before + (seq![tail[0]] + rest) =~= out@ + rest);
                }
            }
            i += 1;
        } else {
            if s.len() - i < 4 {
                return None;
            }
            let a: u8 = match oct_digit(s[i + 1]) {
                Some(a) => a,
                None => return None,
            };
            let b: u8 = match oct_digit(s[i + 2]) {
                Some(b) => b,
                None => return None,
            };
            let c: u8 = match oct_digit(s[i + 3]) {
                Some(c) => c,
                None => return None,
            };
            let byte: u8 = (a << 6) | (b << 3) | c;
            assert(byte == (a * 64 + b * 8 + c) % 256) by (bit_vector)
                requires
                    byte == (a << 6) | (b << 3) | c,
                    a < 8,
                    b < 8,
                    c < 8,
            ;
            out.push(byte);
            proof {
                assert(tail.skip(4) =~= s@.skip(i + 4));
                if let Some(rest) = decoded_field(tail.skip(4)) {
                    assert(before + (seq![byte] + rest) =~= out@ + rest);
                }
            }
            i += 4;
        }
    }
    proof {
        assert(s@.skip(i as int) =~= Seq::<u8>::empty());
        assert(out@ + Seq::<u8>::empty() =~= out@);
    }
    Some(out)
}

/// A field as the kernel writes it: spaces, tabs, line feeds and backslashes as octal numbers.
pub open spec fn encoded_field(s: Seq<u8>) -> Seq<u8>
    decreases s.len(),
{
    if s.len() == 0 {
        Seq::empty()
    } else {
        (if s[0] == 0x20 {
            seq![0x5cu8, 0x30, 0x34, 0x30]
        } else if s[0] == 0x09 {
            seq![0x5cu8, 0x30, 0x31, 0x31]
        } else if s[0] == 0x0a {
            seq![0x5cu8, 0x30, 0x31, 0x32]
        } else if s[0] == 0x5c {
            seq![0x5cu8, 0x31, 0x33, 0x34]
        } else {
            seq![s[0]]
        }) + encoded_field(s.skip(1))
    }
}

/// Decoding gives back what the kernel wrote.
pub proof fn lemma_decode_encoded_field(s: Seq<u8>)
    ensures
        decoded_field(encoded_field(s)) == Some(s),
    decreases s.len(),
{
    if s.len() > 0 {
        let e = encoded_field(s);
        let rest = encoded_field(s.skip(1));
        lemma_decode_encoded_field(s.skip(1));
        assert(seq![s[0]] + s.skip(1) =~= s);
        if s[0] == 0x20 || s[0] == 0x09 || s[0] == 0x0a || s[0] == 0x5c {
            assert(e.skip(4) =~= rest);
        } else {
            assert(e.skip(1) =~= rest);
        }
    }
}

pub open spec fn fuse_name() -> Seq<u8> {
    seq![0x66u8, 0x75, 0x73, 0x65]
}

pub open spec fn fuseblk_name() -> Seq<u8> {
    seq![0x66u8, 0x75, 0x73, 0x65, 0x62, 0x6c, 0x6b]
}

/// Whether the bytes of `s` from the front on are those of `prefix`.
pub open spec fn has_prefix(s: Seq<u8>, prefix: Seq<u8>) -> bool {
    s.len() >= prefix.len() && s.take(prefix.len() as int) == prefix
}

/// Whether a type is that of a FUSE filesystem: `fuse` or `fuseblk`, alone or with a subtype behind
/// a dot.
pub open spec fn is_fuse_type(fstype: Seq<u8>) -> bool {
    ||| fstype == fuse_name()
    ||| fstype == fuseblk_name()
    ||| has_prefix(fstype, fuse_name().push(0x2e))
    ||| has_prefix(fstype, fuseblk_name().push(0x2e))
}

/// Whether two lists of bytes are the same.
fn same_bytes(a: &[u8], b: &[u8]) -> (r: bool)
    ensures
        r == (a@ == b@),
{
    if a.len() != b.len() {
        return false;
    }
    let mut i: usize = 0;
    while i < a.len()
        invariant
            i <= a@.len(),
            a@.len() == b@.len(),
            forall|k: int| 0 <= k < i ==> a@[k] == b@[k],
        decreases a.len() - i,
    {
        if a[i] != b[i] {
            return false;
        }
        i += 1;
    }
    assert(a@ =~= b@);
    true
}

/// Whether `s` begins with `prefix`.
fn starts_with(s: &[u8], prefix: &[u8]) -> (r: bool)
    ensures
        r == has_prefix(s@, prefix@),
{
    if s.len() < prefix.len() {
        return false;
    }
    let front: &[u8] = slice_subrange(s, 0, prefix.len());
    assert(front@ =~= s@.take(prefix@.len() as int));
    same_bytes(front, prefix)
}

/// Whether a type is that of a FUSE filesystem.
pub fn fuse_type(fstype: &[u8]) -> (r: bool)
    ensures
        r == is_fuse_type(fstype@),
{
    let fuse: [u8; 5] = [0x66, 0x75, 0x73, 0x65, 0x2e];
    let fuseblk: [u8; 8] = [0x66, 0x75, 0x73, 0x65, 0x62, 0x6c, 0x6b, 0x2e];
    let fuse_only: &[u8] = slice_subrange(fuse.as_slice(), 0, 4);
    let fuseblk_only: &[u8] = slice_subrange(fuseblk.as_slice(), 0, 7);
    assert(fuse@ =~= fuse_name().push(0x2e));
    assert(fuseblk@ =~= fuseblk_name().push(0x2e));
    assert(fuse_only@ =~= fuse_name());
    assert(fuseblk_only@ =~= fuseblk_name());
    same_bytes(fstype, fuse_only) || same_bytes(fstype, fuseblk_only) || starts_with(
        fstype,
        fuse.as_slice(),
    ) || starts_with(fstype, fuseblk.as_slice())
}

/// Whether a line is that of a FUSE filesystem that is mounted at `mountpoint`.
pub open spec fn line_matches(line: Seq<u8>, mountpoint: Seq<u8>) -> bool {
    match path_and_type(line) {
        Some((path, fstype)) => decoded_field(path) == Some(mountpoint) && is_fuse_type(fstype),
        None => false,
    }
}

/// Whether a line is that of a FUSE filesystem that is mounted at `mountpoint`.
fn check_line(line: &[u8], mountpoint: &[u8]) -> (r: bool)
    ensures
        r == line_matches(line@, mountpoint@),
{
    match fields(line) {
        Some((path, fstype)) => match decode_mtab_str(path) {
            Some(path) => same_bytes(path.as_slice(), mountpoint) && fuse_type(fstype),
            None => false,
        },
        None => false,
    }
}

/// Whether the first line of `s` ends before position `n`: with a line feed, or with `s`.
pub open spec fn line_ends(s: Seq<u8>, n: int) -> bool {
    &&& 1 <= n <= s.len()
    &&& forall|k: int| 0 <= k < n - 1 ==> s[k] != 0x0a
    &&& n == s.len() || s[n - 1] == 0x0a
}

/// The length of the first line of `s`, with the line feed that ends it.
pub open spec fn line_len(s: Seq<u8>) -> int {
    choose|n: int| line_ends(s, n)
}

/// There is only one end of a line.
proof fn lemma_line_len(s: Seq<u8>, n: int)
    requires
        line_ends(s, n),
    ensures
        line_len(s) == n,
{
    let m = line_len(s);
    assert(line_ends(s, m));
    if m < n {
        assert(s[m - 1] != 0x0a);
    } else if n < m {
        assert(s[n - 1] != 0x0a);
    }
}

/// What is not empty has a first line.
proof fn lemma_line_exists(s: Seq<u8>, from: int)
    requires
        s.len() > 0,
        0 <= from < s.len(),
        forall|k: int| 0 <= k < from ==> s[k] != 0x0a,
    ensures
        line_ends(s, line_len(s)),
    decreases s.len() - from,
{
    if s[from] == 0x0a || from + 1 == s.len() {
        assert(line_ends(s, from + 1));
        lemma_line_len(s, from + 1);
    } else {
        lemma_line_exists(s, from + 1);
    }
}

/// Whether some line of `table` is that of a FUSE filesystem that is mounted at `mountpoint`.
pub open spec fn lists_mount(table: Seq<u8>, mountpoint: Seq<u8>) -> bool
    decreases table.len(),
{
    if table.len() == 0 || !(1 <= line_len(table) <= table.len()) {
        false
    } else {
        line_matches(table.take(line_len(table)), mountpoint) || lists_mount(
            table.skip(line_len(table)),
            mountpoint,
        )
    }
}

/// Whether some line of `table` is that of a FUSE filesystem that is mounted at `mountpoint`.
pub fn should_auto_unmount(table: &[u8], mountpoint: &[u8]) -> (r: bool)
    ensures
        r == lists_mount(table@, mountpoint@),
{
    let mut at: usize = 0;
    assert(table@.skip(0) =~= table@);
    while at < table.len()
        invariant
            at <= table@.len(),
            lists_mount(table@, mountpoint@) == lists_mount(table@.skip(at as int), mountpoint@),
        decreases table.len() - at,
    {
        let ghost rest = table@.skip(at as int);
        let mut end: usize = at;
        while end < table.len() && table[end] != 0x0a
            invariant
                at <= end <= table@.len(),
                rest == table@.skip(at as int),
                forall|k: int| 0 <= k < end - at ==> rest[k] != 0x0a,
            decreases table.len() - end,
        {
            assert(rest[end - at] == table@[end as int]);
            end += 1;
        }
        if end < table.len() {
            end += 1;
        }
        let line: &[u8] = slice_subrange(table, at, end);
        proof {
            let n = end - at;
            assert forall|k: int| 0 <= k < rest.len() implies rest[k] == table@[at + k] by {}
            assert(line_ends(rest, n));
            lemma_line_len(rest, n);
            assert(line@ =~= rest.take(n));
            assert(rest.skip(n) =~= table@.skip(end as int));
        }
        if check_line(line, mountpoint) {
            return true;
        }
        at = end;
    }
    assert(table@.skip(at as int).len() == 0);
    false
}

/// A table lists a mount where its first line or the rest of it does.
pub proof fn lemma_lists_line_by_line(table: Seq<u8>, mountpoint: Seq<u8>)
    requires
        table.len() > 0,
    ensures
        lists_mount(table, mountpoint) == (line_matches(table.take(line_len(table)), mountpoint)
            || lists_mount(table.skip(line_len(table)), mountpoint)),
{
    lemma_line_exists(table, 0);
}

/// Whether no byte of `s` separates fields.
pub open spec fn no_space(s: Seq<u8>) -> bool {
    forall|k: int| 0 <= k < s.len() ==> !is_space(#[trigger] s[k])
}

/// What the kernel writes of a field separates no fields, unless the field holds a form feed or a
/// carriage return, which the kernel writes as they are.
proof fn lemma_encoded_no_space(s: Seq<u8>)
    requires
        forall|k: int| 0 <= k < s.len() ==> s[k] != 0x0c && s[k] != 0x0d,
    ensures
        no_space(encoded_field(s)),
        encoded_field(s).len() >= s.len(),
    decreases s.len(),
{
    if s.len() > 0 {
        let t = s.skip(1);
        assert forall|k: int| 0 <= k < t.len() implies t[k] != 0x0c && t[k] != 0x0d by {
            assert(t[k] == s[k + 1]);
        }
        lemma_encoded_no_space(t);
        let e = encoded_field(s);
        let rest = encoded_field(t);
        assert forall|k: int| 0 <= k < e.len() implies !is_space(#[trigger] e[k]) by {
            let n = e.len() - rest.len();
            if k >= n {
                assert(e[k] == rest[k - n]);
            }
        }
    }
}

/// The field that a text begins with ends at the space behind it.
proof fn lemma_field_ends(field: Seq<u8>, rest: Seq<u8>)
    requires
        no_space(field),
    ensures
        first(field + (seq![0x20u8] + rest), true) == field.len(),
        (field + (seq![0x20u8] + rest)).skip(field.len() as int) == seq![0x20u8] + rest,
        (field + (seq![0x20u8] + rest)).take(field.len() as int) == field,
{
    let s = field + (seq![0x20u8] + rest);
    assert(is_first(s, true, field.len() as int));
    lemma_first(s, true, field.len() as int);
    assert(s.skip(field.len() as int) =~= seq![0x20u8] + rest);
    assert(s.take(field.len() as int) =~= field);
}

/// Behind a space the next field begins.
proof fn lemma_field_begins(rest: Seq<u8>)
    requires
        rest.len() > 0,
        !is_space(rest[0]),
    ensures
        first(seq![0x20u8] + rest, false) == 1,
        (seq![0x20u8] + rest).skip(1) == rest,
{
    let s = seq![0x20u8] + rest;
    assert(s[1] == rest[0]);
    assert(is_first(s, false, 1));
    lemma_first(s, false, 1);
    assert(s.skip(1) =~= rest);
}

/// The line that the kernel writes of a FUSE filesystem is one of a mount at its path, unless the
/// path holds a form feed or a carriage return.
pub proof fn lemma_mount_line_matches(
    source: Seq<u8>,
    path: Seq<u8>,
    fstype: Seq<u8>,
    rest: Seq<u8>,
)
    requires
        no_space(source),
        path.len() > 0,
        forall|k: int| 0 <= k < path.len() ==> path[k] != 0x0c && path[k] != 0x0d,
        no_space(fstype),
        is_fuse_type(fstype),
    ensures
        line_matches(
            source + (seq![0x20u8] + (encoded_field(path) + (seq![0x20u8] + (fstype + (seq![0x20u8]
                + rest))))),
            path,
        ),
{
    let e = encoded_field(path);
    let from_type = fstype + (seq![0x20u8] + rest);
    let from_path = e + (seq![0x20u8] + from_type);
    lemma_encoded_no_space(path);
    lemma_decode_encoded_field(path);
    lemma_field_ends(source, from_path);
    assert(!is_space(e[0]));
    assert(from_path[0] == e[0]);
    lemma_field_begins(from_path);
    lemma_field_ends(e, from_type);
    assert(fstype.len() > 0) by {
        if fstype.len() == 0 {
            assert(fuse_name().len() == 4);
        }
    }
    assert(!is_space(fstype[0]));
    assert(from_type[0] == fstype[0]);
    lemma_field_begins(from_type);
    lemma_field_ends(fstype, rest);
}

/// Which table is read.
#[derive(Clone, Copy, Debug, PartialEq, Eq, Structural)]
pub enum MtabPath {
    /// `/etc/mtab`
    Etc,
    /// `/proc/mounts`
    Proc,
}

/// The table that is read, given which of them exist: `/etc/mtab` before `/proc/mounts`.
pub fn mtab_path(etc_exists: bool, proc_exists: bool) -> (r: Option<MtabPath>)
    ensures
        r == (if etc_exists {
            Some(MtabPath::Etc)
        } else if proc_exists {
            Some(MtabPath::Proc)
        } else {
            None
        }),
{
    if etc_exists {
        Some(MtabPath::Etc)
    } else if proc_exists {
        Some(MtabPath::Proc)
    } else {
        None
    }
}

/// The types of FUSE filesystems, letter by letter: `fuse` and `fuseblk`, and these with a dot
/// behind.
pub proof fn lemma_fuse_types(fstype: Seq<u8>)
    ensures
        is_fuse_type(fstype) <==> {
            ||| fstype == seq!['f' as u8, 'u' as u8, 's' as u8, 'e' as u8]
            ||| fstype == seq![
                'f' as u8,
                'u' as u8,
                's' as u8,
                'e' as u8,
                'b' as u8,
                'l' as u8,
                'k' as u8,
            ]
            ||| fstype.len() >= 5 && fstype.take(5) == seq![
                'f' as u8,
                'u' as u8,
                's' as u8,
                'e' as u8,
                '.' as u8,
            ]
            ||| fstype.len() >= 8 && fstype.take(8) == seq![
                'f' as u8,
                'u' as u8,
                's' as u8,
                'e' as u8,
                'b' as u8,
                'l' as u8,
                'k' as u8,
                '.' as u8,
            ]
        },
{
    assert(fuse_name() =~= seq!['f' as u8, 'u' as u8, 's' as u8, 'e' as u8]);
    assert(fuseblk_name() =~= seq![
        'f' as u8,
        'u' as u8,
        's' as u8,
        'e' as u8,
        'b' as u8,
        'l' as u8,
        'k' as u8,
    ]);
    assert(fuse_name().push(0x2e) =~= seq!['f' as u8, 'u' as u8, 's' as u8, 'e' as u8, '.' as u8]);
    assert(fuseblk_name().push(0x2e) =~= seq![
        'f' as u8,
        'u' as u8,
        's' as u8,
        'e' as u8,
        'b' as u8,
        'l' as u8,
        'k' as u8,
        '.' as u8,
    ]);
}

/// A digit stands for its value, and nothing but the digits from zero to seven is one.
pub proof fn lemma_octal_digits(digit: u8, r: Option<u8>)
    requires
        call_ensures(oct_digit, (digit,), r),
    ensures
        r matches Some(v) ==> v < 8 && digit == '0' as u8 + v,
        r is None <==> digit < '0' as u8 || digit > '7' as u8,
{
}

/// A field without a backslash is what it says, and a backslash is decoded with the three digits
/// behind it, of which the first counts for sixty-four, the second for eight and the third for one.
pub proof fn lemma_field_is_decoded(s: Seq<u8>)
    ensures
        s.len() == 0 ==> decoded_field(s) == Some(Seq::<u8>::empty()),
        s.len() > 0 && s[0] != '\\' as u8 ==> match decoded_field(s.skip(1)) {
            Some(rest) => decoded_field(s) == Some(seq![s[0]] + rest),
            None => decoded_field(s) is None,
        },
        s.len() >= 4 && s[0] == '\\' as u8 && '0' as u8 <= s[1] <= '3' as u8 && '0' as u8 <= s[2]
            <= '7' as u8 && '0' as u8 <= s[3] <= '7' as u8 ==> match decoded_field(s.skip(4)) {
            Some(rest) => decoded_field(s) == Some(
                seq![((s[1] - 48) * 64 + (s[2] - 48) * 8 + (s[3] - 48)) as u8] + rest,
            ),
            None => decoded_field(s) is None,
        },
{
}

/// Whether the processes of a mount are to be unmounted is looked up in the table of the system, or
/// else in that of the process.
pub proof fn lemma_table_is_found(etc_exists: bool, proc_exists: bool, r: Option<MtabPath>)
    requires
        call_ensures(mtab_path, (etc_exists, proc_exists), r),
    ensures
        r is None <==> !etc_exists && !proc_exists,
        etc_exists <==> (r matches Some(table) && table is Etc),
{
}

/// Fields are parted by blanks, tabs and the ends of lines and pages, and by nothing else.
pub proof fn lemma_fields_are_parted(b: u8)
    ensures
        is_space(b) <==> b == ' ' as u8 || b == '\t' as u8 || b == '\n' as u8 || b == '\r' as u8
            || b
            == 12,
{
}

/// A field with a backslash that three digits do not follow cannot be decoded.
pub proof fn lemma_field_is_broken(s: Seq<u8>)
    requires
        s.len() > 0,
        s[0] == '\\' as u8,
        s.len() < 4 || !('0' as u8 <= s[1] <= '7' as u8) || !('0' as u8 <= s[2] <= '7' as u8) || !(
        '0' as u8 <= s[3] <= '7' as u8),
    ensures
        decoded_field(s) is None,
{
}

/// What counts of a line: the mountpoint is its second field and the type its third, and behind
/// that something follows.
pub proof fn lemma_second_and_third_field(
    source: Seq<u8>,
    path: Seq<u8>,
    fstype: Seq<u8>,
    rest: Seq<u8>,
)
    requires
        no_space(source),
        no_space(path),
        no_space(fstype),
        path.len() > 0,
        fstype.len() > 0,
    ensures
        path_and_type(
            source + (seq![' ' as u8] + (path + (seq![' ' as u8] + (fstype + (seq![' ' as u8]
                + rest))))),
        ) == Some((path, fstype)),
{
    let from_type = fstype + (seq![0x20u8] + rest);
    let from_path = path + (seq![0x20u8] + from_type);
    let line = source + (seq![0x20u8] + from_path);
    lemma_field_ends(source, from_path);
    lemma_field_ends(path, from_type);
    lemma_field_ends(fstype, rest);
    let after_source = seq![0x20u8] + from_path;
    assert(from_path[0] == path[0]);
    assert(is_first(after_source, false, 1));
    lemma_first(after_source, false, 1);
    assert(after_source.skip(1) =~= from_path);
    let after_path = seq![0x20u8] + from_type;
    assert(from_type[0] == fstype[0]);
    assert(is_first(after_path, false, 1));
    lemma_first(after_path, false, 1);
    assert(after_path.skip(1) =~= from_type);
    assert(line.skip(first(line, true)) == after_source);
    assert(from_path.skip(first(from_path, true)) == after_path);
    assert(from_type.take(first(from_type, true)) == fstype);
}

} // verus!

//! Lists of options: how they are written, and what whoever splits them at commas and decodes
//! backslashes reads.

use vstd::prelude::*;
use vstd::string::StringExecFns;

use crate::kernel_config::SessionACL;
use crate::mnt::mount_options::{
    escaped, option_escaped_text, option_text, option_to_escaped_string,
    option_to_string, option_value, valid_value, MountOption,
};

verus! {

/// What the strings of a list hold, in order.
pub open spec fn texts_of(list: Seq<String>) -> Seq<Seq<char>> {
    list.map_values(|s: String| s@)
}

/// The texts with a comma between each two.
pub open spec fn comma_joined(texts: Seq<Seq<char>>) -> Seq<char>
    decreases texts.len(),
{
    if texts.len() == 0 {
        Seq::empty()
    } else if texts.len() == 1 {
        texts[0]
    } else {
        comma_joined(texts.drop_last()) + seq![','] + texts.last()
    }
}

/// Puts a comma between each two of the texts.
pub fn join(list: &Vec<String>) -> (r: String)
    ensures
        r@ == comma_joined(texts_of(list@)),
{
    let ghost texts = texts_of(list@);
    let mut out = String::new();
    let mut i: usize = 0;
    assert(texts.take(0) =~= Seq::<Seq<char>>::empty());
    while i < list.len()
        invariant
            i <= list@.len(),
            texts == texts_of(list@),
            out@ == comma_joined(texts.take(i as int)),
        decreases list.len() - i,
    {
        proof {
            assert(texts.take(i + 1).drop_last() =~= texts.take(i as int));
            assert(texts.take(i + 1).last() == texts[i as int]);
        }
        if i > 0 {
            out.push(',');
        }
        out.append(list[i].as_str());
        i += 1;
        assert(out@ =~= comma_joined(texts.take(i as int)));
    }
    assert(texts.take(i as int) =~= texts);
    out
}

impl SessionACL {
    /// The mount option that lets the users in, where it takes one. The kernel knows of all users
    /// only: who is root and who is the owner is told apart later.
    pub open spec fn spec_mount_option(self) -> Option<Seq<char>> {
        match self {
            SessionACL::All | SessionACL::RootAndOwner => Some("allow_other"@),
            SessionACL::Owner => None,
        }
    }

    /// The mount option that lets the users in, where it takes one.
    pub fn to_mount_option(self) -> (r: Option<&'static str>)
        ensures
            match r {
                Some(s) => self.spec_mount_option() == Some(s@),
                None => self.spec_mount_option() is None,
            },
    {
        match self {
            SessionACL::All | SessionACL::RootAndOwner => Some("allow_other"),
            SessionACL::Owner => None,
        }
    }
}

/// The texts of the options, in order, and that of the access option.
pub open spec fn plain_texts(options: Seq<MountOption>, acl: SessionACL) -> Seq<Seq<char>> {
    let own = options.map_values(|o: MountOption| option_text(o));
    match acl.spec_mount_option() {
        Some(s) => own.push(s),
        None => own,
    }
}

/// The escaped texts of the options, in order, and that of the access option.
pub open spec fn escaped_texts(options: Seq<MountOption>, acl: SessionACL) -> Seq<Seq<char>> {
    let own = options.map_values(|o: MountOption| option_escaped_text(o));
    match acl.spec_mount_option() {
        Some(s) => own.push(s),
        None => own,
    }
}

/// The texts of the options, in order, and that of the access option.
pub fn plain_strings(options: &[MountOption], acl: SessionACL) -> (r: Vec<String>)
    ensures
        texts_of(r@) == plain_texts(options@, acl),
{
    let ghost own = options@.map_values(|o: MountOption| option_text(o));
    let mut list: Vec<String> = Vec::new();
    let mut i: usize = 0;
    assert(texts_of(list@) =~= own.take(0));
    while i < options.len()
        invariant
            i <= options@.len(),
            own == options@.map_values(|o: MountOption| option_text(o)),
            texts_of(list@) == own.take(i as int),
        decreases options.len() - i,
    {
        let ghost before = list@;
        list.push(option_to_string(&options[i]));
        assert(own[i as int] == option_text(options@[i as int]));
        assert(texts_of(list@) =~= texts_of(before).push(own[i as int]));
        assert(own.take(i + 1) =~= own.take(i as int).push(own[i as int]));
        i += 1;
    }
    assert(own.take(i as int) =~= own);
    if let Some(s) = acl.to_mount_option() {
        list.push(String::from_str(s));
    }
    assert(texts_of(list@) =~= plain_texts(options@, acl));
    list
}

/// The escaped texts of the options, in order, and that of the access option.
pub fn escaped_strings(options: &[MountOption], acl: SessionACL) -> (r: Vec<String>)
    ensures
        texts_of(r@) == escaped_texts(options@, acl),
{
    let ghost own = options@.map_values(|o: MountOption| option_escaped_text(o));
    let mut list: Vec<String> = Vec::new();
    let mut i: usize = 0;
    assert(texts_of(list@) =~= own.take(0));
    while i < options.len()
        invariant
            i <= options@.len(),
            own == options@.map_values(|o: MountOption| option_escaped_text(o)),
            texts_of(list@) == own.take(i as int),
        decreases options.len() - i,
    {
        let ghost before = list@;
        list.push(option_to_escaped_string(&options[i]));
        assert(own[i as int] == option_escaped_text(options@[i as int]));
        assert(texts_of(list@) =~= texts_of(before).push(own[i as int]));
        assert(own.take(i + 1) =~= own.take(i as int).push(own[i as int]));
        i += 1;
    }
    assert(own.take(i as int) =~= own);
    if let Some(s) = acl.to_mount_option() {
        list.push(String::from_str(s));
    }
    assert(texts_of(list@) =~= escaped_texts(options@, acl));
    list
}

/// Whether `c` is an octal digit.
pub open spec fn is_octal(c: char) -> bool {
    '0' <= c && c <= '7'
}

/// What `s` is decoded to: a backslash before three octal digits stands for the character with
/// that number, and before any other character for that character.
pub open spec fn decoded(s: Seq<char>) -> Seq<char>
    decreases s.len(),
{
    if s.len() == 0 {
        Seq::empty()
    } else if s[0] == '\\' && s.len() >= 4 && is_octal(s[1]) && is_octal(s[2]) && is_octal(s[3]) {
        seq![
            ((s[1] as int - 48) * 64 + (s[2] as int - 48) * 8 + (s[3] as int - 48)) as char,
        ] + decoded(s.skip(4))
    } else if s[0] == '\\' && s.len() >= 2 {
        seq![s[1]] + decoded(s.skip(2))
    } else {
        seq![s[0]] + decoded(s.skip(1))
    }
}

/// What `s` falls into where it is split at commas that no backslash stands before; `front` is
/// what came before `s` in the first piece.
pub open spec fn split_from(front: Seq<char>, s: Seq<char>) -> Seq<Seq<char>>
    decreases s.len(),
{
    if s.len() == 0 {
        seq![front]
    } else if s[0] == '\\' && s.len() >= 2 {
        split_from(front + s.take(2), s.skip(2))
    } else if s[0] == ',' {
        seq![front] + split_from(Seq::empty(), s.skip(1))
    } else {
        split_from(front.push(s[0]), s.skip(1))
    }
}

/// Whether `s` stays together where it is split, whatever follows it.
pub open spec fn stays_together(s: Seq<char>) -> bool
    decreases s.len(),
{
    if s.len() == 0 {
        true
    } else if s[0] == '\\' {
        s.len() >= 2 && stays_together(s.skip(2))
    } else {
        s[0] != ',' && stays_together(s.skip(1))
    }
}

/// Decoding undoes escaping.
pub proof fn lemma_decode_escaped(value: Seq<char>)
    ensures
        decoded(escaped(value)) == value,
    decreases value.len(),
{
    if value.len() > 0 {
        let c = value[0];
        let rest = escaped(value.skip(1));
        let s = escaped(value);
        lemma_decode_escaped(value.skip(1));
        if c == ',' || c == '\\' {
            assert(s[0] == '\\' && s[1] == c);
            assert(s.skip(2) =~= rest);
            assert(seq![c] + value.skip(1) =~= value);
        } else {
            assert(s[0] == c);
            assert(s.skip(1) =~= rest);
            assert(seq![c] + value.skip(1) =~= value);
        }
    }
}

/// Escaped values stay together.
pub proof fn lemma_escaped_stays_together(value: Seq<char>)
    ensures
        stays_together(escaped(value)),
    decreases value.len(),
{
    if value.len() > 0 {
        let c = value[0];
        let s = escaped(value);
        lemma_escaped_stays_together(value.skip(1));
        if c == ',' || c == '\\' {
            assert(s[0] == '\\' && s[1] == c);
            assert(s.skip(2) =~= escaped(value.skip(1)));
        } else {
            assert(s[0] == c);
            assert(s.skip(1) =~= escaped(value.skip(1)));
        }
    }
}

/// Text without commas and backslashes stays together, and so does what follows it.
proof fn lemma_plain_stays_together(front: Seq<char>, s: Seq<char>)
    requires
        forall|k: int| 0 <= k < front.len() ==> front[k] != ',' && front[k] != '\\',
        stays_together(s),
    ensures
        stays_together(front + s),
    decreases front.len(),
{
    if front.len() == 0 {
        assert(front + s =~= s);
    } else {
        lemma_plain_stays_together(front.skip(1), s);
        assert((front + s)[0] == front[0]);
        assert((front + s).skip(1) =~= front.skip(1) + s);
    }
}

/// What stays together is not split from what comes before it.
proof fn lemma_split_piece(front: Seq<char>, piece: Seq<char>, rest: Seq<char>)
    requires
        stays_together(piece),
    ensures
        split_from(front, piece + rest) == split_from(front + piece, rest),
    decreases piece.len(),
{
    if piece.len() == 0 {
        assert(piece + rest =~= rest);
        assert(front + piece =~= front);
    } else if piece[0] == '\\' {
        let s = piece + rest;
        assert(s[0] == '\\' && s.len() >= 2);
        assert(s.take(2) =~= piece.take(2));
        assert(s.skip(2) =~= piece.skip(2) + rest);
        lemma_split_piece(front + piece.take(2), piece.skip(2), rest);
        assert(front + piece.take(2) + piece.skip(2) =~= front + piece);
    } else {
        let s = piece + rest;
        assert(s[0] == piece[0]);
        assert(s.skip(1) =~= piece.skip(1) + rest);
        lemma_split_piece(front.push(piece[0]), piece.skip(1), rest);
        assert(front.push(piece[0]) + piece.skip(1) =~= front + piece);
    }
}

/// A list whose texts stay together is split into these texts, whatever list follows it.
proof fn lemma_split_joined_then(texts: Seq<Seq<char>>, rest: Seq<char>)
    requires
        texts.len() > 0,
        forall|i: int| 0 <= i < texts.len() ==> stays_together(#[trigger] texts[i]),
    ensures
        split_from(Seq::empty(), comma_joined(texts) + rest) == texts.drop_last() + split_from(
            texts.last(),
            rest,
        ),
    decreases texts.len(),
{
    let none = Seq::<char>::empty();
    if texts.len() == 1 {
        lemma_split_piece(none, texts[0], rest);
        assert(none + texts[0] =~= texts[0]);
        assert(texts.drop_last() =~= Seq::<Seq<char>>::empty());
        assert(texts.drop_last() + split_from(texts.last(), rest) =~= split_from(
            texts.last(),
            rest,
        ));
    } else {
        let front = texts.drop_last();
        let tail = seq![','] + texts.last() + rest;
        assert forall|i: int| 0 <= i < front.len() implies stays_together(#[trigger] front[i]) by {
            assert(front[i] == texts[i]);
        }
        lemma_split_joined_then(front, tail);
        assert(comma_joined(texts) + rest =~= comma_joined(front) + tail);
        assert(tail[0] == ',');
        assert(tail.skip(1) =~= texts.last() + rest);
        lemma_split_piece(none, texts.last(), rest);
        assert(none + texts.last() =~= texts.last());
        assert(split_from(front.last(), tail) == seq![front.last()] + split_from(
            texts.last(),
            rest,
        ));
        assert(front.drop_last() + (seq![front.last()] + split_from(texts.last(), rest))
            =~= texts.drop_last() + split_from(texts.last(), rest));
    }
}

/// Valid options stay together in escaped form.
pub proof fn lemma_option_stays_together(option: MountOption)
    requires
        valid_value(option),
    ensures
        stays_together(option_escaped_text(option)),
{
    let none = Seq::<char>::empty();
    let text = option_escaped_text(option);
    reveal_strlit("fsname=");
    reveal_strlit("subtype=");
    match option {
        MountOption::FSName(name) => {
            lemma_escaped_stays_together(name@);
            lemma_plain_stays_together("fsname="@, escaped(name@));
        },
        MountOption::Subtype(value) => {
            assert forall|k: int| 0 <= k < text.len() implies text[k] != ',' && text[k] != '\\' by {
                if k >= 8 {
                    assert(text[k] == option_value(option)[k - 8]);
                }
            }
            lemma_plain_stays_together(text, none);
            assert(text + none =~= text);
        },
        MountOption::CUSTOM(value) => {
            assert forall|k: int| 0 <= k < text.len() implies text[k] != ',' && text[k] != '\\' by {
                assert(text[k] == option_value(option)[k]);
            }
            lemma_plain_stays_together(text, none);
            assert(text + none =~= text);
        },
        _ => {
            reveal_strlit("auto_unmount");
            reveal_strlit("default_permissions");
            reveal_strlit("dev");
            reveal_strlit("nodev");
            reveal_strlit("suid");
            reveal_strlit("nosuid");
            reveal_strlit("ro");
            reveal_strlit("rw");
            reveal_strlit("exec");
            reveal_strlit("noexec");
            reveal_strlit("atime");
            reveal_strlit("noatime");
            reveal_strlit("dirsync");
            reveal_strlit("sync");
            reveal_strlit("async");
            lemma_plain_stays_together(text, none);
            assert(text + none =~= text);
        },
    }
}

/// The list of valid options is split into exactly their texts: no value is read as the start of
/// another option.
pub proof fn lemma_option_list_is_split(options: Seq<MountOption>, acl: SessionACL)
    requires
        escaped_texts(options, acl).len() > 0,
        forall|i: int| 0 <= i < options.len() ==> valid_value(#[trigger] options[i]),
    ensures
        split_from(Seq::empty(), comma_joined(escaped_texts(options, acl))) == escaped_texts(
            options,
            acl,
        ),
{
    let texts = escaped_texts(options, acl);
    let none = Seq::<char>::empty();
    assert forall|i: int| 0 <= i < texts.len() implies stays_together(#[trigger] texts[i]) by {
        if i < options.len() {
            assert(texts[i] == option_escaped_text(options[i]));
            lemma_option_stays_together(options[i]);
        } else {
            reveal_strlit("allow_other");
            lemma_plain_stays_together(texts[i], none);
            assert(texts[i] + none =~= texts[i]);
        }
    }
    lemma_split_joined_then(texts, none);
    assert(comma_joined(texts) + none =~= comma_joined(texts));
    assert(split_from(texts.last(), none) =~= seq![texts.last()]);
    assert(texts.drop_last() + seq![texts.last()] =~= texts);
}

/// Other users are let in by one option, whether they are all users or root alone; the owner needs
/// none.
pub proof fn lemma_access_option(acl: SessionACL, r: Option<&'static str>)
    requires
        call_ensures(SessionACL::to_mount_option, (acl,), r),
    ensures
        acl is Owner ==> r is None,
        !(acl is Owner) ==> (r matches Some(s) && s@ == "allow_other"@),
{
}

/// What libfuse and helpers are given is one text for each option, in order, and behind them the
/// access option where there is one.
pub proof fn lemma_texts_in_order(options: Seq<MountOption>, acl: SessionACL)
    ensures
        plain_texts(options, acl).len() == options.len() + (if acl is Owner {
            0int
        } else {
            1
        }),
        escaped_texts(options, acl).len() == plain_texts(options, acl).len(),
        forall|i: int|
            0 <= i < options.len() ==> #[trigger] plain_texts(options, acl)[i] == option_text(
                options[i],
            ),
        forall|i: int|
            0 <= i < options.len() ==> #[trigger] escaped_texts(options, acl)[i]
                == option_escaped_text(options[i]),
        !(acl is Owner) ==> plain_texts(options, acl).last() == "allow_other"@ && escaped_texts(
            options,
            acl,
        ).last() == "allow_other"@,
{
}

/// Texts that are joined stand one behind the other with a comma between each two.
pub proof fn lemma_joined_by_commas(texts: Seq<Seq<char>>)
    requires
        texts.len() >= 1,
    ensures
        texts.len() == 1 ==> comma_joined(texts) == texts[0],
        texts.len() == 2 ==> comma_joined(texts) == texts[0] + seq![','] + texts[1],
        texts.len() > 1 ==> comma_joined(texts) == comma_joined(texts.drop_last()) + seq![',']
            + texts.last(),
{
    reveal_with_fuel(comma_joined, 3);
    if texts.len() == 1 {
        assert(comma_joined(texts) =~= texts[0]);
    } else {
        assert(comma_joined(texts) =~= comma_joined(texts.drop_last()) + seq![','] + texts.last());
        if texts.len() == 2 {
            assert(texts.drop_last() =~= seq![texts[0]]);
            assert(comma_joined(seq![texts[0]]) =~= texts[0]);
        }
    }
}

} // verus!

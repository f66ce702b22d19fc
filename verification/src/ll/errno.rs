//! Error numbers and the messages that stand for them in a locale.

use bimap::BiHashMap;
use std::hash::RandomState;
use vstd::prelude::*;

use crate::ids::Errno;

verus! {

/// `bimap::BiHashMap`: pairs of which no two have the same left or the same right value.
#[verifier::external_type_specification]
#[verifier::external_body]
#[verifier::reject_recursive_types(L)]
#[verifier::reject_recursive_types(R)]
#[verifier::reject_recursive_types(LS)]
#[verifier::reject_recursive_types(RS)]
pub struct ExBiHashMap<L, R, LS, RS>(BiHashMap<L, R, LS, RS>);

/// The pairs of a map, each right value under its left value.
pub uninterp spec fn bimap_pairs(map: BiHashMap<i32, Vec<u8>, RandomState, RandomState>) -> Map<
    i32,
    Seq<u8>,
>;

/// No pairs at all.
pub open spec fn no_pairs() -> Map<i32, Seq<u8>> {
    Map::empty()
}

/// The pairs after `right` was put under `left`: what had either value before is gone.
pub open spec fn with_pair(pairs: Map<i32, Seq<u8>>, left: i32, right: Seq<u8>) -> Map<
    i32,
    Seq<u8>,
> {
    Map::new(
        |k: i32| k == left || (pairs.dom().contains(k) && pairs[k] != right),
        |k: i32|
            if k == left {
                right
            } else {
                pairs[k]
            },
    )
}

/// `BiHashMap::new`: the map has no pairs.
#[verifier::external_body]
fn bimap_new() -> (r: BiHashMap<i32, Vec<u8>, RandomState, RandomState>)
    ensures
        bimap_pairs(r) == no_pairs(),
{
    BiHashMap::new()
}

/// `BiHashMap::contains_left`: whether there is a pair with this left value.
#[verifier::external_body]
fn bimap_contains_left(map: &BiHashMap<i32, Vec<u8>, RandomState, RandomState>, left: i32) -> (r:
    bool)
    ensures
        r == bimap_pairs(*map).dom().contains(left),
{
    map.contains_left(&left)
}

/// `BiHashMap::insert`: the pair is put in, and those that had either of its values are taken out.
#[verifier::external_body]
fn bimap_insert(
    map: &mut BiHashMap<i32, Vec<u8>, RandomState, RandomState>,
    left: i32,
    right: Vec<u8>,
)
    ensures
        bimap_pairs(*final(map)) == with_pair(bimap_pairs(*old(map)), left, right@),
{
    map.insert(left, right);
}

/// `BiHashMap::get_by_left`: the right value of the pair with this left value, where there is one.
#[verifier::external_body]
fn bimap_get_by_left(
    map: &BiHashMap<i32, Vec<u8>, RandomState, RandomState>,
    left: i32,
) -> (r: Option<Vec<u8>>)
    ensures
        match r {
            Some(right) => bimap_pairs(*map).dom().contains(left) && bimap_pairs(*map)[left]
                == right@,
            None => !bimap_pairs(*map).dom().contains(left),
        },
{
    map.get_by_left(&left).cloned()
}

/// `BiHashMap::get_by_right`: the left value of the pair with this right value, where there is one.
#[verifier::external_body]
fn bimap_get_by_right(
    map: &BiHashMap<i32, Vec<u8>, RandomState, RandomState>,
    right: &Vec<u8>,
) -> (r: Option<i32>)
    ensures
        match r {
            Some(left) => {
                &&& bimap_pairs(*map).dom().contains(left)
                &&& bimap_pairs(*map)[left] == right@
                &&& forall|k: i32|
                    bimap_pairs(*map).dom().contains(k) && bimap_pairs(*map)[k] == right@ ==> k
                        == left
            },
            None => forall|k: i32|
                bimap_pairs(*map).dom().contains(k) ==> bimap_pairs(*map)[k] != right@,
        },
{
    map.get_by_right(right).copied()
}

/// The error numbers that messages are known for, in the order in which they are asked for.
pub open spec fn raw_errnos() -> Seq<i32> {
    seq![
        1i32, 2, 3, 4, 5, 6, 7, 8, 9, 10, 11, 12, 13, 14, 15, 16, 17, 18, 19, 20, 21, 22, 23, 24,
        25, 26, 27, 28, 29, 30, 31, 32, 33, 34, 35, 36, 37, 38, 39, 40, 11, 42, 43, 44, 45, 46, 47,
        48, 49, 50, 51, 52, 53, 54, 55, 56, 57, 35, 59, 60, 61, 62, 63, 64, 65, 66, 67, 68, 69, 70,
        71, 72, 73, 74, 75, 76, 77, 78, 79, 80, 81, 82, 83, 84, 85, 86, 87, 88, 89, 90, 91, 92, 93,
        94, 95, 96, 97, 98, 99, 100, 101, 102, 103, 104, 105, 106, 107, 108, 109, 110, 111, 112,
        113, 114, 115, 116, 117, 118, 119, 120, 121, 122, 123, 124, 125, 126, 127, 128, 129, 130,
        131, 132, 133, 95,
    ]
}

/// The error numbers that messages are known for, in the order in which they are asked for.
pub fn all_raw_errnos() -> (r: Vec<i32>)
    ensures
        r@ == raw_errnos(),
{
    vec![
        1, 2, 3, 4, 5, 6, 7, 8, 9, 10, 11, 12, 13, 14, 15, 16, 17, 18, 19, 20, 21, 22, 23, 24, 25,
        26, 27, 28, 29, 30, 31, 32, 33, 34, 35, 36, 37, 38, 39, 40, 11, 42, 43, 44, 45, 46, 47, 48,
        49, 50, 51, 52, 53, 54, 55, 56, 57, 35, 59, 60, 61, 62, 63, 64, 65, 66, 67, 68, 69, 70, 71,
        72, 73, 74, 75, 76, 77, 78, 79, 80, 81, 82, 83, 84, 85, 86, 87, 88, 89, 90, 91, 92, 93, 94,
        95, 96, 97, 98, 99, 100, 101, 102, 103, 104, 105, 106, 107, 108, 109, 110, 111, 112, 113,
        114, 115, 116, 117, 118, 119, 120, 121, 122, 123, 124, 125, 126, 127, 128, 129, 130, 131,
        132, 133, 95,
    ]
}

/// The name of a locale, without a zero byte.
#[derive(Clone, Debug, PartialEq, Eq, Hash)]
pub struct LocaleId {
    name: Vec<u8>,
}

impl View for LocaleId {
    type V = Seq<u8>;

    closed spec fn view(&self) -> Seq<u8> {
        self.name@
    }
}

/// A name that holds a zero byte, and where the first one stands.
#[derive(Clone, Copy, Debug, PartialEq, Eq, Structural)]
pub struct NulError(pub usize);

impl LocaleId {
    /// The locale of this name.
    pub fn try_from(name: Vec<u8>) -> (r: Result<LocaleId, NulError>)
        ensures
            match r {
                Ok(id) => id@ == name@ && !name@.contains(0),
                Err(NulError(at)) => at < name@.len() && name@[at as int] == 0
                    && !name@.take(at as int).contains(0),
            },
    {
        let mut i: usize = 0;
        while i < name.len()
            invariant
                i <= name@.len(),
                forall|k: int| 0 <= k < i ==> name@[k] != 0,
            decreases name.len() - i,
        {
            if name[i] == 0 {
                return Err(NulError(i));
            }
            i += 1;
        }
        Ok(LocaleId { name })
    }

    /// The name.
    pub fn as_bytes(&self) -> (r: &[u8])
        ensures
            r@ == self@,
    {
        self.name.as_slice()
    }
}

/// How many bytes are offered for a message at first, and how many more each time they are too
/// few.
pub const MESSAGE_ROOM: usize = 1024;

/// What follows when the system was asked for a message.
#[derive(Clone, Copy, Debug, PartialEq, Eq, Structural)]
pub enum MessageStep {
    /// The message is there.
    Done,
    /// It is asked for again, with so much room.
    Again(usize),
    /// There is no message; the number says why.
    Failed(i32),
}

/// What follows when the system was asked for a message with so much room: a result other than zero
/// is a failure, which the error number explains, and one that says that the room is too small asks
/// for more.
pub fn strerror_r_dynamic(result: i32, errno: i32, room: usize) -> (r: MessageStep)
    requires
        room + MESSAGE_ROOM <= usize::MAX,
    ensures
        r == (if result == 0 {
            MessageStep::Done
        } else if errno == Errno::ERANGE {
            MessageStep::Again((room + MESSAGE_ROOM) as usize)
        } else {
            MessageStep::Failed(errno)
        }),
{
    if result == 0 {
        MessageStep::Done
    } else if errno == Errno::ERANGE {
        MessageStep::Again(room + MESSAGE_ROOM)
    } else {
        MessageStep::Failed(errno)
    }
}

/// What the system says of an error number, where it says anything.
#[derive(Clone, Debug, PartialEq, Eq)]
pub struct ErrnoMessage {
    pub code: i32,
    pub text: Option<Vec<u8>>,
}

/// The error numbers of a locale and their messages.
pub struct ErrnoLocaleMapping {
    map: BiHashMap<i32, Vec<u8>, RandomState, RandomState>,
}

impl View for ErrnoLocaleMapping {
    type V = Map<i32, Seq<u8>>;

    closed spec fn view(&self) -> Map<i32, Seq<u8>> {
        bimap_pairs(self.map)
    }
}

/// Whether no two numbers have the same message.
pub open spec fn one_to_one(pairs: Map<i32, Seq<u8>>) -> bool {
    forall|a: i32, b: i32|
        #![trigger pairs[a], pairs[b]]
        pairs.dom().contains(a) && pairs.dom().contains(b) && pairs[a] == pairs[b] ==> a == b
}

/// The pairs after one message was looked at: a number that is known already, or that there is no
/// message for, is passed over.
pub open spec fn after_message(pairs: Map<i32, Seq<u8>>, message: ErrnoMessage) -> Map<
    i32,
    Seq<u8>,
> {
    match message.text {
        Some(text) => if pairs.dom().contains(message.code) {
            pairs
        } else {
            with_pair(pairs, message.code, text@)
        },
        None => pairs,
    }
}

/// The pairs after messages were looked at, one after the other.
pub open spec fn after_messages(pairs: Map<i32, Seq<u8>>, messages: Seq<ErrnoMessage>) -> Map<
    i32,
    Seq<u8>,
>
    decreases messages.len(),
{
    if messages.len() == 0 {
        pairs
    } else {
        after_message(after_messages(pairs, messages.drop_last()), messages.last())
    }
}

impl ErrnoLocaleMapping {
    /// No messages.
    pub fn new() -> (r: ErrnoLocaleMapping)
        ensures
            r@ == no_pairs(),
    {
        ErrnoLocaleMapping { map: bimap_new() }
    }

    /// Takes in the messages of a locale.
    pub fn populate_errno_mapping(&mut self, messages: &[ErrnoMessage])
        ensures
            final(self)@ == after_messages(old(self)@, messages@),
    {
        let ghost before = self@;
        let mut i: usize = 0;
        assert(messages@.take(0) =~= Seq::<ErrnoMessage>::empty());
        while i < messages.len()
            invariant
                i <= messages@.len(),
                self@ == after_messages(before, messages@.take(i as int)),
            decreases messages.len() - i,
        {
            assert(messages@.take(i + 1).drop_last() =~= messages@.take(i as int));
            let code: i32 = messages[i].code;
            if !bimap_contains_left(&self.map, code) {
                if let Some(text) = &messages[i].text {
                    let text: Vec<u8> = text.clone();
                    assert(text@ =~= messages@[i as int].text->0@);
                    bimap_insert(&mut self.map, code, text);
                }
            }
            i += 1;
        }
        assert(messages@.take(i as int) =~= messages@);
    }

    /// The message that stands for an error number.
    pub fn get_errno_message(&self, errno: Errno) -> (r: Option<Vec<u8>>)
        ensures
            match r {
                Some(text) => self@.dom().contains(errno.0) && self@[errno.0] == text@,
                None => !self@.dom().contains(errno.0),
            },
    {
        bimap_get_by_left(&self.map, errno.0)
    }

    /// The error number that a message stands for.
    pub fn get_errno_by_message(&self, message: &Vec<u8>) -> (r: Option<Errno>)
        ensures
            match r {
                Some(errno) => {
                    &&& self@.dom().contains(errno.0)
                    &&& self@[errno.0] == message@
                    &&& forall|k: i32|
                        self@.dom().contains(k) && self@[k] == message@ ==> k == errno.0
                },
                None => forall|k: i32| self@.dom().contains(k) ==> self@[k] != message@,
            },
    {
        match bimap_get_by_right(&self.map, message) {
            Some(code) => Some(Errno(code)),
            None => None,
        }
    }
}

/// Taking in messages keeps the mapping one to one: a message that two numbers have stands for the
/// later one.
pub proof fn lemma_messages_one_to_one(pairs: Map<i32, Seq<u8>>, messages: Seq<ErrnoMessage>)
    requires
        one_to_one(pairs),
    ensures
        one_to_one(after_messages(pairs, messages)),
    decreases messages.len(),
{
    if messages.len() > 0 {
        lemma_messages_one_to_one(pairs, messages.drop_last());
    }
}

/// In a mapping that is one to one, the message of a number stands for that number.
pub proof fn lemma_message_round_trip(pairs: Map<i32, Seq<u8>>, errno: i32, found: i32)
    requires
        one_to_one(pairs),
        pairs.dom().contains(errno),
        pairs.dom().contains(found),
        pairs[found] == pairs[errno],
    ensures
        found == errno,
{
}

/// Messages are asked for by the numbers of all errors of the system: those from 1 to 133, but for
/// the two that are unused.
pub proof fn lemma_all_errors_are_asked_for(r: Vec<i32>, n: i32)
    requires
        call_ensures(all_raw_errnos, (), r),
    ensures
        1 <= n <= 133 && n != 41 && n != 58 ==> r@.contains(n),
        r@.contains(n) ==> 1 <= n <= 133,
{
    let all = r@;
    assert(all.len() == 134);
    if 1 <= n <= 133 && n != 41 && n != 58 {
        assert(all[n - 1] == n);
    }
    if all.contains(n) {
        let k = choose|k: int| 0 <= k < all.len() && all[k] == n;
        assert(1 <= all[k] <= 133);
    }
}

/// A message that is new is kept under its number, and no other number keeps it; what is known
/// under a number stays, and a number without a message changes nothing.
pub proof fn lemma_message_is_kept(pairs: Map<i32, Seq<u8>>, messages: Seq<ErrnoMessage>)
    requires
        messages.len() > 0,
    ensures
        ({
            let before = after_messages(pairs, messages.drop_last());
            let after = after_messages(pairs, messages);
            let code = messages.last().code;
            &&& before.dom().contains(code) ==> after == before
            &&& messages.last().text is None ==> after == before
            &&& !before.dom().contains(code) && messages.last().text is Some ==> {
                let text = messages.last().text->0@;
                &&& after.dom().contains(code)
                &&& after[code] == text
                &&& forall|k: i32| #[trigger]
                    after.dom().contains(k) && k != code ==> before.dom().contains(k) && after[k]
                        == before[k] && after[k] != text
                &&& forall|k: i32| #[trigger]
                    before.dom().contains(k) && before[k] != text ==> after.dom().contains(k)
            }
        }),
{
}

/// A message that did not fit is asked for again with 1024 bytes more; every other error is told.
pub proof fn lemma_message_that_does_not_fit(result: i32, errno: i32, room: usize, r: MessageStep)
    requires
        room + 1024 <= usize::MAX,
        call_ensures(strerror_r_dynamic, (result, errno, room), r),
    ensures
        r is Done <==> result == 0,
        r is Again <==> result != 0 && errno == 34,
        r matches MessageStep::Again(more) ==> more == room + 1024,
        r matches MessageStep::Failed(e) ==> e == errno,
{
}

} // verus!

//! The arguments of a request, taken one after the other from the bytes that follow its header.

use vstd::prelude::*;
use vstd::slice::slice_subrange;

use crate::ll::wire::FromBytes;

verus! {

/// The structure that `s` begins with and what follows it, where `s` is long enough.
pub open spec fn arg_at<T: FromBytes>(s: Seq<u8>) -> Option<(T, Seq<u8>)> {
    if s.len() >= T::spec_size() {
        Some((T::spec_decode(s), s.skip(T::spec_size() as int)))
    } else {
        None
    }
}

/// Whether the first zero byte of `s` stands at `n`.
pub open spec fn ends_at(s: Seq<u8>, n: int) -> bool {
    &&& 0 <= n < s.len()
    &&& s[n] == 0
    &&& forall|k: int| 0 <= k < n ==> s[k] != 0
}

/// The zero-terminated name that `s` begins with and what follows it, where there is a zero byte.
pub open spec fn name_at(s: Seq<u8>) -> Option<(Seq<u8>, Seq<u8>)> {
    if exists|n: int| ends_at(s, n) {
        let n = choose|n: int| ends_at(s, n);
        Some((s.take(n), s.skip(n + 1)))
    } else {
        None
    }
}

/// The name that is found ends at the first zero byte.
pub proof fn lemma_name_at(s: Seq<u8>, n: int)
    requires
        ends_at(s, n),
    ensures
        name_at(s) == Some((s.take(n), s.skip(n + 1))),
{
    let m = choose|m: int| ends_at(s, m);
    assert(ends_at(s, m));
    assert(m == n);
}

/// A name that holds no zero byte is found again where it stands with a zero byte behind it.
pub proof fn lemma_name_at_terminated(name: Seq<u8>, rest: Seq<u8>)
    requires
        forall|k: int| 0 <= k < name.len() ==> name[k] != 0,
    ensures
        name_at(name + (seq![0u8] + rest)) == Some((name, rest)),
{
    let s = name + (seq![0u8] + rest);
    assert(ends_at(s, name.len() as int));
    lemma_name_at(s, name.len() as int);
    assert(s.take(name.len() as int) =~= name);
    assert(s.skip(name.len() as int + 1) =~= rest);
}

/// The bytes that are still to be taken.
pub struct ArgumentIterator<'a> {
    data: &'a [u8],
}

impl<'a> View for ArgumentIterator<'a> {
    type V = Seq<u8>;

    closed spec fn view(&self) -> Seq<u8> {
        self.data@
    }
}

impl<'a> ArgumentIterator<'a> {
    /// Nothing is taken of `data` yet.
    pub fn new(data: &'a [u8]) -> (r: ArgumentIterator<'a>)
        ensures
            r@ == data@,
    {
        ArgumentIterator { data }
    }

    /// How many bytes are left.
    pub fn len(&self) -> (n: usize)
        ensures
            n == self@.len(),
    {
        self.data.len()
    }

    /// What is left, without taking it.
    pub fn peek(&self) -> (r: &'a [u8])
        ensures
            r@ == self@,
    {
        self.data
    }

    /// Takes all that is left.
    pub fn fetch_all(&mut self) -> (r: &'a [u8])
        ensures
            r@ == old(self)@,
            final(self)@.len() == 0,
    {
        let bytes: &'a [u8] = self.data;
        self.data = slice_subrange(bytes, bytes.len(), bytes.len());
        bytes
    }

    /// Takes a structure; where too little is left, nothing is taken.
    pub fn fetch<T: FromBytes>(&mut self) -> (r: Option<T>)
        ensures
            match arg_at::<T>(old(self)@) {
                Some((x, rest)) => r == Some(x) && final(self)@ == rest,
                None => r is None && final(self)@ == old(self)@,
            },
    {
        let n: usize = T::size();
        if self.data.len() < n {
            return None;
        }
        let bytes: &'a [u8] = self.data;
        let x = T::decode(bytes);
        self.data = slice_subrange(bytes, n, bytes.len());
        assert(self.data@ =~= bytes@.skip(n as int));
        Some(x)
    }

    /// Takes a zero-terminated name, without the zero byte; where there is none, nothing is taken.
    pub fn fetch_str(&mut self) -> (r: Option<&'a [u8]>)
        ensures
            match name_at(old(self)@) {
                Some((name, rest)) => r matches Some(x) && x@ == name && final(self)@ == rest,
                None => r is None && final(self)@ == old(self)@,
            },
    {
        let bytes: &'a [u8] = self.data;
        let mut n: usize = 0;
        while n < bytes.len()
            invariant
                n <= bytes@.len(),
                bytes@ == old(self)@,
                self.data@ == old(self)@,
                forall|k: int| 0 <= k < n ==> bytes@[k] != 0,
            decreases bytes.len() - n,
        {
            if bytes[n] == 0 {
                let name = slice_subrange(bytes, 0, n);
                self.data = slice_subrange(bytes, n + 1, bytes.len());
                proof {
                    assert(ends_at(bytes@, n as int));
                    lemma_name_at(bytes@, n as int);
                    assert(name@ =~= bytes@.take(n as int));
                    assert(self.data@ =~= bytes@.skip(n + 1));
                }
                return Some(name);
            }
            n += 1;
        }
        None
    }
}

} // verus!

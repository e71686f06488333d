//! Hash-indexed header store: byte ranges of parsed header names and values
//! over a buffer that is frozen once the whole header block has been seen.

use vstd::prelude::*;
use std::collections::HashMap;
use std::collections::hash_map::DefaultHasher;
use std::hash::Hasher;
use vstd::std_specs::hash::DefaultHasherAdditionalSpecFns;
use bytes::{Bytes, BytesMut};
use crate::buffer::{buf_bytes, buf_freeze, buf_split_to, frozen_bytes, frozen_slice};

verus! {

/// ASCII lower-casing of one byte.
pub open spec fn lower_byte(b: u8) -> u8 {
    if 65 <= b && b <= 90 {
        (b + 32) as u8
    } else {
        b
    }
}

/// ASCII lower-casing of a byte sequence.
pub open spec fn lower_seq(s: Seq<u8>) -> Seq<u8> {
    s.map_values(|b: u8| lower_byte(b))
}

/// The key a header name is stored under: the digest of the lower-cased name
/// bytes, fed to the standard hasher in a single write.
pub open spec fn name_key(name: Seq<u8>) -> u64 {
    DefaultHasher::spec_finish(seq![lower_seq(name)])
}

/// Computes the case-insensitive key of a header name: lower-cases each byte
/// and digests the result. This is the hash a parser records with
/// `Header::set_hash` and the one `Headers::get` looks up.
pub fn hash_name(name: &[u8]) -> (h: u64)
    ensures
        h == name_key(name@),
{
    let mut lowered: Vec<u8> = Vec::new();
    let mut i: usize = 0;
    while i < name.len()
        invariant
            i <= name@.len(),
            lowered@ =~= lower_seq(name@.take(i as int)),
        decreases name@.len() - i,
    {
        let b = name[i];
        let lb: u8 = if b >= 65 && b <= 90 {
            b + 32
        } else {
            b
        };
        lowered.push(lb);
        proof {
            assert(lowered@ =~= lower_seq(name@.take(i + 1 as int)));
        }
        i += 1;
    }
    proof {
        assert(name@.take(name@.len() as int) =~= name@);
    }
    let mut hasher = DefaultHasher::new();
    hasher.write(lowered.as_slice());
    let h = hasher.finish();
    proof {
        assert(hasher@ =~= seq![lower_seq(name@)]);
    }
    h
}

/// One parsed header: a 64-bit digest of the lower-cased name bytes, and the
/// byte ranges of the name and of the value inside the message buffer.
///
/// A parser builds a `Header` incrementally: it sets the name start,
/// accumulates the name length, sets the value start, accumulates the value
/// length, and records the hash, all before the header is stored.
#[derive(Copy, Clone, Debug)]
pub struct Header {
    hash: u64,
    name_pos: usize,
    name_len: usize,
    value_pos: usize,
    value_len: usize,
}

impl Header {
    /// Hash of the lower-cased name bytes.
    pub closed spec fn spec_hash(self) -> u64 {
        self.hash
    }

    /// Offset of the first name byte.
    pub closed spec fn spec_name_pos(self) -> int {
        self.name_pos as int
    }

    /// Number of name bytes.
    pub closed spec fn spec_name_len(self) -> int {
        self.name_len as int
    }

    /// Offset of the first value byte.
    pub closed spec fn spec_value_pos(self) -> int {
        self.value_pos as int
    }

    /// Number of value bytes.
    pub closed spec fn spec_value_len(self) -> int {
        self.value_len as int
    }

    /// Offset one past the last value byte.
    pub open spec fn spec_end(self) -> int {
        self.spec_value_pos() + self.spec_value_len()
    }

    pub fn new() -> (h: Header)
        ensures
            h.spec_hash() == 0,
            h.spec_name_pos() == 0,
            h.spec_name_len() == 0,
            h.spec_value_pos() == 0,
            h.spec_value_len() == 0,
    {
        Header { hash: 0, name_pos: 0, name_len: 0, value_pos: 0, value_len: 0 }
    }

    pub fn set_hash(&mut self, hash: u64)
        ensures
            final(self).spec_hash() == hash,
            final(self).spec_name_pos() == old(self).spec_name_pos(),
            final(self).spec_name_len() == old(self).spec_name_len(),
            final(self).spec_value_pos() == old(self).spec_value_pos(),
            final(self).spec_value_len() == old(self).spec_value_len(),
    {
        self.hash = hash
    }

    /// Starts a new name at `pos`: any previously accumulated name length is
    /// discarded.
    pub fn set_name_pos(&mut self, pos: usize)
        ensures
            final(self).spec_hash() == old(self).spec_hash(),
            final(self).spec_name_pos() == pos as int,
            final(self).spec_name_len() == 0,
            final(self).spec_value_pos() == old(self).spec_value_pos(),
            final(self).spec_value_len() == old(self).spec_value_len(),
    {
        self.name_pos = pos;
        self.name_len = 0;
    }

    pub fn update_name_len(&mut self, cnt: usize)
        requires
            old(self).spec_name_len() + cnt <= usize::MAX,
        ensures
            final(self).spec_hash() == old(self).spec_hash(),
            final(self).spec_name_pos() == old(self).spec_name_pos(),
            final(self).spec_name_len() == old(self).spec_name_len() + cnt,
            final(self).spec_value_pos() == old(self).spec_value_pos(),
            final(self).spec_value_len() == old(self).spec_value_len(),
    {
        self.name_len += cnt
    }

    /// Starts a new value at `pos`: any previously accumulated value length is
    /// discarded.
    pub fn set_value_pos(&mut self, pos: usize)
        ensures
            final(self).spec_hash() == old(self).spec_hash(),
            final(self).spec_name_pos() == old(self).spec_name_pos(),
            final(self).spec_name_len() == old(self).spec_name_len(),
            final(self).spec_value_pos() == pos as int,
            final(self).spec_value_len() == 0,
    {
        self.value_pos = pos;
        self.value_len = 0;
    }

    pub fn update_value_len(&mut self, cnt: usize)
        requires
            old(self).spec_value_len() + cnt <= usize::MAX,
        ensures
            final(self).spec_hash() == old(self).spec_hash(),
            final(self).spec_name_pos() == old(self).spec_name_pos(),
            final(self).spec_name_len() == old(self).spec_name_len(),
            final(self).spec_value_pos() == old(self).spec_value_pos(),
            final(self).spec_value_len() == old(self).spec_value_len() + cnt,
    {
        self.value_len += cnt
    }

    /// Offset one past the last value byte.
    pub fn end(&self) -> (r: usize)
        requires
            self.spec_end() <= usize::MAX,
        ensures
            r == self.spec_end(),
    {
        self.value_pos + self.value_len
    }

    /// Admission control: a header whose name and value together reach
    /// `max_size` bytes is too large. Callers check this during parsing,
    /// before storing the header.
    pub fn is_overflow(&self, max_size: usize) -> (r: bool)
        ensures
            r == (self.spec_name_len() + self.spec_value_len() >= max_size),
    {
        match self.name_len.checked_add(self.value_len) {
            Some(total) => total >= max_size,
            None => true,
        }
    }

    /// The byte range of the value inside the message buffer.
    pub fn value_range(&self) -> (r: core::ops::Range<usize>)
        requires
            self.spec_end() <= usize::MAX,
        ensures
            r.start == self.spec_value_pos(),
            r.end == self.spec_end(),
    {
        core::ops::Range { start: self.value_pos, end: self.value_pos + self.value_len }
    }
}

/// Append-only store of parsed headers, keyed by the case-insensitive digest
/// of the name. Built by repeated `append`, then frozen once with `flush`,
/// which takes ownership of the header block out of the input buffer; only
/// after that does `get` return values.
#[derive(Debug)]
pub struct Headers {
    headers: HashMap<u64, Header>,
    bytes: Option<Bytes>,
    last_pos: usize,
}

/// Building side of a header store: recording parsed headers and freezing the
/// finished header block.
pub trait WriteHeaders {
    /// The stored headers, keyed by their digest.
    spec fn wh_map(&self) -> Map<u64, Header>;

    /// The frozen header-block bytes, once `flush` has run.
    spec fn wh_frozen(&self) -> Option<Seq<u8>>;

    /// The end offset of the most recently appended header's value.
    spec fn wh_last(&self) -> int;

    /// Records `header` under its digest, overwriting any earlier header with
    /// the same digest, and advances the last-end offset to the header's end.
    fn append(&mut self, header: Header)
        requires
            header.spec_end() <= usize::MAX,
        ensures
            final(self).wh_map() == old(self).wh_map().insert(header.spec_hash(), header),
            final(self).wh_last() == header.spec_end(),
            final(self).wh_frozen() == old(self).wh_frozen(),
    ;

    /// Takes the header block `[0, last end + 4)` out of `src` and freezes it
    /// (the two-byte line terminator appears twice: once ending the last
    /// header line, once ending the empty terminating line). Called exactly
    /// once, after every header of the message has been appended.
    fn flush(&mut self, src: &mut BytesMut)
        requires
            old(self).wh_frozen() is None,
            old(self).wh_last() + 4 <= usize::MAX,
            old(self).wh_last() + 4 <= buf_bytes(*old(src)).len(),
        ensures
            final(self).wh_map() == old(self).wh_map(),
            final(self).wh_last() == old(self).wh_last(),
            final(self).wh_frozen() == Some(
                buf_bytes(*old(src)).take(old(self).wh_last() + 4),
            ),
            buf_bytes(*final(src)) == buf_bytes(*old(src)).skip(old(self).wh_last() + 4),
    ;
}

impl WriteHeaders for Headers {
    closed spec fn wh_map(&self) -> Map<u64, Header> {
        self.headers@
    }

    closed spec fn wh_frozen(&self) -> Option<Seq<u8>> {
        match self.bytes {
            Some(b) => Some(frozen_bytes(b)),
            None => None,
        }
    }

    closed spec fn wh_last(&self) -> int {
        self.last_pos as int
    }

    fn append(&mut self, header: Header) {
        self.last_pos = header.end();
        self.headers.insert(header.hash, header);
    }

    fn flush(&mut self, src: &mut BytesMut) {
        let end = self.last_pos + 4;
        let block = buf_split_to(src, end);
        self.bytes = Some(buf_freeze(block));
    }
}

impl Headers {
    /// Every stored value range lies inside the frozen buffer (trivially true
    /// before `flush`). `get` relies on this to read value bytes.
    pub open spec fn wf(self) -> bool {
        match self.wh_frozen() {
            Some(buf) => {
                &&& buf.len() <= usize::MAX
                &&& forall|k: u64|
                    #[trigger] self.wh_map().contains_key(k) ==> self.wh_map()[k].spec_end()
                        <= buf.len()
            },
            None => true,
        }
    }

    /// An empty store. The mapping is pre-sized: header counts are typically
    /// small but bursty, and pre-sizing avoids rehash storms in the common
    /// case.
    pub fn new() -> (r: Headers)
        ensures
            r.wh_map() == Map::<u64, Header>::empty(),
            r.wh_frozen() is None,
            r.wh_last() == 0,
            r.wf(),
    {
        Headers { headers: HashMap::with_capacity(64), bytes: None, last_pos: 0 }
    }

    /// Case-insensitive lookup: digests the lower-cased bytes of `name` and
    /// returns the value bytes of the header stored under that digest, or
    /// `None` when no such header is stored or the store has not been
    /// flushed.
    pub fn get(&self, name: &[u8]) -> (r: Option<Vec<u8>>)
        requires
            self.wf(),
        ensures
            match r {
                Some(v) => {
                    &&& self.wh_frozen() is Some
                    &&& self.wh_map().contains_key(name_key(name@))
                    &&& v@ == self.wh_frozen().unwrap().subrange(
                        self.wh_map()[name_key(name@)].spec_value_pos(),
                        self.wh_map()[name_key(name@)].spec_end(),
                    )
                },
                None => self.wh_frozen() is None || !self.wh_map().contains_key(name_key(name@)),
            },
    {
        let hash = hash_name(name);
        if let Some(header) = self.headers.get(&hash) {
            if let Some(ref bytes) = self.bytes {
                proof {
                    assert(self.wh_map().contains_key(hash));
                    assert(self.wh_map()[hash] == *header);
                    assert(header.spec_end() <= frozen_bytes(*bytes).len());
                }
                let start = header.value_pos;
                let end = header.end();
                Some(frozen_slice(bytes, start, end))
            } else {
                None
            }
        } else {
            None
        }
    }

    pub fn has(&self) -> (r: bool)
        ensures
            r,
    {
        true
    }
}

/// The store that results from appending each header of `hs` in order to an
/// initially empty mapping.
pub open spec fn append_all(hs: Seq<Header>) -> Map<u64, Header>
    decreases hs.len(),
{
    if hs.len() == 0 {
        Map::<u64, Header>::empty()
    } else {
        append_all(hs.drop_last()).insert(hs.last().spec_hash(), hs.last())
    }
}

/// Appending headers with pairwise distinct digests loses none of them: each
/// one is found again, unchanged, under its own digest.
pub proof fn lemma_append_all_distinct(hs: Seq<Header>, i: int)
    requires
        forall|p: int, q: int|
            0 <= p < q < hs.len() ==> hs[p].spec_hash() != hs[q].spec_hash(),
        0 <= i < hs.len(),
    ensures
        append_all(hs).contains_key(hs[i].spec_hash()),
        append_all(hs)[hs[i].spec_hash()] == hs[i],
    decreases hs.len(),
{
    if i + 1 < hs.len() {
        assert(hs.drop_last()[i] == hs[i]);
        lemma_append_all_distinct(hs.drop_last(), i);
        assert(hs[i].spec_hash() != hs[hs.len() - 1].spec_hash());
    }
}

/// Round trip: after appending headers with pairwise distinct digests, in an
/// order whose value ranges all end no later than the last header's end, and
/// freezing a buffer that covers the block, every header is stored intact and
/// the frozen block holds exactly the source bytes at its recorded value
/// range — which is what `get` returns for that header's name.
pub proof fn lemma_round_trip(hs: Seq<Header>, src: Seq<u8>)
    requires
        hs.len() > 0,
        forall|p: int, q: int|
            0 <= p < q < hs.len() ==> hs[p].spec_hash() != hs[q].spec_hash(),
        forall|i: int| 0 <= i < hs.len() ==> #[trigger] hs[i].spec_end() <= hs.last().spec_end(),
        hs.last().spec_end() + 4 <= src.len(),
    ensures
        forall|i: int|
            0 <= i < hs.len() ==> {
                let m = append_all(hs);
                let frozen = src.take(hs.last().spec_end() + 4);
                &&& m.contains_key(#[trigger] hs[i].spec_hash())
                &&& m[hs[i].spec_hash()] == hs[i]
                &&& hs[i].spec_end() <= frozen.len()
                &&& frozen.subrange(hs[i].spec_value_pos(), hs[i].spec_end()) == src.subrange(
                    hs[i].spec_value_pos(),
                    hs[i].spec_end(),
                )
            },
{
    let frozen = src.take(hs.last().spec_end() + 4);
    assert forall|i: int| 0 <= i < hs.len() implies {
        let m = append_all(hs);
        &&& m.contains_key(#[trigger] hs[i].spec_hash())
        &&& m[hs[i].spec_hash()] == hs[i]
        &&& hs[i].spec_end() <= frozen.len()
        &&& frozen.subrange(hs[i].spec_value_pos(), hs[i].spec_end()) == src.subrange(
            hs[i].spec_value_pos(),
            hs[i].spec_end(),
        )
    } by {
        lemma_append_all_distinct(hs, i);
        assert(frozen.subrange(hs[i].spec_value_pos(), hs[i].spec_end()) =~= src.subrange(
            hs[i].spec_value_pos(),
            hs[i].spec_end(),
        ));
    }
}

/// Two names equal up to ASCII case are stored and looked up under the same
/// key, so `get` is case-insensitive; lower-casing a name is idempotent, so a
/// name already in lower case keys identically too.
pub proof fn lemma_name_key_case_insensitive(a: Seq<u8>, b: Seq<u8>)
    requires
        a.len() == b.len(),
        forall|i: int| 0 <= i < a.len() ==> lower_byte(#[trigger] a[i]) == lower_byte(b[i]),
    ensures
        name_key(a) == name_key(b),
        name_key(lower_seq(a)) == name_key(a),
{
    assert(lower_seq(a) =~= lower_seq(b));
    assert(lower_seq(lower_seq(a)) =~= lower_seq(a));
}

} // verus!

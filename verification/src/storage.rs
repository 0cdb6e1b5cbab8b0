//! Object storage: where an uploaded file's object lives, and how a stream
//! of chunks is cut into the parts of a multipart upload.
use vstd::prelude::*;
use crate::text::{
    lemma_replace_absent, lemma_replace_leading, occurs_in, push_char, replace_all, replace_str,
    lemma_uuid_text_len, uuid_text, uuid_to_string,
};

verus! {

/// The smallest part a multipart upload accepts, except for its last part.
pub const MIN_PART_SIZE: usize = 5 * 1024 * 1024;

/// All parts laid end to end.
pub open spec fn flatten(parts: Seq<Seq<u8>>) -> Seq<u8>
    decreases parts.len(),
{
    if parts.len() == 0 {
        Seq::empty()
    } else {
        flatten(parts.drop_last()) + parts.last()
    }
}

/// Cuts a stream of chunks into upload parts: bytes gather in a buffer and
/// leave it, all at once, as soon as the buffer holds at least
/// [`MIN_PART_SIZE`] bytes; what is left at the end forms a last part.
/// Parts are numbered from 1.
pub struct PartAssembler {
    buffer: Vec<u8>,
    part_number: i32,
    total_bytes: i64,
    consumed: Ghost<Seq<u8>>,
    parts: Ghost<Seq<Seq<u8>>>,
}

impl PartAssembler {
    pub closed spec fn wf(&self) -> bool {
        &&& self.consumed@ == flatten(self.parts@) + self.buffer@
        &&& self.part_number == self.parts@.len() + 1
        &&& self.total_bytes == self.consumed@.len()
        &&& self.buffer@.len() < MIN_PART_SIZE
        &&& forall|i: int| 0 <= i < self.parts@.len() ==> #[trigger] self.parts@[i].len() >= MIN_PART_SIZE
    }

    /// Every byte received so far, in order.
    pub closed spec fn consumed(&self) -> Seq<u8> {
        self.consumed@
    }

    /// The parts handed out so far, in order.
    pub closed spec fn parts(&self) -> Seq<Seq<u8>> {
        self.parts@
    }

    /// The bytes waiting in the buffer.
    pub closed spec fn buffered(&self) -> Seq<u8> {
        self.buffer@
    }

    pub closed spec fn spec_total_bytes(&self) -> int {
        self.total_bytes as int
    }

    pub closed spec fn spec_next_part_number(&self) -> int {
        self.part_number as int
    }

    /// An assembler that has received nothing.
    pub fn new() -> (res: PartAssembler)
        ensures
            res.wf(),
            res.consumed() == Seq::<u8>::empty(),
            res.parts() == Seq::<Seq<u8>>::empty(),
            res.buffered() == Seq::<u8>::empty(),
            res.spec_next_part_number() == 1,
            res.spec_total_bytes() == 0,
    {
        let consumed: Ghost<Seq<u8>> = Ghost(Seq::empty());
        let parts: Ghost<Seq<Seq<u8>>> = Ghost(Seq::empty());
        let a = PartAssembler { buffer: Vec::new(), part_number: 1, total_bytes: 0, consumed, parts };
        assert(a.consumed@ =~= flatten(a.parts@) + a.buffer@);
        a
    }

    /// The number of bytes received so far.
    pub fn total_bytes(&self) -> (res: i64)
        ensures
            res == self.spec_total_bytes(),
    {
        self.total_bytes
    }

    /// The number the next part will carry.
    pub fn next_part_number(&self) -> (res: i32)
        ensures
            res == self.spec_next_part_number(),
    {
        self.part_number
    }

    /// Receives a chunk. Returns the part to upload, with its number, when
    /// the buffer has reached [`MIN_PART_SIZE`].
    pub fn push_chunk(&mut self, chunk: Vec<u8>) -> (res: Option<(i32, Vec<u8>)>)
        requires
            old(self).wf(),
            old(self).spec_total_bytes() + chunk@.len() <= i64::MAX,
            old(self).spec_next_part_number() < i32::MAX,
        ensures
            final(self).wf(),
            final(self).consumed() == old(self).consumed() + chunk@,
            final(self).spec_total_bytes() == old(self).spec_total_bytes() + chunk@.len(),
            old(self).buffered().len() + chunk@.len() >= MIN_PART_SIZE ==> {
                &&& res matches Some((n, data))
                &&& n == old(self).spec_next_part_number()
                &&& data@ == old(self).buffered() + chunk@
                &&& final(self).parts() == old(self).parts().push(data@)
                &&& final(self).buffered() == Seq::<u8>::empty()
                &&& final(self).spec_next_part_number() == n + 1
            },
            old(self).buffered().len() + chunk@.len() < MIN_PART_SIZE ==> {
                &&& res is None
                &&& final(self).parts() == old(self).parts()
                &&& final(self).buffered() == old(self).buffered() + chunk@
                &&& final(self).spec_next_part_number() == old(self).spec_next_part_number()
            },
    {
        let mut chunk = chunk;
        let ghost chunk_view = chunk@;
        let ghost old_parts = self.parts@;
        let ghost old_buffer = self.buffer@;
        self.total_bytes = self.total_bytes + chunk.len() as i64;
        self.buffer.append(&mut chunk);
        let consumed: Ghost<Seq<u8>> = Ghost(self.consumed@ + chunk_view);
        self.consumed = consumed;
        assert(self.consumed@ =~= flatten(self.parts@) + self.buffer@);
        if self.buffer.len() >= MIN_PART_SIZE {
            let data = self.buffer.split_off(0);
            let parts: Ghost<Seq<Seq<u8>>> = Ghost(old_parts.push(data@));
            self.parts = parts;
            assert(self.parts@.drop_last() =~= old_parts);
            assert(self.consumed@ =~= flatten(self.parts@) + self.buffer@);
            let n = self.part_number;
            self.part_number = n + 1;
            Some((n, data))
        } else {
            None
        }
    }

    /// The stream has ended: returns the last part, if any bytes are left.
    pub fn finish(self) -> (res: Option<(i32, Vec<u8>)>)
        requires
            self.wf(),
        ensures
            self.buffered().len() == 0 ==> res is None,
            self.buffered().len() > 0 ==> (res matches Some((n, data)) && n == self.spec_next_part_number()
                && data@ == self.buffered()),
    {
        if self.buffer.len() > 0 {
            Some((self.part_number, self.buffer))
        } else {
            None
        }
    }
}

/// The parts of a whole upload hold exactly the bytes received, in order;
/// every part but the last holds at least [`MIN_PART_SIZE`] bytes, the last
/// one holds at least one byte, and the parts are numbered 1, 2, ... in the
/// order they were handed out.
pub proof fn lemma_upload_parts_cover_stream(a: PartAssembler)
    requires
        a.wf(),
    ensures
        flatten(a.parts()) + a.buffered() == a.consumed(),
        a.buffered().len() > 0 ==> flatten(a.parts().push(a.buffered())) == a.consumed(),
        a.buffered().len() == 0 ==> flatten(a.parts()) == a.consumed(),
        forall|i: int| 0 <= i < a.parts().len() ==> #[trigger] a.parts()[i].len() >= MIN_PART_SIZE,
        a.spec_next_part_number() == a.parts().len() + 1,
        a.spec_total_bytes() == a.consumed().len(),
{
    assert(a.parts().push(a.buffered()).drop_last() =~= a.parts());
    assert(flatten(a.parts()) + Seq::<u8>::empty() =~= flatten(a.parts()));
}


/// The key of a stored file's object: owner, file identifier and file name,
/// joined by slashes.
pub open spec fn spec_object_key(user_id: u128, file_id: u128, file_name: Seq<char>) -> Seq<char> {
    uuid_text(user_id) + seq!['/'] + uuid_text(file_id) + seq!['/'] + file_name
}

/// What precedes an object's key in its URL: endpoint and bucket.
pub open spec fn url_prefix(endpoint: Seq<char>, bucket: Seq<char>) -> Seq<char> {
    endpoint + seq!['/'] + bucket + seq!['/']
}

/// The URL recorded for an object.
pub open spec fn spec_object_url(endpoint: Seq<char>, bucket: Seq<char>, key: Seq<char>) -> Seq<char> {
    url_prefix(endpoint, bucket) + key
}

/// The key read back from a recorded URL: every occurrence of the prefix
/// removed.
pub open spec fn spec_key_from_url(url: Seq<char>, endpoint: Seq<char>, bucket: Seq<char>) -> Seq<char> {
    replace_all(url, url_prefix(endpoint, bucket), Seq::empty())
}

/// The key of the object of file `file_id` of user `user_id`.
pub fn object_key(user_id: u128, file_id: u128, file_name: &str) -> (res: String)
    ensures
        res@ == spec_object_key(user_id, file_id, file_name@),
        // the owner's identifier, a slash, the file's identifier, a slash,
        // then the whole file name
        res@.len() == 74 + file_name@.len(),
        res@.take(36) == uuid_text(user_id),
        res@[36] == '/',
        res@.subrange(37, 73) == uuid_text(file_id),
        res@[73] == '/',
        res@.skip(74) == file_name@,
{
    let mut key = uuid_to_string(user_id);
    push_char(&mut key, '/');
    let file_text = uuid_to_string(file_id);
    key.append(file_text.as_str());
    push_char(&mut key, '/');
    key.append(file_name);
    proof {
        law_object_key_layout(user_id, file_id, file_name@);
    }
    key
}

/// An object's key is the owner's identifier text, a slash, the file's
/// identifier text, a slash, and then the whole file name: the name starts
/// at character 74 and runs to the end.
pub proof fn law_object_key_layout(user_id: u128, file_id: u128, file_name: Seq<char>)
    ensures
        ({
            let k = spec_object_key(user_id, file_id, file_name);
            &&& k.len() == 74 + file_name.len()
            &&& k.take(36) == uuid_text(user_id)
            &&& k[36] == '/'
            &&& k.subrange(37, 73) == uuid_text(file_id)
            &&& k[73] == '/'
            &&& k.skip(74) == file_name
        }),
{
    lemma_uuid_text_len(user_id);
    lemma_uuid_text_len(file_id);
    let k = spec_object_key(user_id, file_id, file_name);
    assert(k.take(36) =~= uuid_text(user_id));
    assert(k.subrange(37, 73) =~= uuid_text(file_id));
    assert(k.skip(74) =~= file_name);
}

fn prefix_of(endpoint: &str, bucket: &str) -> (res: String)
    ensures
        res@ == url_prefix(endpoint@, bucket@),
{
    let mut prefix = String::from_str(endpoint);
    push_char(&mut prefix, '/');
    prefix.append(bucket);
    push_char(&mut prefix, '/');
    prefix
}

/// The URL recorded for the object with the given key.
pub fn object_url(endpoint: &str, bucket: &str, key: &str) -> (res: String)
    ensures
        res@ == spec_object_url(endpoint@, bucket@, key@),
{
    let mut url = prefix_of(endpoint, bucket);
    url.append(key);
    url
}

/// The key of the object that a recorded URL locates.
pub fn key_from_url(url: &str, endpoint: &str, bucket: &str) -> (res: String)
    ensures
        res@ == spec_key_from_url(url@, endpoint@, bucket@),
{
    let prefix = prefix_of(endpoint, bucket);
    let empty = String::new();
    replace_str(url, prefix.as_str(), empty.as_str())
}

/// Reading the key back from the URL recorded for it gives the key, unless
/// the key itself contains the endpoint-and-bucket prefix.
pub proof fn lemma_key_round_trip(endpoint: Seq<char>, bucket: Seq<char>, key: Seq<char>)
    requires
        !occurs_in(key, url_prefix(endpoint, bucket)),
    ensures
        spec_key_from_url(spec_object_url(endpoint, bucket, key), endpoint, bucket) == key,
{
    let p = url_prefix(endpoint, bucket);
    lemma_replace_leading(key, p, Seq::empty());
    lemma_replace_absent(key, p, Seq::empty());
    assert(Seq::<char>::empty() + key =~= key);
}

} // verus!

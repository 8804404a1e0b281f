use vstd::prelude::*;
use vstd::bytes::{
    spec_u16_from_le_bytes, spec_u16_to_le_bytes, spec_u64_from_le_bytes, spec_u64_to_le_bytes,
    u16_from_le_bytes, u16_to_le_bytes, u64_from_le_bytes, u64_to_le_bytes,
};
use vstd::slice::slice_subrange;
use crate::error::YeetError;

verus! {

/// Fixed size of a packed `UserProfile`: tag (1) + owner (32) + post_count (8).
pub const PROFILE_SIZE: usize = 41;

/// Fixed size of a packed `PostHeader`: tag (1) + author (32) + index (8) + content_len (2).
pub const POST_BASE_SIZE: usize = 43;

/// Largest content length a post may carry.
pub const MAX_CONTENT_LEN: usize = 512;

/// A user's profile record: who owns it and how many posts they have made.
/// The `post_count` field is the single source of truth for the next post's
/// sequence number.
#[derive(Clone, Copy, Debug)]
pub struct UserProfile {
    /// The public key of the user this profile belongs to.
    pub owner: [u8; 32],
    /// Number of posts created so far; also the index of the next post.
    pub post_count: u64,
}

/// The fixed-offset header of a post record; the content bytes follow it.
#[derive(Clone, Copy, Debug)]
pub struct PostHeader {
    /// The public key of the signer who created the post.
    pub author: [u8; 32],
    /// 0-based sequence number: the author's post count before this post.
    pub index: u64,
    /// Byte length of the content that trails the header.
    pub content_len: u16,
}

/// The packed byte layout of a profile: tag byte 1, then the owner key,
/// then the post count in little-endian order.
pub open spec fn spec_pack_profile(owner: Seq<u8>, post_count: u64) -> Seq<u8> {
    seq![1u8] + owner + spec_u64_to_le_bytes(post_count)
}

/// The packed byte layout of a post record: tag byte 2, then the author key,
/// the index and the content length in little-endian order, then the content.
pub open spec fn spec_pack_post(author: Seq<u8>, index: u64, content: Seq<u8>) -> Seq<u8> {
    seq![2u8] + author + spec_u64_to_le_bytes(index) + spec_u16_to_le_bytes(content.len() as u16)
        + content
}

/// Whether a byte region decodes as an initialized profile.
pub open spec fn profile_bytes_valid(data: Seq<u8>) -> bool {
    data.len() >= PROFILE_SIZE && data[0] == 1
}

/// The owner key stored in a packed profile.
pub open spec fn profile_owner_of(data: Seq<u8>) -> Seq<u8> {
    data.subrange(1, 33)
}

/// The post count stored in a packed profile.
pub open spec fn profile_count_of(data: Seq<u8>) -> u64 {
    spec_u64_from_le_bytes(data.subrange(33, 41))
}

/// Whether a byte region decodes as an initialized post record header.
pub open spec fn post_bytes_valid(data: Seq<u8>) -> bool {
    data.len() >= POST_BASE_SIZE && data[0] == 2
}

/// The author key stored in a packed post record.
pub open spec fn post_author_of(data: Seq<u8>) -> Seq<u8> {
    data.subrange(1, 33)
}

/// The sequence number stored in a packed post record.
pub open spec fn post_index_of(data: Seq<u8>) -> u64 {
    spec_u64_from_le_bytes(data.subrange(33, 41))
}

/// The content length stored in a packed post record.
pub open spec fn post_content_len_of(data: Seq<u8>) -> u16 {
    spec_u16_from_le_bytes(data.subrange(41, 43))
}

/// The content bytes stored in a packed post record.
pub open spec fn post_content_of(data: Seq<u8>) -> Seq<u8> {
    data.subrange(43, data.len() as int)
}

/// Round trip for profiles: unpacking a packed profile gives back exactly the
/// owner and post count that were packed, and the packed bytes form a valid
/// initialized profile of the fixed size.
pub proof fn lemma_profile_round_trip(owner: Seq<u8>, post_count: u64)
    requires
        owner.len() == 32,
    ensures
        ({
            let data = spec_pack_profile(owner, post_count);
            &&& data.len() == PROFILE_SIZE
            &&& profile_bytes_valid(data)
            &&& profile_owner_of(data) == owner
            &&& profile_count_of(data) == post_count
        }),
{
    vstd::bytes::lemma_auto_spec_u64_to_from_le_bytes();
    let data = spec_pack_profile(owner, post_count);
    assert(data.subrange(1, 33) =~= owner);
    assert(data.subrange(33, 41) =~= spec_u64_to_le_bytes(post_count));
}

/// Round trip for post records: unpacking a packed post gives back exactly
/// the author, index, content length and content that were packed, and the
/// packed bytes form a valid post of exactly header-plus-content size.
pub proof fn lemma_post_round_trip(author: Seq<u8>, index: u64, content: Seq<u8>)
    requires
        author.len() == 32,
        content.len() <= MAX_CONTENT_LEN,
    ensures
        ({
            let data = spec_pack_post(author, index, content);
            &&& data.len() == POST_BASE_SIZE + content.len()
            &&& post_bytes_valid(data)
            &&& post_author_of(data) == author
            &&& post_index_of(data) == index
            &&& post_content_len_of(data) == content.len() as u16
            &&& post_content_of(data) == content
        }),
{
    vstd::bytes::lemma_auto_spec_u64_to_from_le_bytes();
    vstd::bytes::lemma_auto_spec_u16_to_from_le_bytes();
    let data = spec_pack_post(author, index, content);
    assert(data.subrange(1, 33) =~= author);
    assert(data.subrange(33, 41) =~= spec_u64_to_le_bytes(index));
    assert(data.subrange(41, 43) =~= spec_u16_to_le_bytes(content.len() as u16));
    assert(data.subrange(43, data.len() as int) =~= content);
}

impl UserProfile {
    /// Writes the packed profile into the first `PROFILE_SIZE` bytes of
    /// `data`, leaving the rest of the buffer untouched. Never fails: the
    /// caller supplies a large enough destination.
    pub fn pack_into_slice(&self, data: &mut Vec<u8>)
        requires
            old(data)@.len() >= PROFILE_SIZE,
        ensures
            final(data)@.len() == old(data)@.len(),
            final(data)@.subrange(0, PROFILE_SIZE as int) == spec_pack_profile(
                self.owner@,
                self.post_count,
            ),
            final(data)@.skip(PROFILE_SIZE as int) == old(data)@.skip(PROFILE_SIZE as int),
    {
        data[0] = 1;
        let mut i: usize = 0;
        while i < 32
            invariant
                i <= 32,
                data@.len() == old(data)@.len(),
                old(data)@.len() >= PROFILE_SIZE,
                data@[0] == 1u8,
                forall|j: int| 0 <= j < i ==> data@[1 + j] == self.owner@[j],
                forall|j: int| 1 + i <= j < data@.len() ==> data@[j] == old(data)@[j],
            decreases 32 - i,
        {
            data[1 + i] = self.owner[i];
            i += 1;
        }
        let le = u64_to_le_bytes(self.post_count);
        let mut j: usize = 0;
        while j < 8
            invariant
                j <= 8,
                le@ == spec_u64_to_le_bytes(self.post_count),
                le@.len() == 8,
                data@.len() == old(data)@.len(),
                old(data)@.len() >= PROFILE_SIZE,
                data@[0] == 1u8,
                forall|k: int| 0 <= k < 32 ==> data@[1 + k] == self.owner@[k],
                forall|k: int| 0 <= k < j ==> data@[33 + k] == le@[k],
                forall|k: int| 33 + j <= k < data@.len() ==> data@[k] == old(data)@[k],
            decreases 8 - j,
        {
            data[33 + j] = le[j];
            j += 1;
        }
        proof {
            assert(data@.subrange(0, PROFILE_SIZE as int) =~= spec_pack_profile(
                self.owner@,
                self.post_count,
            ));
            assert(data@.skip(PROFILE_SIZE as int) =~= old(data)@.skip(PROFILE_SIZE as int));
        }
    }

    /// Decodes a profile from a byte region: fails on a too-short buffer or
    /// when the state tag does not say "initialized profile".
    pub fn unpack_from_slice(data: &Vec<u8>) -> (r: Result<UserProfile, YeetError>)
        ensures
            r is Ok <==> profile_bytes_valid(data@),
            data@.len() < PROFILE_SIZE ==> r == Err::<UserProfile, YeetError>(
                YeetError::MalformedAccountData,
            ),
            data@.len() >= PROFILE_SIZE && data@[0] != 1 ==> r == Err::<UserProfile, YeetError>(
                YeetError::UninitializedRecord,
            ),
            r is Ok ==> r->Ok_0.owner@ == profile_owner_of(data@) && r->Ok_0.post_count
                == profile_count_of(data@),
    {
        if data.len() < PROFILE_SIZE {
            return Err(YeetError::MalformedAccountData);
        }
        if data[0] != 1 {
            return Err(YeetError::UninitializedRecord);
        }
        let mut owner: [u8; 32] = [0u8; 32];
        let mut i: usize = 0;
        while i < 32
            invariant
                i <= 32,
                data@.len() >= PROFILE_SIZE,
                forall|j: int| 0 <= j < i ==> owner@[j] == data@[1 + j],
            decreases 32 - i,
        {
            owner[i] = data[1 + i];
            i += 1;
        }
        let count_bytes = slice_subrange(data.as_slice(), 33, 41);
        let post_count = u64_from_le_bytes(count_bytes);
        proof {
            assert(owner@ =~= profile_owner_of(data@));
        }
        Ok(UserProfile { owner, post_count })
    }
}

impl PostHeader {
    /// Writes the packed header into the first `POST_BASE_SIZE` bytes of
    /// `data`, leaving the rest of the buffer (the content region) untouched.
    pub fn pack_into_slice(&self, dst: &mut Vec<u8>)
        requires
            old(dst)@.len() >= POST_BASE_SIZE,
        ensures
            final(dst)@.len() == old(dst)@.len(),
            final(dst)@.subrange(0, POST_BASE_SIZE as int) == seq![2u8] + self.author@
                + spec_u64_to_le_bytes(self.index) + spec_u16_to_le_bytes(self.content_len),
            final(dst)@.skip(POST_BASE_SIZE as int) == old(dst)@.skip(POST_BASE_SIZE as int),
    {
        dst[0] = 2;
        let mut i: usize = 0;
        while i < 32
            invariant
                i <= 32,
                dst@.len() == old(dst)@.len(),
                old(dst)@.len() >= POST_BASE_SIZE,
                dst@[0] == 2u8,
                forall|j: int| 0 <= j < i ==> dst@[1 + j] == self.author@[j],
                forall|j: int| 1 + i <= j < dst@.len() ==> dst@[j] == old(dst)@[j],
            decreases 32 - i,
        {
            dst[1 + i] = self.author[i];
            i += 1;
        }
        let le = u64_to_le_bytes(self.index);
        let mut j: usize = 0;
        while j < 8
            invariant
                j <= 8,
                le@ == spec_u64_to_le_bytes(self.index),
                le@.len() == 8,
                dst@.len() == old(dst)@.len(),
                old(dst)@.len() >= POST_BASE_SIZE,
                dst@[0] == 2u8,
                forall|k: int| 0 <= k < 32 ==> dst@[1 + k] == self.author@[k],
                forall|k: int| 0 <= k < j ==> dst@[33 + k] == le@[k],
                forall|k: int| 33 + j <= k < dst@.len() ==> dst@[k] == old(dst)@[k],
            decreases 8 - j,
        {
            dst[33 + j] = le[j];
            j += 1;
        }
        let le2 = u16_to_le_bytes(self.content_len);
        let mut k: usize = 0;
        while k < 2
            invariant
                k <= 2,
                le@ == spec_u64_to_le_bytes(self.index),
                le@.len() == 8,
                le2@ == spec_u16_to_le_bytes(self.content_len),
                le2@.len() == 2,
                dst@.len() == old(dst)@.len(),
                old(dst)@.len() >= POST_BASE_SIZE,
                dst@[0] == 2u8,
                forall|m: int| 0 <= m < 32 ==> dst@[1 + m] == self.author@[m],
                forall|m: int| 0 <= m < 8 ==> dst@[33 + m] == le@[m],
                forall|m: int| 0 <= m < k ==> dst@[41 + m] == le2@[m],
                forall|m: int| 41 + k <= m < dst@.len() ==> dst@[m] == old(dst)@[m],
            decreases 2 - k,
        {
            dst[41 + k] = le2[k];
            k += 1;
        }
        proof {
            assert(dst@.subrange(0, POST_BASE_SIZE as int) =~= seq![2u8] + self.author@
                + spec_u64_to_le_bytes(self.index) + spec_u16_to_le_bytes(self.content_len));
            assert(dst@.skip(POST_BASE_SIZE as int) =~= old(dst)@.skip(POST_BASE_SIZE as int));
        }
    }

    /// Decodes a post header from a byte region: fails on a too-short buffer
    /// or when the state tag does not say "initialized post".
    pub fn unpack_from_slice(data: &Vec<u8>) -> (r: Result<PostHeader, YeetError>)
        ensures
            r is Ok <==> post_bytes_valid(data@),
            data@.len() < POST_BASE_SIZE ==> r == Err::<PostHeader, YeetError>(
                YeetError::MalformedAccountData,
            ),
            data@.len() >= POST_BASE_SIZE && data@[0] != 2 ==> r == Err::<PostHeader, YeetError>(
                YeetError::UninitializedRecord,
            ),
            r is Ok ==> r->Ok_0.author@ == post_author_of(data@) && r->Ok_0.index == post_index_of(
                data@,
            ) && r->Ok_0.content_len == post_content_len_of(data@),
    {
        if data.len() < POST_BASE_SIZE {
            return Err(YeetError::MalformedAccountData);
        }
        if data[0] != 2 {
            return Err(YeetError::UninitializedRecord);
        }
        let mut author: [u8; 32] = [0u8; 32];
        let mut i: usize = 0;
        while i < 32
            invariant
                i <= 32,
                data@.len() >= POST_BASE_SIZE,
                forall|j: int| 0 <= j < i ==> author@[j] == data@[1 + j],
            decreases 32 - i,
        {
            author[i] = data[1 + i];
            i += 1;
        }
        let index = u64_from_le_bytes(slice_subrange(data.as_slice(), 33, 41));
        let content_len = u16_from_le_bytes(slice_subrange(data.as_slice(), 41, 43));
        proof {
            assert(author@ =~= post_author_of(data@));
        }
        Ok(PostHeader { author, index, content_len })
    }
}

} // verus!

use vstd::prelude::*;
use crate::account::{bytes32_eq, Account};
use crate::addresses::{derive_post_address, derive_user_address, derived_address, post_seeds,
    user_seeds};
use crate::codec::{post_index_of, profile_count_of, profile_owner_of, spec_pack_post, spec_pack_profile,
    PostHeader, UserProfile, MAX_CONTENT_LEN, POST_BASE_SIZE, PROFILE_SIZE};
use crate::error::YeetError;
use crate::validate::{check_record, meta_unchanged, record_checks_ok};

verus! {

/// Whether `init_user` accepts its inputs: the payer signs, the profile
/// account passes every record check at the profile's fixed size, lives at
/// the address derived from the payer's key, and is still uninitialized.
pub open spec fn init_user_accepted(program_id: Seq<u8>, payer: Account, profile: Account) -> bool {
    &&& payer.is_signer
    &&& record_checks_ok(program_id, profile, PROFILE_SIZE as int)
    &&& derived_address(user_seeds(payer.key@), program_id) == Some(profile.key@)
    &&& profile.data@[0] == 0
}

/// The error `init_user` reports, decided by the first check that fails, in
/// the order the checks run.
pub open spec fn init_user_failure(program_id: Seq<u8>, payer: Account, profile: Account) -> YeetError {
    if !payer.is_signer {
        YeetError::MissingAuthorization
    } else if profile.owner@ != program_id {
        YeetError::WrongOwner
    } else if !record_checks_ok(program_id, profile, PROFILE_SIZE as int) {
        YeetError::MalformedAccountData
    } else if derived_address(user_seeds(payer.key@), program_id) != Some(profile.key@) {
        YeetError::MalformedAccountData
    } else {
        YeetError::AlreadyInitialized
    }
}

/// Initializes the payer's profile record: after the full validation chain
/// succeeds, the profile holds tag 1, the payer's key as owner, and a post
/// count of zero. Any failed check aborts with the profile untouched, so a
/// repeated initialization fails rather than silently succeeding.
pub fn init_user(program_id: &[u8; 32], payer: &Account, profile: &mut Account) -> (r: Result<
    (),
    YeetError,
>)
    ensures
        r is Ok <==> init_user_accepted(program_id@, *payer, *old(profile)),
        r is Ok ==> final(profile).data@ == spec_pack_profile(payer.key@, 0) && meta_unchanged(
            *old(profile),
            *final(profile),
        ),
        r is Err ==> *final(profile) == *old(profile) && r == Err::<(), YeetError>(
            init_user_failure(program_id@, *payer, *old(profile)),
        ),
{
    if !payer.is_signer {
        return Err(YeetError::MissingAuthorization);
    }
    match check_record(program_id, profile, PROFILE_SIZE) {
        Ok(()) => {},
        Err(e) => {
            return Err(e);
        },
    }
    let address_ok = match derive_user_address(&payer.key, program_id) {
        Some(expected) => bytes32_eq(&profile.key, &expected),
        None => false,
    };
    if !address_ok {
        return Err(YeetError::MalformedAccountData);
    }
    if profile.data[0] != 0 {
        return Err(YeetError::AlreadyInitialized);
    }
    let record = UserProfile { owner: payer.key, post_count: 0 };
    record.pack_into_slice(&mut profile.data);
    proof {
        assert(profile.data@ =~= profile.data@.subrange(0, PROFILE_SIZE as int));
    }
    Ok(())
}

/// Whether `create_post` accepts its inputs: content within bounds, the
/// author signs, the profile is a valid initialized record owned by the
/// author at its derived address, the counter has room, and the post account
/// is a valid record of exactly header-plus-content size, distinct from the
/// profile, at the address derived from the author and the current count, and
/// not yet written.
pub open spec fn create_post_accepted(
    program_id: Seq<u8>,
    author: Account,
    profile: Account,
    post: Account,
    content: Seq<u8>,
) -> bool {
    &&& 1 <= content.len() <= MAX_CONTENT_LEN
    &&& author.is_signer
    &&& record_checks_ok(program_id, profile, PROFILE_SIZE as int)
    &&& profile.data@[0] == 1
    &&& profile_owner_of(profile.data@) == author.key@
    &&& derived_address(user_seeds(author.key@), program_id) == Some(profile.key@)
    &&& profile_count_of(profile.data@) < u64::MAX
    &&& record_checks_ok(program_id, post, POST_BASE_SIZE + content.len())
    &&& post.key@ != profile.key@
    &&& derived_address(
        post_seeds(author.key@, profile_count_of(profile.data@)),
        program_id,
    ) == Some(post.key@)
    &&& post.data@[0] != 2
}

/// The error `create_post` reports, decided by the first check that fails, in
/// the order the checks run.
pub open spec fn create_post_failure(
    program_id: Seq<u8>,
    author: Account,
    profile: Account,
    post: Account,
    content: Seq<u8>,
) -> YeetError {
    if content.len() < 1 || content.len() > MAX_CONTENT_LEN {
        YeetError::MalformedInstruction
    } else if !author.is_signer {
        YeetError::MissingAuthorization
    } else if profile.owner@ != program_id {
        YeetError::WrongOwner
    } else if !record_checks_ok(program_id, profile, PROFILE_SIZE as int) {
        YeetError::MalformedAccountData
    } else if profile.data@[0] != 1 {
        YeetError::UninitializedRecord
    } else if profile_owner_of(profile.data@) != author.key@ {
        YeetError::IllegalOwner
    } else if derived_address(user_seeds(author.key@), program_id) != Some(profile.key@) {
        YeetError::MalformedAccountData
    } else if profile_count_of(profile.data@) == u64::MAX {
        YeetError::CounterOverflow
    } else if post.owner@ != program_id {
        YeetError::WrongOwner
    } else if !record_checks_ok(program_id, post, POST_BASE_SIZE + content.len()) {
        YeetError::MalformedAccountData
    } else if post.key@ == profile.key@ {
        YeetError::MalformedAccountData
    } else if derived_address(
        post_seeds(author.key@, profile_count_of(profile.data@)),
        program_id,
    ) != Some(post.key@) {
        YeetError::MalformedAccountData
    } else {
        YeetError::AlreadyInitialized
    }
}

/// Appends one immutable post for the signing author: on success the post
/// account holds tag 2, the author's key, the sequence number the profile's
/// counter stood at, the content length and the content, and the profile's
/// counter advances by exactly one. Every check runs before either account is
/// written, so any failure leaves both accounts byte-for-byte unchanged.
pub fn create_post(
    program_id: &[u8; 32],
    author: &Account,
    profile: &mut Account,
    post: &mut Account,
    content: &Vec<u8>,
) -> (r: Result<(), YeetError>)
    ensures
        r is Ok <==> create_post_accepted(
            program_id@,
            *author,
            *old(profile),
            *old(post),
            content@,
        ),
        r is Ok ==> ({
            let index = profile_count_of(old(profile).data@);
            &&& final(profile).data@ == spec_pack_profile(author.key@, (index + 1) as u64)
            &&& final(post).data@ == spec_pack_post(author.key@, index, content@)
            &&& meta_unchanged(*old(profile), *final(profile))
            &&& meta_unchanged(*old(post), *final(post))
        }),
        r is Err ==> *final(profile) == *old(profile) && *final(post) == *old(post) && r == Err::<
            (),
            YeetError,
        >(create_post_failure(program_id@, *author, *old(profile), *old(post), content@)),
{
    if content.len() < 1 || content.len() > MAX_CONTENT_LEN {
        return Err(YeetError::MalformedInstruction);
    }
    if !author.is_signer {
        return Err(YeetError::MissingAuthorization);
    }
    match check_record(program_id, profile, PROFILE_SIZE) {
        Ok(()) => {},
        Err(e) => {
            return Err(e);
        },
    }
    let record = match UserProfile::unpack_from_slice(&profile.data) {
        Ok(p) => p,
        Err(e) => {
            return Err(e);
        },
    };
    if !bytes32_eq(&record.owner, &author.key) {
        return Err(YeetError::IllegalOwner);
    }
    let profile_address_ok = match derive_user_address(&author.key, program_id) {
        Some(expected) => bytes32_eq(&profile.key, &expected),
        None => false,
    };
    if !profile_address_ok {
        return Err(YeetError::MalformedAccountData);
    }
    let index = record.post_count;
    if index == u64::MAX {
        return Err(YeetError::CounterOverflow);
    }
    match check_record(program_id, post, POST_BASE_SIZE + content.len()) {
        Ok(()) => {},
        Err(e) => {
            return Err(e);
        },
    }
    if bytes32_eq(&post.key, &profile.key) {
        return Err(YeetError::MalformedAccountData);
    }
    let post_address_ok = match derive_post_address(&author.key, index, program_id) {
        Some(expected) => bytes32_eq(&post.key, &expected),
        None => false,
    };
    if !post_address_ok {
        return Err(YeetError::MalformedAccountData);
    }
    if post.data[0] == 2 {
        return Err(YeetError::AlreadyInitialized);
    }

    let updated = UserProfile { owner: record.owner, post_count: index + 1 };
    updated.pack_into_slice(&mut profile.data);
    let header = PostHeader { author: author.key, index, content_len: content.len() as u16 };
    header.pack_into_slice(&mut post.data);
    let ghost packed = post.data@;
    let mut i: usize = 0;
    while i < content.len()
        invariant
            i <= content@.len(),
            content@.len() <= MAX_CONTENT_LEN,
            meta_unchanged(*old(post), *post),
            post.data@.len() == packed.len(),
            packed.len() == POST_BASE_SIZE + content@.len(),
            forall|m: int| 0 <= m < POST_BASE_SIZE ==> post.data@[m] == packed[m],
            forall|m: int| 0 <= m < i ==> post.data@[POST_BASE_SIZE + m] == content@[m],
        decreases content@.len() - i,
    {
        post.data[POST_BASE_SIZE + i] = content[i];
        i += 1;
    }
    proof {
        assert(profile.data@ =~= profile.data@.subrange(0, PROFILE_SIZE as int));
        assert(post.data@ =~= spec_pack_post(
            author.key@,
            profile_count_of(old(profile).data@),
            content@,
        ));
    }
    Ok(())
}

/// Monotonicity of the post counter. `profiles` holds the profile's packed
/// bytes before the first and after each of N successful `create_post` calls;
/// `posts` holds the N packed posts those calls wrote. Each successful call
/// advances the counter by exactly one and stamps the new post with the
/// counter's value before the call — that is what `create_post` ensures. From
/// a fresh profile (counter zero) it follows that after N calls the counter
/// equals N and the posts carry indices 0 through N-1, with no gaps and no
/// repeats.
pub proof fn lemma_post_indices_sequential(profiles: Seq<Seq<u8>>, posts: Seq<Seq<u8>>)
    requires
        profiles.len() == posts.len() + 1,
        profile_count_of(profiles[0]) == 0,
        forall|i: int|
            0 <= i < posts.len() ==> profile_count_of(#[trigger] profiles[i + 1])
                == profile_count_of(profiles[i]) + 1,
        forall|i: int|
            0 <= i < posts.len() ==> post_index_of(#[trigger] posts[i]) == profile_count_of(
                profiles[i],
            ),
    ensures
        profile_count_of(profiles[posts.len() as int]) == posts.len(),
        forall|i: int| 0 <= i < posts.len() ==> post_index_of(#[trigger] posts[i]) == i,
    decreases posts.len(),
{
    if posts.len() > 0 {
        lemma_post_indices_sequential(profiles.drop_last(), posts.drop_last());
        assert(profiles.drop_last()[posts.len() - 1] == profiles[posts.len() - 1]);
        assert(forall|i: int|
            0 <= i < posts.len() - 1 ==> posts.drop_last()[i] == #[trigger] posts[i]);
    }
}

} // verus!

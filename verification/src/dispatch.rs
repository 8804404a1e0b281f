use vstd::prelude::*;
use crate::account::Account;
use crate::codec::{profile_count_of, spec_pack_post, spec_pack_profile};
use crate::error::YeetError;
use crate::handlers::{create_post, create_post_accepted, create_post_failure, init_user,
    init_user_accepted, init_user_failure};
use crate::validate::meta_unchanged;

verus! {

/// Opcode of the instruction that initializes a user profile.
pub const OP_INIT_USER: u8 = 0;

/// Opcode of the instruction that appends a post.
pub const OP_CREATE_POST: u8 = 1;

/// Reads the opcode from byte 0 of the instruction buffer and routes the
/// payload to the matching handler. The required accounts, in order, are
/// payer and profile for `init_user`; author, profile and post for
/// `create_post`, whose payload is the raw content. Accounts beyond a
/// handler's arity and a payload to `init_user` are ignored, as is the rest
/// of the account list. On any failure every account is left unchanged.
pub fn process_instruction(
    program_id: &[u8; 32],
    accounts: &mut Vec<Account>,
    ix_data: &Vec<u8>,
) -> (r: Result<(), YeetError>)
    ensures
        final(accounts)@.len() == old(accounts)@.len(),
        r is Err ==> final(accounts)@ == old(accounts)@,
        ix_data@.len() == 0 ==> r == Err::<(), YeetError>(YeetError::MalformedInstruction),
        ix_data@.len() > 0 && ix_data@[0] != OP_INIT_USER && ix_data@[0] != OP_CREATE_POST ==> r
            == Err::<(), YeetError>(YeetError::MalformedInstruction),
        ix_data@.len() > 0 && ix_data@[0] == OP_INIT_USER ==> ({
            if old(accounts)@.len() < 2 {
                r == Err::<(), YeetError>(YeetError::MissingAccounts)
            } else {
                let payer = old(accounts)@[0];
                let profile = old(accounts)@[1];
                &&& (r is Ok <==> init_user_accepted(program_id@, payer, profile))
                &&& r is Ok ==> final(accounts)@[1].data@ == spec_pack_profile(payer.key@, 0)
                    && meta_unchanged(profile, final(accounts)@[1]) && (forall|i: int|
                    0 <= i < old(accounts)@.len() && i != 1 ==> final(accounts)@[i] == old(
                        accounts,
                    )@[i])
                &&& r is Err ==> r == Err::<(), YeetError>(
                    init_user_failure(program_id@, payer, profile),
                )
            }
        }),
        ix_data@.len() > 0 && ix_data@[0] == OP_CREATE_POST ==> ({
            if old(accounts)@.len() < 3 {
                r == Err::<(), YeetError>(YeetError::MissingAccounts)
            } else {
                let author = old(accounts)@[0];
                let profile = old(accounts)@[1];
                let post = old(accounts)@[2];
                let content = ix_data@.skip(1);
                let index = profile_count_of(profile.data@);
                &&& (r is Ok <==> create_post_accepted(
                    program_id@,
                    author,
                    profile,
                    post,
                    content,
                ))
                &&& r is Ok ==> final(accounts)@[1].data@ == spec_pack_profile(
                    author.key@,
                    (index + 1) as u64,
                ) && final(accounts)@[2].data@ == spec_pack_post(author.key@, index, content)
                    && meta_unchanged(profile, final(accounts)@[1]) && meta_unchanged(
                    post,
                    final(accounts)@[2],
                ) && (forall|i: int|
                    0 <= i < old(accounts)@.len() && i != 1 && i != 2 ==> final(accounts)@[i]
                        == old(accounts)@[i])
                &&& r is Err ==> r == Err::<(), YeetError>(
                    create_post_failure(program_id@, author, profile, post, content),
                )
            }
        }),
{
    if ix_data.len() == 0 {
        return Err(YeetError::MalformedInstruction);
    }
    let opcode = ix_data[0];
    if opcode == OP_INIT_USER {
        if accounts.len() < 2 {
            return Err(YeetError::MissingAccounts);
        }
        let mut profile = accounts.remove(1);
        let r = init_user(program_id, &accounts[0], &mut profile);
        accounts.insert(1, profile);
        proof {
            if r is Err {
                assert(accounts@ =~= old(accounts)@);
            }
        }
        r
    } else if opcode == OP_CREATE_POST {
        if accounts.len() < 3 {
            return Err(YeetError::MissingAccounts);
        }
        let mut content: Vec<u8> = Vec::new();
        let mut i: usize = 1;
        while i < ix_data.len()
            invariant
                1 <= i <= ix_data@.len(),
                content@ == ix_data@.subrange(1, i as int),
            decreases ix_data@.len() - i,
        {
            content.push(ix_data[i]);
            proof {
                assert(content@ =~= ix_data@.subrange(1, i + 1));
            }
            i += 1;
        }
        proof {
            assert(content@ =~= ix_data@.skip(1));
        }
        let mut post = accounts.remove(2);
        let mut profile = accounts.remove(1);
        let r = create_post(program_id, &accounts[0], &mut profile, &mut post, &content);
        accounts.insert(1, profile);
        accounts.insert(2, post);
        proof {
            if r is Err {
                assert(accounts@ =~= old(accounts)@);
            }
        }
        r
    } else {
        Err(YeetError::MalformedInstruction)
    }
}

} // verus!

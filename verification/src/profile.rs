//! A self-custodial profile account: a name, a status and a handle, owned by
//! the user whose key derives the account's address.
//!
//! The account is allocated once with room for `8 + INIT_SPACE` bytes. When an
//! instruction ends, the profile is written back as an 8-byte discriminator
//! followed by its Borsh encoding (each string as a 4-byte length and its
//! UTF-8 bytes); if that does not fit in the allocated space the instruction
//! fails with `AccountDidNotSerialize` and nothing is stored.
use vstd::prelude::*;
use vstd::utf8::encode_utf8;

use crate::keys::Key;

verus! {

/// The profile account.
pub struct FacebookAccount {
    pub authority: Key,
    pub bump: u8,
    pub name: String,
    pub status: String,
    pub twitter: String,
}

impl FacebookAccount {
    /// The room reserved for the profile: a key, the bump and three strings
    /// of at most 10, 100 and 10 bytes, each with a 4-byte length.
    pub const INIT_SPACE: usize = 165;

    /// The size of the account: the 8-byte discriminator and `INIT_SPACE`.
    pub const SPACE: usize = 173;
}

/// The accounts of `initialize` that the logic reads.
pub struct Initialize {
    pub user: Key,
    pub facebook_account_bump: u8,
}

/// The accounts of `update` that the logic reads and writes.
pub struct Update {
    pub facebook_account: FacebookAccount,
}

/// Why an instruction was refused.
#[derive(Clone, Copy, PartialEq, Eq, Structural, Debug)]
pub enum ProfileError {
    /// The profile does not fit in its account.
    AccountDidNotSerialize,
}

/// The number of UTF-8 bytes of a string.
pub open spec fn utf8_len(s: Seq<char>) -> nat {
    encode_utf8(s).len()
}

/// The number of bytes the stored profile takes: discriminator, key, bump
/// and three length-prefixed strings.
pub open spec fn stored_len(name: Seq<char>, status: Seq<char>, twitter: Seq<char>) -> int {
    8int + 32 + 1 + 4 + utf8_len(name) + 4 + utf8_len(status) + 4 + utf8_len(twitter)
}

/// The profile fits in its account.
pub open spec fn fits(name: Seq<char>, status: Seq<char>, twitter: Seq<char>) -> bool {
    stored_len(name, status, twitter) <= FacebookAccount::SPACE
}

/// Tests whether a profile with these strings fits in its account.
pub fn profile_fits(name: &String, status: &String, twitter: &String) -> (r: bool)
    ensures
        r == fits(name@, status@, twitter@),
{
    let n = name.as_str().as_bytes().len();
    let s = status.as_str().as_bytes().len();
    let t = twitter.as_str().as_bytes().len();
    if n > 120 || s > 120 || t > 120 {
        return false;
    }
    8 + 32 + 1 + 4 + n + 4 + s + 4 + t <= FacebookAccount::SPACE
}

/// Creates the profile of `ctx.user` with the given strings and the bump of
/// its address; fails, storing nothing, when it does not fit in the account.
pub fn initialize(ctx: &Initialize, name: String, status: String, twitter: String) -> (res: Result<
    FacebookAccount,
    ProfileError,
>)
    ensures
        fits(name@, status@, twitter@) ==> (res matches Ok(acc) && {
            &&& acc.authority == ctx.user
            &&& acc.bump == ctx.facebook_account_bump
            &&& acc.name@ == name@
            &&& acc.status@ == status@
            &&& acc.twitter@ == twitter@
        }),
        !fits(name@, status@, twitter@) ==> res == Err::<FacebookAccount, ProfileError>(
            ProfileError::AccountDidNotSerialize,
        ),
{
    if !profile_fits(&name, &status, &twitter) {
        return Err(ProfileError::AccountDidNotSerialize);
    }
    Ok(FacebookAccount { authority: ctx.user, bump: ctx.facebook_account_bump, name, status, twitter })
}

/// Replaces the profile's status; fails, changing nothing, when the profile
/// with the new status does not fit in the account.
pub fn update(ctx: &mut Update, status: String) -> (res: Result<(), ProfileError>)
    ensures
        final(ctx).facebook_account.authority == old(ctx).facebook_account.authority,
        final(ctx).facebook_account.bump == old(ctx).facebook_account.bump,
        final(ctx).facebook_account.name@ == old(ctx).facebook_account.name@,
        final(ctx).facebook_account.twitter@ == old(ctx).facebook_account.twitter@,
        fits(old(ctx).facebook_account.name@, status@, old(ctx).facebook_account.twitter@) ==> {
            &&& res is Ok
            &&& final(ctx).facebook_account.status@ == status@
        },
        !fits(old(ctx).facebook_account.name@, status@, old(ctx).facebook_account.twitter@) ==> {
            &&& res == Err::<(), ProfileError>(ProfileError::AccountDidNotSerialize)
            &&& final(ctx).facebook_account.status@ == old(ctx).facebook_account.status@
        },
{
    if !profile_fits(&ctx.facebook_account.name, &status, &ctx.facebook_account.twitter) {
        return Err(ProfileError::AccountDidNotSerialize);
    }
    ctx.facebook_account.status = status;
    Ok(())
}

/// Every stored profile fits in its account: `initialize` only creates
/// profiles that fit, and `update` keeps a profile fitting.
pub proof fn stored_profiles_fit(acc_name: Seq<char>, old_status: Seq<char>, new_status: Seq<char>, acc_twitter: Seq<char>)
    requires
        fits(acc_name, old_status, acc_twitter),
    ensures
        ({
            let kept = if fits(acc_name, new_status, acc_twitter) { new_status } else { old_status };
            fits(acc_name, kept, acc_twitter)
        }),
{
}

/// A profile fits exactly when its three strings take at most 120 UTF-8
/// bytes together: the 173-byte account less the 8-byte discriminator, the
/// 32-byte key, the bump and three 4-byte lengths. Any status is accepted on
/// those terms, the empty one included.
pub proof fn fits_exactly_when_strings_fit(name: Seq<char>, status: Seq<char>, twitter: Seq<char>)
    ensures
        fits(name, status, twitter) <==> encode_utf8(name).len() + encode_utf8(status).len()
            + encode_utf8(twitter).len() <= 120,
{
    assert(FacebookAccount::SPACE == 173);
}

/// Shortening the status never makes a fitting profile stop fitting; in
/// particular the empty status always fits where any status did.
pub proof fn shorter_status_still_fits(name: Seq<char>, status: Seq<char>, shorter: Seq<char>, twitter: Seq<char>)
    requires
        fits(name, status, twitter),
        encode_utf8(shorter).len() <= encode_utf8(status).len(),
    ensures
        fits(name, shorter, twitter),
        fits(name, Seq::<char>::empty(), twitter),
{
    assert(encode_utf8(Seq::<char>::empty()) =~= Seq::<u8>::empty());
}

} // verus!

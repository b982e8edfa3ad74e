//! The operation surface of the social graph.
//!
//! Each operation takes the whole state, the caller's identity (already
//! authenticated by the host), and the values the host supplies (the current
//! time, the rent-exempt reserve). Every operation either applies all of its
//! effects or fails with a `SocialMediaError` and changes nothing. For each
//! operation a spec predicate pins down the successful effect exactly, and a
//! spec function gives the error, if any, as a function of the starting
//! state, so success and each failure hold if and only if the spec says so.

use vstd::prelude::*;
use crate::addresses::user_address;
use crate::addresses::post_address;
use crate::addresses::like_address;
use crate::addresses::comment_address;
use crate::addresses::session_address;
use crate::addresses::derive_user_address;
use crate::addresses::derive_post_address;
use crate::addresses::derive_like_address;
use crate::addresses::derive_comment_address;
use crate::addresses::derive_session_address;
use crate::addresses::copy_bytes;
use crate::records::UserAccount;
use crate::records::UserV;
use crate::records::Post;
use crate::records::PostV;
use crate::records::Like;
use crate::records::LikeV;
use crate::records::Comment;
use crate::records::CommentV;
use crate::records::Session;
use crate::records::SessionV;
use crate::records::Record;
use crate::records::RecordV;
use crate::records::SocialMediaError;
use crate::store::Store;
use crate::store::bytes_eq;
use crate::ledger::Ledger;

verus! {

/// The whole ledger-resident state: the namespace identity that addresses
/// are derived under, the entity store, and the balance ledger.
pub struct Social {
    pub program_id: [u8; 32],
    pub store: Store,
    pub ledger: Ledger,
}

impl Social {
    /// Both components are well formed.
    pub open spec fn wf(self) -> bool {
        self.store.wf() && self.ledger.wf()
    }

    /// The namespace identity.
    pub open spec fn pid(self) -> Seq<u8> {
        self.program_id@
    }

    /// The records, as a map from addresses to record views.
    pub open spec fn recs(self) -> Map<Seq<u8>, RecordV> {
        self.store.as_map()
    }

    /// The record at an address, if any.
    pub open spec fn rec_at(self, a: Seq<u8>) -> Option<RecordV> {
        self.store.rec_at(a)
    }

    /// The balance of an identity; zero if it holds none.
    pub open spec fn balance(self, k: Seq<u8>) -> u64 {
        self.ledger.balance_of(k)
    }

    /// A fresh state under the given namespace identity: no records, all
    /// balances zero.
    pub fn new(program_id: [u8; 32]) -> (s: Social)
        ensures
            s.wf(),
            s.pid() == program_id@,
            s.recs() == Map::<Seq<u8>, RecordV>::empty(),
            forall|k: Seq<u8>| s.balance(k) == 0,
    {
        Social { program_id, store: Store::new(), ledger: Ledger::new() }
    }
}

/// The error `initialize_user` returns on this state, if any.
pub open spec fn initialize_user_err(pre: Social, caller: Seq<u8>) -> Option<SocialMediaError> {
    match user_address(pre.pid(), caller) {
        None => Some(SocialMediaError::AddressDerivationFailed),
        Some(ua) => if pre.rec_at(ua.0) is Some {
            Some(SocialMediaError::AddressAlreadyInUse)
        } else {
            None
        },
    }
}

/// A successful `initialize_user` creates exactly one fresh profile record
/// at the caller's derived user address and touches nothing else.
pub open spec fn initialize_user_ok(
    pre: Social,
    post: Social,
    caller: Seq<u8>,
    username: Seq<char>,
    bio: Seq<char>,
    profile_picture: Seq<char>,
    now: i64,
) -> bool {
    match user_address(pre.pid(), caller) {
        None => false,
        Some(ua) => {
            &&& post.recs() == pre.recs().insert(
                ua.0,
                RecordV::User(
                    UserV {
                        authority: caller,
                        username,
                        post_count: 0,
                        followers: 0,
                        following: 0,
                        bio,
                        profile_picture,
                        created_at: now,
                        updated_at: 0,
                        is_verified: false,
                        is_private: false,
                        is_active: true,
                        bump: ua.1,
                    },
                ),
            )
            &&& post.ledger == pre.ledger
            &&& post.program_id == pre.program_id
        },
    }
}

/// Create the caller's profile. Fails if the caller already has one: the
/// derived address is occupied.
pub fn initialize_user(
    s: &mut Social,
    caller: &Vec<u8>,
    username: String,
    bio: String,
    profile_picture: String,
    now: i64,
) -> (r: Result<(), SocialMediaError>)
    requires
        old(s).wf(),
    ensures
        final(s).wf(),
        (match r {
            Ok(_) => initialize_user_err(*old(s), caller@) is None && initialize_user_ok(
                *old(s),
                *final(s),
                caller@,
                username@,
                bio@,
                profile_picture@,
                now,
            ),
            Err(e) => initialize_user_err(*old(s), caller@) == Some(e) && *final(s) == *old(s),
        }),
{
    let ua = match derive_user_address(&s.program_id, caller) {
        Some(p) => p,
        None => {
            return Err(SocialMediaError::AddressDerivationFailed);
        },
    };
    let rec = Record::User(
        UserAccount {
            authority: copy_bytes(caller),
            username,
            post_count: 0,
            followers: 0,
            following: 0,
            bio,
            profile_picture,
            created_at: now,
            updated_at: 0,
            is_verified: false,
            is_private: false,
            is_active: true,
            bump: ua.1,
        },
    );
    match s.store.create(ua.0, rec) {
        Ok(_) => Ok(()),
        Err(e) => Err(e),
    }
}

/// The error `create_post` returns on this state, if any.
pub open spec fn create_post_err(pre: Social, caller: Seq<u8>) -> Option<SocialMediaError> {
    match user_address(pre.pid(), caller) {
        None => Some(SocialMediaError::AddressDerivationFailed),
        Some(ua) => match pre.rec_at(ua.0) {
            None => Some(SocialMediaError::AddressNotFound),
            Some(RecordV::User(u)) => match post_address(pre.pid(), caller, u.post_count) {
                None => Some(SocialMediaError::AddressDerivationFailed),
                Some(pa) => if pre.rec_at(pa.0) is Some {
                    Some(SocialMediaError::AddressAlreadyInUse)
                } else if u.post_count == u64::MAX {
                    Some(SocialMediaError::Overflow)
                } else {
                    None
                },
            },
            Some(_) => Some(SocialMediaError::WrongRecordKind),
        },
    }
}

/// A successful `create_post` creates one post whose `post_id` is the
/// caller's `post_count`, increments that counter by exactly one, and
/// touches nothing else.
pub open spec fn create_post_ok(
    pre: Social,
    post: Social,
    caller: Seq<u8>,
    content: Seq<char>,
    now: i64,
) -> bool {
    match user_address(pre.pid(), caller) {
        None => false,
        Some(ua) => match pre.rec_at(ua.0) {
            Some(RecordV::User(u)) => match post_address(pre.pid(), caller, u.post_count) {
                None => false,
                Some(pa) => {
                    &&& post.recs() == pre.recs().insert(
                        pa.0,
                        RecordV::Post(
                            PostV {
                                authority: caller,
                                content,
                                likes: 0,
                                comment_count: 0,
                                post_id: u.post_count,
                                created_at: now,
                            },
                        ),
                    ).insert(
                        ua.0,
                        RecordV::User(UserV { post_count: (u.post_count + 1) as u64, ..u }),
                    )
                    &&& post.ledger == pre.ledger
                    &&& post.program_id == pre.program_id
                },
            },
            _ => false,
        },
    }
}

/// Create a post for the caller: its id is the caller's current
/// `post_count`, which then increases by exactly one.
#[verifier::rlimit(60)]
pub fn create_post(s: &mut Social, caller: &Vec<u8>, content: String, now: i64) -> (r: Result<
    (),
    SocialMediaError,
>)
    requires
        old(s).wf(),
    ensures
        final(s).wf(),
        (match r {
            Ok(_) => create_post_err(*old(s), caller@) is None && create_post_ok(
                *old(s),
                *final(s),
                caller@,
                content@,
                now,
            ),
            Err(e) => create_post_err(*old(s), caller@) == Some(e) && *final(s) == *old(s),
        }),
{
    let ua = match derive_user_address(&s.program_id, caller) {
        Some(p) => p,
        None => {
            return Err(SocialMediaError::AddressDerivationFailed);
        },
    };
    let ui = match s.store.find_index(&ua.0) {
        Some(i) => i,
        None => {
            return Err(SocialMediaError::AddressNotFound);
        },
    };
    let mut new_user: UserAccount = match &s.store.entries[ui].rec {
        Record::User(u) => UserAccount {
            authority: copy_bytes(&u.authority),
            username: u.username.clone(),
            post_count: u.post_count,
            followers: u.followers,
            following: u.following,
            bio: u.bio.clone(),
            profile_picture: u.profile_picture.clone(),
            created_at: u.created_at,
            updated_at: u.updated_at,
            is_verified: u.is_verified,
            is_private: u.is_private,
            is_active: u.is_active,
            bump: u.bump,
        },
        _ => {
            return Err(SocialMediaError::WrongRecordKind);
        },
    };
    let pc = new_user.post_count;
    let pa = match derive_post_address(&s.program_id, caller, pc) {
        Some(p) => p,
        None => {
            return Err(SocialMediaError::AddressDerivationFailed);
        },
    };
    match s.store.find_index(&pa.0) {
        Some(_) => {
            return Err(SocialMediaError::AddressAlreadyInUse);
        },
        None => {},
    }
    if pc == u64::MAX {
        return Err(SocialMediaError::Overflow);
    }
    new_user.post_count = pc + 1;
    let rec = Record::Post(
        Post {
            authority: copy_bytes(caller),
            content,
            likes: 0,
            comment_count: 0,
            post_id: pc,
            created_at: now,
        },
    );
    match s.store.create(pa.0, rec) {
        Ok(_) => {},
        Err(_) => {
            proof {
                assert(false);
            }
            return Err(SocialMediaError::Overflow);
        },
    }
    s.store.replace_at(ui, Record::User(new_user));
    Ok(())
}

/// The error `like_post` returns on this state, if any.
pub open spec fn like_post_err(pre: Social, caller: Seq<u8>, post: Seq<u8>) -> Option<
    SocialMediaError,
> {
    match pre.rec_at(post) {
        None => Some(SocialMediaError::AddressNotFound),
        Some(RecordV::Post(p)) => match like_address(pre.pid(), caller, post) {
            None => Some(SocialMediaError::AddressDerivationFailed),
            Some(la) => if pre.rec_at(la.0) is Some {
                Some(SocialMediaError::AddressAlreadyInUse)
            } else if p.likes == u64::MAX {
                Some(SocialMediaError::Overflow)
            } else {
                None
            },
        },
        Some(_) => Some(SocialMediaError::WrongRecordKind),
    }
}

/// A successful `like_post` creates one like record for (caller, post) and
/// increments the post's `likes` by exactly one.
pub open spec fn like_post_ok(
    pre: Social,
    post_state: Social,
    caller: Seq<u8>,
    post: Seq<u8>,
    now: i64,
) -> bool {
    match pre.rec_at(post) {
        Some(RecordV::Post(p)) => match like_address(pre.pid(), caller, post) {
            Some(la) => {
                &&& post_state.recs() == pre.recs().insert(
                    la.0,
                    RecordV::Like(LikeV { authority: caller, post, created_at: now }),
                ).insert(post, RecordV::Post(PostV { likes: (p.likes + 1) as u64, ..p }))
                &&& post_state.ledger == pre.ledger
                &&& post_state.program_id == pre.program_id
            },
            None => false,
        },
        _ => false,
    }
}

/// Like a post. The like's address is derived from (caller, post), so a
/// second like by the same identity on the same post fails with an occupied
/// address.
#[verifier::rlimit(60)]
pub fn like_post(s: &mut Social, caller: &Vec<u8>, post_addr: &Vec<u8>, now: i64) -> (r: Result<
    (),
    SocialMediaError,
>)
    requires
        old(s).wf(),
    ensures
        final(s).wf(),
        (match r {
            Ok(_) => like_post_err(*old(s), caller@, post_addr@) is None && like_post_ok(
                *old(s),
                *final(s),
                caller@,
                post_addr@,
                now,
            ),
            Err(e) => like_post_err(*old(s), caller@, post_addr@) == Some(e) && *final(s) == *old(
                s,
            ),
        }),
{
    let pi = match s.store.find_index(post_addr) {
        Some(i) => i,
        None => {
            return Err(SocialMediaError::AddressNotFound);
        },
    };
    let mut new_post: Post = match &s.store.entries[pi].rec {
        Record::Post(p) => Post {
            authority: copy_bytes(&p.authority),
            content: p.content.clone(),
            likes: p.likes,
            comment_count: p.comment_count,
            post_id: p.post_id,
            created_at: p.created_at,
        },
        _ => {
            return Err(SocialMediaError::WrongRecordKind);
        },
    };
    let la = match derive_like_address(&s.program_id, caller, post_addr) {
        Some(p) => p,
        None => {
            return Err(SocialMediaError::AddressDerivationFailed);
        },
    };
    match s.store.find_index(&la.0) {
        Some(_) => {
            return Err(SocialMediaError::AddressAlreadyInUse);
        },
        None => {},
    }
    if new_post.likes == u64::MAX {
        return Err(SocialMediaError::Overflow);
    }
    new_post.likes = new_post.likes + 1;
    let rec = Record::Like(
        Like { authority: copy_bytes(caller), post: copy_bytes(post_addr), created_at: now },
    );
    match s.store.create(la.0, rec) {
        Ok(_) => {},
        Err(_) => {
            proof {
                assert(false);
            }
            return Err(SocialMediaError::Overflow);
        },
    }
    s.store.replace_at(pi, Record::Post(new_post));
    Ok(())
}

/// The error `create_comment` returns on this state, if any.
pub open spec fn create_comment_err(pre: Social, caller: Seq<u8>, post: Seq<u8>) -> Option<
    SocialMediaError,
> {
    match pre.rec_at(post) {
        None => Some(SocialMediaError::AddressNotFound),
        Some(RecordV::Post(p)) => match comment_address(pre.pid(), post, p.comment_count) {
            None => Some(SocialMediaError::AddressDerivationFailed),
            Some(ca) => if pre.rec_at(ca.0) is Some {
                Some(SocialMediaError::AddressAlreadyInUse)
            } else if p.comment_count == u64::MAX {
                Some(SocialMediaError::Overflow)
            } else {
                None
            },
        },
        Some(_) => Some(SocialMediaError::WrongRecordKind),
    }
}

/// A successful `create_comment` creates one comment whose `comment_id` is
/// the post's `comment_count`, and increments that counter by exactly one.
pub open spec fn create_comment_ok(
    pre: Social,
    post_state: Social,
    caller: Seq<u8>,
    post: Seq<u8>,
    content: Seq<char>,
    now: i64,
) -> bool {
    match pre.rec_at(post) {
        Some(RecordV::Post(p)) => match comment_address(pre.pid(), post, p.comment_count) {
            Some(ca) => {
                &&& post_state.recs() == pre.recs().insert(
                    ca.0,
                    RecordV::Comment(
                        CommentV {
                            authority: caller,
                            post,
                            content,
                            comment_id: p.comment_count,
                            created_at: now,
                        },
                    ),
                ).insert(
                    post,
                    RecordV::Post(PostV { comment_count: (p.comment_count + 1) as u64, ..p }),
                )
                &&& post_state.ledger == pre.ledger
                &&& post_state.program_id == pre.program_id
            },
            None => false,
        },
        _ => false,
    }
}

/// Comment on a post: the comment's id is the post's current
/// `comment_count`, which then increases by exactly one.
#[verifier::rlimit(60)]
pub fn create_comment(
    s: &mut Social,
    caller: &Vec<u8>,
    post_addr: &Vec<u8>,
    content: String,
    now: i64,
) -> (r: Result<(), SocialMediaError>)
    requires
        old(s).wf(),
    ensures
        final(s).wf(),
        (match r {
            Ok(_) => create_comment_err(*old(s), caller@, post_addr@) is None && create_comment_ok(
                *old(s),
                *final(s),
                caller@,
                post_addr@,
                content@,
                now,
            ),
            Err(e) => create_comment_err(*old(s), caller@, post_addr@) == Some(e) && *final(s)
                == *old(s),
        }),
{
    let pi = match s.store.find_index(post_addr) {
        Some(i) => i,
        None => {
            return Err(SocialMediaError::AddressNotFound);
        },
    };
    let mut new_post: Post = match &s.store.entries[pi].rec {
        Record::Post(p) => Post {
            authority: copy_bytes(&p.authority),
            content: p.content.clone(),
            likes: p.likes,
            comment_count: p.comment_count,
            post_id: p.post_id,
            created_at: p.created_at,
        },
        _ => {
            return Err(SocialMediaError::WrongRecordKind);
        },
    };
    let cc = new_post.comment_count;
    let ca = match derive_comment_address(&s.program_id, post_addr, cc) {
        Some(p) => p,
        None => {
            return Err(SocialMediaError::AddressDerivationFailed);
        },
    };
    match s.store.find_index(&ca.0) {
        Some(_) => {
            return Err(SocialMediaError::AddressAlreadyInUse);
        },
        None => {},
    }
    if cc == u64::MAX {
        return Err(SocialMediaError::Overflow);
    }
    new_post.comment_count = cc + 1;
    let rec = Record::Comment(
        Comment {
            authority: copy_bytes(caller),
            post: copy_bytes(post_addr),
            content,
            comment_id: cc,
            created_at: now,
        },
    );
    match s.store.create(ca.0, rec) {
        Ok(_) => {},
        Err(_) => {
            proof {
                assert(false);
            }
            return Err(SocialMediaError::Overflow);
        },
    }
    s.store.replace_at(pi, Record::Post(new_post));
    Ok(())
}

/// The error `create_session` returns on this state, if any.
pub open spec fn create_session_err(pre: Social, caller: Seq<u8>, delegate: Seq<u8>) -> Option<
    SocialMediaError,
> {
    match session_address(pre.pid(), caller, delegate) {
        None => Some(SocialMediaError::AddressDerivationFailed),
        Some(sa) => if pre.rec_at(sa.0) is Some {
            Some(SocialMediaError::AddressAlreadyInUse)
        } else {
            None
        },
    }
}

/// A successful `create_session` creates exactly one active session record
/// for (caller, delegate) and touches nothing else.
pub open spec fn create_session_ok(
    pre: Social,
    post: Social,
    caller: Seq<u8>,
    delegate: Seq<u8>,
    expired_at: i64,
    now: i64,
) -> bool {
    match session_address(pre.pid(), caller, delegate) {
        None => false,
        Some(sa) => {
            &&& post.recs() == pre.recs().insert(
                sa.0,
                RecordV::Session(
                    SessionV {
                        authority: caller,
                        session_key: delegate,
                        expired_at,
                        created_at: now,
                        is_active: true,
                    },
                ),
            )
            &&& post.ledger == pre.ledger
            &&& post.program_id == pre.program_id
        },
    }
}

/// Delegate signing power to `delegate` until `expired_at`. No bound on
/// `expired_at` is enforced here; that is the caller's responsibility. A
/// second session for the same (owner, delegate) pair fails with an occupied
/// address.
pub fn create_session(
    s: &mut Social,
    caller: &Vec<u8>,
    delegate: &Vec<u8>,
    expired_at: i64,
    now: i64,
) -> (r: Result<(), SocialMediaError>)
    requires
        old(s).wf(),
    ensures
        final(s).wf(),
        (match r {
            Ok(_) => create_session_err(*old(s), caller@, delegate@) is None && create_session_ok(
                *old(s),
                *final(s),
                caller@,
                delegate@,
                expired_at,
                now,
            ),
            Err(e) => create_session_err(*old(s), caller@, delegate@) == Some(e) && *final(s)
                == *old(s),
        }),
{
    let sa = match derive_session_address(&s.program_id, caller, delegate) {
        Some(p) => p,
        None => {
            return Err(SocialMediaError::AddressDerivationFailed);
        },
    };
    let rec = Record::Session(
        Session {
            authority: copy_bytes(caller),
            session_key: copy_bytes(delegate),
            expired_at,
            created_at: now,
            is_active: true,
        },
    );
    match s.store.create(sa.0, rec) {
        Ok(_) => Ok(()),
        Err(e) => Err(e),
    }
}

/// The error `fund_session` returns on this state, if any.
pub open spec fn fund_session_err(
    pre: Social,
    caller: Seq<u8>,
    delegate: Seq<u8>,
    amount: u64,
) -> Option<SocialMediaError> {
    match session_address(pre.pid(), caller, delegate) {
        None => Some(SocialMediaError::AddressDerivationFailed),
        Some(sa) => match pre.rec_at(sa.0) {
            None => Some(SocialMediaError::AddressNotFound),
            Some(RecordV::Session(_)) => if pre.balance(caller) < amount {
                Some(SocialMediaError::InsufficientFunds)
            } else if caller != delegate && pre.balance(delegate) + amount > u64::MAX {
                Some(SocialMediaError::Overflow)
            } else {
                None
            },
            Some(_) => Some(SocialMediaError::WrongRecordKind),
        },
    }
}

/// A successful `fund_session` moves exactly `amount` from the owner's
/// balance to the delegate's and mutates no record.
pub open spec fn fund_session_ok(
    pre: Social,
    post: Social,
    caller: Seq<u8>,
    delegate: Seq<u8>,
    amount: u64,
) -> bool {
    &&& post.recs() == pre.recs()
    &&& post.program_id == pre.program_id
    &&& if caller == delegate {
        forall|k: Seq<u8>| post.balance(k) == pre.balance(k)
    } else {
        &&& post.balance(caller) == pre.balance(caller) - amount
        &&& post.balance(delegate) == pre.balance(delegate) + amount
        &&& forall|k: Seq<u8>|
            k != caller && k != delegate ==> post.balance(k) == pre.balance(k)
    }
}

/// Move `amount` of the owner's balance to the delegate identity. Requires
/// the session record for (caller, delegate) to exist; fails if the owner's
/// balance is insufficient. No session state is mutated.
pub fn fund_session(s: &mut Social, caller: &Vec<u8>, delegate: &Vec<u8>, amount: u64) -> (r:
    Result<(), SocialMediaError>)
    requires
        old(s).wf(),
    ensures
        final(s).wf(),
        (match r {
            Ok(_) => fund_session_err(*old(s), caller@, delegate@, amount) is None
                && fund_session_ok(*old(s), *final(s), caller@, delegate@, amount),
            Err(e) => fund_session_err(*old(s), caller@, delegate@, amount) == Some(e) && *final(s)
                == *old(s),
        }),
{
    let sa = match derive_session_address(&s.program_id, caller, delegate) {
        Some(p) => p,
        None => {
            return Err(SocialMediaError::AddressDerivationFailed);
        },
    };
    let si = match s.store.find_index(&sa.0) {
        Some(i) => i,
        None => {
            return Err(SocialMediaError::AddressNotFound);
        },
    };
    match &s.store.entries[si].rec {
        Record::Session(_) => {},
        _ => {
            return Err(SocialMediaError::WrongRecordKind);
        },
    }
    let bc = s.ledger.balance(caller);
    if bc < amount {
        return Err(SocialMediaError::InsufficientFunds);
    }
    if !bytes_eq(caller, delegate) {
        let bd = s.ledger.balance(delegate);
        if bd > u64::MAX - amount {
            return Err(SocialMediaError::Overflow);
        }
        s.ledger.set_balance(caller, bc - amount);
        s.ledger.set_balance(delegate, bd + amount);
    }
    Ok(())
}

/// What a refund pays out: the delegate's balance above the rent-exempt
/// reserve, or nothing if the balance does not exceed it.
pub open spec fn refund_amount(pre: Social, delegate: Seq<u8>, reserve: u64) -> int {
    if pre.balance(delegate) > reserve {
        pre.balance(delegate) - reserve
    } else {
        0
    }
}

/// The error `refund_session` returns on this state, if any.
pub open spec fn refund_session_err(
    pre: Social,
    caller: Seq<u8>,
    delegate: Seq<u8>,
    reserve: u64,
) -> Option<SocialMediaError> {
    match session_address(pre.pid(), caller, delegate) {
        None => Some(SocialMediaError::AddressDerivationFailed),
        Some(sa) => match pre.rec_at(sa.0) {
            None => Some(SocialMediaError::AddressNotFound),
            Some(RecordV::Session(sess)) => if sess.authority != caller {
                Some(SocialMediaError::UnauthorizedAccess)
            } else if !sess.is_active {
                Some(SocialMediaError::SessionNotActive)
            } else if caller != delegate && pre.balance(caller) + refund_amount(
                pre,
                delegate,
                reserve,
            ) > u64::MAX {
                Some(SocialMediaError::Overflow)
            } else {
                None
            },
            Some(_) => Some(SocialMediaError::WrongRecordKind),
        },
    }
}

/// A successful `refund_session` moves the delegate's balance above the
/// reserve back to the owner — leaving the delegate exactly the reserve if
/// anything moved — and always deactivates the session.
pub open spec fn refund_session_ok(
    pre: Social,
    post: Social,
    caller: Seq<u8>,
    delegate: Seq<u8>,
    reserve: u64,
) -> bool {
    match session_address(pre.pid(), caller, delegate) {
        None => false,
        Some(sa) => match pre.rec_at(sa.0) {
            Some(RecordV::Session(sess)) => {
                &&& post.recs() == pre.recs().insert(
                    sa.0,
                    RecordV::Session(SessionV { is_active: false, ..sess }),
                )
                &&& post.program_id == pre.program_id
                &&& if caller == delegate {
                    forall|k: Seq<u8>| post.balance(k) == pre.balance(k)
                } else {
                    &&& post.balance(delegate) == pre.balance(delegate) - refund_amount(
                        pre,
                        delegate,
                        reserve,
                    )
                    &&& post.balance(caller) == pre.balance(caller) + refund_amount(
                        pre,
                        delegate,
                        reserve,
                    )
                    &&& forall|k: Seq<u8>|
                        k != caller && k != delegate ==> post.balance(k) == pre.balance(k)
                }
            },
            _ => false,
        },
    }
}

/// Refund the delegate's spendable balance above the rent-exempt reserve to
/// the owner, and deactivate the session — unconditionally, even when
/// nothing is refundable. Only the session's owner may call this, and only
/// while the session is active: a second call fails.
#[verifier::rlimit(60)]
pub fn refund_session(s: &mut Social, caller: &Vec<u8>, delegate: &Vec<u8>, reserve: u64) -> (r:
    Result<(), SocialMediaError>)
    requires
        old(s).wf(),
    ensures
        final(s).wf(),
        (match r {
            Ok(_) => refund_session_err(*old(s), caller@, delegate@, reserve) is None
                && refund_session_ok(*old(s), *final(s), caller@, delegate@, reserve),
            Err(e) => refund_session_err(*old(s), caller@, delegate@, reserve) == Some(e)
                && *final(s) == *old(s),
        }),
{
    let sa = match derive_session_address(&s.program_id, caller, delegate) {
        Some(p) => p,
        None => {
            return Err(SocialMediaError::AddressDerivationFailed);
        },
    };
    let si = match s.store.find_index(&sa.0) {
        Some(i) => i,
        None => {
            return Err(SocialMediaError::AddressNotFound);
        },
    };
    let new_sess: Session = match &s.store.entries[si].rec {
        Record::Session(sess) => Session {
            authority: copy_bytes(&sess.authority),
            session_key: copy_bytes(&sess.session_key),
            expired_at: sess.expired_at,
            created_at: sess.created_at,
            is_active: false,
        },
        _ => {
            return Err(SocialMediaError::WrongRecordKind);
        },
    };
    if !bytes_eq(&new_sess.authority, caller) {
        return Err(SocialMediaError::UnauthorizedAccess);
    }
    let was_active = match &s.store.entries[si].rec {
        Record::Session(sess) => sess.is_active,
        _ => false,
    };
    if !was_active {
        return Err(SocialMediaError::SessionNotActive);
    }
    if !bytes_eq(caller, delegate) {
        let bd = s.ledger.balance(delegate);
        let refund: u64 = if bd > reserve {
            bd - reserve
        } else {
            0
        };
        let bc = s.ledger.balance(caller);
        if bc > u64::MAX - refund {
            return Err(SocialMediaError::Overflow);
        }
        s.ledger.set_balance(delegate, bd - refund);
        s.ledger.set_balance(caller, bc + refund);
    }
    s.store.replace_at(si, Record::Session(new_sess));
    Ok(())
}

/// The error `close_session` returns on this state, if any.
pub open spec fn close_session_err(
    pre: Social,
    caller: Seq<u8>,
    owner: Seq<u8>,
    delegate: Seq<u8>,
    now: i64,
) -> Option<SocialMediaError> {
    match session_address(pre.pid(), owner, delegate) {
        None => Some(SocialMediaError::AddressDerivationFailed),
        Some(sa) => match pre.rec_at(sa.0) {
            None => Some(SocialMediaError::AddressNotFound),
            Some(RecordV::Session(sess)) => if now > sess.expired_at || caller == sess.authority {
                None
            } else {
                Some(SocialMediaError::CannotCloseSession)
            },
            Some(_) => Some(SocialMediaError::WrongRecordKind),
        },
    }
}

/// A successful `close_session` destroys the session record and moves no
/// balance.
pub open spec fn close_session_ok(
    pre: Social,
    post: Social,
    owner: Seq<u8>,
    delegate: Seq<u8>,
) -> bool {
    match session_address(pre.pid(), owner, delegate) {
        None => false,
        Some(sa) => {
            &&& post.recs() == pre.recs().remove(sa.0)
            &&& post.ledger == pre.ledger
            &&& post.program_id == pre.program_id
        },
    }
}

/// Destroy the session record for (owner, delegate). Before `expired_at`
/// only the owner may close; after it, anyone may. No balance moves here:
/// refund must have been called separately if anything was left.
pub fn close_session(
    s: &mut Social,
    caller: &Vec<u8>,
    owner: &Vec<u8>,
    delegate: &Vec<u8>,
    now: i64,
) -> (r: Result<(), SocialMediaError>)
    requires
        old(s).wf(),
    ensures
        final(s).wf(),
        (match r {
            Ok(_) => close_session_err(*old(s), caller@, owner@, delegate@, now) is None
                && close_session_ok(*old(s), *final(s), owner@, delegate@),
            Err(e) => close_session_err(*old(s), caller@, owner@, delegate@, now) == Some(e)
                && *final(s) == *old(s),
        }),
{
    let sa = match derive_session_address(&s.program_id, owner, delegate) {
        Some(p) => p,
        None => {
            return Err(SocialMediaError::AddressDerivationFailed);
        },
    };
    let si = match s.store.find_index(&sa.0) {
        Some(i) => i,
        None => {
            return Err(SocialMediaError::AddressNotFound);
        },
    };
    let may_close = match &s.store.entries[si].rec {
        Record::Session(sess) => now > sess.expired_at || bytes_eq(caller, &sess.authority),
        _ => {
            return Err(SocialMediaError::WrongRecordKind);
        },
    };
    if !may_close {
        return Err(SocialMediaError::CannotCloseSession);
    }
    s.store.remove_entry(si);
    Ok(())
}

} // verus!

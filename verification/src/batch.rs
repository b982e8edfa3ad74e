//! The batch action processor.
//!
//! A batch applies a caller-ordered list of heterogeneous actions — likes
//! and comments — against a flat, positionally aligned list of record
//! handles: each action consumes the target post's handle and then the
//! handle of its pre-created like or comment record. Counters persist across
//! the actions of one call, so two comments on the same post receive
//! consecutive ids. The whole batch is atomic: if any action fails, the
//! state is left exactly as it was.

use vstd::prelude::*;
use crate::records::BatchAction;
use crate::records::BatchActionV;
use crate::records::Record;
use crate::records::RecordV;
use crate::records::UserAccount;
use crate::records::Post;
use crate::records::PostV;
use crate::records::Like;
use crate::records::LikeV;
use crate::records::Comment;
use crate::records::CommentV;
use crate::records::Session;
use crate::records::SocialMediaError;
use crate::ops::Social;
use crate::store::Store;
use crate::store::Entry;
use crate::store::bytes_eq;
use crate::store::lemma_map_of_congruent;
use crate::addresses::copy_bytes;

verus! {

/// The views of a list of batch actions.
pub open spec fn actions_view(s: Seq<BatchAction>) -> Seq<BatchActionV> {
    s.map_values(|a: BatchAction| a@)
}

/// The views of the flat handle list.
pub open spec fn handles_view(s: Seq<Vec<u8>>) -> Seq<Seq<u8>> {
    s.map_values(|v: Vec<u8>| v@)
}

/// One action applied to the record map: take the post handle at `cursor`
/// and the like or comment handle after it, check that the post handle
/// matches the action's declared target, fill the pre-created record in, and
/// bump the post's counter.
pub open spec fn apply_action(
    caller: Seq<u8>,
    now: i64,
    m: Map<Seq<u8>, RecordV>,
    action: BatchActionV,
    handles: Seq<Seq<u8>>,
    cursor: int,
) -> Result<Map<Seq<u8>, RecordV>, SocialMediaError> {
    if cursor + 1 >= handles.len() {
        Err(SocialMediaError::NotEnoughAccountKeys)
    } else {
        let ph = handles[cursor];
        let rh = handles[cursor + 1];
        if !m.contains_key(ph) {
            Err(SocialMediaError::AddressNotFound)
        } else {
            match m[ph] {
                RecordV::Post(p) => match action {
                    BatchActionV::Like { post_key } => if ph != post_key {
                        Err(SocialMediaError::InvalidSession)
                    } else if !m.contains_key(rh) {
                        Err(SocialMediaError::AddressNotFound)
                    } else {
                        match m[rh] {
                            RecordV::Like(_) => if p.likes == u64::MAX {
                                Err(SocialMediaError::Overflow)
                            } else {
                                Ok(
                                    m.insert(
                                        rh,
                                        RecordV::Like(
                                            LikeV { authority: caller, post: post_key, created_at: now },
                                        ),
                                    ).insert(
                                        ph,
                                        RecordV::Post(PostV { likes: (p.likes + 1) as u64, ..p }),
                                    ),
                                )
                            },
                            _ => Err(SocialMediaError::WrongRecordKind),
                        }
                    },
                    BatchActionV::Comment { post_key, content } => if ph != post_key {
                        Err(SocialMediaError::InvalidSession)
                    } else if !m.contains_key(rh) {
                        Err(SocialMediaError::AddressNotFound)
                    } else {
                        match m[rh] {
                            RecordV::Comment(_) => if p.comment_count == u64::MAX {
                                Err(SocialMediaError::Overflow)
                            } else {
                                Ok(
                                    m.insert(
                                        rh,
                                        RecordV::Comment(
                                            CommentV {
                                                authority: caller,
                                                post: post_key,
                                                content,
                                                comment_id: p.comment_count,
                                                created_at: now,
                                            },
                                        ),
                                    ).insert(
                                        ph,
                                        RecordV::Post(
                                            PostV {
                                                comment_count: (p.comment_count + 1) as u64,
                                                ..p
                                            },
                                        ),
                                    ),
                                )
                            },
                            _ => Err(SocialMediaError::WrongRecordKind),
                        }
                    },
                },
                _ => Err(SocialMediaError::WrongRecordKind),
            }
        }
    }
}

/// A whole batch applied in caller order: the first failure aborts the rest,
/// and the cursor advances by two handles per action.
pub open spec fn apply_batch(
    caller: Seq<u8>,
    now: i64,
    m: Map<Seq<u8>, RecordV>,
    actions: Seq<BatchActionV>,
    handles: Seq<Seq<u8>>,
    cursor: int,
) -> Result<Map<Seq<u8>, RecordV>, SocialMediaError>
    decreases actions.len(),
{
    if actions.len() == 0 {
        Ok(m)
    } else {
        match apply_action(caller, now, m, actions[0], handles, cursor) {
            Ok(m2) => apply_batch(caller, now, m2, actions.skip(1), handles, cursor + 2),
            Err(e) => Err(e),
        }
    }
}

/// Copy a record, field by field.
fn clone_record(r: &Record) -> (c: Record)
    ensures
        c@ == r@,
{
    match r {
        Record::User(u) => Record::User(
            UserAccount {
                authority: copy_bytes(&u.authority),
                username: u.username.clone(),
                post_count: u.post_count,
                followers: u.followers,
                following: u.following,
                bio: u.bio.clone(),
                profile_picture: u.profile_picture.clone(),
                created_at: u.created_at,
                updated_at: u.updated_at,
                is_verified: u.is_verified,
                is_private: u.is_private,
                is_active: u.is_active,
                bump: u.bump,
            },
        ),
        Record::Post(p) => Record::Post(
            Post {
                authority: copy_bytes(&p.authority),
                content: p.content.clone(),
                likes: p.likes,
                comment_count: p.comment_count,
                post_id: p.post_id,
                created_at: p.created_at,
            },
        ),
        Record::Like(l) => Record::Like(
            Like {
                authority: copy_bytes(&l.authority),
                post: copy_bytes(&l.post),
                created_at: l.created_at,
            },
        ),
        Record::Comment(c0) => Record::Comment(
            Comment {
                authority: copy_bytes(&c0.authority),
                post: copy_bytes(&c0.post),
                content: c0.content.clone(),
                comment_id: c0.comment_id,
                created_at: c0.created_at,
            },
        ),
        Record::Session(se) => Record::Session(
            Session {
                authority: copy_bytes(&se.authority),
                session_key: copy_bytes(&se.session_key),
                expired_at: se.expired_at,
                created_at: se.created_at,
                is_active: se.is_active,
            },
        ),
    }
}

/// Copy a store: same addresses, same record views.
fn clone_store(s: &Store) -> (c: Store)
    requires
        s.wf(),
    ensures
        c.wf(),
        c.as_map() == s.as_map(),
{
    let mut entries: Vec<Entry> = Vec::new();
    let mut i: usize = 0;
    while i < s.entries.len()
        invariant
            i <= s.entries@.len(),
            entries@.len() == i,
            forall|j: int|
                0 <= j < i ==> entries@[j].addr@ == s.entries@[j].addr@ && entries@[j].rec@
                    == s.entries@[j].rec@,
        decreases s.entries@.len() - i,
    {
        entries.push(
            Entry { addr: copy_bytes(&s.entries[i].addr), rec: clone_record(&s.entries[i].rec) },
        );
        i = i + 1;
    }
    let c = Store { entries };
    proof {
        lemma_map_of_congruent(c.entries@, s.entries@);
        assert forall|p: int, q: int|
            0 <= p < q < c.entries@.len() implies c.entries@[p].addr@ != c.entries@[q].addr@ by {
            assert(s.entries@[p].addr@ != s.entries@[q].addr@);
        }
    }
    c
}

/// Apply the actions in order against the positionally supplied handles.
/// All or nothing: on any failure every effect is discarded and the state is
/// exactly as before the call.
#[verifier::rlimit(100)]
pub fn batch_actions(
    s: &mut Social,
    caller: &Vec<u8>,
    actions: &Vec<BatchAction>,
    handles: &Vec<Vec<u8>>,
    now: i64,
) -> (r: Result<(), SocialMediaError>)
    requires
        old(s).wf(),
    ensures
        final(s).wf(),
        (match r {
            Ok(_) => apply_batch(
                caller@,
                now,
                old(s).recs(),
                actions_view(actions@),
                handles_view(handles@),
                0,
            ) == Ok::<Map<Seq<u8>, RecordV>, SocialMediaError>(final(s).recs()) && final(s).ledger
                == old(s).ledger && final(s).program_id == old(s).program_id,
            Err(e) => apply_batch(
                caller@,
                now,
                old(s).recs(),
                actions_view(actions@),
                handles_view(handles@),
                0,
            ) == Err::<Map<Seq<u8>, RecordV>, SocialMediaError>(e) && *final(s) == *old(s),
        }),
{
    let ghost av = actions_view(actions@);
    let ghost hv = handles_view(handles@);
    let mut work = clone_store(&s.store);
    let mut k: usize = 0;
    let mut cursor: usize = 0;
    proof {
        assert(av.skip(0) =~= av);
    }
    while k < actions.len()
        invariant
            old(s).wf(),
            work.wf(),
            k <= actions@.len(),
            cursor <= handles@.len(),
            av == actions_view(actions@),
            hv == handles_view(handles@),
            apply_batch(caller@, now, old(s).recs(), av, hv, 0) == apply_batch(
                caller@,
                now,
                work.as_map(),
                av.skip(k as int),
                hv,
                cursor as int,
            ),
            *s == *old(s),
        decreases actions@.len() - k,
    {
        let ghost m0 = work.as_map();
        proof {
            assert(av.skip(k as int)[0] == av[k as int]);
        }
        if handles.len() - cursor < 2 {
            return Err(SocialMediaError::NotEnoughAccountKeys);
        }
        let ph = &handles[cursor];
        let rh = &handles[cursor + 1];
        let pi = match work.find_index(ph) {
            Some(i) => i,
            None => {
                return Err(SocialMediaError::AddressNotFound);
            },
        };
        let mut new_post: Post = match &work.entries[pi].rec {
            Record::Post(p) => Post {
                authority: copy_bytes(&p.authority),
                content: p.content.clone(),
                likes: p.likes,
                comment_count: p.comment_count,
                post_id: p.post_id,
                created_at: p.created_at,
            },
            _ => {
                return Err(SocialMediaError::WrongRecordKind);
            },
        };
        match &actions[k] {
            BatchAction::Like { post_key } => {
                if !bytes_eq(ph, post_key) {
                    return Err(SocialMediaError::InvalidSession);
                }
                let ri = match work.find_index(rh) {
                    Some(i) => i,
                    None => {
                        return Err(SocialMediaError::AddressNotFound);
                    },
                };
                match &work.entries[ri].rec {
                    Record::Like(_) => {},
                    _ => {
                        return Err(SocialMediaError::WrongRecordKind);
                    },
                }
                if new_post.likes == u64::MAX {
                    return Err(SocialMediaError::Overflow);
                }
                new_post.likes = new_post.likes + 1;
                work.replace_at(
                    ri,
                    Record::Like(
                        Like {
                            authority: copy_bytes(caller),
                            post: copy_bytes(post_key),
                            created_at: now,
                        },
                    ),
                );
                work.replace_at(pi, Record::Post(new_post));
                proof {
                    assert(apply_action(caller@, now, m0, av[k as int], hv, cursor as int)
                        == Ok::<Map<Seq<u8>, RecordV>, SocialMediaError>(work.as_map()));
                }
            },
            BatchAction::Comment { post_key, content } => {
                if !bytes_eq(ph, post_key) {
                    return Err(SocialMediaError::InvalidSession);
                }
                let ri = match work.find_index(rh) {
                    Some(i) => i,
                    None => {
                        return Err(SocialMediaError::AddressNotFound);
                    },
                };
                match &work.entries[ri].rec {
                    Record::Comment(_) => {},
                    _ => {
                        return Err(SocialMediaError::WrongRecordKind);
                    },
                }
                let cid = new_post.comment_count;
                if cid == u64::MAX {
                    return Err(SocialMediaError::Overflow);
                }
                new_post.comment_count = cid + 1;
                work.replace_at(
                    ri,
                    Record::Comment(
                        Comment {
                            authority: copy_bytes(caller),
                            post: copy_bytes(post_key),
                            content: content.clone(),
                            comment_id: cid,
                            created_at: now,
                        },
                    ),
                );
                work.replace_at(pi, Record::Post(new_post));
                proof {
                    assert(apply_action(caller@, now, m0, av[k as int], hv, cursor as int)
                        == Ok::<Map<Seq<u8>, RecordV>, SocialMediaError>(work.as_map()));
                }
            },
        }
        proof {
            assert(av.skip(k as int).skip(1) =~= av.skip(k as int + 1));
        }
        k = k + 1;
        cursor = cursor + 2;
    }
    proof {
        assert(av.skip(k as int) =~= Seq::<BatchActionV>::empty());
    }
    s.store = work;
    Ok(())
}

} // verus!

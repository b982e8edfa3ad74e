//! The guarantees that hold across operations, stated and proved once.

use vstd::prelude::*;
use crate::addresses::EntityKind;
use crate::addresses::spec_derive;
use crate::addresses::user_address;
use crate::addresses::post_address;
use crate::addresses::session_address;
use crate::ops::Social;
use crate::ops::create_post_ok;
use crate::ops::create_post_err;
use crate::ops::like_post_ok;
use crate::ops::like_post_err;
use crate::ops::create_session_ok;
use crate::ops::create_session_err;
use crate::ops::refund_session_ok;
use crate::ops::refund_session_err;
use crate::ops::close_session_err;
use crate::records::RecordV;
use crate::records::UserV;
use crate::records::PostV;
use crate::records::CommentV;
use crate::records::SocialMediaError;
use crate::records::BatchActionV;
use crate::batch::apply_action;
use crate::batch::apply_batch;

verus! {

/// Address derivation is deterministic: identical namespace, kind and seeds
/// always yield the identical address and bump.
pub proof fn lemma_derive_deterministic(
    pid1: Seq<u8>,
    pid2: Seq<u8>,
    k1: EntityKind,
    k2: EntityKind,
    s1: Seq<Seq<u8>>,
    s2: Seq<Seq<u8>>,
)
    requires
        pid1 == pid2,
        k1 == k2,
        s1 == s2,
    ensures
        spec_derive(pid1, k1, s1) == spec_derive(pid2, k2, s2),
{
}

/// Post ids are assigned in call order: a successful creation stamps the
/// author's current counter on the new post and raises the counter by
/// exactly one — so after N successful creations the counter reads N and
/// the assigned ids are exactly 0 through N-1, in order.
pub proof fn lemma_post_ids_sequential(
    pre: Social,
    post: Social,
    caller: Seq<u8>,
    content: Seq<char>,
    now: i64,
)
    requires
        create_post_err(pre, caller) is None,
        create_post_ok(pre, post, caller, content, now),
    ensures
        ({
            let ua = user_address(pre.pid(), caller)->Some_0;
            let u0 = pre.rec_at(ua.0)->Some_0->User_0;
            let pa = post_address(pre.pid(), caller, u0.post_count)->Some_0;
            &&& post.rec_at(ua.0)->Some_0->User_0.post_count == u0.post_count + 1
            &&& post.rec_at(pa.0) is Some
            &&& post.rec_at(pa.0)->Some_0->Post_0.post_id == u0.post_count
        }),
{
}

/// A chain of successful post creations by one caller: each state follows
/// from the previous one by a successful `create_post`.
pub open spec fn posts_chain(
    states: Seq<Social>,
    caller: Seq<u8>,
    contents: Seq<Seq<char>>,
    times: Seq<i64>,
) -> bool {
    &&& states.len() == contents.len() + 1
    &&& times.len() == contents.len()
    &&& forall|i: int|
        0 <= i < contents.len() ==> create_post_err(#[trigger] states[i], caller) is None
            && create_post_ok(states[i], states[i + 1], caller, contents[i], times[i])
}

/// Monotonicity of post ids: after N successful `create_post` calls
/// starting from a profile whose counter reads `c0`, the counter reads
/// `c0 + N`, and the posts created carry ids `c0` through `c0 + N - 1`, in
/// call order, each still holding its content and timestamp. Starting from a
/// fresh profile (`c0 == 0`) the ids are exactly `0 .. N-1`.
pub proof fn lemma_post_count_monotonic(
    states: Seq<Social>,
    caller: Seq<u8>,
    contents: Seq<Seq<char>>,
    times: Seq<i64>,
)
    requires
        posts_chain(states, caller, contents, times),
    ensures
        states.last().program_id == states[0].program_id,
        contents.len() > 0 ==> ({
            let ua = user_address(states[0].pid(), caller)->Some_0;
            let c0 = states[0].rec_at(ua.0)->Some_0->User_0.post_count;
            &&& user_address(states[0].pid(), caller) is Some
            &&& states[0].rec_at(ua.0) is Some
            &&& states[0].rec_at(ua.0)->Some_0 is User
            &&& c0 + contents.len() <= u64::MAX
            &&& states.last().rec_at(ua.0) is Some
            &&& states.last().rec_at(ua.0)->Some_0 is User
            &&& states.last().rec_at(ua.0)->Some_0->User_0.post_count == c0 + contents.len()
            &&& forall|id: u64|
                #![trigger post_address(states[0].pid(), caller, id)]
                c0 <= id < c0 + contents.len() ==> ({
                    let pa = post_address(states[0].pid(), caller, id)->Some_0;
                    &&& post_address(states[0].pid(), caller, id) is Some
                    &&& states.last().rec_at(pa.0) is Some
                    &&& states.last().rec_at(pa.0)->Some_0 is Post
                    &&& states.last().rec_at(pa.0)->Some_0->Post_0.post_id == id
                    &&& states.last().rec_at(pa.0)->Some_0->Post_0.content == contents[id - c0]
                    &&& states.last().rec_at(pa.0)->Some_0->Post_0.created_at == times[id - c0]
                })
        }),
    decreases contents.len(),
{
    let n = contents.len() as int;
    if n > 0 {
        assert(create_post_err(states[n - 1], caller) is None);
        assert(create_post_ok(states[n - 1], states[n], caller, contents[n - 1], times[n - 1]));
        if n == 1 {
            assert(create_post_err(states[0], caller) is None);
        } else {
            assert(posts_chain(states.drop_last(), caller, contents.drop_last(), times.drop_last()))
                by {
                assert(forall|i: int|
                    0 <= i < n - 1 ==> #[trigger] states.drop_last()[i] == states[i]);
                assert(forall|i: int|
                    0 <= i < n ==> #[trigger] states.drop_last()[i] == states[i]);
            }
            lemma_post_count_monotonic(
                states.drop_last(),
                caller,
                contents.drop_last(),
                times.drop_last(),
            );
            assert(states.drop_last().last() == states[n - 1]);
            assert(states.drop_last()[0] == states[0]);
        }
        let ua = user_address(states[0].pid(), caller)->Some_0;
        let c0 = states[0].rec_at(ua.0)->Some_0->User_0.post_count;
        let midu = states[n - 1].rec_at(ua.0)->Some_0->User_0;
        assert(states[n - 1].pid() == states[0].pid());
        assert(midu.post_count == c0 + n - 1);
        let pa_new = post_address(states[0].pid(), caller, midu.post_count)->Some_0;
        assert(states[n - 1].rec_at(pa_new.0) is None);
        assert(states[n].recs() == states[n - 1].recs().insert(
            pa_new.0,
            RecordV::Post(
                PostV {
                    authority: caller,
                    content: contents[n - 1],
                    likes: 0,
                    comment_count: 0,
                    post_id: midu.post_count,
                    created_at: times[n - 1],
                },
            ),
        ).insert(ua.0, RecordV::User(UserV { post_count: (midu.post_count + 1) as u64, ..midu })));
        assert(pa_new.0 != ua.0);
        assert forall|id: u64| c0 <= id < c0 + n implies ({
            let pa = (#[trigger] post_address(states[0].pid(), caller, id))->Some_0;
            &&& post_address(states[0].pid(), caller, id) is Some
            &&& states[n].rec_at(pa.0) is Some
            &&& states[n].rec_at(pa.0)->Some_0 is Post
            &&& states[n].rec_at(pa.0)->Some_0->Post_0.post_id == id
            &&& states[n].rec_at(pa.0)->Some_0->Post_0.content == contents[id - c0]
            &&& states[n].rec_at(pa.0)->Some_0->Post_0.created_at == times[id - c0]
        }) by {
            if id < c0 + (n - 1) {
                let pa = post_address(states[0].pid(), caller, id)->Some_0;
                assert(states[n - 1].rec_at(pa.0) is Some);
                assert(states[n - 1].rec_at(pa.0)->Some_0 is Post);
                assert(contents.drop_last()[id - c0] == contents[id - c0]);
                assert(times.drop_last()[id - c0] == times[id - c0]);
                assert(pa.0 != pa_new.0);
                assert(pa.0 != ua.0);
            } else {
                assert(id == midu.post_count);
            }
        }
        assert(states.last() == states[n]);
    }
}

/// At most one like per (identity, post): right after a successful like, an
/// identical like attempt fails with an occupied address.
pub proof fn lemma_like_post_unique(
    pre: Social,
    mid: Social,
    caller: Seq<u8>,
    post: Seq<u8>,
    now: i64,
)
    requires
        like_post_err(pre, caller, post) is None,
        like_post_ok(pre, mid, caller, post, now),
    ensures
        like_post_err(mid, caller, post) == Some(SocialMediaError::AddressAlreadyInUse),
{
}

/// At most one session per (owner, delegate): right after a successful
/// creation, an identical creation attempt fails with an occupied address.
pub proof fn lemma_create_session_unique(
    pre: Social,
    mid: Social,
    caller: Seq<u8>,
    delegate: Seq<u8>,
    expired_at: i64,
    now: i64,
)
    requires
        create_session_err(pre, caller, delegate) is None,
        create_session_ok(pre, mid, caller, delegate, expired_at, now),
    ensures
        create_session_err(mid, caller, delegate) == Some(SocialMediaError::AddressAlreadyInUse),
{
}

/// Two comment actions against the same post in one batch receive
/// consecutive comment ids and raise the post's counter by exactly two.
pub proof fn lemma_batch_comments_sequential(
    caller: Seq<u8>,
    now: i64,
    m: Map<Seq<u8>, RecordV>,
    actions: Seq<BatchActionV>,
    handles: Seq<Seq<u8>>,
    ph: Seq<u8>,
    h1: Seq<u8>,
    h2: Seq<u8>,
    c1: Seq<char>,
    c2: Seq<char>,
    p: PostV,
)
    requires
        actions == seq![
            BatchActionV::Comment { post_key: ph, content: c1 },
            BatchActionV::Comment { post_key: ph, content: c2 },
        ],
        handles == seq![ph, h1, ph, h2],
        m.contains_key(ph) && m[ph] == RecordV::Post(p),
        m.contains_key(h1) && m[h1] is Comment,
        m.contains_key(h2) && m[h2] is Comment,
        h1 != h2,
        p.comment_count + 2 <= u64::MAX,
    ensures
        apply_batch(caller, now, m, actions, handles, 0) is Ok,
        ({
            let m2 = apply_batch(caller, now, m, actions, handles, 0)->Ok_0;
            &&& m2[h1] == RecordV::Comment(
                CommentV {
                    authority: caller,
                    post: ph,
                    content: c1,
                    comment_id: p.comment_count,
                    created_at: now,
                },
            )
            &&& m2[h2] == RecordV::Comment(
                CommentV {
                    authority: caller,
                    post: ph,
                    content: c2,
                    comment_id: (p.comment_count + 1) as u64,
                    created_at: now,
                },
            )
            &&& m2[ph] == RecordV::Post(PostV { comment_count: (p.comment_count + 2) as u64, ..p })
        }),
{
    let m1 = m.insert(
        h1,
        RecordV::Comment(
            CommentV {
                authority: caller,
                post: ph,
                content: c1,
                comment_id: p.comment_count,
                created_at: now,
            },
        ),
    ).insert(ph, RecordV::Post(PostV { comment_count: (p.comment_count + 1) as u64, ..p }));
    assert(apply_action(caller, now, m, actions[0], handles, 0) == Ok::<
        Map<Seq<u8>, RecordV>,
        SocialMediaError,
    >(m1));
    let m2 = m1.insert(
        h2,
        RecordV::Comment(
            CommentV {
                authority: caller,
                post: ph,
                content: c2,
                comment_id: (p.comment_count + 1) as u64,
                created_at: now,
            },
        ),
    ).insert(ph, RecordV::Post(PostV { comment_count: (p.comment_count + 2) as u64, ..p }));
    assert(actions.skip(1)[0] == actions[1]);
    assert(apply_action(caller, now, m1, actions[1], handles, 2) == Ok::<
        Map<Seq<u8>, RecordV>,
        SocialMediaError,
    >(m2));
    assert(actions.skip(1).skip(1) =~= Seq::<BatchActionV>::empty());
    assert(apply_batch(caller, now, m2, actions.skip(1).skip(1), handles, 4) == Ok::<
        Map<Seq<u8>, RecordV>,
        SocialMediaError,
    >(m2));
    assert(apply_batch(caller, now, m1, actions.skip(1), handles, 2) == Ok::<
        Map<Seq<u8>, RecordV>,
        SocialMediaError,
    >(m2));
    assert(apply_batch(caller, now, m, actions, handles, 0) == Ok::<
        Map<Seq<u8>, RecordV>,
        SocialMediaError,
    >(m2));
}

/// A refund with the delegate's balance above the reserve moves exactly the
/// excess, leaving the delegate holding exactly the reserve; with balance at
/// or below the reserve nothing moves; in either case the session ends up
/// inactive.
pub proof fn lemma_refund_exact(
    pre: Social,
    post: Social,
    caller: Seq<u8>,
    delegate: Seq<u8>,
    reserve: u64,
)
    requires
        caller != delegate,
        refund_session_ok(pre, post, caller, delegate, reserve),
    ensures
        pre.balance(delegate) > reserve ==> post.balance(delegate) == reserve && post.balance(
            caller,
        ) == pre.balance(caller) + (pre.balance(delegate) - reserve),
        pre.balance(delegate) <= reserve ==> post.balance(delegate) == pre.balance(delegate)
            && post.balance(caller) == pre.balance(caller),
        ({
            let sa = session_address(pre.pid(), caller, delegate)->Some_0;
            post.rec_at(sa.0)->Some_0->Session_0.is_active == false
        }),
{
}

/// Refund is not re-enterable: right after a successful refund, a second
/// refund for the same pair fails with `SessionNotActive`, whatever reserve
/// the host reports then.
pub proof fn lemma_refund_not_reenterable(
    pre: Social,
    mid: Social,
    caller: Seq<u8>,
    delegate: Seq<u8>,
    reserve: u64,
    reserve2: u64,
)
    requires
        refund_session_err(pre, caller, delegate, reserve) is None,
        refund_session_ok(pre, mid, caller, delegate, reserve),
    ensures
        refund_session_err(mid, caller, delegate, reserve2) == Some(
            SocialMediaError::SessionNotActive,
        ),
{
}

/// Close gating: before expiry only the session's owner may close; once
/// expired, any caller may.
pub proof fn lemma_close_gating(
    pre: Social,
    caller: Seq<u8>,
    owner: Seq<u8>,
    delegate: Seq<u8>,
    now: i64,
)
    requires
        session_address(pre.pid(), owner, delegate) is Some,
        pre.rec_at(session_address(pre.pid(), owner, delegate)->Some_0.0) matches Some(
            RecordV::Session(_),
        ),
    ensures
        ({
            let sess = pre.rec_at(
                session_address(pre.pid(), owner, delegate)->Some_0.0,
            )->Some_0->Session_0;
            &&& now > sess.expired_at ==> close_session_err(pre, caller, owner, delegate, now)
                is None
            &&& caller == sess.authority ==> close_session_err(pre, caller, owner, delegate, now)
                is None
            &&& now <= sess.expired_at && caller != sess.authority ==> close_session_err(
                pre,
                caller,
                owner,
                delegate,
                now,
            ) == Some(SocialMediaError::CannotCloseSession)
        }),
{
}

} // verus!

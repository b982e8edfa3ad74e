use social_ledger::addresses::derive_comment_address;
use social_ledger::addresses::derive_like_address;
use social_ledger::addresses::derive_post_address;
use social_ledger::addresses::derive_session_address;
use social_ledger::addresses::derive_user_address;
use social_ledger::addresses::EntityKind;
use social_ledger::batch::batch_actions;
use social_ledger::ops::close_session;
use social_ledger::ops::create_comment;
use social_ledger::ops::create_post;
use social_ledger::ops::create_session;
use social_ledger::ops::fund_session;
use social_ledger::ops::initialize_user;
use social_ledger::ops::like_post;
use social_ledger::ops::refund_session;
use social_ledger::ops::Social;
use social_ledger::records::BatchAction;
use social_ledger::records::Record;
use social_ledger::records::Session;
use social_ledger::records::SocialMediaError;
use social_ledger::store::Entry;

fn pid() -> [u8; 32] {
    [7u8; 32]
}

fn key(b: u8) -> Vec<u8> {
    vec![b; 32]
}

fn user_with_posts(s: &mut Social, who: &Vec<u8>, n: usize) -> Vec<Vec<u8>> {
    initialize_user(
        s,
        who,
        String::from("ada"),
        String::from("bio"),
        String::from("pic"),
        10,
    )
    .unwrap();
    let mut posts = Vec::new();
    for i in 0..n {
        let pa = derive_post_address(&pid(), who, i as u64).unwrap().0;
        create_post(s, who, format!("post {i}"), 20 + i as i64).unwrap();
        posts.push(pa);
    }
    posts
}

#[test]
fn derive_is_deterministic() {
    let a = social_ledger::addresses::derive(&pid(), EntityKind::User, vec![key(1)]).unwrap();
    let b = social_ledger::addresses::derive(&pid(), EntityKind::User, vec![key(1)]).unwrap();
    assert_eq!(a.0, b.0);
    assert_eq!(a.1, b.1);
}

#[test]
fn derive_is_seed_sensitive() {
    let a = social_ledger::addresses::derive(&pid(), EntityKind::User, vec![key(1)]).unwrap();
    let mut seed = key(1);
    seed[0] = 2;
    let b = social_ledger::addresses::derive(&pid(), EntityKind::User, vec![seed]).unwrap();
    assert_ne!(a.0, b.0);
    let c = social_ledger::addresses::derive(&pid(), EntityKind::Session, vec![key(1)]).unwrap();
    assert_ne!(a.0, c.0);
}

#[test]
fn derive_does_not_echo_its_seed() {
    let a = social_ledger::addresses::derive(&pid(), EntityKind::User, vec![key(1)]).unwrap();
    assert_eq!(a.0.len(), 32);
    assert_ne!(a.0, key(1));
    assert_ne!(a.0, pid().to_vec());
}

#[test]
fn initialize_user_is_unique_per_identity() {
    let mut s = Social::new(pid());
    let alice = key(1);
    assert!(initialize_user(
        &mut s,
        &alice,
        String::from("ada"),
        String::from("bio"),
        String::from("pic"),
        10
    )
    .is_ok());
    let again = initialize_user(
        &mut s,
        &alice,
        String::from("ada2"),
        String::from("bio2"),
        String::from("pic2"),
        11,
    );
    assert_eq!(again, Err(SocialMediaError::AddressAlreadyInUse));
}

#[test]
fn oversized_seed_fails_derivation() {
    let mut s = Social::new(pid());
    let longkey = vec![3u8; 33];
    let r = initialize_user(
        &mut s,
        &longkey,
        String::from("x"),
        String::from(""),
        String::from(""),
        10,
    );
    assert_eq!(r, Err(SocialMediaError::AddressDerivationFailed));
}

#[test]
fn post_ids_count_up_from_zero() {
    let mut s = Social::new(pid());
    let alice = key(1);
    let posts = user_with_posts(&mut s, &alice, 3);
    let ua = derive_user_address(&pid(), &alice).unwrap().0;
    match s.store.get(&ua) {
        Some(Record::User(u)) => assert_eq!(u.post_count, 3),
        _ => panic!("user record missing"),
    }
    for (i, pa) in posts.iter().enumerate() {
        match s.store.get(pa) {
            Some(Record::Post(p)) => {
                assert_eq!(p.post_id, i as u64);
                assert_eq!(p.likes, 0);
                assert_eq!(p.comment_count, 0);
            }
            _ => panic!("post record missing"),
        }
    }
}

#[test]
fn create_post_needs_a_profile() {
    let mut s = Social::new(pid());
    let alice = key(1);
    let r = create_post(&mut s, &alice, String::from("hi"), 20);
    assert_eq!(r, Err(SocialMediaError::AddressNotFound));
}

#[test]
fn like_post_is_unique_per_identity_and_post() {
    let mut s = Social::new(pid());
    let alice = key(1);
    let bob = key(2);
    let posts = user_with_posts(&mut s, &alice, 1);
    assert!(like_post(&mut s, &bob, &posts[0], 30).is_ok());
    match s.store.get(&posts[0]) {
        Some(Record::Post(p)) => assert_eq!(p.likes, 1),
        _ => panic!("post record missing"),
    }
    let again = like_post(&mut s, &bob, &posts[0], 31);
    assert_eq!(again, Err(SocialMediaError::AddressAlreadyInUse));
    let la = derive_like_address(&pid(), &bob, &posts[0]).unwrap().0;
    match s.store.get(&la) {
        Some(Record::Like(l)) => {
            assert_eq!(l.authority, bob);
            assert_eq!(l.post, posts[0]);
            assert_eq!(l.created_at, 30);
        }
        _ => panic!("like record missing"),
    }
}

#[test]
fn like_post_rejects_a_non_post_target() {
    let mut s = Social::new(pid());
    let alice = key(1);
    user_with_posts(&mut s, &alice, 0);
    let ua = derive_user_address(&pid(), &alice).unwrap().0;
    let r = like_post(&mut s, &alice, &ua, 30);
    assert_eq!(r, Err(SocialMediaError::WrongRecordKind));
}

#[test]
fn comment_ids_count_up_from_zero() {
    let mut s = Social::new(pid());
    let alice = key(1);
    let bob = key(2);
    let posts = user_with_posts(&mut s, &alice, 1);
    assert!(create_comment(&mut s, &bob, &posts[0], String::from("first"), 30).is_ok());
    assert!(create_comment(&mut s, &bob, &posts[0], String::from("second"), 31).is_ok());
    match s.store.get(&posts[0]) {
        Some(Record::Post(p)) => assert_eq!(p.comment_count, 2),
        _ => panic!("post record missing"),
    }
    for i in 0..2u64 {
        let ca = derive_comment_address(&pid(), &posts[0], i).unwrap().0;
        match s.store.get(&ca) {
            Some(Record::Comment(c)) => assert_eq!(c.comment_id, i),
            _ => panic!("comment record missing"),
        }
    }
}

#[test]
fn batch_comments_get_consecutive_ids() {
    let mut s = Social::new(pid());
    let alice = key(1);
    let bob = key(2);
    let posts = user_with_posts(&mut s, &alice, 1);
    // Pre-create the two comment record slots that the batch will fill.
    create_comment(&mut s, &bob, &posts[0], String::from("a"), 30).unwrap();
    create_comment(&mut s, &bob, &posts[0], String::from("b"), 31).unwrap();
    let h1 = derive_comment_address(&pid(), &posts[0], 0).unwrap().0;
    let h2 = derive_comment_address(&pid(), &posts[0], 1).unwrap().0;
    let actions = vec![
        BatchAction::Comment {
            post_key: posts[0].clone(),
            content: String::from("batch one"),
        },
        BatchAction::Comment {
            post_key: posts[0].clone(),
            content: String::from("batch two"),
        },
    ];
    let handles = vec![posts[0].clone(), h1.clone(), posts[0].clone(), h2.clone()];
    assert!(batch_actions(&mut s, &bob, &actions, &handles, 40).is_ok());
    match s.store.get(&h1) {
        Some(Record::Comment(c)) => {
            assert_eq!(c.comment_id, 2);
            assert_eq!(c.created_at, 40);
        }
        _ => panic!("comment record missing"),
    }
    match s.store.get(&h2) {
        Some(Record::Comment(c)) => assert_eq!(c.comment_id, 3),
        _ => panic!("comment record missing"),
    }
    match s.store.get(&posts[0]) {
        Some(Record::Post(p)) => assert_eq!(p.comment_count, 4),
        _ => panic!("post record missing"),
    }
}

#[test]
fn batch_likes_update_the_post() {
    let mut s = Social::new(pid());
    let alice = key(1);
    let bob = key(2);
    let posts = user_with_posts(&mut s, &alice, 1);
    like_post(&mut s, &bob, &posts[0], 30).unwrap();
    let la = derive_like_address(&pid(), &bob, &posts[0]).unwrap().0;
    let actions = vec![BatchAction::Like {
        post_key: posts[0].clone(),
    }];
    let handles = vec![posts[0].clone(), la.clone()];
    assert!(batch_actions(&mut s, &bob, &actions, &handles, 50).is_ok());
    match s.store.get(&posts[0]) {
        Some(Record::Post(p)) => assert_eq!(p.likes, 2),
        _ => panic!("post record missing"),
    }
    match s.store.get(&la) {
        Some(Record::Like(l)) => assert_eq!(l.created_at, 50),
        _ => panic!("like record missing"),
    }
}

#[test]
fn batch_is_atomic_when_a_middle_action_fails() {
    let mut s = Social::new(pid());
    let alice = key(1);
    let bob = key(2);
    let posts = user_with_posts(&mut s, &alice, 2);
    create_comment(&mut s, &bob, &posts[0], String::from("a"), 30).unwrap();
    create_comment(&mut s, &bob, &posts[0], String::from("b"), 31).unwrap();
    let h1 = derive_comment_address(&pid(), &posts[0], 0).unwrap().0;
    let h2 = derive_comment_address(&pid(), &posts[0], 1).unwrap().0;
    let actions = vec![
        BatchAction::Comment {
            post_key: posts[0].clone(),
            content: String::from("one"),
        },
        BatchAction::Comment {
            // Declared target does not match the supplied post handle.
            post_key: posts[1].clone(),
            content: String::from("two"),
        },
        BatchAction::Comment {
            post_key: posts[0].clone(),
            content: String::from("three"),
        },
    ];
    let handles = vec![
        posts[0].clone(),
        h1.clone(),
        posts[0].clone(),
        h2.clone(),
        posts[0].clone(),
        h2.clone(),
    ];
    let r = batch_actions(&mut s, &bob, &actions, &handles, 40);
    assert_eq!(r, Err(SocialMediaError::InvalidSession));
    // Nothing from the batch is observable, not even the first action.
    match s.store.get(&posts[0]) {
        Some(Record::Post(p)) => assert_eq!(p.comment_count, 2),
        _ => panic!("post record missing"),
    }
    match s.store.get(&h1) {
        Some(Record::Comment(c)) => {
            assert_eq!(c.comment_id, 0);
            assert_eq!(c.created_at, 30);
        }
        _ => panic!("comment record missing"),
    }
}

#[test]
fn batch_fails_when_handles_run_out() {
    let mut s = Social::new(pid());
    let alice = key(1);
    let posts = user_with_posts(&mut s, &alice, 1);
    let actions = vec![BatchAction::Like {
        post_key: posts[0].clone(),
    }];
    let handles = vec![posts[0].clone()];
    let r = batch_actions(&mut s, &alice, &actions, &handles, 40);
    assert_eq!(r, Err(SocialMediaError::NotEnoughAccountKeys));
}

#[test]
fn empty_batch_changes_nothing() {
    let mut s = Social::new(pid());
    let alice = key(1);
    user_with_posts(&mut s, &alice, 1);
    let before = s.store.entries.len();
    assert!(batch_actions(&mut s, &alice, &vec![], &vec![], 40).is_ok());
    assert_eq!(s.store.entries.len(), before);
}

#[test]
fn create_session_is_unique_per_pair() {
    let mut s = Social::new(pid());
    let owner = key(1);
    let delegate = key(9);
    assert!(create_session(&mut s, &owner, &delegate, 1000, 10).is_ok());
    let again = create_session(&mut s, &owner, &delegate, 2000, 11);
    assert_eq!(again, Err(SocialMediaError::AddressAlreadyInUse));
    let sa = derive_session_address(&pid(), &owner, &delegate).unwrap().0;
    match s.store.get(&sa) {
        Some(Record::Session(sess)) => {
            assert_eq!(sess.authority, owner);
            assert_eq!(sess.session_key, delegate);
            assert_eq!(sess.expired_at, 1000);
            assert_eq!(sess.created_at, 10);
            assert!(sess.is_active);
        }
        _ => panic!("session record missing"),
    }
}

#[test]
fn fund_session_moves_exactly_the_amount() {
    let mut s = Social::new(pid());
    let owner = key(1);
    let delegate = key(9);
    create_session(&mut s, &owner, &delegate, 1000, 10).unwrap();
    s.ledger.set_balance(&owner, 500);
    assert!(fund_session(&mut s, &owner, &delegate, 200).is_ok());
    assert_eq!(s.ledger.balance(&owner), 300);
    assert_eq!(s.ledger.balance(&delegate), 200);
}

#[test]
fn fund_session_needs_funds_and_a_session() {
    let mut s = Social::new(pid());
    let owner = key(1);
    let delegate = key(9);
    let r = fund_session(&mut s, &owner, &delegate, 1);
    assert_eq!(r, Err(SocialMediaError::AddressNotFound));
    create_session(&mut s, &owner, &delegate, 1000, 10).unwrap();
    s.ledger.set_balance(&owner, 100);
    let r = fund_session(&mut s, &owner, &delegate, 101);
    assert_eq!(r, Err(SocialMediaError::InsufficientFunds));
    assert_eq!(s.ledger.balance(&owner), 100);
}

#[test]
fn fund_session_rejects_a_delegate_balance_overflow() {
    let mut s = Social::new(pid());
    let owner = key(1);
    let delegate = key(9);
    create_session(&mut s, &owner, &delegate, 1000, 10).unwrap();
    s.ledger.set_balance(&owner, 10);
    s.ledger.set_balance(&delegate, u64::MAX - 5);
    let r = fund_session(&mut s, &owner, &delegate, 6);
    assert_eq!(r, Err(SocialMediaError::Overflow));
    assert_eq!(s.ledger.balance(&delegate), u64::MAX - 5);
}

#[test]
fn refund_session_pays_back_the_excess_over_the_reserve() {
    let mut s = Social::new(pid());
    let owner = key(1);
    let delegate = key(9);
    create_session(&mut s, &owner, &delegate, 1000, 10).unwrap();
    s.ledger.set_balance(&owner, 40);
    s.ledger.set_balance(&delegate, 500);
    assert!(refund_session(&mut s, &owner, &delegate, 100).is_ok());
    assert_eq!(s.ledger.balance(&delegate), 100);
    assert_eq!(s.ledger.balance(&owner), 440);
    let sa = derive_session_address(&pid(), &owner, &delegate).unwrap().0;
    match s.store.get(&sa) {
        Some(Record::Session(sess)) => assert!(!sess.is_active),
        _ => panic!("session record missing"),
    }
}

#[test]
fn refund_session_without_excess_still_deactivates() {
    let mut s = Social::new(pid());
    let owner = key(1);
    let delegate = key(9);
    create_session(&mut s, &owner, &delegate, 1000, 10).unwrap();
    s.ledger.set_balance(&delegate, 80);
    assert!(refund_session(&mut s, &owner, &delegate, 100).is_ok());
    assert_eq!(s.ledger.balance(&delegate), 80);
    assert_eq!(s.ledger.balance(&owner), 0);
    let sa = derive_session_address(&pid(), &owner, &delegate).unwrap().0;
    match s.store.get(&sa) {
        Some(Record::Session(sess)) => assert!(!sess.is_active),
        _ => panic!("session record missing"),
    }
}

#[test]
fn refund_session_twice_fails_with_session_not_active() {
    let mut s = Social::new(pid());
    let owner = key(1);
    let delegate = key(9);
    create_session(&mut s, &owner, &delegate, 1000, 10).unwrap();
    s.ledger.set_balance(&delegate, 500);
    refund_session(&mut s, &owner, &delegate, 100).unwrap();
    let again = refund_session(&mut s, &owner, &delegate, 100);
    assert_eq!(again, Err(SocialMediaError::SessionNotActive));
    assert_eq!(s.ledger.balance(&delegate), 100);
}

#[test]
fn refund_session_rejects_a_foreign_owner() {
    let mut s = Social::new(pid());
    let owner = key(1);
    let delegate = key(9);
    let stranger = key(5);
    // A session record planted at the stranger's derived slot but owned by
    // someone else: only then can the authority check fire.
    let sa = derive_session_address(&pid(), &stranger, &delegate).unwrap().0;
    s.store.entries.push(Entry {
        addr: sa,
        rec: Record::Session(Session {
            authority: owner.clone(),
            session_key: delegate.clone(),
            expired_at: 1000,
            created_at: 10,
            is_active: true,
        }),
    });
    let r = refund_session(&mut s, &stranger, &delegate, 100);
    assert_eq!(r, Err(SocialMediaError::UnauthorizedAccess));
}

#[test]
fn close_session_before_expiry_is_owner_only() {
    let mut s = Social::new(pid());
    let owner = key(1);
    let delegate = key(9);
    let stranger = key(5);
    create_session(&mut s, &owner, &delegate, 1000, 10).unwrap();
    let r = close_session(&mut s, &stranger, &owner, &delegate, 500);
    assert_eq!(r, Err(SocialMediaError::CannotCloseSession));
    assert!(close_session(&mut s, &owner, &owner, &delegate, 500).is_ok());
    let sa = derive_session_address(&pid(), &owner, &delegate).unwrap().0;
    assert!(s.store.get(&sa).is_none());
}

#[test]
fn close_session_after_expiry_is_open_to_anyone() {
    let mut s = Social::new(pid());
    let owner = key(1);
    let delegate = key(9);
    let stranger = key(5);
    create_session(&mut s, &owner, &delegate, 1000, 10).unwrap();
    assert!(close_session(&mut s, &stranger, &owner, &delegate, 1001).is_ok());
    let sa = derive_session_address(&pid(), &owner, &delegate).unwrap().0;
    assert!(s.store.get(&sa).is_none());
}

#[test]
fn close_session_needs_an_existing_record() {
    let mut s = Social::new(pid());
    let owner = key(1);
    let delegate = key(9);
    let r = close_session(&mut s, &owner, &owner, &delegate, 500);
    assert_eq!(r, Err(SocialMediaError::AddressNotFound));
}

#[test]
fn refund_session_rejects_an_owner_balance_overflow() {
    let mut s = Social::new(pid());
    let owner = key(1);
    let delegate = key(9);
    create_session(&mut s, &owner, &delegate, 1000, 10).unwrap();
    s.ledger.set_balance(&owner, u64::MAX);
    s.ledger.set_balance(&delegate, 200);
    let r = refund_session(&mut s, &owner, &delegate, 100);
    assert_eq!(r, Err(SocialMediaError::Overflow));
    // The failed refund left everything untouched, the active flag included.
    let sa = derive_session_address(&pid(), &owner, &delegate).unwrap().0;
    match s.store.get(&sa) {
        Some(Record::Session(sess)) => assert!(sess.is_active),
        _ => panic!("session record missing"),
    }
    assert_eq!(s.ledger.balance(&delegate), 200);
}

#[test]
fn batch_rejects_a_wrong_record_kind_handle() {
    let mut s = Social::new(pid());
    let alice = key(1);
    let posts = user_with_posts(&mut s, &alice, 1);
    let ua = derive_user_address(&pid(), &alice).unwrap().0;
    let actions = vec![BatchAction::Like {
        post_key: posts[0].clone(),
    }];
    // The second handle names the profile record, not a like record.
    let handles = vec![posts[0].clone(), ua];
    let r = batch_actions(&mut s, &alice, &actions, &handles, 40);
    assert_eq!(r, Err(SocialMediaError::WrongRecordKind));
    match s.store.get(&posts[0]) {
        Some(Record::Post(p)) => assert_eq!(p.likes, 0),
        _ => panic!("post record missing"),
    }
}

//! The address derivation scheme.
//!
//! Every entity lives at an address computed deterministically from the
//! program's namespace identity, a literal kind tag and an ordered list of
//! byte seeds. Identical inputs always give the same address, which is what
//! lets the store's occupied-address check enforce uniqueness of users,
//! likes and sessions.

use vstd::prelude::*;

verus! {

/// What `Pubkey::try_find_program_address` returns for a given program id
/// and seed list: a function of its arguments alone.
pub uninterp spec fn pda_of(program_id: Seq<u8>, seeds: Seq<Seq<u8>>) -> Option<(Seq<u8>, u8)>;

/// The views of a list of byte seeds.
pub open spec fn seeds_view(s: Seq<Vec<u8>>) -> Seq<Seq<u8>> {
    s.map_values(|v: Vec<u8>| v@)
}

/// Relies on `Pubkey::try_find_program_address` (solana-address, re-exported
/// through anchor-lang): a deterministic function of the program id and the
/// seeds, returning a 32-byte off-curve address and its bump seed, or `None`
/// in the statistically improbable event that no bump yields one.
#[verifier::external_body]
fn find_pda(program_id: &[u8; 32], seeds: &Vec<Vec<u8>>) -> (r: Option<(Vec<u8>, u8)>)
    ensures
        (match r {
            Some(p) => pda_of(program_id@, seeds_view(seeds@)) == Some((p.0@, p.1))
                && p.0@.len() == 32,
            None => pda_of(program_id@, seeds_view(seeds@)) is None,
        }),
{
    let refs: Vec<&[u8]> = seeds.iter().map(|s| s.as_slice()).collect();
    let pid = anchor_lang::solana_program::pubkey::Pubkey::new_from_array(*program_id);
    anchor_lang::solana_program::pubkey::Pubkey::try_find_program_address(&refs, &pid)
        .map(|(a, b)| (a.to_bytes().to_vec(), b))
}

/// The kind of entity an address is derived for; each kind has its own
/// literal seed tag, so addresses of different kinds never collide.
#[derive(Clone, Copy, Debug, PartialEq, Eq, Structural)]
pub enum EntityKind {
    User,
    Post,
    Like,
    Comment,
    Session,
}

/// The literal, stable tag bytes of each entity kind: the ASCII bytes of
/// "user", "post", "like", "comment" and "session".
pub open spec fn kind_tag(kind: EntityKind) -> Seq<u8> {
    match kind {
        EntityKind::User => seq![117u8, 115u8, 101u8, 114u8],
        EntityKind::Post => seq![112u8, 111u8, 115u8, 116u8],
        EntityKind::Like => seq![108u8, 105u8, 107u8, 101u8],
        EntityKind::Comment => seq![99u8, 111u8, 109u8, 109u8, 101u8, 110u8, 116u8],
        EntityKind::Session => seq![115u8, 101u8, 115u8, 115u8, 105u8, 111u8, 110u8],
    }
}

fn kind_tag_bytes(kind: EntityKind) -> (r: Vec<u8>)
    ensures
        r@ == kind_tag(kind),
{
    let mut r: Vec<u8> = Vec::new();
    match kind {
        EntityKind::User => {
            r.push(117u8);
            r.push(115u8);
            r.push(101u8);
            r.push(114u8);
        },
        EntityKind::Post => {
            r.push(112u8);
            r.push(111u8);
            r.push(115u8);
            r.push(116u8);
        },
        EntityKind::Like => {
            r.push(108u8);
            r.push(105u8);
            r.push(107u8);
            r.push(101u8);
        },
        EntityKind::Comment => {
            r.push(99u8);
            r.push(111u8);
            r.push(109u8);
            r.push(109u8);
            r.push(101u8);
            r.push(110u8);
            r.push(116u8);
        },
        EntityKind::Session => {
            r.push(115u8);
            r.push(101u8);
            r.push(115u8);
            r.push(115u8);
            r.push(105u8);
            r.push(111u8);
            r.push(110u8);
        },
    }
    proof {
        assert(r@ =~= kind_tag(kind));
    }
    r
}

/// The little-endian byte encoding of a 64-bit counter, as used in post and
/// comment seeds.
pub open spec fn u64_le_bytes(x: u64) -> Seq<u8> {
    seq![
        (x as int % 256) as u8,
        (x as int / 256 % 256) as u8,
        (x as int / 65536 % 256) as u8,
        (x as int / 16777216 % 256) as u8,
        (x as int / 4294967296 % 256) as u8,
        (x as int / 1099511627776 % 256) as u8,
        (x as int / 281474976710656 % 256) as u8,
        (x as int / 72057594037927936 % 256) as u8,
    ]
}

/// Encode a counter as its eight little-endian bytes.
pub fn u64_to_le_bytes(x: u64) -> (r: Vec<u8>)
    ensures
        r@ == u64_le_bytes(x),
{
    let mut r: Vec<u8> = Vec::new();
    r.push((x % 256) as u8);
    r.push((x / 256 % 256) as u8);
    r.push((x / 65536 % 256) as u8);
    r.push((x / 16777216 % 256) as u8);
    r.push((x / 4294967296 % 256) as u8);
    r.push((x / 1099511627776 % 256) as u8);
    r.push((x / 281474976710656 % 256) as u8);
    r.push((x / 72057594037927936 % 256) as u8);
    proof {
        assert(r@ =~= u64_le_bytes(x));
    }
    r
}

/// Copy a byte string.
pub fn copy_bytes(v: &Vec<u8>) -> (r: Vec<u8>)
    ensures
        r@ == v@,
{
    let mut r: Vec<u8> = Vec::new();
    let mut i: usize = 0;
    while i < v.len()
        invariant
            i <= v.len(),
            r@ == v@.subrange(0, i as int),
        decreases v.len() - i,
    {
        r.push(v[i]);
        i = i + 1;
        proof {
            assert(r@ =~= v@.subrange(0, i as int));
        }
    }
    proof {
        assert(r@ =~= v@);
    }
    r
}

/// The derived address and bump of (namespace identity, kind tag, seeds), or
/// `None` if the derivation admits no bump.
pub open spec fn spec_derive(program_id: Seq<u8>, kind: EntityKind, seeds: Seq<Seq<u8>>) -> Option<
    (Seq<u8>, u8),
> {
    pda_of(program_id, seq![kind_tag(kind)] + seeds)
}

/// Derive the storage address of an entity of `kind` from the given seeds.
/// Identical inputs always yield identical results.
pub fn derive(program_id: &[u8; 32], kind: EntityKind, seeds: Vec<Vec<u8>>) -> (r: Option<
    (Vec<u8>, u8),
>)
    ensures
        (match r {
            Some(p) => spec_derive(program_id@, kind, seeds_view(seeds@)) == Some((p.0@, p.1))
                && p.0@.len() == 32,
            None => spec_derive(program_id@, kind, seeds_view(seeds@)) is None,
        }),
{
    let mut all: Vec<Vec<u8>> = Vec::new();
    all.push(kind_tag_bytes(kind));
    let mut rest = seeds;
    all.append(&mut rest);
    proof {
        assert(seeds_view(all@) =~= seq![kind_tag(kind)] + seeds_view(seeds@));
    }
    find_pda(program_id, &all)
}

/// Where a user profile lives: derived from the owning identity alone, so
/// each identity has exactly one profile slot.
pub open spec fn user_address(pid: Seq<u8>, authority: Seq<u8>) -> Option<(Seq<u8>, u8)> {
    spec_derive(pid, EntityKind::User, seq![authority])
}

/// Where a post lives: derived from its author and its assigned post id.
pub open spec fn post_address(pid: Seq<u8>, authority: Seq<u8>, post_id: u64) -> Option<
    (Seq<u8>, u8),
> {
    spec_derive(pid, EntityKind::Post, seq![authority, u64_le_bytes(post_id)])
}

/// Where a like lives: derived from the liking identity and the liked post's
/// address, so each identity can like a given post at most once.
pub open spec fn like_address(pid: Seq<u8>, authority: Seq<u8>, post: Seq<u8>) -> Option<
    (Seq<u8>, u8),
> {
    spec_derive(pid, EntityKind::Like, seq![authority, post])
}

/// Where a comment lives: derived from the post's address and the assigned
/// comment id.
pub open spec fn comment_address(pid: Seq<u8>, post: Seq<u8>, comment_id: u64) -> Option<
    (Seq<u8>, u8),
> {
    spec_derive(pid, EntityKind::Comment, seq![post, u64_le_bytes(comment_id)])
}

/// Where a session lives: derived from the owning identity and the delegated
/// identity, so each pair has exactly one session slot.
pub open spec fn session_address(pid: Seq<u8>, owner: Seq<u8>, delegate: Seq<u8>) -> Option<
    (Seq<u8>, u8),
> {
    spec_derive(pid, EntityKind::Session, seq![owner, delegate])
}

/// Derive a user profile address.
pub fn derive_user_address(pid: &[u8; 32], authority: &Vec<u8>) -> (r: Option<(Vec<u8>, u8)>)
    ensures
        (match r {
            Some(p) => user_address(pid@, authority@) == Some((p.0@, p.1)),
            None => user_address(pid@, authority@) is None,
        }),
{
    let seeds = vec![copy_bytes(authority)];
    proof {
        assert(seeds_view(seeds@) =~= seq![authority@]);
    }
    derive(pid, EntityKind::User, seeds)
}

/// Derive a post address.
pub fn derive_post_address(pid: &[u8; 32], authority: &Vec<u8>, post_id: u64) -> (r: Option<
    (Vec<u8>, u8),
>)
    ensures
        (match r {
            Some(p) => post_address(pid@, authority@, post_id) == Some((p.0@, p.1)),
            None => post_address(pid@, authority@, post_id) is None,
        }),
{
    let seeds = vec![copy_bytes(authority), u64_to_le_bytes(post_id)];
    proof {
        assert(seeds_view(seeds@) =~= seq![authority@, u64_le_bytes(post_id)]);
    }
    derive(pid, EntityKind::Post, seeds)
}

/// Derive a like address.
pub fn derive_like_address(pid: &[u8; 32], authority: &Vec<u8>, post: &Vec<u8>) -> (r: Option<
    (Vec<u8>, u8),
>)
    ensures
        (match r {
            Some(p) => like_address(pid@, authority@, post@) == Some((p.0@, p.1)),
            None => like_address(pid@, authority@, post@) is None,
        }),
{
    let seeds = vec![copy_bytes(authority), copy_bytes(post)];
    proof {
        assert(seeds_view(seeds@) =~= seq![authority@, post@]);
    }
    derive(pid, EntityKind::Like, seeds)
}

/// Derive a comment address.
pub fn derive_comment_address(pid: &[u8; 32], post: &Vec<u8>, comment_id: u64) -> (r: Option<
    (Vec<u8>, u8),
>)
    ensures
        (match r {
            Some(p) => comment_address(pid@, post@, comment_id) == Some((p.0@, p.1)),
            None => comment_address(pid@, post@, comment_id) is None,
        }),
{
    let seeds = vec![copy_bytes(post), u64_to_le_bytes(comment_id)];
    proof {
        assert(seeds_view(seeds@) =~= seq![post@, u64_le_bytes(comment_id)]);
    }
    derive(pid, EntityKind::Comment, seeds)
}

/// Derive a session address.
pub fn derive_session_address(pid: &[u8; 32], owner: &Vec<u8>, delegate: &Vec<u8>) -> (r: Option<
    (Vec<u8>, u8),
>)
    ensures
        (match r {
            Some(p) => session_address(pid@, owner@, delegate@) == Some((p.0@, p.1)),
            None => session_address(pid@, owner@, delegate@) is None,
        }),
{
    let seeds = vec![copy_bytes(owner), copy_bytes(delegate)];
    proof {
        assert(seeds_view(seeds@) =~= seq![owner@, delegate@]);
    }
    derive(pid, EntityKind::Session, seeds)
}

} // verus!

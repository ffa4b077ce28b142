//! The saved server profiles and the operations on the saved list. Reading
//! and writing the list from disk is left to the caller; these functions
//! compute the list that is to be written back.
use vstd::prelude::*;

use crate::ids::{fresh_uuid, is_random_uuid_text};
use crate::text::str_equal;

verus! {

/// A saved SSH server. The password is never part of it.
#[derive(Debug, Clone)]
pub struct ServerProfile {
    pub id: String,
    pub name: String,
    pub host: String,
    pub port: u16,
    pub username: String,
    /// SHA-256 host key fingerprint recorded on first connection.
    pub host_key_fingerprint: Option<String>,
    pub favorite: bool,
}

/// `i` is the first position in `s` of a profile whose id is `id`.
pub open spec fn is_first_with_id(s: Seq<ServerProfile>, id: Seq<char>, i: int) -> bool {
    &&& 0 <= i < s.len()
    &&& s[i].id@ == id
    &&& forall|j: int| 0 <= j < i ==> (#[trigger] s[j]).id@ != id
}

/// The position of the first profile with this id, or the length of `s`
/// when there is none.
pub open spec fn first_index(s: Seq<ServerProfile>, id: Seq<char>) -> int {
    if exists|i: int| is_first_with_id(s, id, i) {
        choose|i: int| is_first_with_id(s, id, i)
    } else {
        s.len() as int
    }
}

/// The first profile with this id, if any.
pub open spec fn find_profile(s: Seq<ServerProfile>, id: Seq<char>) -> Option<ServerProfile> {
    let i = first_index(s, id);
    if i < s.len() {
        Some(s[i])
    } else {
        None
    }
}

/// The list after inserting `p`: it replaces the first profile with the same
/// id, or is appended when there is none.
pub open spec fn upserted(s: Seq<ServerProfile>, p: ServerProfile) -> Seq<ServerProfile> {
    let i = first_index(s, p.id@);
    if i < s.len() {
        s.update(i, p)
    } else {
        s.push(p)
    }
}

/// The list without any profile whose id is `id`, in the same order.
pub open spec fn without_id(s: Seq<ServerProfile>, id: Seq<char>) -> Seq<ServerProfile> {
    s.filter(id_differs(id))
}

/// Holds of the profiles whose id is not `id`.
pub open spec fn id_differs(id: Seq<char>) -> spec_fn(ServerProfile) -> bool {
    |p: ServerProfile| p.id@ != id
}

/// `p` with its favorite flag set to `favorite`.
pub open spec fn profile_with_favorite(p: ServerProfile, favorite: bool) -> ServerProfile {
    ServerProfile {
        id: p.id,
        name: p.name,
        host: p.host,
        port: p.port,
        username: p.username,
        host_key_fingerprint: p.host_key_fingerprint,
        favorite,
    }
}

/// The list with the favorite flag of the first profile with this id set.
pub open spec fn with_favorite(s: Seq<ServerProfile>, id: Seq<char>, favorite: bool) -> Seq<
    ServerProfile,
> {
    let i = first_index(s, id);
    if i < s.len() {
        s.update(i, profile_with_favorite(s[i], favorite))
    } else {
        s
    }
}

/// The first profile with this id, if any, with its fingerprint field
/// holding `fingerprint`; the list is otherwise unchanged.
pub open spec fn with_fingerprint_at(
    s: Seq<ServerProfile>,
    id: Seq<char>,
    fingerprint: Seq<char>,
    result: Seq<ServerProfile>,
) -> bool {
    let i = first_index(s, id);
    if i < s.len() {
        &&& result.len() == s.len()
        &&& forall|j: int| 0 <= j < s.len() && j != i ==> result[j] == s[j]
        &&& result[i].id == s[i].id
        &&& result[i].name == s[i].name
        &&& result[i].host == s[i].host
        &&& result[i].port == s[i].port
        &&& result[i].username == s[i].username
        &&& result[i].favorite == s[i].favorite
        &&& result[i].host_key_fingerprint matches Some(f) && f@ == fingerprint
    } else {
        result == s
    }
}

/// A position that is the first with `id` is the one `first_index` names.
pub proof fn lemma_first_index_is(s: Seq<ServerProfile>, id: Seq<char>, i: int)
    requires
        is_first_with_id(s, id, i),
    ensures
        first_index(s, id) == i,
{
    let k = choose|k: int| is_first_with_id(s, id, k);
    assert(is_first_with_id(s, id, k));
    if k < i {
        assert(s[k].id@ != id);
    } else if i < k {
        assert(s[i].id@ != id);
    }
}

/// Without a profile of this id, `first_index` is the length.
pub proof fn lemma_first_index_absent(s: Seq<ServerProfile>, id: Seq<char>)
    requires
        forall|j: int| 0 <= j < s.len() ==> (#[trigger] s[j]).id@ != id,
    ensures
        first_index(s, id) == s.len(),
{
    if exists|i: int| is_first_with_id(s, id, i) {
        let k = choose|k: int| is_first_with_id(s, id, k);
        assert(s[k].id@ != id);
    }
}

/// `first_index` is the length or names the first profile with this id.
pub proof fn lemma_first_index_range(s: Seq<ServerProfile>, id: Seq<char>)
    ensures
        0 <= first_index(s, id) <= s.len(),
        first_index(s, id) < s.len() ==> is_first_with_id(s, id, first_index(s, id)),
        first_index(s, id) == s.len() ==> forall|j: int|
            0 <= j < s.len() ==> (#[trigger] s[j]).id@ != id,
{
    if exists|i: int| is_first_with_id(s, id, i) {
        let k = choose|k: int| is_first_with_id(s, id, k);
        assert(is_first_with_id(s, id, k));
    } else {
        assert forall|j: int| 0 <= j < s.len() implies (#[trigger] s[j]).id@ != id by {
            if s[j].id@ == id {
                // the smallest position with this id would be a first one
                let m = smallest_with_id(s, id, j);
                assert(is_first_with_id(s, id, m));
            }
        }
    }
}

/// The smallest position at or below `j` holding a profile of this id.
proof fn smallest_with_id(s: Seq<ServerProfile>, id: Seq<char>, j: int) -> (m: int)
    requires
        0 <= j < s.len(),
        s[j].id@ == id,
    ensures
        is_first_with_id(s, id, m),
    decreases j,
{
    if exists|k: int| 0 <= k < j && (#[trigger] s[k]).id@ == id {
        let k = choose|k: int| 0 <= k < j && (#[trigger] s[k]).id@ == id;
        smallest_with_id(s, id, k)
    } else {
        j
    }
}

/// Scans for the first profile with this id; returns its position or the
/// length of the list.
fn position_of(profiles: &Vec<ServerProfile>, id: &str) -> (r: usize)
    ensures
        r == first_index(profiles@, id@),
{
    let mut i: usize = 0;
    while i < profiles.len()
        invariant
            i <= profiles@.len(),
            forall|j: int| 0 <= j < i ==> (#[trigger] profiles@[j]).id@ != id@,
        decreases profiles@.len() - i,
    {
        if str_equal(profiles[i].id.as_str(), id) {
            proof {
                lemma_first_index_is(profiles@, id@, i as int);
            }
            return i;
        }
        i = i + 1;
    }
    proof {
        lemma_first_index_absent(profiles@, id@);
    }
    i
}

/// Inserts `profile`, replacing the first saved profile with the same id,
/// or appending it when there is none.
pub fn upsert(profiles: &mut Vec<ServerProfile>, profile: ServerProfile)
    ensures
        final(profiles)@ == upserted(old(profiles)@, profile),
{
    let i = position_of(profiles, profile.id.as_str());
    if i < profiles.len() {
        profiles.set(i, profile);
    } else {
        profiles.push(profile);
    }
}

/// Removes every saved profile whose id is `id`; the others keep their order.
pub fn delete(profiles: &mut Vec<ServerProfile>, id: &str)
    ensures
        final(profiles)@ == without_id(old(profiles)@, id@),
{
    let ghost orig = profiles@;
    let ghost pred = id_differs(id@);
    let mut i: usize = 0;
    let ghost mut k: int = 0;
    while i < profiles.len()
        invariant
            0 <= i <= profiles@.len(),
            0 <= k <= orig.len(),
            profiles@.len() - i == orig.len() - k,
            profiles@.subrange(0, i as int) == orig.subrange(0, k).filter(pred),
            profiles@.subrange(i as int, profiles@.len() as int) == orig.subrange(k, orig.len() as int),
            pred == id_differs(id@),
        decreases profiles@.len() - i,
    {
        let ghost before = profiles@;
        proof {
            reveal_with_fuel(Seq::<_>::filter, 1);
            assert(orig.subrange(0, k + 1).drop_last() =~= orig.subrange(0, k));
            assert(before.subrange(i as int, before.len() as int)[0] == orig[k]);
            assert(orig.subrange(k + 1, orig.len() as int) =~= orig.subrange(
                k,
                orig.len() as int,
            ).drop_first());
        }
        if str_equal(profiles[i].id.as_str(), id) {
            profiles.remove(i);
            proof {
                assert(profiles@.subrange(0, i as int) =~= before.subrange(0, i as int));
                assert(profiles@.subrange(i as int, profiles@.len() as int) =~= before.subrange(
                    i as int,
                    before.len() as int,
                ).drop_first());
                k = k + 1;
            }
        } else {
            proof {
                assert(profiles@.subrange(0, i + 1) =~= profiles@.subrange(0, i as int).push(
                    orig[k],
                ));
                assert(profiles@.subrange(i + 1, profiles@.len() as int) =~= before.subrange(
                    i as int,
                    before.len() as int,
                ).drop_first());
                k = k + 1;
            }
            i = i + 1;
        }
    }
    proof {
        assert(orig.subrange(k, orig.len() as int).len() == 0);
        assert(k == orig.len());
        assert(orig.subrange(0, k) =~= orig);
        assert(profiles@.subrange(0, i as int) =~= profiles@);
    }
}

/// The first saved profile with this id, if any.
pub fn find(profiles: Vec<ServerProfile>, id: &str) -> (r: Option<ServerProfile>)
    ensures
        r == find_profile(profiles@, id@),
{
    let mut profiles = profiles;
    let i = position_of(&profiles, id);
    if i < profiles.len() {
        Some(profiles.remove(i))
    } else {
        None
    }
}

/// Records the host key fingerprint on the first profile with this id;
/// without such a profile the list is unchanged.
pub fn set_host_key_fingerprint(profiles: &mut Vec<ServerProfile>, id: &str, fingerprint: &str)
    ensures
        with_fingerprint_at(old(profiles)@, id@, fingerprint@, final(profiles)@),
{
    let i = position_of(profiles, id);
    if i < profiles.len() {
        let mut p = profiles.remove(i);
        p.host_key_fingerprint = Some(fingerprint.to_string());
        profiles.insert(i, p);
        assert(profiles@ =~= old(profiles)@.update(i as int, p));
    }
}

/// Sets the favorite flag on the first profile with this id; without such a
/// profile the list is unchanged.
pub fn set_favorite(profiles: &mut Vec<ServerProfile>, id: &str, favorite: bool)
    ensures
        final(profiles)@ == with_favorite(old(profiles)@, id@, favorite),
{
    let i = position_of(profiles, id);
    if i < profiles.len() {
        let mut p = profiles.remove(i);
        p.favorite = favorite;
        profiles.insert(i, p);
        assert(profiles@ =~= old(profiles)@.update(i as int, p));
    }
}

/// A new profile with a fresh random id, no recorded host key and not a
/// favorite.
pub fn new_profile(name: String, host: String, port: u16, username: String) -> (p: ServerProfile)
    ensures
        is_random_uuid_text(p.id@),
        p.name == name,
        p.host == host,
        p.port == port,
        p.username == username,
        p.host_key_fingerprint is None,
        !p.favorite,
{
    ServerProfile {
        id: fresh_uuid(),
        name,
        host,
        port,
        username,
        host_key_fingerprint: None,
        favorite: false,
    }
}

/// Two lists that agree, position by position, on which profiles carry `id`
/// have the same first position for it.
pub proof fn lemma_first_index_agree(s: Seq<ServerProfile>, t: Seq<ServerProfile>, id: Seq<char>)
    requires
        s.len() == t.len(),
        forall|j: int| 0 <= j < s.len() ==> ((#[trigger] s[j]).id@ == id) == (t[j].id@ == id),
    ensures
        first_index(s, id) == first_index(t, id),
{
    lemma_first_index_range(s, id);
    let i = first_index(s, id);
    if i < s.len() {
        assert forall|j: int| 0 <= j < i implies (#[trigger] t[j]).id@ != id by {
            assert(s[j].id@ != id);
        }
        lemma_first_index_is(t, id, i);
    } else {
        assert forall|j: int| 0 <= j < t.len() implies (#[trigger] t[j]).id@ != id by {
            assert(s[j].id@ != id);
        }
        lemma_first_index_absent(t, id);
    }
}

/// Looking up in a list with one more profile at the end: the earlier
/// profiles win, and the new one is found only if none of them matches.
pub proof fn lemma_find_push(s: Seq<ServerProfile>, x: ServerProfile, id: Seq<char>)
    ensures
        find_profile(s.push(x), id) == (match find_profile(s, id) {
            Some(p) => Some(p),
            None => if x.id@ == id {
                Some(x)
            } else {
                None
            },
        }),
{
    let t = s.push(x);
    lemma_first_index_range(s, id);
    let i = first_index(s, id);
    if i < s.len() {
        assert forall|j: int| 0 <= j < i implies (#[trigger] t[j]).id@ != id by {
            assert(s[j].id@ != id);
        }
        lemma_first_index_is(t, id, i);
    } else if x.id@ == id {
        assert forall|j: int| 0 <= j < s.len() implies (#[trigger] t[j]).id@ != id by {
            assert(s[j].id@ != id);
        }
        lemma_first_index_is(t, id, s.len() as int);
    } else {
        assert forall|j: int| 0 <= j < t.len() implies (#[trigger] t[j]).id@ != id by {
            if j < s.len() {
                assert(s[j].id@ != id);
            }
        }
        lemma_first_index_absent(t, id);
    }
}

/// Looking up an id gives the first saved profile with that id, and
/// nothing exactly when no saved profile has it.
pub proof fn law_find_meaning(s: Seq<ServerProfile>, id: Seq<char>)
    ensures
        find_profile(s, id) matches Some(p) ==> p.id@ == id && exists|i: int|
            0 <= i < s.len() && #[trigger] s[i] == p && forall|j: int| 0 <= j < i ==> (#[trigger] s[j]).id@ != id,
        find_profile(s, id) is None <==> forall|j: int| 0 <= j < s.len() ==> (#[trigger] s[j]).id@ != id,
{
    lemma_first_index_range(s, id);
    let i = first_index(s, id);
    if i < s.len() {
        assert(s[i] == s[i]);
        assert(s[i].id@ == id);
    }
}

/// Read after write: after `upsert`, looking up the profile's id gives back
/// exactly that profile.
pub proof fn law_find_after_upsert(s: Seq<ServerProfile>, p: ServerProfile)
    ensures
        find_profile(upserted(s, p), p.id@) == Some(p),
{
    lemma_first_index_range(s, p.id@);
    let i = first_index(s, p.id@);
    let t = upserted(s, p);
    if i < s.len() {
        assert forall|j: int| 0 <= j < t.len() implies ((#[trigger] t[j]).id@ == p.id@) == (
        s[j].id@ == p.id@) by {}
        lemma_first_index_agree(t, s, p.id@);
    } else {
        lemma_find_push(s, p, p.id@);
    }
}

/// `upsert` leaves what every other id looks up unchanged.
pub proof fn law_upsert_keeps_others(s: Seq<ServerProfile>, p: ServerProfile, id: Seq<char>)
    requires
        id != p.id@,
    ensures
        find_profile(upserted(s, p), id) == find_profile(s, id),
{
    lemma_first_index_range(s, p.id@);
    let i = first_index(s, p.id@);
    let t = upserted(s, p);
    if i < s.len() {
        assert forall|j: int| 0 <= j < t.len() implies ((#[trigger] t[j]).id@ == id) == (s[j].id@
            == id) by {}
        lemma_first_index_agree(t, s, id);
        lemma_first_index_range(s, id);
    } else {
        lemma_find_push(s, p, id);
    }
}

/// Saving a profile whose id is not saved yet appends it after the saved
/// ones, which keep their places; saving one whose id is saved puts it in
/// place of the first profile with that id and leaves every other place as
/// it was.
pub proof fn law_upsert_places(s: Seq<ServerProfile>, p: ServerProfile)
    ensures
        find_profile(s, p.id@) is None ==> upserted(s, p) == s.push(p),
        find_profile(s, p.id@) is Some ==> exists|i: int|
            #![trigger s.update(i, p)]
            0 <= i < s.len() && s[i].id@ == p.id@ && (forall|j: int| 0 <= j < i ==> (#[trigger] s[j]).id@ != p.id@)
                && upserted(s, p) == s.update(i, p),
{
    lemma_first_index_range(s, p.id@);
    let i = first_index(s, p.id@);
    if i < s.len() {
        assert(is_first_with_id(s, p.id@, i));
        assert(upserted(s, p) == s.update(i, p));
    }
}

/// `upsert` adds a profile exactly when its id was not saved yet, and
/// otherwise keeps the number of profiles.
pub proof fn law_upsert_length(s: Seq<ServerProfile>, p: ServerProfile)
    ensures
        find_profile(s, p.id@) is None ==> upserted(s, p).len() == s.len() + 1,
        find_profile(s, p.id@) is Some ==> upserted(s, p).len() == s.len(),
{
    lemma_first_index_range(s, p.id@);
}

/// Saving the same profile twice is the same as saving it once.
pub proof fn law_upsert_idempotent(s: Seq<ServerProfile>, p: ServerProfile)
    ensures
        upserted(upserted(s, p), p) == upserted(s, p),
{
    lemma_first_index_range(s, p.id@);
    let i = first_index(s, p.id@);
    let t = upserted(s, p);
    if i < s.len() {
        assert forall|j: int| 0 <= j < t.len() implies ((#[trigger] t[j]).id@ == p.id@) == (
        s[j].id@ == p.id@) by {}
        lemma_first_index_agree(t, s, p.id@);
        assert(t.update(i, p) =~= t);
    } else {
        assert forall|j: int| 0 <= j < s.len() implies (#[trigger] t[j]).id@ != p.id@ by {
            assert(s[j].id@ != p.id@);
        }
        lemma_first_index_is(t, p.id@, s.len() as int);
        assert(t.update(s.len() as int, p) =~= t);
    }
}

/// What a list without `id` looks up, inductively over the list.
proof fn lemma_find_without(s: Seq<ServerProfile>, id: Seq<char>, other: Seq<char>)
    ensures
        find_profile(without_id(s, id), other) == if other == id {
            None
        } else {
            find_profile(s, other)
        },
    decreases s.len(),
{
    let pred = id_differs(id);
    if s.len() == 0 {
        assert(s.filter(pred) =~= Seq::<ServerProfile>::empty());
        lemma_first_index_absent(s, other);
        lemma_first_index_absent(s.filter(pred), other);
    } else {
        let init = s.drop_last();
        let x = s.last();
        lemma_find_without(init, id, other);
        assert(s =~= init.push(x));
        reveal_with_fuel(Seq::<_>::filter, 1);
        lemma_find_push(init, x, other);
        if pred(x) {
            assert(s.filter(pred) =~= init.filter(pred).push(x));
            lemma_find_push(init.filter(pred), x, other);
        } else {
            assert(s.filter(pred) =~= init.filter(pred));
        }
    }
}

/// After `delete`, the id is not found any more.
pub proof fn law_find_after_delete(s: Seq<ServerProfile>, id: Seq<char>)
    ensures
        find_profile(without_id(s, id), id) is None,
{
    lemma_find_without(s, id, id);
}

/// `delete` leaves what every other id looks up unchanged.
pub proof fn law_delete_keeps_others(s: Seq<ServerProfile>, id: Seq<char>, other: Seq<char>)
    requires
        other != id,
    ensures
        find_profile(without_id(s, id), other) == find_profile(s, other),
{
    lemma_find_without(s, id, other);
}

/// Setting the favorite flag changes only that flag of the profile found
/// under `id`, and nothing that other ids look up.
pub proof fn law_set_favorite_find(s: Seq<ServerProfile>, id: Seq<char>, favorite: bool, other: Seq<char>)
    ensures
        find_profile(with_favorite(s, id, favorite), id) == (match find_profile(s, id) {
            Some(p) => Some(profile_with_favorite(p, favorite)),
            None => None,
        }),
        other != id ==> find_profile(with_favorite(s, id, favorite), other) == find_profile(s, other),
        with_favorite(s, id, favorite).len() == s.len(),
{
    lemma_first_index_range(s, id);
    let t = with_favorite(s, id, favorite);
    assert forall|j: int| 0 <= j < t.len() implies ((#[trigger] t[j]).id@ == id) == (s[j].id@
        == id) by {}
    assert forall|j: int| 0 <= j < t.len() implies ((#[trigger] t[j]).id@ == other) == (s[j].id@
        == other) by {}
    lemma_first_index_agree(t, s, id);
    lemma_first_index_agree(t, s, other);
}

/// After the favorite flag of a saved server is set, looking the server up
/// gives a profile whose flag is the requested value and whose other fields
/// are those it had; an id that is not saved leaves the list unchanged.
pub proof fn law_set_favorite_value(s: Seq<ServerProfile>, id: Seq<char>, favorite: bool)
    ensures
        find_profile(s, id) matches Some(before) ==> find_profile(with_favorite(s, id, favorite), id)
            matches Some(after) && after.favorite == favorite && after.id == before.id && after.name
            == before.name && after.host == before.host && after.port == before.port && after.username
            == before.username && after.host_key_fingerprint == before.host_key_fingerprint,
        find_profile(s, id) is None ==> with_favorite(s, id, favorite) == s,
{
    law_set_favorite_find(s, id, favorite, id);
    lemma_first_index_range(s, id);
}

/// Trust on first use, read after write: once a fingerprint is recorded
/// for a saved server, looking the server up gives that fingerprint.
pub proof fn law_recorded_fingerprint_found(
    s: Seq<ServerProfile>,
    id: Seq<char>,
    fingerprint: Seq<char>,
    t: Seq<ServerProfile>,
)
    requires
        find_profile(s, id) is Some,
        with_fingerprint_at(s, id, fingerprint, t),
    ensures
        find_profile(t, id) matches Some(p) && p.host_key_fingerprint matches Some(f) && f@
            == fingerprint,
{
    lemma_first_index_range(s, id);
    assert forall|j: int| 0 <= j < t.len() implies ((#[trigger] t[j]).id@ == id) == (s[j].id@
        == id) by {}
    lemma_first_index_agree(t, s, id);
}

} // verus!

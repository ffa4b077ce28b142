//! Directory listings, remote and local: directories first, then by name
//! without regard to case, ties kept in the order the entries came in.
use vstd::prelude::*;
use vstd::string::*;

verus! {

/// An entry of a directory on the remote server.
#[derive(Debug, Clone)]
pub struct RemoteEntry {
    pub name: String,
    pub path: String,
    pub is_dir: bool,
    pub size: u64,
    /// Unix timestamp (seconds), if the server reported one.
    pub modified: Option<u64>,
}

/// A listed remote directory.
#[derive(Debug, Clone)]
pub struct RemoteListing {
    /// The resolved absolute path that was listed (a request for "." names
    /// the login directory, for instance).
    pub current: String,
    pub entries: Vec<RemoteEntry>,
}

/// An entry of a directory on this machine.
#[derive(Debug, Clone)]
pub struct LocalEntry {
    pub name: String,
    pub path: String,
    pub is_dir: bool,
    pub size: u64,
}

/// A listed local directory.
#[derive(Debug, Clone)]
pub struct LocalListing {
    pub parent: Option<String>,
    pub entries: Vec<LocalEntry>,
}

/// What `str::to_lowercase` gives for a text (Unicode lowercase mapping,
/// independent of locale).
pub uninterp spec fn lowercase(s: Seq<char>) -> Seq<char>;

/// Calls `str::to_lowercase`. Trusted: the result is the lowercase mapping
/// of the argument, a function of the argument alone.
#[verifier::external_body]
fn to_lowercase(s: &str) -> (r: String)
    ensures
        r@ == lowercase(s@),
{
    s.to_lowercase()
}

/// An entry that can be placed in a listing.
pub trait ListedEntry: Sized {
    spec fn listed_name(&self) -> Seq<char>;

    spec fn listed_is_dir(&self) -> bool;

    fn name_text(&self) -> (s: &str)
        ensures
            s@ == self.listed_name(),
    ;

    fn is_directory(&self) -> (b: bool)
        ensures
            b == self.listed_is_dir(),
    ;
}

impl ListedEntry for RemoteEntry {
    open spec fn listed_name(&self) -> Seq<char> {
        self.name@
    }

    open spec fn listed_is_dir(&self) -> bool {
        self.is_dir
    }

    fn name_text(&self) -> (s: &str) {
        self.name.as_str()
    }

    fn is_directory(&self) -> (b: bool) {
        self.is_dir
    }
}

impl ListedEntry for LocalEntry {
    open spec fn listed_name(&self) -> Seq<char> {
        self.name@
    }

    open spec fn listed_is_dir(&self) -> bool {
        self.is_dir
    }

    fn name_text(&self) -> (s: &str) {
        self.name.as_str()
    }

    fn is_directory(&self) -> (b: bool) {
        self.is_dir
    }
}

/// `a` is below `b` in lexicographic order, decided at position `k`: the
/// texts agree before `k`, and there `a` ends while `b` goes on, or `a` has
/// the smaller character.
pub open spec fn lex_less_at(a: Seq<char>, b: Seq<char>, k: int) -> bool {
    &&& 0 <= k <= a.len()
    &&& k < b.len()
    &&& forall|j: int| 0 <= j < k ==> a[j] == b[j]
    &&& (k == a.len() || a[k] < b[k])
}

/// Lexicographic order on texts by character code point (for UTF-8 text,
/// the same order as comparing the bytes).
pub open spec fn lex_less(a: Seq<char>, b: Seq<char>) -> bool {
    exists|k: int| lex_less_at(a, b, k)
}

/// Rank `a` is listed strictly before rank `b`: directories before files,
/// then by lowercased name.
pub open spec fn rank_before(a: (bool, Seq<char>), b: (bool, Seq<char>)) -> bool {
    (a.0 && !b.0) || (a.0 == b.0 && lex_less(a.1, b.1))
}

/// The ranks of entries whose lowercased names are `lower_names`.
pub open spec fn ranks_with_names<T: ListedEntry>(entries: Seq<T>, lower_names: Seq<Seq<char>>) -> Seq<
    (bool, Seq<char>),
> {
    Seq::new(entries.len(), |i: int| (entries[i].listed_is_dir(), lower_names[i]))
}

/// The lowercased names of entries.
pub open spec fn lowercased_names<T: ListedEntry>(entries: Seq<T>) -> Seq<Seq<char>> {
    entries.map_values(|e: T| lowercase(e.listed_name()))
}

/// The texts of a list of strings.
pub open spec fn string_views(v: Seq<String>) -> Seq<Seq<char>> {
    v.map_values(|s: String| s@)
}

/// `perm` lists the positions `0..n` of `ranks`, each once, so that every
/// position comes before the later ones by rank, and positions of equal
/// rank in increasing order.
pub open spec fn is_rank_order(ranks: Seq<(bool, Seq<char>)>, perm: Seq<int>, n: int) -> bool {
    &&& perm.len() == n
    &&& forall|k: int| 0 <= k < n ==> 0 <= #[trigger] perm[k] < n
    &&& forall|k: int, l: int| 0 <= k < l < n ==> #[trigger] perm[k] != #[trigger] perm[l]
    &&& forall|k: int, l: int|
        0 <= k < l < n ==> rank_before(ranks[#[trigger] perm[k]], ranks[#[trigger] perm[l]]) || (
        ranks[perm[k]] == ranks[perm[l]] && perm[k] < perm[l])
}

/// `output` is `input` rearranged by `perm`, which puts the ranks in order.
pub open spec fn is_sorted_by_ranks<T>(
    input: Seq<T>,
    ranks: Seq<(bool, Seq<char>)>,
    output: Seq<T>,
    perm: Seq<int>,
) -> bool {
    &&& output.len() == input.len()
    &&& is_rank_order(ranks, perm, input.len() as int)
    &&& forall|k: int| 0 <= k < output.len() ==> #[trigger] output[k] == input[perm[k]]
}

/// `output` holds the entries of `input` ordered by `ranks` (directories
/// first, then by name; equal ranks in input order).
pub open spec fn is_ordered_by<T>(input: Seq<T>, ranks: Seq<(bool, Seq<char>)>, output: Seq<T>) -> bool {
    exists|perm: Seq<int>| is_sorted_by_ranks(input, ranks, output, perm)
}

/// `output` holds the entries of `input` in listing order.
pub open spec fn is_listing_order<T: ListedEntry>(input: Seq<T>, output: Seq<T>) -> bool {
    is_ordered_by(input, ranks_with_names(input, lowercased_names(input)), output)
}

/// Lexicographic order: a text is below every longer text that starts with
/// it, and of two texts that agree up to a position, the one with the
/// smaller character there is below the other; no text is below itself.
pub proof fn law_lex_order(a: Seq<char>, b: Seq<char>, k: int)
    ensures
        b.len() > 0 ==> lex_less(a, a + b),
        (0 <= k < a.len() && k < b.len() && (forall|j: int| 0 <= j < k ==> a[j] == b[j]) && a[k]
            < b[k]) ==> lex_less(a, b),
        !lex_less(a, a),
        lex_less(a, b) ==> !lex_less(b, a),
{
    if b.len() > 0 {
        assert(lex_less_at(a, a + b, a.len() as int));
    }
    if 0 <= k < a.len() && k < b.len() && (forall|j: int| 0 <= j < k ==> a[j] == b[j]) && a[k] < b[k] {
        assert(lex_less_at(a, b, k));
    }
    if lex_less(a, b) && lex_less(b, a) {
        lemma_lex_transitive(a, b, a);
    }
}

/// In a sorted listing every directory comes before every file, and among
/// entries of the same kind no entry comes after one whose name is above it.
pub proof fn law_listing_directories_first<T>(
    input: Seq<T>,
    ranks: Seq<(bool, Seq<char>)>,
    output: Seq<T>,
    perm: Seq<int>,
)
    requires
        is_sorted_by_ranks(input, ranks, output, perm),
    ensures
        forall|k: int, l: int|
            0 <= k < l < output.len() && ranks[#[trigger] perm[l]].0 ==> ranks[#[trigger] perm[k]].0,
        forall|k: int, l: int|
            0 <= k < l < output.len() && ranks[#[trigger] perm[k]].0 == ranks[#[trigger] perm[l]].0
                ==> !lex_less(ranks[perm[l]].1, ranks[perm[k]].1),
{
    assert forall|k: int, l: int|
        0 <= k < l < output.len() && ranks[#[trigger] perm[k]].0 == ranks[#[trigger] perm[l]].0
            implies !lex_less(ranks[perm[l]].1, ranks[perm[k]].1) by {
        if lex_less(ranks[perm[l]].1, ranks[perm[k]].1) {
            law_lex_order(ranks[perm[l]].1, ranks[perm[k]].1, 0);
            law_lex_order(ranks[perm[k]].1, ranks[perm[k]].1, 0);
        }
    }
}

/// Lexicographic order is transitive.
pub proof fn lemma_lex_transitive(a: Seq<char>, b: Seq<char>, c: Seq<char>)
    requires
        lex_less(a, b),
        lex_less(b, c),
    ensures
        lex_less(a, c),
{
    let k1 = choose|k: int| lex_less_at(a, b, k);
    let k2 = choose|k: int| lex_less_at(b, c, k);
    if k1 < k2 {
        assert(b[k1] == c[k1]);
        assert(lex_less_at(a, c, k1));
    } else if k2 < k1 {
        assert(a[k2] == b[k2]);
        assert(lex_less_at(a, c, k2));
    } else {
        assert(lex_less_at(a, c, k1));
    }
}

/// The first position below `n` at which two texts differ, given one.
proof fn first_difference(a: Seq<char>, b: Seq<char>, n: int) -> (k: int)
    requires
        0 <= n <= a.len(),
        n <= b.len(),
        exists|j: int| 0 <= j < n && a[j] != b[j],
    ensures
        0 <= k < n,
        a[k] != b[k],
        forall|j: int| 0 <= j < k ==> a[j] == b[j],
    decreases n,
{
    if exists|j: int| 0 <= j < n - 1 && a[j] != b[j] {
        first_difference(a, b, n - 1)
    } else {
        n - 1
    }
}

/// Of two different texts, one is below the other.
pub proof fn lemma_lex_total(a: Seq<char>, b: Seq<char>)
    requires
        a != b,
    ensures
        lex_less(a, b) || lex_less(b, a),
{
    let n = if a.len() <= b.len() {
        a.len() as int
    } else {
        b.len() as int
    };
    if exists|j: int| 0 <= j < n && a[j] != b[j] {
        let k = first_difference(a, b, n);
        if a[k] < b[k] {
            assert(lex_less_at(a, b, k));
        } else {
            assert(lex_less_at(b, a, k));
        }
    } else if a.len() < b.len() {
        assert(lex_less_at(a, b, n));
    } else if b.len() < a.len() {
        assert(lex_less_at(b, a, n));
    } else {
        assert(a =~= b);
    }
}

/// Listing order on ranks is transitive.
pub proof fn lemma_rank_transitive(a: (bool, Seq<char>), b: (bool, Seq<char>), c: (bool, Seq<char>))
    requires
        rank_before(a, b),
        rank_before(b, c),
    ensures
        rank_before(a, c),
{
    if a.0 == b.0 && b.0 == c.0 {
        lemma_lex_transitive(a.1, b.1, c.1);
    }
}

/// Of two ranks, one is before the other or they are equal.
pub proof fn lemma_rank_total(a: (bool, Seq<char>), b: (bool, Seq<char>))
    ensures
        rank_before(a, b) || rank_before(b, a) || a == b,
{
    if a.0 == b.0 && a.1 != b.1 {
        lemma_lex_total(a.1, b.1);
    }
}

/// Whether `a` is below `b` in lexicographic order.
pub fn chars_less(a: &Vec<char>, b: &Vec<char>) -> (r: bool)
    ensures
        r == lex_less(a@, b@),
{
    let mut i: usize = 0;
    while i < a.len() && i < b.len() && a[i] == b[i]
        invariant
            i <= a@.len(),
            i <= b@.len(),
            forall|j: int| 0 <= j < i ==> a@[j] == b@[j],
        decreases a@.len() - i,
    {
        i = i + 1;
    }
    let r = if i < a.len() && i < b.len() {
        a[i] < b[i]
    } else {
        i == a.len() && i < b.len()
    };
    proof {
        if r {
            assert(lex_less_at(a@, b@, i as int));
        } else {
            assert forall|k: int| !lex_less_at(a@, b@, k) by {
                if lex_less_at(a@, b@, k) {
                    if k < i {
                        assert(a@[k] == b@[k]);
                    } else if k > i {
                        assert(a@[i as int] == b@[i as int]);
                    }
                }
            }
        }
    }
    r
}

/// The characters of a text.
pub fn text_chars(s: &str) -> (v: Vec<char>)
    ensures
        v@ == s@,
{
    let n = s.unicode_len();
    let mut v: Vec<char> = Vec::new();
    let mut i: usize = 0;
    while i < n
        invariant
            n == s@.len(),
            i <= n,
            v@ == s@.take(i as int),
        decreases n - i,
    {
        let c = s.get_char(i);
        v.push(c);
        proof {
            assert(s@.take(i + 1) =~= s@.take(i as int).push(c));
        }
        i = i + 1;
    }
    proof {
        assert(s@.take(n as int) =~= s@);
    }
    v
}

/// An entry's rank, computed.
struct RankKey {
    is_dir: bool,
    lower: Vec<char>,
}

impl RankKey {
    spec fn rank(&self) -> (bool, Seq<char>) {
        (self.is_dir, self.lower@)
    }
}

fn key_before(a: &RankKey, b: &RankKey) -> (r: bool)
    ensures
        r == rank_before(a.rank(), b.rank()),
{
    if a.is_dir && !b.is_dir {
        true
    } else if a.is_dir == b.is_dir {
        chars_less(&a.lower, &b.lower)
    } else {
        false
    }
}

/// Placing position `i` at the first place whose position it is before
/// keeps the order stable.
proof fn lemma_insert_rank(ranks: Seq<(bool, Seq<char>)>, perm: Seq<int>, i: int, pos: int)
    requires
        0 <= i < ranks.len(),
        is_rank_order(ranks, perm, i),
        0 <= pos <= i,
        forall|k: int| 0 <= k < pos ==> !rank_before(ranks[i], ranks[#[trigger] perm[k]]),
        pos < i ==> rank_before(ranks[i], ranks[perm[pos]]),
    ensures
        is_rank_order(ranks, perm.insert(pos, i), i + 1),
{
    let p2 = perm.insert(pos, i);
    assert forall|k: int| 0 <= k < i + 1 implies 0 <= #[trigger] p2[k] < i + 1 by {
        if k < pos {
            assert(p2[k] == perm[k]);
        } else if k > pos {
            assert(p2[k] == perm[k - 1]);
        }
    }
    assert forall|k: int, l: int| 0 <= k < l < i + 1 implies #[trigger] p2[k] != #[trigger] p2[l] by {
        if k < pos && l < pos {
            assert(perm[k] != perm[l]);
        } else if k > pos && l > pos {
            assert(perm[k - 1] != perm[l - 1]);
        } else if k < pos && l == pos {
            assert(0 <= perm[k] < i);
        } else if k == pos {
            assert(0 <= perm[l - 1] < i);
        } else {
            assert(perm[k] != perm[l - 1]);
        }
    }
    assert forall|k: int, l: int| 0 <= k < l < i + 1 implies rank_before(
        ranks[#[trigger] p2[k]],
        ranks[#[trigger] p2[l]],
    ) || (ranks[p2[k]] == ranks[p2[l]] && p2[k] < p2[l]) by {
        if k < pos && l < pos {
            assert(p2[k] == perm[k] && p2[l] == perm[l]);
            assert(rank_before(ranks[perm[k]], ranks[perm[l]]) || (ranks[perm[k]] == ranks[perm[l]]
                && perm[k] < perm[l]));
        } else if k > pos && l > pos {
            assert(p2[k] == perm[k - 1] && p2[l] == perm[l - 1]);
            assert(rank_before(ranks[perm[k - 1]], ranks[perm[l - 1]]) || (ranks[perm[k - 1]]
                == ranks[perm[l - 1]] && perm[k - 1] < perm[l - 1]));
        } else if k < pos && l > pos {
            assert(p2[k] == perm[k] && p2[l] == perm[l - 1]);
            assert(rank_before(ranks[perm[k]], ranks[perm[l - 1]]) || (ranks[perm[k]] == ranks[perm[l
                - 1]] && perm[k] < perm[l - 1]));
        } else if k < pos && l == pos {
            assert(p2[k] == perm[k] && p2[l] == i);
            assert(!rank_before(ranks[i], ranks[perm[k]]));
            lemma_rank_total(ranks[i], ranks[perm[k]]);
            assert(0 <= perm[k] < i);
        } else {
            assert(p2[k] == i && p2[l] == perm[l - 1]);
            assert(rank_before(ranks[i], ranks[perm[pos]]));
            assert(0 <= perm[l - 1] < i);
            if l - 1 > pos {
                assert(rank_before(ranks[perm[pos]], ranks[perm[l - 1]]) || ranks[perm[pos]]
                    == ranks[perm[l - 1]]);
                if rank_before(ranks[perm[pos]], ranks[perm[l - 1]]) {
                    lemma_rank_transitive(ranks[i], ranks[perm[pos]], ranks[perm[l - 1]]);
                }
            }
        }
    }
}

/// Puts the entries in listing order given their lowercased names:
/// directories first, then by those names; entries of equal rank keep their
/// order.
pub fn sort_listing_by_names<T: ListedEntry>(entries: Vec<T>, lower_names: Vec<String>) -> (out: Vec<
    T,
>)
    requires
        lower_names@.len() == entries@.len(),
    ensures
        is_ordered_by(entries@, ranks_with_names(entries@, string_views(lower_names@)), out@),
{
    let ghost input = entries@;
    let ghost ranks = ranks_with_names(entries@, string_views(lower_names@));
    let ghost n = entries@.len() as int;
    let mut rest = entries;
    let mut names = lower_names;
    let mut out: Vec<T> = Vec::new();
    let mut keys: Vec<RankKey> = Vec::new();
    let ghost mut perm: Seq<int> = Seq::empty();
    let ghost mut i: int = 0;
    while rest.len() > 0
        invariant
            0 <= i <= n,
            n == input.len(),
            ranks.len() == n,
            forall|j: int| 0 <= j < n ==> (#[trigger] ranks[j]).0 == input[j].listed_is_dir(),
            rest@ == input.subrange(i, n),
            rest@.len() == names@.len(),
            forall|j: int| 0 <= j < names@.len() ==> (#[trigger] names@[j])@ == ranks[i + j].1,
            is_rank_order(ranks, perm, i),
            out@.len() == i,
            keys@.len() == i,
            forall|k: int| 0 <= k < i ==> #[trigger] out@[k] == input[perm[k]],
            forall|k: int| 0 <= k < i ==> (#[trigger] keys@[k]).rank() == ranks[perm[k]],
        decreases rest@.len(),
    {
        let e = rest.remove(0);
        let name = names.remove(0);
        assert(e == input[i]);
        assert(name@ == ranks[i].1);
        let key = RankKey { is_dir: e.is_directory(), lower: text_chars(name.as_str()) };
        assert(key.rank() == ranks[i]);
        let mut pos: usize = 0;
        while pos < out.len() && !key_before(&key, &keys[pos])
            invariant
                pos <= out@.len(),
                out@.len() == i,
                keys@.len() == i,
                forall|k: int| 0 <= k < i ==> (#[trigger] keys@[k]).rank() == ranks[perm[k]],
                key.rank() == ranks[i],
                forall|k: int| 0 <= k < pos ==> !rank_before(ranks[i], ranks[#[trigger] perm[k]]),
            decreases out@.len() - pos,
        {
            assert(keys@[pos as int].rank() == ranks[perm[pos as int]]);
            pos = pos + 1;
        }
        proof {
            if pos < out@.len() {
                assert(keys@[pos as int].rank() == ranks[perm[pos as int]]);
            }
            lemma_insert_rank(ranks, perm, i, pos as int);
        }
        let ghost old_keys = keys@;
        let ghost old_out = out@;
        let ghost old_perm = perm;
        out.insert(pos, e);
        keys.insert(pos, key);
        proof {
            perm = perm.insert(pos as int, i);
            assert forall|k: int| 0 <= k < i + 1 implies #[trigger] out@[k] == input[perm[k]]
                && keys@[k].rank() == ranks[perm[k]] by {
                if k < pos {
                    assert(out@[k] == old_out[k] && keys@[k] == old_keys[k] && perm[k] == old_perm[k]);
                } else if k > pos {
                    assert(out@[k] == old_out[k - 1] && keys@[k] == old_keys[k - 1] && perm[k]
                        == old_perm[k - 1]);
                }
            }
            assert forall|j: int| 0 <= j < names@.len() implies (#[trigger] names@[j])@ == ranks[(i
                + 1) + j].1 by {}
            i = i + 1;
            assert(rest@ =~= input.subrange(i, n));
        }
    }
    proof {
        assert(is_sorted_by_ranks(input, ranks, out@, perm));
    }
    out
}

/// Puts the entries in listing order: directories first, then by name
/// without regard to case; entries of equal rank keep their order.
pub fn sort_listing<T: ListedEntry>(entries: Vec<T>) -> (out: Vec<T>)
    ensures
        is_listing_order(entries@, out@),
{
    let mut names: Vec<String> = Vec::new();
    let mut i: usize = 0;
    while i < entries.len()
        invariant
            i <= entries@.len(),
            string_views(names@) == lowercased_names(entries@).take(i as int),
        decreases entries@.len() - i,
    {
        let lower = to_lowercase(entries[i].name_text());
        let ghost before = names@;
        assert(lower@ == lowercased_names(entries@)[i as int]);
        names.push(lower);
        proof {
            assert(string_views(names@) =~= string_views(before).push(lower@));
            assert(string_views(names@) =~= lowercased_names(entries@).take(i + 1));
        }
        i = i + 1;
    }
    proof {
        assert(string_views(names@) =~= lowercased_names(entries@));
        assert(ranks_with_names(entries@, string_views(names@)) =~= ranks_with_names(
            entries@,
            lowercased_names(entries@),
        ));
    }
    sort_listing_by_names(entries, names)
}

/// The listing of a remote directory: its resolved path and its entries in
/// listing order.
pub fn remote_listing(current: String, entries: Vec<RemoteEntry>) -> (l: RemoteListing)
    ensures
        l.current == current,
        is_listing_order(entries@, l.entries@),
{
    RemoteListing { current, entries: sort_listing(entries) }
}

/// The listing of a local directory: its parent, if any, and its entries in
/// listing order.
pub fn local_listing(parent: Option<String>, entries: Vec<LocalEntry>) -> (l: LocalListing)
    ensures
        l.parent == parent,
        is_listing_order(entries@, l.entries@),
{
    LocalListing { parent, entries: sort_listing(entries) }
}

/// What `Path::parent` gives for a path, as text: the path without its
/// last component, or `None` for a root or empty path.
pub uninterp spec fn path_parent(path: Seq<char>) -> Option<Seq<char>>;

/// Calls `std::path::Path::parent` on the path. Trusted: the result is a
/// function of the path text alone (the lexical parent); a parent of a path
/// given as text is text again, so the conversion back loses nothing.
#[verifier::external_body]
fn parent_path(path: &str) -> (r: Option<String>)
    ensures
        match r {
            Some(p) => path_parent(path@) == Some(p@),
            None => path_parent(path@) is None,
        },
{
    match std::path::Path::new(path).parent() {
        Some(p) => Some(p.to_string_lossy().into_owned()),
        None => None,
    }
}

/// The listing of the local directory at `path`: its parent, if it has
/// one, and its entries in listing order.
pub fn local_listing_for(path: &str, entries: Vec<LocalEntry>) -> (l: LocalListing)
    ensures
        match l.parent {
            Some(p) => path_parent(path@) == Some(p@),
            None => path_parent(path@) is None,
        },
        is_listing_order(entries@, l.entries@),
{
    local_listing(parent_path(path), entries)
}

} // verus!

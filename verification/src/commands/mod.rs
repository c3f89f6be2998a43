//! Decisions behind the commands of the command-line client: which cache
//! entries were used, under which key an entry is cached, and the rules of
//! each command that do not depend on the network.


pub mod auth;
pub mod cache_cmd;
pub mod duration;
pub mod entries;
pub mod projects;
pub mod timer;



use std::hash::{Hash, Hasher};

use vstd::prelude::*;

use crate::cache::{is_key_char, valid_key};
use crate::cli::{ClientsAction, ProjectsAction, TagsAction};
use crate::models::{TimeEntry, User, WorkspaceId};
use crate::text::{
    dec_int, dec_nat, hex_char, hex_fixed, is_ascii_digit, push_char, push_dec_i64, push_hex_fixed,
    string_views,
};

verus! {

broadcast use vstd::string::group_string_axioms;

// ---------------------------------------------------------------------------
// Cache hits
// ---------------------------------------------------------------------------

/// The names of the entities that a command took from the cache, in the
/// order in which it took them.
#[derive(Debug)]
pub struct CacheHits(Vec<String>);

impl View for CacheHits {
    type V = Seq<Seq<char>>;

    closed spec fn view(&self) -> Seq<Seq<char>> {
        string_views(self.0@)
    }
}

impl CacheHits {
    /// No hits yet.
    pub fn new() -> (h: CacheHits)
        ensures
            h@ == Seq::<Seq<char>>::empty(),
    {
        let h = CacheHits(Vec::new());
        assert(h@ =~= Seq::<Seq<char>>::empty());
        h
    }

    /// Notes that `entity` came from the cache.
    pub fn record(&mut self, entity: &str)
        ensures
            final(self)@ == old(self)@.push(entity@),
    {
        self.0.push(entity.to_string());
        assert(self@ =~= old(self)@.push(entity@));
    }

    /// The entities taken from the cache, oldest first.
    pub fn entities(&self) -> (r: &[String])
        ensures
            string_views(r@) == self@,
    {
        self.0.as_slice()
    }
}

impl Default for CacheHits {
    fn default() -> (h: CacheHits)
        ensures
            h@ == Seq::<Seq<char>>::empty(),
    {
        CacheHits::new()
    }
}

/// What a cached fetch does with what the cache held under `key`: a value
/// found there is served as it is and noted as a hit under the key (without
/// the account's prefix); with none, nothing is noted and the caller fetches
/// from the API and stores what it gets.
pub fn take_cached<T>(cached: Option<T>, key: &str, hits: &mut CacheHits) -> (r: Option<T>)
    ensures
        r == cached,
        cached is Some ==> final(hits)@ == old(hits)@.push(key@),
        cached is None ==> final(hits)@ == old(hits)@,
{
    match cached {
        Some(v) => {
            hits.record(key);
            Some(v)
        },
        None => None,
    }
}

/// Recording hits keeps every earlier hit, in order, and adds the new ones at the end.
pub proof fn law_hits_keep_order(before: Seq<Seq<char>>, a: Seq<char>, b: Seq<char>)
    ensures
        before.push(a).push(b).subrange(0, before.len() as int) == before,
        before.push(a).push(b)[before.len() as int] == a,
        before.push(a).push(b)[before.len() as int + 1] == b,
{
    assert(before.push(a).push(b).subrange(0, before.len() as int) =~= before);
}

// ---------------------------------------------------------------------------
// Cache keys
// ---------------------------------------------------------------------------

/// What `DefaultHasher::new()` gives after hashing the string `s`
/// (`s.hash(&mut hasher); hasher.finish()`).
pub uninterp spec fn default_hash_of_str(s: Seq<char>) -> u64;

/// `DefaultHasher` applied to a string. The standard library documents that
/// every hasher made by `DefaultHasher::new` is the same, so the result is a
/// function of the string alone, named `default_hash_of_str`.
#[verifier::external_body]
fn default_hash_str(s: &str) -> (h: u64)
    ensures
        h == default_hash_of_str(s@),
{
    let mut hasher = std::hash::DefaultHasher::new();
    s.hash(&mut hasher);
    hasher.finish()
}

/// The fingerprint of an API token: its hash as 16 lower-case hexadecimal digits.
pub open spec fn token_fingerprint(token: Seq<char>) -> Seq<char> {
    hex_fixed(default_hash_of_str(token) as nat, 16)
}

/// The fingerprint that keeps the cache entries of different accounts apart.
pub fn compute_fingerprint(token: &str) -> (fp: String)
    ensures
        fp@ == token_fingerprint(token@),
{
    let h = default_hash_str(token);
    let mut fp = String::new();
    push_hex_fixed(&mut fp, h, 16);
    assert(fp@ =~= token_fingerprint(token@));
    fp
}

/// The key under which an entity is cached: `<fingerprint>_<key>` once the
/// token is known, the bare key otherwise.
pub open spec fn scoped_key(fingerprint: Option<Seq<char>>, key: Seq<char>) -> Seq<char> {
    match fingerprint {
        Some(fp) => fp + seq!['_'] + key,
        None => key,
    }
}

/// The cache key of `key` for the account whose token fingerprint is given.
pub fn cache_key(fingerprint: &Option<String>, key: &str) -> (k: String)
    ensures
        k@ == scoped_key(
            match fingerprint {
                Some(f) => Some(f@),
                None => None,
            },
            key@,
        ),
{
    match fingerprint {
        Some(fp) => {
            let mut k = fp.clone();
            crate::text::push_char(&mut k, '_');
            k.append(key);
            k
        },
        None => key.to_string(),
    }
}

/// The characters of a hexadecimal rendering are digits and `a`..`f`.
proof fn lemma_hex_fixed_key_chars(n: nat, width: nat)
    ensures
        hex_fixed(n, width).len() == width,
        forall|i: int| 0 <= i < width ==> #[trigger] is_key_char(hex_fixed(n, width)[i]),
    decreases width,
{
    if width > 0 {
        lemma_hex_fixed_key_chars(n / 16, (width - 1) as nat);
        let d = n % 16;
        assert(is_key_char(hex_char(d)));
        let h = hex_fixed(n, width);
        assert forall|i: int| 0 <= i < width implies #[trigger] is_key_char(h[i]) by {
            if i < width - 1 {
                assert(h[i] == hex_fixed(n / 16, (width - 1) as nat)[i]);
            }
        }
    }
}

/// Cache entries of one account never collide: the same fingerprint with two
/// different keys gives two different cache keys.
pub proof fn law_scoped_keys_distinct(fp: Seq<char>, k1: Seq<char>, k2: Seq<char>)
    requires
        k1 != k2,
    ensures
        scoped_key(Some(fp), k1) != scoped_key(Some(fp), k2),
{
    let a = scoped_key(Some(fp), k1);
    let b = scoped_key(Some(fp), k2);
    if a == b {
        assert(k1 =~= a.subrange(fp.len() as int + 1, a.len() as int));
        assert(k2 =~= b.subrange(fp.len() as int + 1, b.len() as int));
    }
}

/// Two accounts whose tokens have different fingerprints never share a
/// cache entry: the same key scoped for each gives two different cache keys.
pub proof fn law_accounts_kept_apart(t1: Seq<char>, t2: Seq<char>, key: Seq<char>)
    requires
        token_fingerprint(t1) != token_fingerprint(t2),
    ensures
        scoped_key(Some(token_fingerprint(t1)), key) != scoped_key(Some(token_fingerprint(t2)), key),
{
    let f1 = token_fingerprint(t1);
    let f2 = token_fingerprint(t2);
    lemma_hex_fixed_key_chars(default_hash_of_str(t1) as nat, 16);
    lemma_hex_fixed_key_chars(default_hash_of_str(t2) as nat, 16);
    let a = scoped_key(Some(f1), key);
    let b = scoped_key(Some(f2), key);
    if a == b {
        assert(f1 =~= a.take(16));
        assert(f2 =~= b.take(16));
    }
}

/// A key that the cache accepts stays acceptable once scoped with a token's
/// fingerprint.
pub proof fn law_scoped_key_stays_valid(token: Seq<char>, key: Seq<char>)
    requires
        valid_key(key),
    ensures
        valid_key(scoped_key(Some(token_fingerprint(token)), key)),
{
    let fp = token_fingerprint(token);
    lemma_hex_fixed_key_chars(default_hash_of_str(token) as nat, 16);
    let s = scoped_key(Some(fp), key);
    assert forall|i: int| 0 <= i < s.len() implies #[trigger] is_key_char(s[i]) by {
        if i < 16 {
            assert(s[i] == fp[i]);
        } else if i == 16 {
            assert(s[i] == '_');
        } else {
            assert(s[i] == key[i - 17]);
        }
    }
}

// ---------------------------------------------------------------------------
// Listing keys and what each write invalidates
// ---------------------------------------------------------------------------

/// The lists of a workspace that are cached.
#[derive(Clone, Copy, Debug, PartialEq, Eq, Structural)]
pub enum Listing {
    Projects,
    Tags,
    Clients,
}

/// The word that starts the cache key of a listing.
pub open spec fn listing_prefix(kind: Listing) -> Seq<char> {
    match kind {
        Listing::Projects => "projects"@,
        Listing::Tags => "tags"@,
        Listing::Clients => "clients"@,
    }
}

/// `<listing>_<workspace id>`, e.g. `projects_1234`.
pub open spec fn listing_key_spec(kind: Listing, wid: WorkspaceId) -> Seq<char> {
    listing_prefix(kind) + seq!['_'] + dec_int(wid.0 as int)
}

/// The cache key of a workspace's list of projects, tags or clients.
pub fn listing_key(kind: Listing, wid: WorkspaceId) -> (k: String)
    ensures
        k@ == listing_key_spec(kind, wid),
{
    let mut k = match kind {
        Listing::Projects => "projects".to_string(),
        Listing::Tags => "tags".to_string(),
        Listing::Clients => "clients".to_string(),
    };
    push_char(&mut k, '_');
    push_dec_i64(&mut k, wid.0);
    k
}

/// Whether a `projects` command changes projects.
pub open spec fn projects_write(a: ProjectsAction) -> bool {
    a is Create || a is Update || a is Delete
}

/// Whether a `tags` command changes tags.
pub open spec fn tags_write(a: TagsAction) -> bool {
    a is Create || a is Update || a is Delete
}

/// Whether a `clients` command changes clients.
pub open spec fn clients_write(a: ClientsAction) -> bool {
    a is Create || a is Update || a is Delete
}

/// The cache key that a `projects` command drops once it has succeeded:
/// the workspace's project list after a create, update or delete.
pub fn projects_invalidation(action: &ProjectsAction, wid: WorkspaceId) -> (r: Option<String>)
    ensures
        projects_write(*action) ==> (r matches Some(k) && k@ == listing_key_spec(
            Listing::Projects,
            wid,
        )),
        !projects_write(*action) ==> r is None,
{
    match action {
        ProjectsAction::List | ProjectsAction::Get { .. } => None,
        _ => Some(listing_key(Listing::Projects, wid)),
    }
}

/// The cache key that a `tags` command drops once it has succeeded.
pub fn tags_invalidation(action: &TagsAction, wid: WorkspaceId) -> (r: Option<String>)
    ensures
        tags_write(*action) ==> (r matches Some(k) && k@ == listing_key_spec(Listing::Tags, wid)),
        !tags_write(*action) ==> r is None,
{
    match action {
        TagsAction::List => None,
        _ => Some(listing_key(Listing::Tags, wid)),
    }
}

/// The cache key that a `clients` command drops once it has succeeded.
pub fn clients_invalidation(action: &ClientsAction, wid: WorkspaceId) -> (r: Option<String>)
    ensures
        clients_write(*action) ==> (r matches Some(k) && k@ == listing_key_spec(
            Listing::Clients,
            wid,
        )),
        !clients_write(*action) ==> r is None,
{
    match action {
        ClientsAction::List | ClientsAction::Get { .. } => None,
        _ => Some(listing_key(Listing::Clients, wid)),
    }
}

/// The decimal rendering of a non-negative number is made of digits.
proof fn lemma_dec_nat_digits(n: nat)
    ensures
        forall|i: int| 0 <= i < dec_nat(n).len() ==> is_ascii_digit(#[trigger] dec_nat(n)[i]),
    decreases n,
{
    if n >= 10 {
        lemma_dec_nat_digits(n / 10);
        let d = dec_nat(n);
        assert forall|i: int| 0 <= i < d.len() implies is_ascii_digit(#[trigger] d[i]) by {
            if i < dec_nat(n / 10).len() {
                assert(d[i] == dec_nat(n / 10)[i]);
            }
        }
    }
}

/// The key of every listing of a workspace with a non-negative id is one
/// that the cache accepts, so the listing is cached (and a write can drop it).
pub proof fn law_listing_keys_are_valid(kind: Listing, wid: WorkspaceId)
    requires
        wid.0 >= 0,
    ensures
        valid_key(listing_key_spec(kind, wid)),
{
    lemma_dec_nat_digits(wid.0 as nat);
    let k = listing_key_spec(kind, wid);
    let p = listing_prefix(kind);
    reveal_strlit("projects");
    reveal_strlit("tags");
    reveal_strlit("clients");
    assert(dec_int(wid.0 as int) == dec_nat(wid.0 as nat));
    assert forall|i: int| 0 <= i < k.len() implies #[trigger] is_key_char(k[i]) by {
        if i < p.len() {
            assert(k[i] == p[i]);
        } else if i == p.len() {
            assert(k[i] == '_');
        } else {
            assert(k[i] == dec_nat(wid.0 as nat)[i - p.len() - 1]);
            assert(is_ascii_digit(dec_nat(wid.0 as nat)[i - p.len() - 1]));
        }
    }
}

/// `<noun> #<id> deleted`, the message of a successful delete.
pub open spec fn deleted_message_spec(noun: Seq<char>, id: i64) -> Seq<char> {
    noun + " #"@ + dec_int(id as int) + " deleted"@
}

/// The message printed after a delete, e.g. `Entry #42 deleted`.
pub fn deleted_message(noun: &str, id: i64) -> (m: String)
    ensures
        m@ == deleted_message_spec(noun@, id),
{
    let mut m = noun.to_string();
    m.append(" #");
    push_dec_i64(&mut m, id);
    m.append(" deleted");
    m
}

// ---------------------------------------------------------------------------
// The workspace of a command
// ---------------------------------------------------------------------------

/// The workspace a command works in: the one given with `--workspace`, else
/// the user's default one. `None` when there is no override and the user is
/// not known yet: the caller fetches the user and asks again.
pub fn resolve_workspace_id(workspace_override: Option<i64>, user: Option<&User>) -> (r: Option<
    WorkspaceId,
>)
    ensures
        r == (match workspace_override {
            Some(id) => Some(WorkspaceId(id)),
            None => match user {
                Some(u) => Some(u.default_workspace_id),
                None => None,
            },
        }),
{
    match workspace_override {
        Some(id) => Some(WorkspaceId(id)),
        None => match user {
            Some(u) => Some(u.default_workspace_id),
            None => None,
        },
    }
}

/// The workspace of a command on one entry: the one given with
/// `--workspace`, else the entry's own. `None` when there is no override and
/// the entry is not known yet: the caller fetches it and asks again.
pub fn resolve_entry_workspace(workspace_override: Option<i64>, entry: Option<&TimeEntry>) -> (r:
    Option<WorkspaceId>)
    ensures
        r == (match workspace_override {
            Some(id) => Some(WorkspaceId(id)),
            None => match entry {
                Some(e) => Some(e.workspace_id),
                None => None,
            },
        }),
{
    match workspace_override {
        Some(id) => Some(WorkspaceId(id)),
        None => match entry {
            Some(e) => Some(e.workspace_id),
            None => None,
        },
    }
}

} // verus!

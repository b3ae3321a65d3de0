//! Per-user face template store: scopes, username rules, id allocation, removal and
//! scope filtering.
//!
//! Embeddings are `f32` vectors on disk; here each one is carried as the vector of the
//! IEEE-754 bit patterns of its components, which this crate never computes with.
//! Reading and writing `embeddings.json` is done by the binaries, which hand the
//! loaded [`UserTemplates`] to the functions here.
use vstd::prelude::*;

use crate::error::FaceRsError;
use crate::ipc;
use crate::text::{chars_of, owned, push_decimal, string_push, string_push_str, decimal, push_chars};

verus! {

/// Authentication contexts an enrolled template may be used for.
#[derive(Debug, Clone, Copy, PartialEq, Eq, Structural)]
pub enum TemplateScope {
    Sudo,
    Session,
    Both,
}

/// Authentication context a match is requested for.
#[derive(Debug, Clone, Copy, PartialEq, Eq, Structural)]
pub enum AuthScope {
    Sudo,
    Session,
}

/// A template of scope `t` may be used for an authentication of scope `a`.
pub open spec fn spec_allows(t: TemplateScope, a: AuthScope) -> bool {
    match t {
        TemplateScope::Both => true,
        TemplateScope::Sudo => a == AuthScope::Sudo,
        TemplateScope::Session => a == AuthScope::Session,
    }
}

/// The lowercase name of a template scope.
pub open spec fn spec_scope_label(t: TemplateScope) -> Seq<char> {
    match t {
        TemplateScope::Sudo => "sudo"@,
        TemplateScope::Session => "session"@,
        TemplateScope::Both => "both"@,
    }
}

impl TemplateScope {
    /// Whether a template of this scope may be used for an authentication of `auth_scope`.
    pub fn allows(self, auth_scope: AuthScope) -> (r: bool)
        ensures
            r == spec_allows(self, auth_scope),
    {
        match (self, auth_scope) {
            (TemplateScope::Both, _) => true,
            (TemplateScope::Sudo, AuthScope::Sudo) => true,
            (TemplateScope::Session, AuthScope::Session) => true,
            _ => false,
        }
    }

    /// The lowercase name of the scope.
    pub fn label(self) -> (s: &'static str)
        ensures
            s@ == spec_scope_label(self),
    {
        match self {
            TemplateScope::Sudo => "sudo",
            TemplateScope::Session => "session",
            TemplateScope::Both => "both",
        }
    }
}

/// Scope given to templates stored before scopes existed.
pub fn default_template_scope() -> (s: TemplateScope)
    ensures
        s == TemplateScope::Both,
{
    TemplateScope::Both
}

pub open spec fn spec_core_auth_scope(value: ipc::AuthScope) -> AuthScope {
    match value {
        ipc::AuthScope::Sudo => AuthScope::Sudo,
        ipc::AuthScope::Session => AuthScope::Session,
    }
}

pub open spec fn spec_ipc_auth_scope(value: AuthScope) -> ipc::AuthScope {
    match value {
        AuthScope::Sudo => ipc::AuthScope::Sudo,
        AuthScope::Session => ipc::AuthScope::Session,
    }
}

pub open spec fn spec_core_template_scope(value: ipc::TemplateScope) -> TemplateScope {
    match value {
        ipc::TemplateScope::Sudo => TemplateScope::Sudo,
        ipc::TemplateScope::Session => TemplateScope::Session,
        ipc::TemplateScope::Both => TemplateScope::Both,
    }
}

pub open spec fn spec_ipc_template_scope(value: TemplateScope) -> ipc::TemplateScope {
    match value {
        TemplateScope::Sudo => ipc::TemplateScope::Sudo,
        TemplateScope::Session => ipc::TemplateScope::Session,
        TemplateScope::Both => ipc::TemplateScope::Both,
    }
}

/// One enrolled face template. `embedding` holds the bit patterns of the `f32`
/// components of the face embedding.
#[derive(Clone)]
pub struct EnrolledTemplate {
    pub id: u32,
    pub label: String,
    pub created_at: String,
    pub scope: TemplateScope,
    pub embedding: Vec<u32>,
}

/// All templates of one user, and the next id to hand out. Ids are never reused:
/// `next_id` only grows, also across removals.
#[derive(Clone)]
pub struct UserTemplates {
    pub templates: Vec<EnrolledTemplate>,
    pub next_id: u32,
}

impl UserTemplates {
    /// A store with no templates.
    pub fn empty() -> (s: Self)
        ensures
            s.templates@.len() == 0,
            s.next_id == 0,
    {
        UserTemplates { templates: Vec::new(), next_id: 0 }
    }

    /// The ids of the templates, in order.
    pub open spec fn ids(&self) -> Seq<u32> {
        self.templates@.map_values(|t: EnrolledTemplate| t.id)
    }
}

/// Two templates hold the same values.
pub open spec fn same_template(a: EnrolledTemplate, b: EnrolledTemplate) -> bool {
    &&& a.id == b.id
    &&& a.label@ == b.label@
    &&& a.created_at@ == b.created_at@
    &&& a.scope == b.scope
    &&& a.embedding@ == b.embedding@
}

/// Largest id in a sequence of templates, if any.
pub open spec fn max_id(ts: Seq<EnrolledTemplate>) -> Option<u32>
    decreases ts.len(),
{
    if ts.len() == 0 {
        None
    } else {
        match max_id(ts.drop_last()) {
            None => Some(ts.last().id),
            Some(m) => Some(if m >= ts.last().id { m } else { ts.last().id }),
        }
    }
}

/// The id a new template receives: the stored `next_id`, raised past every id already
/// present (which heals stores written before `next_id` was kept).
pub open spec fn spec_allocated_id(s: UserTemplates) -> u32 {
    match max_id(s.templates@) {
        None => s.next_id,
        Some(m) => {
            let healed: u32 = if m == u32::MAX { u32::MAX } else { (m + 1) as u32 };
            if s.next_id >= healed { s.next_id } else { healed }
        },
    }
}

pub proof fn lemma_max_id_bounds(ts: Seq<EnrolledTemplate>)
    ensures
        max_id(ts) is None <==> ts.len() == 0,
        max_id(ts) matches Some(m) ==> (forall|i: int| 0 <= i < ts.len() ==> ts[i].id <= m) && (
        exists|i: int| 0 <= i < ts.len() && ts[i].id == m),
    decreases ts.len(),
{
    if ts.len() > 0 {
        lemma_max_id_bounds(ts.drop_last());
        assert forall|i: int| 0 <= i < ts.len() - 1 implies ts[i] == ts.drop_last()[i] by {}
        if let Some(m) = max_id(ts.drop_last()) {
            let j = choose|i: int| 0 <= i < ts.drop_last().len() && ts.drop_last()[i].id == m;
            assert(ts[j].id == m);
        }
    }
}

fn largest_id(ts: &Vec<EnrolledTemplate>) -> (m: Option<u32>)
    ensures
        m == max_id(ts@),
{
    let mut best: Option<u32> = None;
    let mut i: usize = 0;
    while i < ts.len()
        invariant
            i <= ts@.len(),
            best == max_id(ts@.take(i as int)),
        decreases ts.len() - i,
    {
        assert(ts@.take(i + 1).drop_last() == ts@.take(i as int));
        let id = ts[i].id;
        best = match best {
            None => Some(id),
            Some(b) => Some(if b >= id { b } else { id }),
        };
        i += 1;
    }
    assert(ts@.take(ts@.len() as int) == ts@);
    best
}

impl UserTemplates {
    /// Appends a new template and returns it. Its id is [`spec_allocated_id`]; `next_id`
    /// becomes that id plus one (saturating). The embedding is taken as given.
    pub fn insert_template(
        &mut self,
        label: &str,
        scope: TemplateScope,
        embedding: Vec<u32>,
        created_at: String,
    ) -> (t: EnrolledTemplate)
        ensures
            t.id == spec_allocated_id(*old(self)),
            t.label@ == label@,
            t.scope == scope,
            t.embedding@ == embedding@,
            t.created_at@ == created_at@,
            final(self).templates@.len() == old(self).templates@.len() + 1,
            final(self).templates@.drop_last() == old(self).templates@,
            same_template(final(self).templates@.last(), t),
            final(self).next_id == (if t.id == u32::MAX { u32::MAX } else { (t.id + 1) as u32 }),
    {
        let observed_max = largest_id(&self.templates);
        if let Some(m) = observed_max {
            let healed = if m == u32::MAX {
                u32::MAX
            } else {
                m + 1
            };
            if self.next_id < healed {
                self.next_id = healed;
            }
        }
        let id = self.next_id;
        self.next_id = if id == u32::MAX {
            u32::MAX
        } else {
            id + 1
        };
        let template = EnrolledTemplate {
            id,
            label: owned(label),
            created_at,
            scope,
            embedding,
        };
        let copy = EnrolledTemplate {
            id,
            label: template.label.clone(),
            created_at: template.created_at.clone(),
            scope,
            embedding: template.embedding.clone(),
        };
        self.templates.push(copy);
        template
    }
}

/// A freshly allocated id differs from every id already stored, unless some stored id is
/// `u32::MAX` (where allocation saturates).
pub proof fn law_allocated_id_is_fresh(s: UserTemplates)
    requires
        forall|i: int| 0 <= i < s.templates@.len() ==> s.templates@[i].id < u32::MAX,
    ensures
        forall|i: int| 0 <= i < s.templates@.len() ==> s.templates@[i].id != spec_allocated_id(s),
        forall|i: int| 0 <= i < s.templates@.len() ==> s.templates@[i].id < spec_allocated_id(s),
{
    lemma_max_id_bounds(s.templates@);
}

/// A store is in order when every id in it is below `next_id`; then the next allocation
/// yields exactly `next_id`, and the store stays in order.
pub proof fn law_next_id_is_allocated(s: UserTemplates)
    requires
        forall|i: int| 0 <= i < s.templates@.len() ==> s.templates@[i].id < s.next_id,
    ensures
        spec_allocated_id(s) == s.next_id,
{
    lemma_max_id_bounds(s.templates@);
}

} // verus!

verus! {

// ── Usernames and paths ──────────────────────────────────────────────────────

/// Characters allowed in a stored username.
pub open spec fn username_char_ok(c: char) -> bool {
    ('a' <= c && c <= 'z') || ('A' <= c && c <= 'Z') || ('0' <= c && c <= '9') || c == '_' || c
        == '-' || c == '.'
}

/// Why a username cannot name a template directory, if it cannot.
pub open spec fn spec_username_error(u: Seq<char>) -> Option<Seq<char>> {
    // `str::len`: the UTF-8 byte length.
    let n = vstd::utf8::encode_utf8(u).len() as usize;
    if n == 0 || n > 64 {
        Some("username must be 1-64 characters"@)
    } else if u == "."@ || u == ".."@ {
        Some("invalid username"@)
    } else if !(forall|i: int| 0 <= i < u.len() ==> username_char_ok(#[trigger] u[i])) {
        Some(
            "invalid username '"@ + u
                + "': only ASCII letters, digits, '.', '_' and '-' are allowed"@,
        )
    } else {
        None
    }
}

fn all_username_chars(u: &str) -> (r: bool)
    ensures
        r == (forall|i: int| 0 <= i < u@.len() ==> username_char_ok(#[trigger] u@[i])),
{
    let cs = chars_of(u);
    let mut i: usize = 0;
    while i < cs.len()
        invariant
            cs@ == u@,
            i <= cs@.len(),
            forall|j: int| 0 <= j < i ==> username_char_ok(#[trigger] cs@[j]),
        decreases cs.len() - i,
    {
        let c = cs[i];
        let ok = ('a' <= c && c <= 'z') || ('A' <= c && c <= 'Z') || ('0' <= c && c <= '9') || c
            == '_' || c == '-' || c == '.';
        if !ok {
            return false;
        }
        i += 1;
    }
    true
}

/// A directory on disk that holds one subdirectory per user.
pub struct TemplateStore {
    base_dir: String,
}

/// `Path::join` of a relative component without separators: the component alone after
/// an empty base, appended directly after a trailing `/`, otherwise after a `/`.
pub open spec fn path_join(base: Seq<char>, name: Seq<char>) -> Seq<char> {
    if base.len() == 0 {
        name
    } else if base.last() == '/' {
        base + name
    } else {
        base + seq!['/'] + name
    }
}

pub(crate) fn join_path(base: &str, name: &str) -> (out: String)
    ensures
        out@ == path_join(base@, name@),
{
    let b = chars_of(base);
    let mut out = String::new();
    if b.len() == 0 {
        string_push_str(&mut out, name);
        return out;
    }
    push_chars(&mut out, b.as_slice());
    if b[b.len() - 1] != '/' {
        string_push(&mut out, '/');
    }
    string_push_str(&mut out, name);
    out
}

impl TemplateStore {
    /// The base directory.
    pub closed spec fn spec_base_dir(&self) -> Seq<char> {
        self.base_dir@
    }

    /// A store rooted at `base_dir`.
    pub fn new(base_dir: &str) -> (s: Self)
        ensures
            s.spec_base_dir() == base_dir@,
    {
        TemplateStore { base_dir: owned(base_dir) }
    }

    /// Checks that a username can safely name a directory under the store.
    pub fn validate_username(username: &str) -> (res: Result<(), FaceRsError>)
        ensures
            spec_username_error(username@) matches Some(m) ==> (res matches Err(
                FaceRsError::Storage(e),
            ) && e@ == m),
            spec_username_error(username@) is None ==> res is Ok,
    {
        let n = username.len();
        if n == 0 || n > 64 {
            return Err(FaceRsError::Storage(owned("username must be 1-64 characters")));
        }
        if crate::text::str_eq(username, ".") || crate::text::str_eq(username, "..") {
            return Err(FaceRsError::Storage(owned("invalid username")));
        }
        if !all_username_chars(username) {
            let mut m = owned("invalid username '");
            string_push_str(&mut m, username);
            string_push_str(&mut m, "': only ASCII letters, digits, '.', '_' and '-' are allowed");
            return Err(FaceRsError::Storage(m));
        }
        Ok(())
    }

    /// The directory holding a user's templates.
    pub fn user_dir(&self, username: &str) -> (res: Result<String, FaceRsError>)
        ensures
            spec_username_error(username@) matches Some(m) ==> (res matches Err(
                FaceRsError::Storage(e),
            ) && e@ == m),
            spec_username_error(username@) is None ==> (res matches Ok(p) && p@ == path_join(
                self.spec_base_dir(),
                username@,
            )),
    {
        Self::validate_username(username)?;
        Ok(join_path(self.base_dir.as_str(), username))
    }

    /// The file holding a user's templates.
    pub fn embeddings_path(&self, username: &str) -> (res: Result<String, FaceRsError>)
        ensures
            spec_username_error(username@) matches Some(m) ==> (res matches Err(
                FaceRsError::Storage(e),
            ) && e@ == m),
            spec_username_error(username@) is None ==> (res matches Ok(p) && p@ == path_join(
                path_join(self.spec_base_dir(), username@),
                "embeddings.json"@,
            )),
    {
        let dir = self.user_dir(username)?;
        Ok(join_path(dir.as_str(), "embeddings.json"))
    }
}

} // verus!

verus! {

// ── Removal, filtering and wiping ────────────────────────────────────────────

impl TemplateStore {
    /// Enrolls a template for a user whose templates are loaded in `store`: the username
    /// is checked, then the template is appended with a freshly allocated id (see
    /// [`UserTemplates::insert_template`]) and the current time as its creation stamp.
    /// The caller writes the store back on success. An invalid username leaves the
    /// store as it was.
    pub fn add_template(
        &self,
        username: &str,
        store: &mut UserTemplates,
        label: &str,
        scope: TemplateScope,
        embedding: Vec<u32>,
    ) -> (res: Result<EnrolledTemplate, FaceRsError>)
        ensures
            spec_username_error(username@) matches Some(m) ==> (res matches Err(
                FaceRsError::Storage(e),
            ) && e@ == m && final(store).templates@ == old(store).templates@
                && final(store).next_id == old(store).next_id),
            spec_username_error(username@) is None ==> (res matches Ok(t) && {
                &&& t.id == spec_allocated_id(*old(store))
                &&& t.label@ == label@
                &&& t.scope == scope
                &&& t.embedding@ == embedding@
                &&& exists|secs: int| 0 <= secs && t.created_at@ == crate::calendar::utc_timestamp(secs)
                &&& final(store).templates@.len() == old(store).templates@.len() + 1
                &&& final(store).templates@.drop_last() == old(store).templates@
                &&& same_template(final(store).templates@.last(), t)
                &&& final(store).next_id == (if t.id == u32::MAX {
                    u32::MAX
                } else {
                    (t.id + 1) as u32
                })
            }),
    {
        Self::validate_username(username)?;
        let created_at = chrono_now();
        Ok(store.insert_template(label, scope, embedding, created_at))
    }
}

/// The message of a removal that found no template.
pub open spec fn no_template_message(id: u32, username: Seq<char>) -> Seq<char> {
    "no template with id "@ + decimal(id as nat) + " for user "@ + username
}

/// The templates left after removing every template with id `id`.
pub open spec fn without_id(ts: Seq<EnrolledTemplate>, id: u32) -> Seq<EnrolledTemplate> {
    ts.filter(|t: EnrolledTemplate| t.id != id)
}

impl TemplateStore {
    /// Removes the template `id` from a user's loaded templates. Ids of the remaining
    /// templates are kept, and `next_id` is unchanged, so an id is never handed out
    /// twice. The caller writes the store back on success.
    pub fn remove_template(&self, username: &str, store: &mut UserTemplates, id: u32) -> (res:
        Result<(), FaceRsError>)
        ensures
            final(store).next_id == old(store).next_id,
            spec_username_error(username@) matches Some(m) ==> (res matches Err(
                FaceRsError::Storage(e),
            ) && e@ == m && final(store).templates@ == old(store).templates@),
            spec_username_error(username@) is None && !old(store).ids().contains(id) ==> (
            res matches Err(FaceRsError::Storage(e)) && e@ == no_template_message(id, username@)),
            spec_username_error(username@) is None && old(store).ids().contains(id) ==> res is Ok,
            spec_username_error(username@) is None ==> final(store).templates@ == without_id(
                old(store).templates@,
                id,
            ),
    {
        Self::validate_username(username)?;
        let mut old_ts: Vec<EnrolledTemplate> = Vec::new();
        std::mem::swap(&mut old_ts, &mut store.templates);
        let ghost before = old_ts@;
        let mut kept: Vec<EnrolledTemplate> = Vec::new();
        let mut found = false;
        let ghost mut i: int = 0;
        while old_ts.len() > 0
            invariant
                before == old(store).templates@,
                0 <= i <= before.len(),
                old_ts@ == before.skip(i),
                kept@ == without_id(before.take(i), id),
                found == before.take(i).map_values(|t: EnrolledTemplate| t.id).contains(id),
                store.next_id == old(store).next_id,
            decreases old_ts.len(),
        {
            let t = old_ts.remove(0);
            let tid = t.id;
            proof {
                assert(before.take(i + 1).drop_last() == before.take(i));
                assert(before[i] == t);
                reveal_with_fuel(Seq::filter, 1);
                assert(before.skip(i + 1) == before.skip(i).drop_first());
                let ids_i = before.take(i).map_values(|t: EnrolledTemplate| t.id);
                let ids_n = before.take(i + 1).map_values(|t: EnrolledTemplate| t.id);
                assert(ids_n == ids_i.push(tid));
                if ids_n.contains(id) && tid != id {
                    let j = choose|j: int| 0 <= j < ids_n.len() && ids_n[j] == id;
                    assert(ids_i[j] == id);
                }
                if ids_i.contains(id) {
                    let j = choose|j: int| 0 <= j < ids_i.len() && ids_i[j] == id;
                    assert(ids_n[j] == id);
                }
                if tid == id {
                    assert(ids_n[i] == id);
                }
            }
            if tid == id {
                found = true;
            } else {
                kept.push(t);
            }
            proof {
                i = i + 1;
            }
        }
        proof {
            assert(before.take(i) == before);
            assert(before.map_values(|t: EnrolledTemplate| t.id) == old(store).ids());
        }
        store.templates = kept;
        if !found {
            let mut m = owned("no template with id ");
            push_decimal(&mut m, id as u64);
            string_push_str(&mut m, " for user ");
            string_push_str(&mut m, username);
            return Err(FaceRsError::Storage(m));
        }
        Ok(())
    }
}

} // verus!

verus! {

/// The embeddings of the templates usable for `auth_scope`, in store order.
pub open spec fn scope_embeddings(ts: Seq<EnrolledTemplate>, a: AuthScope) -> Seq<Seq<u32>> {
    ts.filter(usable_for(a)).map_values(|t: EnrolledTemplate| t.embedding@)
}

/// Templates usable for `a`.
pub open spec fn usable_for(a: AuthScope) -> spec_fn(EnrolledTemplate) -> bool {
    |t: EnrolledTemplate| spec_allows(t.scope, a)
}

/// The embeddings of all templates, in store order.
pub open spec fn all_embeddings(ts: Seq<EnrolledTemplate>) -> Seq<Seq<u32>> {
    ts.map_values(|t: EnrolledTemplate| t.embedding@)
}

/// The views of a vector of embeddings.
pub open spec fn embeddings_view(v: Seq<Vec<u32>>) -> Seq<Seq<u32>> {
    v.map_values(|e: Vec<u32>| e@)
}

/// The embeddings of every template of a loaded store; a store with no templates means
/// the user is not enrolled.
pub fn embeddings_for(store: UserTemplates) -> (res: Result<Vec<Vec<u32>>, FaceRsError>)
    ensures
        store.templates@.len() == 0 ==> res matches Err(FaceRsError::NotEnrolled),
        store.templates@.len() > 0 ==> (res matches Ok(v) && embeddings_view(v@) == all_embeddings(
            store.templates@,
        )),
{
    if store.templates.len() == 0 {
        return Err(FaceRsError::NotEnrolled);
    }
    let mut ts = store.templates;
    let ghost before = ts@;
    let mut out: Vec<Vec<u32>> = Vec::new();
    let ghost mut i: int = 0;
    while ts.len() > 0
        invariant
            0 <= i <= before.len(),
            ts@ == before.skip(i),
            embeddings_view(out@) == all_embeddings(before.take(i)),
        decreases ts.len(),
    {
        let t = ts.remove(0);
        proof {
            assert(before[i] == t);
            assert(before.skip(i + 1) == before.skip(i).drop_first());
            assert(all_embeddings(before.take(i + 1)) == all_embeddings(before.take(i)).push(
                t.embedding@,
            ));
        }
        out.push(t.embedding);
        proof {
            assert(embeddings_view(out@) == all_embeddings(before.take(i)).push(t.embedding@));
            i = i + 1;
        }
    }
    assert(before.take(i) == before);
    Ok(out)
}

/// The embeddings of the templates of a loaded store usable for `auth_scope`; none
/// usable means the user is not enrolled for that scope.
pub fn embeddings_for_scope(store: UserTemplates, auth_scope: AuthScope) -> (res: Result<
    Vec<Vec<u32>>,
    FaceRsError,
>)
    ensures
        scope_embeddings(store.templates@, auth_scope).len() == 0 ==> res matches Err(
            FaceRsError::NotEnrolled,
        ),
        scope_embeddings(store.templates@, auth_scope).len() > 0 ==> (res matches Ok(v)
            && embeddings_view(v@) == scope_embeddings(store.templates@, auth_scope)),
{
    let mut ts = store.templates;
    let ghost before = ts@;
    let mut out: Vec<Vec<u32>> = Vec::new();
    let ghost mut i: int = 0;
    while ts.len() > 0
        invariant
            0 <= i <= before.len(),
            ts@ == before.skip(i),
            embeddings_view(out@) == scope_embeddings(before.take(i), auth_scope),
        decreases ts.len(),
    {
        let t = ts.remove(0);
        proof {
            assert(before[i] == t);
            assert(before.skip(i + 1) == before.skip(i).drop_first());
            assert(before.take(i + 1).drop_last() == before.take(i));
            reveal_with_fuel(Seq::filter, 1);
            let f_i = before.take(i).filter(usable_for(auth_scope));
            let f_n = before.take(i + 1).filter(usable_for(auth_scope));
            assert(f_n == if spec_allows(t.scope, auth_scope) {
                f_i.push(t)
            } else {
                f_i
            });
            assert(f_i.push(t).map_values(|t: EnrolledTemplate| t.embedding@) == f_i.map_values(
                |t: EnrolledTemplate| t.embedding@,
            ).push(t.embedding@));
        }
        if t.scope.allows(auth_scope) {
            out.push(t.embedding);
        }
        proof {
            i = i + 1;
        }
    }
    assert(before.take(i) == before);
    if out.len() == 0 {
        return Err(FaceRsError::NotEnrolled);
    }
    Ok(out)
}

/// Wipes an embedding (`zeroize::Zeroize::zeroize` on a `Vec`): every element is
/// overwritten with zero, the spare capacity too, and the vector is left empty.
#[verifier::external_body]
pub(crate) fn zeroize_embedding(v: &mut Vec<u32>)
    ensures
        final(v)@.len() == 0,
{
    zeroize::Zeroize::zeroize(v);
}

/// Wipes the embeddings of every template, leaving their metadata in place.
pub fn zeroize_templates(templates: &mut Vec<EnrolledTemplate>)
    ensures
        final(templates)@.len() == old(templates)@.len(),
        forall|i: int|
            0 <= i < final(templates)@.len() ==> {
                let t = #[trigger] final(templates)@[i];
                let o = old(templates)@[i];
                &&& t.embedding@.len() == 0
                &&& t.id == o.id
                &&& t.label == o.label
                &&& t.created_at == o.created_at
                &&& t.scope == o.scope
            },
{
    let mut i: usize = 0;
    while i < templates.len()
        invariant
            i <= templates@.len(),
            templates@.len() == old(templates)@.len(),
            forall|j: int|
                0 <= j < templates@.len() ==> {
                    let t = #[trigger] templates@[j];
                    let o = old(templates)@[j];
                    &&& j < i ==> t.embedding@.len() == 0
                    &&& j >= i ==> t.embedding == o.embedding
                    &&& t.id == o.id
                    &&& t.label == o.label
                    &&& t.created_at == o.created_at
                    &&& t.scope == o.scope
                },
        decreases templates@.len() - i,
    {
        zeroize_embedding(&mut templates[i].embedding);
        i += 1;
    }
}

} // verus!

verus! {

// ── Timestamps ───────────────────────────────────────────────────────────────

/// Gregorian leap-year rule.
pub fn is_leap(y: i32) -> (r: bool)
    ensures
        r == crate::calendar::is_leap_year(y as int),
{
    (y % 4 == 0 && y % 100 != 0) || y % 400 == 0
}

pub(crate) fn month_days(month: usize) -> (d: i64)
    requires
        month < 12,
    ensures
        d == crate::calendar::month_len(month as int, false),
{
    if month == 1 {
        28
    } else if month == 3 || month == 5 || month == 8 || month == 10 {
        30
    } else {
        31
    }
}

/// Latest day count (after 1970-01-01) whose year still fits an `i32`.
pub open spec fn max_format_days() -> int {
    730000000000
}

proof fn lemma_walk_years_pos(year: int, days: int)
    requires
        days >= 0,
    ensures
        crate::calendar::walk_years(year, days).0 >= year,
        0 <= crate::calendar::walk_years(year, days).1 < crate::calendar::year_len(
            crate::calendar::walk_years(year, days).0,
        ),
    decreases days,
{
    if days >= crate::calendar::year_len(year) {
        lemma_walk_years_pos(year + 1, days - crate::calendar::year_len(year));
    }
}

proof fn lemma_walk_months_within(month: int, days: int, leap: bool)
    requires
        0 <= month <= 11,
        0 <= days,
    ensures
        0 <= crate::calendar::walk_months(month, days, leap).0 <= 11,
        0 <= crate::calendar::walk_months(month, days, leap).1,
    decreases 12 - month,
{
    if !(month >= 11 || days < crate::calendar::month_len(month, leap)) {
        lemma_walk_months_within(month + 1, days - crate::calendar::month_len(month, leap), leap);
    }
}

/// What the formatter writes for a time before the epoch: the days are not walked
/// back, so the date reads as January 1970 with day number `days + 1`, `days` taken
/// modulo 2^32; the time of day is that of the Euclidean remainder.
pub open spec fn pre_epoch_timestamp(secs: int) -> Seq<char> {
    let days = secs / 86400;
    let sod = secs % 86400;
    "1970-01-"@ + crate::text::zero_padded((days % 0x1_0000_0000 + 1) as nat, 2) + "T"@
        + crate::text::zero_padded((sod / 3600) as nat, 2) + ":"@ + crate::text::zero_padded(
        ((sod % 3600) / 60) as nat,
        2,
    ) + ":"@ + crate::text::zero_padded((sod % 60) as nat, 2) + "Z"@
}

/// The text [`format_unix_utc`] writes for a Unix time.
pub open spec fn spec_format_unix_utc(secs: int) -> Seq<char> {
    if secs >= 0 {
        crate::calendar::utc_timestamp(secs)
    } else {
        pre_epoch_timestamp(secs)
    }
}

/// The timestamp text of a Unix time: for a time since the epoch its RFC 3339 UTC
/// timestamp, found by walking forward from 1970 year by year and then month by month;
/// for an earlier time see [`pre_epoch_timestamp`]. Left out are a year past `i32` and
/// an earlier day whose day number overflows a `u32`, where the formatter panics.
pub fn format_unix_utc(secs: i64) -> (s: String)
    requires
        secs / 86400 <= max_format_days(),
        secs >= 0 || (secs / 86400) % 0x1_0000_0000 != 0xFFFF_FFFF,
    ensures
        s@ == spec_format_unix_utc(secs as int),
{
    if secs >= 0 {
        format_after_epoch(secs)
    } else {
        format_before_epoch(secs)
    }
}

fn format_before_epoch(secs: i64) -> (s: String)
    requires
        secs < 0,
        (secs / 86400) % 0x1_0000_0000 != 0xFFFF_FFFF,
    ensures
        s@ == pre_epoch_timestamp(secs as int),
{
    // secs == -(a + 1), a == 86400 k + r
    let a: u64 = (-(secs + 1)) as u64;
    let k: u64 = a / 86400;
    let r: u64 = a % 86400;
    let sod: u64 = 86399 - r;
    let km: u64 = k % 0x1_0000_0000;
    let dm: u64 = 0xFFFF_FFFF - km;
    proof {
        let x = secs as int;
        assert(a as int == 86400 * (k as int) + r as int);
        assert(x == (-(k as int) - 1) * 86400 + sod as int) by (nonlinear_arith)
            requires
                x == -(a as int) - 1,
                a as int == 86400 * (k as int) + r as int,
                sod as int == 86399 - r as int,
        ;
        vstd::arithmetic::div_mod::lemma_fundamental_div_mod_converse(x, 86400, -(k as int) - 1, sod as int);
        assert(k as int == 0x1_0000_0000 * (k as int / 0x1_0000_0000) + km as int);
        let days = -(k as int) - 1;
        assert(days == (-(k as int / 0x1_0000_0000) - 1) * 0x1_0000_0000 + dm as int) by (nonlinear_arith)
            requires
                days == -(k as int) - 1,
                k as int == 0x1_0000_0000 * (k as int / 0x1_0000_0000) + km as int,
                dm as int == 0xFFFF_FFFF - km as int,
        ;
        vstd::arithmetic::div_mod::lemma_fundamental_div_mod_converse(
            days,
            0x1_0000_0000,
            -(k as int / 0x1_0000_0000) - 1,
            dm as int,
        );
    }
    let day: u64 = dm + 1;
    let mut out = owned("1970-01-");
    crate::text::push_zero_padded(&mut out, day, 2);
    string_push(&mut out, 'T');
    crate::text::push_zero_padded(&mut out, sod / 3600, 2);
    string_push(&mut out, ':');
    crate::text::push_zero_padded(&mut out, (sod % 3600) / 60, 2);
    string_push(&mut out, ':');
    crate::text::push_zero_padded(&mut out, sod % 60, 2);
    string_push(&mut out, 'Z');
    proof {
        reveal_strlit("T");
        reveal_strlit(":");
        reveal_strlit("Z");
    }
    out
}

/// The RFC 3339 UTC timestamp of a non-negative Unix time.
fn format_after_epoch(secs: i64) -> (s: String)
    requires
        0 <= secs,
        secs / 86400 <= max_format_days(),
    ensures
        s@ == crate::calendar::utc_timestamp(secs as int),
{
    let mut days: i64 = secs / 86400;
    let secs_of_day: i64 = secs % 86400;
    let h = (secs_of_day / 3600) as u64;
    let m = ((secs_of_day % 3600) / 60) as u64;
    let sec = (secs_of_day % 60) as u64;
    let ghost days0 = days as int;
    let mut year: i32 = 1970;
    loop
        invariant
            0 <= days <= days0,
            days0 <= max_format_days(),
            1970 <= year,
            (year - 1970) * 365 <= days0 - days,
            crate::calendar::walk_years(1970, days0) == crate::calendar::walk_years(
                year as int,
                days as int,
            ),
        ensures
            0 <= days < crate::calendar::year_len(year as int),
            crate::calendar::walk_years(1970, days0) == crate::calendar::walk_years(
                year as int,
                days as int,
            ),
        decreases days,
    {
        let dy: i64 = if is_leap(year) {
            366
        } else {
            365
        };
        if days < dy {
            break;
        }
        days = days - dy;
        assert(year < 2147483647) by (nonlinear_arith)
            requires
                (year - 1970) * 365 <= days0 - days - dy,
                days0 <= 730000000000,
                dy >= 365,
                days >= 0,
        ;
        year = year + 1;
    }
    let leap = is_leap(year);
    assert(crate::calendar::walk_years(year as int, days as int) == (year as int, days as int));
    proof {
        lemma_walk_years_pos(1970, days0);
    }
    let ghost r = days as int;
    let mut month: usize = 0;
    while month < 12
        invariant
            0 <= days <= r,
            r < 366,
            month <= 11,
            crate::calendar::walk_months(0, r, leap) == crate::calendar::walk_months(
                month as int,
                days as int,
                leap,
            ),
            crate::calendar::walk_years(1970, days0) == (year as int, r),
        ensures
            0 <= days <= r,
            month <= 11,
            crate::calendar::walk_months(0, r, leap) == (month as int, days as int),
        decreases 12 - month,
    {
        let mut dm = month_days(month);
        if month == 1 && leap {
            dm = dm + 1;
        }
        if days < dm || month == 11 {
            break;
        }
        days = days - dm;
        month += 1;
    }
    proof {
        lemma_walk_months_within(0, r, leap);
    }
    let day = (days + 1) as u64;
    let month_num = (month + 1) as u64;
    let mut out = String::new();
    crate::text::push_signed_zero_padded(&mut out, year as i64, 4);
    string_push(&mut out, '-');
    crate::text::push_zero_padded(&mut out, month_num, 2);
    string_push(&mut out, '-');
    crate::text::push_zero_padded(&mut out, day, 2);
    string_push(&mut out, 'T');
    crate::text::push_zero_padded(&mut out, h, 2);
    string_push(&mut out, ':');
    crate::text::push_zero_padded(&mut out, m, 2);
    string_push(&mut out, ':');
    crate::text::push_zero_padded(&mut out, sec, 2);
    string_push(&mut out, 'Z');
    proof {
        reveal_strlit("-");
        reveal_strlit("T");
        reveal_strlit(":");
        reveal_strlit("Z");
    }
    out
}

} // verus!

verus! {

/// The creation timestamp of a template enrolled now: the RFC 3339 UTC timestamp of the
/// system clock (a clock reading beyond year 2 billion is held at that limit).
pub fn chrono_now() -> (s: String)
    ensures
        exists|secs: int| 0 <= secs && s@ == crate::calendar::utc_timestamp(secs),
{
    let now = crate::calendar::unix_now();
    let limit: u64 = 63072000000000000;
    let secs: i64 = if now > limit {
        limit as i64
    } else {
        now as i64
    };
    let s = format_unix_utc(secs);
    assert(0 <= secs as int && s@ == crate::calendar::utc_timestamp(secs as int));
    s
}

} // verus!

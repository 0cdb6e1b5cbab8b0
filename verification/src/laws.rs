//! Properties of the library as a whole: what the authentication flows
//! do to one another and to the token tables, and how the magic link e-mail
//! is made.
use vstd::prelude::*;
use crate::auth::{authorize_trace, login_trace, logout_trace, refresh_trace, AuthCommandView};
use crate::crypto::token_hash;
use crate::mail::{lemma_frame_unmarked, mail_frame, spec_magic_link, spec_magic_link_html, AUTHORIZE_PATH};
use crate::text::{lemma_replace_after_unmarked, lemma_replace_unmarked, replace_all};
use crate::models::ResponseType;
use crate::tables::{apply_command, apply_trace, lemma_apply_step, lemma_apply_whole, TokenTables};

verus! {

/// A magic link works: the hash that a login stores for the token it mails
/// is the hash that an authorization with that token looks up.
pub proof fn law_magic_link_found_by_its_token(
    email: Seq<char>,
    existed: bool,
    raw: Seq<char>,
    kind: ResponseType,
    me: Seq<char>,
    te: Seq<char>,
    uid: u128,
    r: Seq<char>,
)
    ensures
        ({
            let k = if existed { ResponseType::LogIn } else { ResponseType::SignIn };
            &&& login_trace(email, existed, raw).contains(
                AuthCommandView::InsertMagicToken { token_hash: token_hash(raw), email, kind: k },
            )
            &&& login_trace(email, existed, raw).contains(
                AuthCommandView::SendMagicLink { kind: k, email, raw_token: raw },
            )
            &&& authorize_trace(raw, kind, me, te, uid, r)[0] == AuthCommandView::FindMagicToken(token_hash(raw))
        }),
{
    let t = login_trace(email, existed, raw);
    if existed {
        assert(t[2] == AuthCommandView::InsertMagicToken { token_hash: token_hash(raw), email, kind: ResponseType::LogIn });
        assert(t[3] == AuthCommandView::SendMagicLink { kind: ResponseType::LogIn, email, raw_token: raw });
    } else {
        assert(t[3] == AuthCommandView::InsertMagicToken { token_hash: token_hash(raw), email, kind: ResponseType::SignIn });
        assert(t[4] == AuthCommandView::SendMagicLink { kind: ResponseType::SignIn, email, raw_token: raw });
    }
}

/// A login mails a log-in link when a user has the address, and otherwise
/// records a pending sign-up and mails a sign-up link; old links of the
/// address are deleted first, and the login ends with a commit.
pub proof fn law_login_kind(email: Seq<char>, existed: bool, raw: Seq<char>)
    ensures
        login_trace(email, existed, raw)[1] == AuthCommandView::DeleteMagicTokens(email),
        login_trace(email, existed, raw).contains(AuthCommandView::UpsertTempUser(email)) <==> !existed,
        login_trace(email, existed, raw).last() == AuthCommandView::Commit,
{
    let t = login_trace(email, existed, raw);
    if !existed {
        assert(t[2] == AuthCommandView::UpsertTempUser(email));
    } else {
        assert forall|i: int| 0 <= i < t.len() implies t[i] != AuthCommandView::UpsertTempUser(email) by {}
    }
}

/// A magic link is good once: an authorization that succeeds deletes the
/// magic tokens of the link's address (and, for a sign-up, the pending
/// user) before it commits.
pub proof fn law_magic_link_single_use(
    raw: Seq<char>,
    kind: ResponseType,
    me: Seq<char>,
    te: Seq<char>,
    uid: u128,
    r: Seq<char>,
)
    ensures
        ({
            let t = authorize_trace(raw, kind, me, te, uid, r);
            &&& t.last() == AuthCommandView::Commit
            &&& exists|i: int| 0 <= i < t.len() - 1 && t[i] == AuthCommandView::DeleteMagicTokens(me)
            &&& kind is SignIn ==> exists|i: int| 0 <= i < t.len() - 1 && t[i] == AuthCommandView::DeleteTempUser(te)
        }),
{
    let t = authorize_trace(raw, kind, me, te, uid, r);
    match kind {
        ResponseType::SignIn => {
            assert(t[4] == AuthCommandView::DeleteMagicTokens(me));
            assert(t[3] == AuthCommandView::DeleteTempUser(te));
        },
        ResponseType::LogIn => {
            assert(t[2] == AuthCommandView::DeleteMagicTokens(me));
        },
    }
}

/// A session's refresh token works: the hash that an authorization or a
/// refresh stores for the refresh token `r` it hands out is the hash that a
/// refresh with `r` looks up and that a logout with `r` deletes.
pub proof fn law_refresh_token_found_by_its_token(
    raw: Seq<char>,
    kind: ResponseType,
    me: Seq<char>,
    te: Seq<char>,
    uid: u128,
    token_user: u128,
    stored: Seq<char>,
    r: Seq<char>,
    r2: Seq<char>,
)
    ensures
        authorize_trace(raw, kind, me, te, uid, r).contains(
            AuthCommandView::InsertRefreshToken { token_hash: token_hash(r), user_id: uid },
        ),
        refresh_trace(raw, token_user, stored, uid, r).contains(
            AuthCommandView::InsertRefreshToken { token_hash: token_hash(r), user_id: uid },
        ),
        refresh_trace(r, token_user, stored, uid, r2)[0] == AuthCommandView::FindRefreshToken(token_hash(r)),
        logout_trace(r)[0] == AuthCommandView::DeleteRefreshToken(token_hash(r)),
{
    let a = authorize_trace(raw, kind, me, te, uid, r);
    match kind {
        ResponseType::SignIn => assert(a[6] == AuthCommandView::InsertRefreshToken { token_hash: token_hash(r), user_id: uid }),
        ResponseType::LogIn => assert(a[4] == AuthCommandView::InsertRefreshToken { token_hash: token_hash(r), user_id: uid }),
    }
    assert(refresh_trace(raw, token_user, stored, uid, r)[3] == AuthCommandView::InsertRefreshToken {
        token_hash: token_hash(r),
        user_id: uid,
    });
}

/// A refresh rotates the token: the stored token that was presented is
/// deleted before the new one is stored, and the refresh ends with a commit.
pub proof fn law_refresh_rotates(raw: Seq<char>, token_user: u128, stored: Seq<char>, uid: u128, r: Seq<char>)
    ensures
        ({
            let t = refresh_trace(raw, token_user, stored, uid, r);
            &&& t[2] == AuthCommandView::DeleteRefreshToken(stored)
            &&& t[3] == AuthCommandView::InsertRefreshToken { token_hash: token_hash(r), user_id: uid }
            &&& t.last() == AuthCommandView::Commit
        }),
{
}

/// A committed login leaves exactly one magic token for the address: the
/// hash of the token it mailed. Every older link of the address is gone,
/// and the refresh tokens are untouched.
pub proof fn law_login_leaves_one_link(t: TokenTables, email: Seq<char>, existed: bool, raw: Seq<char>)
    ensures
        ({
            let t2 = apply_trace(t, login_trace(email, existed, raw));
            &&& t2.magic.contains_key(token_hash(raw))
            &&& t2.magic[token_hash(raw)] == email
            &&& forall|h: Seq<char>| #[trigger] t2.magic.contains_key(h) && t2.magic[h] == email ==> h == token_hash(raw)
            &&& t2.refresh == t.refresh
        }),
{
    let s = login_trace(email, existed, raw);
    lemma_apply_whole(t, s);
    lemma_apply_step(t, s, 0);
    lemma_apply_step(t, s, 1);
    lemma_apply_step(t, s, 2);
    lemma_apply_step(t, s, 3);
    lemma_apply_step(t, s, 4);
    if !existed {
        lemma_apply_step(t, s, 5);
    }
}

/// A magic link works once: after a committed authorization with it, no
/// magic token with its hash is left, so the lookup that a second
/// authorization with the same link starts with finds nothing, and that
/// authorization is answered `InvalidToken`. The session's refresh token is
/// stored for the user. `me` is the address of the token found by the
/// link's hash.
pub proof fn law_magic_link_works_once(
    t: TokenTables,
    raw: Seq<char>,
    kind: ResponseType,
    me: Seq<char>,
    te: Seq<char>,
    uid: u128,
    r: Seq<char>,
)
    requires
        t.magic.contains_key(token_hash(raw)),
        t.magic[token_hash(raw)] == me,
    ensures
        ({
            let t2 = apply_trace(t, authorize_trace(raw, kind, me, te, uid, r));
            &&& !t2.magic.contains_key(token_hash(raw))
            &&& t2.refresh.contains_key(token_hash(r))
            &&& t2.refresh[token_hash(r)] == uid
        }),
{
    let s = authorize_trace(raw, kind, me, te, uid, r);
    lemma_apply_whole(t, s);
    lemma_apply_step(t, s, 0);
    lemma_apply_step(t, s, 1);
    lemma_apply_step(t, s, 2);
    lemma_apply_step(t, s, 3);
    lemma_apply_step(t, s, 4);
    lemma_apply_step(t, s, 5);
    if kind is SignIn {
        lemma_apply_step(t, s, 6);
        lemma_apply_step(t, s, 7);
    }
}

/// A refresh token serves one rotation: after a committed refresh with it,
/// no refresh token with its hash is left, so a second refresh with the
/// same token finds nothing and is answered `InvalidToken`; the new token
/// is stored for the user. `stored` is the token found by the presented
/// token's hash. This needs the new token's hash to differ from the
/// presented one's: were they equal, the new row would be the old one.
pub proof fn law_refresh_token_works_once(
    t: TokenTables,
    raw: Seq<char>,
    token_user: u128,
    stored: Seq<char>,
    uid: u128,
    r: Seq<char>,
)
    requires
        stored == token_hash(raw),
        token_hash(r) != token_hash(raw),
    ensures
        ({
            let t2 = apply_trace(t, refresh_trace(raw, token_user, stored, uid, r));
            &&& !t2.refresh.contains_key(token_hash(raw))
            &&& t2.refresh.contains_key(token_hash(r))
            &&& t2.refresh[token_hash(r)] == uid
            &&& t2.magic == t.magic
        }),
{
    let s = refresh_trace(raw, token_user, stored, uid, r);
    lemma_apply_whole(t, s);
    lemma_apply_step(t, s, 0);
    lemma_apply_step(t, s, 1);
    lemma_apply_step(t, s, 2);
    lemma_apply_step(t, s, 3);
    lemma_apply_step(t, s, 4);
    lemma_apply_step(t, s, 5);
}

/// A logout revokes its refresh token: after it commits, a refresh with the
/// token finds nothing and is answered `InvalidToken`. Nothing else changes.
pub proof fn law_logout_revokes(t: TokenTables, raw: Seq<char>)
    ensures
        ({
            let t2 = apply_trace(t, logout_trace(raw));
            &&& !t2.refresh.contains_key(token_hash(raw))
            &&& t2.refresh == t.refresh.remove(token_hash(raw))
            &&& t2.magic == t.magic
        }),
{
    let s = logout_trace(raw);
    lemma_apply_whole(t, s);
    lemma_apply_step(t, s, 0);
    lemma_apply_step(t, s, 1);
}

/// The front end's address and the raw token enter the magic link e-mail
/// only through the link, which stands in it twice (behind the button and
/// spelled out) in a frame fixed by the kind: the e-mail is the one made
/// for an empty address and token with the link's path replaced, wherever
/// it stands, by the link. So two e-mails of a kind with the same link are
/// the same.
pub proof fn law_mail_depends_on_link_only(
    frontend_url: Seq<char>,
    raw_token: Seq<char>,
    other_url: Seq<char>,
    other_token: Seq<char>,
    kind: ResponseType,
)
    ensures
        ({
            let (before, between, after) = mail_frame(kind);
            let link = spec_magic_link(frontend_url, raw_token);
            spec_magic_link_html(frontend_url, raw_token, kind) == before + link + between + link + after
        }),
        spec_magic_link_html(frontend_url, raw_token, kind) == replace_all(
            spec_magic_link_html(Seq::empty(), Seq::empty(), kind),
            AUTHORIZE_PATH@,
            spec_magic_link(frontend_url, raw_token),
        ),
        spec_magic_link(frontend_url, raw_token) == spec_magic_link(other_url, other_token)
            ==> spec_magic_link_html(frontend_url, raw_token, kind) == spec_magic_link_html(other_url, other_token, kind),
{
    let link = spec_magic_link(frontend_url, raw_token);
    let (before, between, after) = mail_frame(kind);
    assert(spec_magic_link_html(frontend_url, raw_token, kind) =~= before + link + between + link + after);
    let path = AUTHORIZE_PATH@;
    lemma_frame_unmarked(kind);
    assert(spec_magic_link(Seq::empty(), Seq::empty()) =~= path);
    assert(spec_magic_link_html(Seq::empty(), Seq::empty(), kind) =~= before + (path + (between + (path + after))));
    lemma_replace_after_unmarked(before, between + (path + after), path, link, 15);
    lemma_replace_after_unmarked(between, after, path, link, 15);
    lemma_replace_unmarked(after, path, link, 15);
    assert(before + (link + (between + (link + after))) =~= before + link + between + link + after);
}

} // verus!

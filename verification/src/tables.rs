//! A model of the token tables that the authentication flows change: what
//! the database holds of magic tokens and refresh tokens once the commands
//! of a committed flow have run.
use vstd::prelude::*;
use crate::auth::AuthCommandView;

verus! {

/// The token tables, keyed by the stored (hashed) form of each token.
pub ghost struct TokenTables {
    /// Each magic token's hash, with the address it was made for.
    pub magic: Map<Seq<char>, Seq<char>>,
    /// Each refresh token's hash, with the user it belongs to.
    pub refresh: Map<Seq<char>, u128>,
}

/// The tables after one command; commands on other tables leave them be.
pub open spec fn apply_command(t: TokenTables, c: AuthCommandView) -> TokenTables {
    match c {
        AuthCommandView::DeleteMagicTokens(email) => TokenTables {
            magic: t.magic.restrict(t.magic.dom().filter(|h: Seq<char>| t.magic[h] != email)),
            ..t
        },
        AuthCommandView::InsertMagicToken { token_hash, email, .. } => TokenTables {
            magic: t.magic.insert(token_hash, email),
            ..t
        },
        AuthCommandView::DeleteRefreshToken(h) => TokenTables { refresh: t.refresh.remove(h), ..t },
        AuthCommandView::InsertRefreshToken { token_hash, user_id } => TokenTables {
            refresh: t.refresh.insert(token_hash, user_id),
            ..t
        },
        _ => t,
    }
}

/// The tables after the commands of `s`, in order.
pub open spec fn apply_trace(t: TokenTables, s: Seq<AuthCommandView>) -> TokenTables
    decreases s.len(),
{
    if s.len() == 0 {
        t
    } else {
        apply_command(apply_trace(t, s.drop_last()), s.last())
    }
}

/// Running the first `k + 1` commands is running the first `k`, then the
/// next one.
pub proof fn lemma_apply_step(t: TokenTables, s: Seq<AuthCommandView>, k: int)
    requires
        0 <= k < s.len(),
    ensures
        apply_trace(t, s.take(k + 1)) == apply_command(apply_trace(t, s.take(k)), s[k]),
{
    assert(s.take(k + 1).drop_last() =~= s.take(k));
}

/// Running every command of `s` is running its first `s.len()` commands.
pub proof fn lemma_apply_whole(t: TokenTables, s: Seq<AuthCommandView>)
    ensures
        apply_trace(t, s) == apply_trace(t, s.take(s.len() as int)),
        apply_trace(t, s.take(0)) == t,
{
    assert(s.take(s.len() as int) =~= s);
    assert(s.take(0).len() == 0);
}

} // verus!

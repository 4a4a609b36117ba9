use vstd::prelude::*;

verus! {

/// Relies on shellexpand::tilde.  Its source takes exactly three paths: a
/// path that does not begin with `~` comes back unchanged; one whose `~`
/// is not followed by a path separator (a `~user/...` form) comes back
/// unchanged; and for `~` alone or `~/...` the result is either the input
/// unchanged (no home directory available) or the home directory followed
/// by everything after the tilde — so every outcome keeps the tail after
/// the tilde.
#[verifier::external_body]
fn tilde_expand(path: &str) -> (r: String)
    ensures
        path@.len() == 0 ==> r@ == path@,
        path@.len() > 0 && path@[0] != '~' ==> r@ == path@,
        path@.len() > 1 && path@[0] == '~' && path@[1] != '/' && path@[1] != '\\' ==> r@ == path@,
        path@.len() > 0 && path@[0] == '~' ==> (r@ == path@ || (r@.len() >= path@.len() - 1
            && r@.skip(r@.len() - (path@.len() - 1)) == path@.skip(1))),
{
    shellexpand::tilde(path).into_owned()
}

/// The filesystem path a wallet is read from, with a leading `~` expanded
/// to the user's home directory when one is available; any other path
/// comes back unchanged, and the tail after a tilde is always kept.
/// Reading the key file itself is left to the unverified caller.
pub fn expand_wallet_path(path: &str) -> (r: String)
    ensures
        path@.len() == 0 ==> r@ == path@,
        path@.len() > 0 && path@[0] != '~' ==> r@ == path@,
        path@.len() > 1 && path@[0] == '~' && path@[1] != '/' && path@[1] != '\\' ==> r@ == path@,
        path@.len() > 0 && path@[0] == '~' ==> (r@ == path@ || (r@.len() >= path@.len() - 1
            && r@.skip(r@.len() - (path@.len() - 1)) == path@.skip(1))),
{
    tilde_expand(path)
}

} // verus!

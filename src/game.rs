use vstd::prelude::*;

verus! {

/// The first argument handed to the game: the provider of the tokens that
/// follow it.
pub const TOKEN_PROVIDER: &'static str = "Firebase";

/// The arguments the game executable is started with: the token provider,
/// then the access token, then the refresh token.
pub fn game_arguments(access_token: String, refresh_token: String) -> (r: Vec<String>)
    ensures
        r@.len() == 3,
        r@[0]@ == TOKEN_PROVIDER@,
        r@[1] == access_token,
        r@[2] == refresh_token,
{
    vec![TOKEN_PROVIDER.to_owned(), access_token, refresh_token]
}

} // verus!

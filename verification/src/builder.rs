//! Construction of the provider's authorization URL.
use vstd::prelude::*;
use crate::constants::{auth_url, spec_auth_url};
use crate::errors::AuthError;
use crate::urlenc::{form_urlencoded_of, pairs_view, urlencode_pairs};

verus! {

/// Scope names joined by single spaces.
pub open spec fn join_spaces(parts: Seq<Seq<char>>) -> Seq<char>
    decreases parts.len(),
{
    if parts.len() == 0 {
        Seq::<char>::empty()
    } else if parts.len() == 1 {
        parts[0]
    } else {
        parts[0] + seq![' '] + join_spaces(parts.skip(1))
    }
}

/// The views of a vector of scope names.
pub open spec fn scopes_view(scopes: Seq<String>) -> Seq<Seq<char>> {
    scopes.map_values(|s: String| s@)
}

/// The query pairs of an authorization request, in order.
pub open spec fn authorization_pairs(
    client_id: Seq<char>,
    redirect_uri: Seq<char>,
    scopes: Seq<Seq<char>>,
    challenge: Seq<char>,
    state: Seq<char>,
) -> Seq<(Seq<char>, Seq<char>)> {
    seq![
        ("client_id"@, client_id),
        ("response_type"@, "code"@),
        ("redirect_uri"@, redirect_uri),
        ("code_challenge_method"@, "S256"@),
        ("code_challenge"@, challenge),
        ("scope"@, join_spaces(scopes)),
        ("state"@, state),
    ]
}

/// The full authorization URL: the fixed endpoint, '?', and the
/// form-urlencoded query pairs.
pub open spec fn authorization_url_of(
    client_id: Seq<char>,
    redirect_uri: Seq<char>,
    scopes: Seq<Seq<char>>,
    challenge: Seq<char>,
    state: Seq<char>,
) -> Seq<char> {
    spec_auth_url() + "?"@ + form_urlencoded_of(
        authorization_pairs(client_id, redirect_uri, scopes, challenge, state),
    )
}

fn join_from(scopes: &Vec<String>, i: usize) -> (r: String)
    requires
        i <= scopes.len(),
    ensures
        r@ == join_spaces(scopes_view(scopes@).skip(i as int)),
    decreases scopes.len() - i,
{
    if i >= scopes.len() {
        proof {
            assert(scopes_view(scopes@).skip(i as int) =~= Seq::<Seq<char>>::empty());
        }
        String::new()
    } else if i + 1 == scopes.len() {
        proof {
            assert(scopes_view(scopes@).skip(i as int)[0] == scopes@[i as int]@);
        }
        scopes[i].clone()
    } else {
        let rest = join_from(scopes, i + 1);
        let mut s = scopes[i].clone();
        s.append(" ");
        let out = s.concat(rest.as_str());
        proof {
            reveal_strlit(" ");
            assert(" "@ =~= seq![' ']);
            let parts = scopes_view(scopes@).skip(i as int);
            assert(parts.skip(1) =~= scopes_view(scopes@).skip(i as int + 1));
            assert(parts[0] == scopes@[i as int]@);
            assert(out@ =~= parts[0] + seq![' '] + join_spaces(parts.skip(1)));
        }
        out
    }
}

/// Joins scope names with single spaces.
pub fn join_scopes(scopes: &Vec<String>) -> (r: String)
    ensures
        r@ == join_spaces(scopes_view(scopes@)),
{
    let r = join_from(scopes, 0);
    proof {
        assert(scopes_view(scopes@).skip(0) =~= scopes_view(scopes@));
    }
    r
}

/// Builds the authorization URL for a flow: endpoint plus the
/// percent-encoded query holding client id, response type, redirect
/// URI, challenge method and challenge, scopes, and the state token.
/// An empty client id or redirect URI is rejected as `ConfigError`.
pub fn build_authorization_url(
    client_id: &str,
    redirect_uri: &str,
    scopes: &Vec<String>,
    challenge: &str,
    state: &str,
) -> (r: Result<String, AuthError>)
    ensures
        r is Ok <==> client_id@.len() > 0 && redirect_uri@.len() > 0,
        r matches Ok(u) ==> u@ == authorization_url_of(
            client_id@,
            redirect_uri@,
            scopes_view(scopes@),
            challenge@,
            state@,
        ),
        r matches Err(e) ==> e == AuthError::ConfigError,
{
    if client_id.unicode_len() == 0 || redirect_uri.unicode_len() == 0 {
        return Err(AuthError::ConfigError);
    }
    let joined = join_scopes(scopes);
    let mut pairs: Vec<(String, String)> = Vec::new();
    pairs.push((String::from_str("client_id"), String::from_str(client_id)));
    pairs.push((String::from_str("response_type"), String::from_str("code")));
    pairs.push((String::from_str("redirect_uri"), String::from_str(redirect_uri)));
    pairs.push((String::from_str("code_challenge_method"), String::from_str("S256")));
    pairs.push((String::from_str("code_challenge"), String::from_str(challenge)));
    pairs.push((String::from_str("scope"), joined));
    pairs.push((String::from_str("state"), String::from_str(state)));
    let query = urlencode_pairs(&pairs);
    proof {
        assert(pairs_view(pairs@) =~= authorization_pairs(
            client_id@,
            redirect_uri@,
            scopes_view(scopes@),
            challenge@,
            state@,
        ));
    }
    let mut url = auth_url();
    url.append("?");
    let out = url.concat(query.as_str());
    Ok(out)
}

} // verus!

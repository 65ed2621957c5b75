//! The query parameters of the authorization request.
//!
//! The browser is sent to the authorization endpoint with a fixed set
//! of parameters, each exactly once: the grant kind, the client, the
//! redirect target, the requested scopes space-joined, the CSRF state,
//! and the PKCE challenge with its method.

use crate::callback::count_key;
use crate::callback::first_value;
use crate::callback::pair_views;
use vstd::prelude::*;
use vstd::string::StringExecFns;

verus! {

/// The provider-selection extension parameter sent with every request.
pub open spec fn spec_providers() -> Seq<char> {
    "uk-ob-all uk-oauth-all uk-cs-mock"@
}

/// The query parameters of the authorization URL, in order.
pub open spec fn auth_params_model(
    client_id: Seq<char>,
    redirect_uri: Seq<char>,
    state: Seq<char>,
    challenge: Seq<char>,
    scope: Seq<char>,
) -> Seq<(Seq<char>, Seq<char>)> {
    seq![
        ("response_type"@, "code"@),
        ("client_id"@, client_id),
        ("redirect_uri"@, redirect_uri),
        ("scope"@, scope),
        ("state"@, state),
        ("code_challenge"@, challenge),
        ("code_challenge_method"@, "S256"@),
        ("providers"@, spec_providers()),
    ]
}

/// Builds the authorization query parameters for one flow.
pub fn authorization_params(
    client_id: &str,
    redirect_uri: &str,
    state: &str,
    challenge: &str,
    scope: &str,
) -> (r: Vec<(String, String)>)
    ensures
        pair_views(r@) == auth_params_model(client_id@, redirect_uri@, state@, challenge@, scope@),
{
    let mut v: Vec<(String, String)> = Vec::new();
    v.push((String::from_str("response_type"), String::from_str("code")));
    v.push((String::from_str("client_id"), String::from_str(client_id)));
    v.push((String::from_str("redirect_uri"), String::from_str(redirect_uri)));
    v.push((String::from_str("scope"), String::from_str(scope)));
    v.push((String::from_str("state"), String::from_str(state)));
    v.push((String::from_str("code_challenge"), String::from_str(challenge)));
    v.push((String::from_str("code_challenge_method"), String::from_str("S256")));
    v.push((String::from_str("providers"), String::from_str("uk-ob-all uk-oauth-all uk-cs-mock")));
    proof {
        assert(pair_views(v@) =~= auth_params_model(
            client_id@,
            redirect_uri@,
            state@,
            challenge@,
            scope@,
        ));
    }
    v
}

/// Law: the authorization query carries `scope`, `state`,
/// `code_challenge` and `code_challenge_method` each exactly once, with
/// the space-joined scopes, the flow's CSRF state, the PKCE challenge
/// and the SHA-256 method marker as their values.
pub proof fn lemma_auth_params_exactly_once(
    client_id: Seq<char>,
    redirect_uri: Seq<char>,
    state: Seq<char>,
    challenge: Seq<char>,
    scope: Seq<char>,
)
    ensures
        ({
            let m = auth_params_model(client_id, redirect_uri, state, challenge, scope);
            &&& count_key(m, "scope"@) == 1 && first_value(m, "scope"@) == scope
            &&& count_key(m, "state"@) == 1 && first_value(m, "state"@) == state
            &&& count_key(m, "code_challenge"@) == 1 && first_value(m, "code_challenge"@)
                == challenge
            &&& count_key(m, "code_challenge_method"@) == 1 && first_value(
                m,
                "code_challenge_method"@,
            ) == "S256"@
        }),
{
    reveal_strlit("response_type");
    reveal_strlit("client_id");
    reveal_strlit("redirect_uri");
    reveal_strlit("scope");
    reveal_strlit("state");
    reveal_strlit("code_challenge");
    reveal_strlit("code_challenge_method");
    reveal_strlit("providers");
    assert("response_type"@.len() == 13);
    assert("client_id"@.len() == 9);
    assert("redirect_uri"@.len() == 12);
    assert("scope"@.len() == 5);
    assert("state"@.len() == 5);
    assert("code_challenge"@.len() == 14);
    assert("code_challenge_method"@.len() == 21);
    assert("providers"@.len() == 9);
    assert("scope"@[1] == 'c');
    assert("state"@[1] == 't');
    let m = auth_params_model(client_id, redirect_uri, state, challenge, scope);
    let m1 = m.skip(1);
    let m2 = m.skip(2);
    let m3 = m.skip(3);
    let m4 = m.skip(4);
    let m5 = m.skip(5);
    let m6 = m.skip(6);
    let m7 = m.skip(7);
    let m8 = m.skip(8);
    assert(m1.skip(1) =~= m2);
    assert(m2.skip(1) =~= m3);
    assert(m3.skip(1) =~= m4);
    assert(m4.skip(1) =~= m5);
    assert(m5.skip(1) =~= m6);
    assert(m6.skip(1) =~= m7);
    assert(m7.skip(1) =~= m8);
    assert(m8.len() == 0);
    lemma_counts_on(m, "scope"@);
    lemma_counts_on(m, "state"@);
    lemma_counts_on(m, "code_challenge"@);
    lemma_counts_on(m, "code_challenge_method"@);
    lemma_first_value_at(m, "scope"@, 3);
    lemma_first_value_at(m, "state"@, 4);
    lemma_first_value_at(m, "code_challenge"@, 5);
    lemma_first_value_at(m, "code_challenge_method"@, 6);
}

/// Unrolls the key count and first value over an eight-entry query.
proof fn lemma_counts_on(m: Seq<(Seq<char>, Seq<char>)>, k: Seq<char>)
    requires
        m.len() == 8,
    ensures
        count_key(m, k) == (if m[0].0 == k {
            1nat
        } else {
            0nat
        }) + (if m[1].0 == k {
            1nat
        } else {
            0nat
        }) + (if m[2].0 == k {
            1nat
        } else {
            0nat
        }) + (if m[3].0 == k {
            1nat
        } else {
            0nat
        }) + (if m[4].0 == k {
            1nat
        } else {
            0nat
        }) + (if m[5].0 == k {
            1nat
        } else {
            0nat
        }) + (if m[6].0 == k {
            1nat
        } else {
            0nat
        }) + (if m[7].0 == k {
            1nat
        } else {
            0nat
        }),
{
    let m1 = m.skip(1);
    let m2 = m.skip(2);
    let m3 = m.skip(3);
    let m4 = m.skip(4);
    let m5 = m.skip(5);
    let m6 = m.skip(6);
    let m7 = m.skip(7);
    let m8 = m.skip(8);
    assert(m.skip(1) =~= m1);
    assert(m1.skip(1) =~= m2);
    assert(m2.skip(1) =~= m3);
    assert(m3.skip(1) =~= m4);
    assert(m4.skip(1) =~= m5);
    assert(m5.skip(1) =~= m6);
    assert(m6.skip(1) =~= m7);
    assert(m7.skip(1) =~= m8);
    assert(m1[0] == m[1] && m2[0] == m[2] && m3[0] == m[3] && m4[0] == m[4] && m5[0] == m[5]
        && m6[0] == m[6] && m7[0] == m[7]);
    assert(count_key(m, k) == (if m[0].0 == k {
        1nat
    } else {
        0nat
    }) + count_key(m1, k));
    assert(count_key(m1, k) == (if m1[0].0 == k {
        1nat
    } else {
        0nat
    }) + count_key(m2, k));
    assert(count_key(m2, k) == (if m2[0].0 == k {
        1nat
    } else {
        0nat
    }) + count_key(m3, k));
    assert(count_key(m3, k) == (if m3[0].0 == k {
        1nat
    } else {
        0nat
    }) + count_key(m4, k));
    assert(count_key(m4, k) == (if m4[0].0 == k {
        1nat
    } else {
        0nat
    }) + count_key(m5, k));
    assert(count_key(m5, k) == (if m5[0].0 == k {
        1nat
    } else {
        0nat
    }) + count_key(m6, k));
    assert(count_key(m6, k) == (if m6[0].0 == k {
        1nat
    } else {
        0nat
    }) + count_key(m7, k));
    assert(count_key(m7, k) == (if m7[0].0 == k {
        1nat
    } else {
        0nat
    }) + count_key(m8, k));
    assert(count_key(m8, k) == 0);
}

/// The first value of `k` is the value at its first occurrence.
proof fn lemma_first_value_at(m: Seq<(Seq<char>, Seq<char>)>, k: Seq<char>, i: int)
    requires
        0 <= i < m.len(),
        m[i].0 == k,
        forall|j: int| 0 <= j < i ==> m[j].0 != k,
    ensures
        first_value(m, k) == m[i].1,
    decreases i,
{
    if i == 0 {
    } else {
        assert(m[0].0 != k);
        assert forall|j: int| 0 <= j < i - 1 implies m.skip(1)[j].0 != k by {
            assert(m.skip(1)[j] == m[j + 1]);
        }
        assert(m.skip(1)[i - 1] == m[i]);
        lemma_first_value_at(m.skip(1), k, i - 1);
    }
}

} // verus!

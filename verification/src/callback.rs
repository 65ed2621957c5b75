//! Validation of the authorization redirect callback.
//!
//! A callback request is trusted only when it fully satisfies the
//! contract: method GET, the registered redirect path, and a query that
//! carries exactly one `code`, exactly one `state` equal to the CSRF
//! token issued for this flow, at most a `scope` besides, and nothing
//! else.  Anything weaker is rejected, and the accept loop goes on.

use vstd::prelude::*;
use vstd::string::StringExecFns;

verus! {

/// Why a query string was refused.
#[derive(Clone, Copy, Debug, PartialEq, Eq, Structural)]
pub enum ExtractError {
    /// A key outside `{code, state, scope}` occurred.
    UnexpectedParameter,
    /// `code` occurred more than once.
    DuplicateCode,
    /// `state` occurred more than once.
    DuplicateState,
    /// No `state` parameter arrived.
    MissingState,
    /// The `state` parameter differs from the issued CSRF token.
    CsrfMismatch,
    /// No `code` parameter arrived.
    MissingCode,
}

/// The views of a list of decoded key/value pairs.
pub open spec fn pair_views(ps: Seq<(String, String)>) -> Seq<(Seq<char>, Seq<char>)> {
    ps.map_values(|p: (String, String)| (p.0@, p.1@))
}

/// How often `k` occurs as a key.
pub open spec fn count_key(pairs: Seq<(Seq<char>, Seq<char>)>, k: Seq<char>) -> nat
    decreases pairs.len(),
{
    if pairs.len() == 0 {
        0
    } else {
        (if pairs[0].0 == k {
            1nat
        } else {
            0nat
        }) + count_key(pairs.skip(1), k)
    }
}

/// The value of the first pair whose key is `k`; the empty sequence when
/// there is none.
pub open spec fn first_value(pairs: Seq<(Seq<char>, Seq<char>)>, k: Seq<char>) -> Seq<char>
    decreases pairs.len(),
{
    if pairs.len() == 0 {
        Seq::empty()
    } else if pairs[0].0 == k {
        pairs[0].1
    } else {
        first_value(pairs.skip(1), k)
    }
}

/// Whether a key is one the callback may carry.
pub open spec fn recognized_key(k: Seq<char>) -> bool {
    k == "code"@ || k == "state"@ || k == "scope"@
}

/// Whether every key of the query is recognized.
pub open spec fn keys_recognized(pairs: Seq<(Seq<char>, Seq<char>)>) -> bool {
    forall|i: int| 0 <= i < pairs.len() ==> recognized_key(#[trigger] pairs[i].0)
}

/// The first error an in-order scan of the query finds: an unexpected
/// key, or a second `code` or `state`.  `seen_code` and `seen_state` say
/// what an earlier part of the scan already met.
pub open spec fn scan_error(
    pairs: Seq<(Seq<char>, Seq<char>)>,
    seen_code: bool,
    seen_state: bool,
) -> Option<ExtractError>
    decreases pairs.len(),
{
    if pairs.len() == 0 {
        None
    } else {
        let k = pairs[0].0;
        if k == "code"@ {
            if seen_code {
                Some(ExtractError::DuplicateCode)
            } else {
                scan_error(pairs.skip(1), true, seen_state)
            }
        } else if k == "state"@ {
            if seen_state {
                Some(ExtractError::DuplicateState)
            } else {
                scan_error(pairs.skip(1), seen_code, true)
            }
        } else if k == "scope"@ {
            scan_error(pairs.skip(1), seen_code, seen_state)
        } else {
            Some(ExtractError::UnexpectedParameter)
        }
    }
}

/// What extraction returns on a given decoded query, in scan order: the
/// first scan error, else a missing or mismatched `state`, else a
/// missing `code`, else the one `code` value.
pub open spec fn extract_spec(pairs: Seq<(Seq<char>, Seq<char>)>, csrf: Seq<char>) -> Result<
    Seq<char>,
    ExtractError,
> {
    match scan_error(pairs, false, false) {
        Some(e) => Err(e),
        None => {
            if count_key(pairs, "state"@) == 0 {
                Err(ExtractError::MissingState)
            } else if first_value(pairs, "state"@) != csrf {
                Err(ExtractError::CsrfMismatch)
            } else if count_key(pairs, "code"@) == 0 {
                Err(ExtractError::MissingCode)
            } else {
                Ok(first_value(pairs, "code"@))
            }
        },
    }
}

/// A callback query is valid when every key is recognized, `code` and
/// `state` each occur exactly once, and `state` equals the issued CSRF
/// token.
pub open spec fn callback_ok(pairs: Seq<(Seq<char>, Seq<char>)>, csrf: Seq<char>) -> bool {
    &&& keys_recognized(pairs)
    &&& count_key(pairs, "code"@) == 1
    &&& count_key(pairs, "state"@) == 1
    &&& first_value(pairs, "state"@) == csrf
}

/// The three recognized keys are pairwise distinct words.
proof fn lemma_keys_distinct()
    ensures
        "code"@ != "state"@,
        "code"@ != "scope"@,
        "state"@ != "scope"@,
{
    reveal_strlit("code");
    reveal_strlit("state");
    reveal_strlit("scope");
    assert("code"@.len() == 4);
    assert("state"@.len() == 5);
    assert("scope"@.len() == 5);
    assert("state"@[1] == 't');
    assert("scope"@[1] == 'c');
}

proof fn lemma_scan_error_none(pairs: Seq<(Seq<char>, Seq<char>)>, seen_code: bool, seen_state: bool)
    ensures
        scan_error(pairs, seen_code, seen_state) is None <==> {
            &&& keys_recognized(pairs)
            &&& count_key(pairs, "code"@) + (if seen_code { 1nat } else { 0nat }) <= 1
            &&& count_key(pairs, "state"@) + (if seen_state { 1nat } else { 0nat }) <= 1
        },
    decreases pairs.len(),
{
    lemma_keys_distinct();
    if pairs.len() == 0 {
    } else {
        let tail = pairs.skip(1);
        let k = pairs[0].0;
        assert(count_key(pairs, "code"@) == (if pairs[0].0 == "code"@ {
            1nat
        } else {
            0nat
        }) + count_key(tail, "code"@));
        assert(count_key(pairs, "state"@) == (if pairs[0].0 == "state"@ {
            1nat
        } else {
            0nat
        }) + count_key(tail, "state"@));
        if k == "code"@ && !seen_code {
            lemma_scan_error_none(tail, true, seen_state);
            assert(scan_error(pairs, seen_code, seen_state) == scan_error(tail, true, seen_state));
            assert(count_key(pairs, "code"@) == 1 + count_key(tail, "code"@));
            assert(count_key(pairs, "state"@) == count_key(tail, "state"@));
            assert(recognized_key(pairs[0].0));
        } else if k == "state"@ && !seen_state {
            lemma_scan_error_none(tail, seen_code, true);
        } else if k == "scope"@ {
            lemma_scan_error_none(tail, seen_code, seen_state);
        } else if !recognized_key(k) {
            assert(!keys_recognized(pairs));
        }
        if keys_recognized(pairs) {
            assert(recognized_key(pairs[0].0));
            assert forall|j: int| 0 <= j < tail.len() implies recognized_key(
                #[trigger] tail[j].0,
            ) by {
                assert(tail[j] == pairs[j + 1]);
            }
        }
        if recognized_key(pairs[0].0) && keys_recognized(tail) {
            assert forall|i: int| 0 <= i < pairs.len() implies recognized_key(
                #[trigger] pairs[i].0,
            ) by {
                if i > 0 {
                    assert(pairs[i] == tail[i - 1]);
                }
            }
        }
    }
}

/// The accepted outcome is exactly the valid callbacks (and carries the
/// one `code` value); every invalid callback gets an error.
///
/// In particular: a missing or mismatched `state` is refused; so is any
/// unrecognized parameter; and so is a repeated `code` or `state`,
/// which is never resolved by preferring one occurrence.
pub proof fn lemma_extract_characterization(pairs: Seq<(Seq<char>, Seq<char>)>, csrf: Seq<char>)
    ensures
        extract_spec(pairs, csrf) is Ok <==> callback_ok(pairs, csrf),
        extract_spec(pairs, csrf) is Ok ==> extract_spec(pairs, csrf)->Ok_0 == first_value(
            pairs,
            "code"@,
        ),
        !keys_recognized(pairs) ==> extract_spec(pairs, csrf) is Err,
        count_key(pairs, "code"@) >= 2 || count_key(pairs, "state"@) >= 2 ==> extract_spec(
            pairs,
            csrf,
        ) is Err,
        count_key(pairs, "state"@) == 0 || first_value(pairs, "state"@) != csrf ==> extract_spec(
            pairs,
            csrf,
        ) is Err,
{
    lemma_scan_error_none(pairs, false, false);
}

/// The count of a key and its first value, looking one step into the
/// sequence.
proof fn lemma_count_first_step(pairs: Seq<(Seq<char>, Seq<char>)>, k: Seq<char>, i: int)
    requires
        0 <= i < pairs.len(),
        count_key(pairs.take(i), k) == 0,
        pairs[i].0 == k,
    ensures
        first_value(pairs, k) == pairs[i].1,
        count_key(pairs, k) >= 1,
    decreases i,
{
    if i == 0 {
    } else {
        assert(pairs.take(i)[0] == pairs[0]);
        assert(pairs.take(i).skip(1) =~= pairs.skip(1).take(i - 1));
        lemma_count_first_step(pairs.skip(1), k, i - 1);
        assert(pairs.skip(1)[i - 1] == pairs[i]);
    }
}

/// Extracts the authorization code from the decoded query pairs of a
/// callback request, validating them against the issued CSRF token.
///
/// The result is exactly `extract_spec` of the pairs' views: the one
/// `code` value on a valid query, and the first error in scan order
/// otherwise.
pub fn extract_authorization_code(pairs: &Vec<(String, String)>, csrf: &String) -> (r: Result<
    String,
    ExtractError,
>)
    ensures
        ({
            let s = extract_spec(pair_views(pairs@), csrf@);
            &&& r is Ok <==> s is Ok
            &&& r is Ok ==> r->Ok_0@ == s->Ok_0
            &&& r is Err ==> r->Err_0 == s->Err_0
        }),
{
    let ghost model = pair_views(pairs@);
    let key_code = String::from_str("code");
    let key_state = String::from_str("state");
    let key_scope = String::from_str("scope");
    let mut received_code: Option<String> = None;
    let mut received_state: Option<String> = None;
    let n = pairs.len();
    proof {
        assert(model.skip(0) =~= model);
        assert(model.take(0) =~= Seq::empty());
    }
    for i in 0..n
        invariant
            n == pairs@.len(),
            model == pair_views(pairs@),
            key_code@ == "code"@,
            key_state@ == "state"@,
            key_scope@ == "scope"@,
            scan_error(model, false, false) == scan_error(
                model.skip(i as int),
                received_code is Some,
                received_state is Some,
            ),
            received_code is Some <==> count_key(model.take(i as int), "code"@) >= 1,
            received_state is Some <==> count_key(model.take(i as int), "state"@) >= 1,
            received_code matches Some(c) ==> c@ == first_value(model, "code"@),
            received_state matches Some(s) ==> s@ == first_value(model, "state"@),
    {
        let p = &pairs[i];
        proof {
            lemma_keys_distinct();
            assert(model[i as int] == (p.0@, p.1@));
            assert(model.skip(i as int)[0] == model[i as int]);
            assert(model.skip(i as int).skip(1) =~= model.skip(i + 1));
            assert(model.take(i + 1).take(i as int) =~= model.take(i as int));
            assert(model.take(i + 1)[i as int] == model[i as int]);
            lemma_count_take_step(model, i as int);
        }
        if p.0 == key_code {
            if received_code.is_some() {
                return Err(ExtractError::DuplicateCode);
            }
            proof {
                lemma_count_first_step(model, "code"@, i as int);
                assert(count_key(model.take(i as int + 1), "state"@) == count_key(
                    model.take(i as int),
                    "state"@,
                ));
                assert(count_key(model.take(i as int + 1), "code"@) == count_key(
                    model.take(i as int),
                    "code"@,
                ) + 1nat);
            }
            received_code = Some(p.1.clone());
        } else if p.0 == key_state {
            if received_state.is_some() {
                return Err(ExtractError::DuplicateState);
            }
            proof {
                lemma_count_first_step(model, "state"@, i as int);
                assert(count_key(model.take(i as int + 1), "code"@) == count_key(
                    model.take(i as int),
                    "code"@,
                ));
                assert(count_key(model.take(i as int + 1), "state"@) == count_key(
                    model.take(i as int),
                    "state"@,
                ) + 1nat);
            }
            received_state = Some(p.1.clone());
        } else if p.0 == key_scope {
            // the scope echo is ignored, but not rejected
            proof {
                assert(count_key(model.take(i as int + 1), "state"@) == count_key(
                    model.take(i as int),
                    "state"@,
                ));
                assert(count_key(model.take(i as int + 1), "code"@) == count_key(
                    model.take(i as int),
                    "code"@,
                ));
            }
        } else {
            return Err(ExtractError::UnexpectedParameter);
        }
    }
    proof {
        assert(model.skip(n as int) =~= Seq::empty());
        assert(model.take(n as int) =~= model);
    }
    let state = match received_state {
        None => {
            return Err(ExtractError::MissingState);
        },
        Some(s) => s,
    };
    if !(state == *csrf) {
        return Err(ExtractError::CsrfMismatch);
    }
    match received_code {
        None => Err(ExtractError::MissingCode),
        Some(code) => Ok(code),
    }
}

/// The request method, as far as the handler cares: GET or anything
/// else.
#[derive(Clone, Copy, Debug, PartialEq, Eq, Structural)]
pub enum HttpMethod {
    Get,
    Other,
}

/// Why a whole request was turned away with a generic not-found
/// answer.
#[derive(Clone, Copy, Debug, PartialEq, Eq, Structural)]
pub enum RejectReason {
    /// The method was not GET.
    UnsupportedMethod,
    /// The request target could not be read as a URL.
    MalformedTarget,
    /// The path was not the registered redirect path.
    UnrecognizedPath,
    /// The query failed validation.
    Parameter(ExtractError),
}

/// What one request leads to: the flow's authorization code, or a
/// rejection that leaves the accept loop running.
pub enum RequestOutcome {
    Accept(String),
    Reject(RejectReason),
}

impl RequestOutcome {
    /// The status answered to the HTTP client: plain confirmation on
    /// the one accepted request, a generic not-found otherwise.
    pub fn status_code(&self) -> (s: u16)
        ensures
            s == 200 <==> self is Accept,
            s == 404 <==> self is Reject,
    {
        match self {
            RequestOutcome::Accept(_) => 200,
            RequestOutcome::Reject(_) => 404,
        }
    }
}

/// The confirmation shown in the browser once the code is accepted.
pub fn confirmation_body() -> (r: &'static str)
    ensures
        r@ == "You may now close this window."@,
{
    "You may now close this window."
}

/// Classifies one parsed request against the flow's CSRF token: only a
/// GET of the redirect path with a fully valid query is accepted, and
/// it carries the one authorization code; everything else is rejected
/// with the reason, and the accept loop keeps waiting.
pub fn handle_request(
    method: &HttpMethod,
    parsed: Option<&(String, Vec<(String, String)>)>,
    csrf: &String,
) -> (r: RequestOutcome)
    ensures
        method is Other ==> (r matches RequestOutcome::Reject(RejectReason::UnsupportedMethod)),
        method is Get && parsed is None ==> (r matches RequestOutcome::Reject(
            RejectReason::MalformedTarget,
        )),
        parsed matches Some(t) ==> (method is Get && t.0@ != "/redirect"@ ==> (r matches
        RequestOutcome::Reject(RejectReason::UnrecognizedPath))),
        parsed matches Some(t) ==> (method is Get && t.0@ == "/redirect"@ ==> {
            let s = extract_spec(pair_views(t.1@), csrf@);
            &&& (r is Accept <==> s is Ok)
            &&& (r matches RequestOutcome::Accept(c) ==> c@ == s->Ok_0)
            &&& (r matches RequestOutcome::Reject(why) ==> why == RejectReason::Parameter(
                s->Err_0,
            ))
        }),
{
    match method {
        HttpMethod::Other => RequestOutcome::Reject(RejectReason::UnsupportedMethod),
        HttpMethod::Get => {
            match parsed {
                None => RequestOutcome::Reject(RejectReason::MalformedTarget),
                Some(target) => {
                    let redirect_path = String::from_str("/redirect");
                    if !(target.0 == redirect_path) {
                        RequestOutcome::Reject(RejectReason::UnrecognizedPath)
                    } else {
                        match extract_authorization_code(&target.1, csrf) {
                            Ok(code) => RequestOutcome::Accept(code),
                            Err(e) => RequestOutcome::Reject(RejectReason::Parameter(e)),
                        }
                    }
                },
            }
        },
    }
}

/// Counting over a prefix grows by the one new element.
proof fn lemma_count_take_step(pairs: Seq<(Seq<char>, Seq<char>)>, i: int)
    requires
        0 <= i < pairs.len(),
    ensures
        forall|k: Seq<char>|
            #[trigger] count_key(pairs.take(i + 1), k) == count_key(pairs.take(i), k) + (
            if pairs[i].0 == k {
                1nat
            } else {
                0nat
            }),
    decreases i,
{
    assert forall|k: Seq<char>|
        #[trigger] count_key(pairs.take(i + 1), k) == count_key(pairs.take(i), k) + (
        if pairs[i].0 == k {
            1nat
        } else {
            0nat
        }) by {
        lemma_count_snoc(pairs.take(i + 1), k);
        assert(pairs.take(i + 1).drop_last() =~= pairs.take(i));
        assert(pairs.take(i + 1).last() == pairs[i]);
    }
}

/// Counting a non-empty sequence splits at its last element.
proof fn lemma_count_snoc(pairs: Seq<(Seq<char>, Seq<char>)>, k: Seq<char>)
    requires
        pairs.len() > 0,
    ensures
        count_key(pairs, k) == count_key(pairs.drop_last(), k) + (
        if pairs.last().0 == k {
            1nat
        } else {
            0nat
        }),
    decreases pairs.len(),
{
    if pairs.len() == 1 {
        assert(pairs.drop_last() =~= Seq::<(Seq<char>, Seq<char>)>::empty());
        assert(pairs.skip(1) =~= Seq::<(Seq<char>, Seq<char>)>::empty());
        assert(count_key(pairs.skip(1), k) == 0);
        assert(count_key(pairs.drop_last(), k) == 0);
        assert(pairs.last() == pairs[0]);
    } else {
        lemma_count_snoc(pairs.skip(1), k);
        assert(pairs.skip(1).drop_last() =~= pairs.drop_last().skip(1));
        assert(pairs.skip(1).last() == pairs.last());
        assert(pairs.drop_last()[0] == pairs[0]);
        assert(pairs.drop_last().len() > 0);
        assert(count_key(pairs, k) == (if pairs[0].0 == k {
            1nat
        } else {
            0nat
        }) + count_key(pairs.skip(1), k));
        assert(count_key(pairs.drop_last(), k) == (if pairs[0].0 == k {
            1nat
        } else {
            0nat
        }) + count_key(pairs.drop_last().skip(1), k));
    }
}

} // verus!

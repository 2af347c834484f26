use vstd::prelude::*;

use crate::browser_error::{append_query_pair, with_query_pair};
use crate::flow::AuthorizationResponse;
use crate::model::ResponseMode;
use crate::text::{decimal, decimal_text};

verus! {

/// Name of the `application/x-www-form-urlencoded` text of one
/// `name=value` pair.
pub uninterp spec fn form_encoded_pair(name: Seq<char>, value: Seq<char>) -> Seq<char>;

/// Name of the serialization of a URL after `url::Url::set_fragment` put
/// the given text in its fragment, or `None` where the text is not a URL.
pub uninterp spec fn with_fragment(url: Seq<char>, fragment: Seq<char>) -> Option<Seq<char>>;

/// Relies on `form_urlencoded::Serializer::append_pair` (as re-exported by
/// `url`) on an empty serializer: the text depends on the two inputs alone.
#[verifier::external_body]
fn encode_form_pair(name: &str, value: &str) -> (r: String)
    ensures
        r@ == form_encoded_pair(name@, value@),
{
    url::form_urlencoded::Serializer::new(String::new()).append_pair(name, value).finish()
}

/// Relies on `url::Url::set_fragment` on the parsed URL: the result depends
/// on the two texts alone.
#[verifier::external_body]
fn set_fragment(url: &str, fragment: &str) -> (r: Option<String>)
    ensures
        r is Some <==> with_fragment(url@, fragment@) is Some,
        r matches Some(u) ==> u@ == with_fragment(url@, fragment@)->0,
{
    let mut u = url::Url::parse(url).ok()?;
    u.set_fragment(Some(fragment));
    Some(String::from(u))
}

/// The parameters sent back to the client, in order.
pub open spec fn callback_params(resp: AuthorizationResponse) -> Seq<(Seq<char>, Seq<char>)> {
    let code = match resp.code {
        Some(c) => seq![("code"@, c@)],
        None => Seq::empty(),
    };
    let tokens = match resp.response {
        Some(p) => seq![
            ("access_token"@, p.access_token@),
            ("token_type"@, "Bearer"@),
            ("expires_in"@, decimal(if p.expires_in >= 0 { p.expires_in as nat } else { 0 })),
            ("refresh_token"@, p.refresh_token@),
        ],
        None => Seq::empty(),
    };
    let state = match resp.state {
        Some(s) => seq![("state"@, s@)],
        None => Seq::empty(),
    };
    code + tokens + state
}

/// The URL after appending each pair to its query, in order.
pub open spec fn with_query_pairs(url: Option<Seq<char>>, pairs: Seq<(Seq<char>, Seq<char>)>) -> Option<
    Seq<char>,
>
    decreases pairs.len(),
{
    if pairs.len() == 0 {
        url
    } else {
        match with_query_pairs(url, pairs.drop_last()) {
            Some(u) => with_query_pair(u, pairs.last().0, pairs.last().1),
            None => None,
        }
    }
}

/// The pairs form-encoded and joined with `&`.
pub open spec fn form_text(pairs: Seq<(Seq<char>, Seq<char>)>) -> Seq<char>
    decreases pairs.len(),
{
    if pairs.len() == 0 {
        Seq::empty()
    } else if pairs.len() == 1 {
        form_encoded_pair(pairs[0].0, pairs[0].1)
    } else {
        form_text(pairs.drop_last()) + seq!['&'] + form_encoded_pair(
            pairs.last().0,
            pairs.last().1,
        )
    }
}

/// Where the browser is sent with the response: the parameters in the
/// query or in the fragment of the redirect URI. A `form_post` response is
/// rendered as an HTML form instead, and has no location.
pub open spec fn callback_location(resp: AuthorizationResponse) -> Option<Seq<char>> {
    match resp.response_mode {
        ResponseMode::Query => with_query_pairs(Some(resp.redirect_uri@), callback_params(resp)),
        ResponseMode::Fragment => with_fragment(resp.redirect_uri@, form_text(callback_params(resp))),
        ResponseMode::FormPost => None,
    }
}

fn params_vec(resp: &AuthorizationResponse) -> (r: Vec<(String, String)>)
    ensures
        r@.len() == callback_params(*resp).len(),
        forall|i: int|
            0 <= i < r@.len() ==> (#[trigger] r@[i]).0@ == callback_params(*resp)[i].0 && r@[i].1@
                == callback_params(*resp)[i].1,
{
    let mut r: Vec<(String, String)> = Vec::new();
    let ghost mut expected: Seq<(Seq<char>, Seq<char>)> = Seq::empty();
    match &resp.code {
        Some(c) => {
            r.push((String::from_str("code"), c.clone()));
            proof {
                expected = seq![("code"@, c@)];
            }
        },
        None => {},
    }
    match &resp.response {
        Some(p) => {
            let expires = if p.expires_in >= 0 {
                p.expires_in as u64
            } else {
                0
            };
            r.push((String::from_str("access_token"), p.access_token.clone()));
            r.push((String::from_str("token_type"), String::from_str("Bearer")));
            r.push((String::from_str("expires_in"), decimal_text(expires)));
            r.push((String::from_str("refresh_token"), p.refresh_token.clone()));
            proof {
                expected = expected + seq![
                    ("access_token"@, p.access_token@),
                    ("token_type"@, "Bearer"@),
                    ("expires_in"@, decimal(expires as nat)),
                    ("refresh_token"@, p.refresh_token@),
                ];
            }
        },
        None => {},
    }
    match &resp.state {
        Some(s) => {
            r.push((String::from_str("state"), s.clone()));
            proof {
                expected = expected + seq![("state"@, s@)];
            }
        },
        None => {},
    }
    assert(expected =~= callback_params(*resp));
    r
}

impl AuthorizationResponse {
    /// The location that the browser is redirected to, for the query and
    /// fragment response modes.
    pub fn callback_location(&self) -> (r: Option<String>)
        ensures
            r is Some <==> callback_location(*self) is Some,
            r matches Some(u) ==> u@ == callback_location(*self)->0,
    {
        let params = params_vec(self);
        match self.response_mode {
            ResponseMode::FormPost => None,
            ResponseMode::Query => {
                let mut url = self.redirect_uri.clone();
                let mut i: usize = 0;
                while i < params.len()
                    invariant
                        i <= params@.len(),
                        params@.len() == callback_params(*self).len(),
                        forall|k: int|
                            0 <= k < params@.len() ==> (#[trigger] params@[k]).0@
                                == callback_params(*self)[k].0 && params@[k].1@ == callback_params(
                                *self,
                            )[k].1,
                        self.response_mode == ResponseMode::Query,
                        with_query_pairs(
                            Some(self.redirect_uri@),
                            callback_params(*self).subrange(0, i as int),
                        ) == Some(url@),
                    decreases params@.len() - i,
                {
                    let ghost prefix = callback_params(*self).subrange(0, i + 1);
                    assert(prefix.drop_last() =~= callback_params(*self).subrange(0, i as int));
                    assert(prefix.last() == callback_params(*self)[i as int]);
                    url = match append_query_pair(
                        url.as_str(),
                        params[i].0.as_str(),
                        params[i].1.as_str(),
                    ) {
                        Some(u) => u,
                        None => {
                            proof {
                                assert(with_query_pairs(Some(self.redirect_uri@), prefix) is None);
                                lemma_query_pairs_none(
                                    Some(self.redirect_uri@),
                                    callback_params(*self),
                                    i + 1,
                                );
                            }
                            return None;
                        },
                    };
                    i = i + 1;
                }
                assert(callback_params(*self).subrange(0, params@.len() as int) =~= callback_params(
                    *self,
                ));
                Some(url)
            },
            ResponseMode::Fragment => {
                let mut text = String::new();
                let mut i: usize = 0;
                while i < params.len()
                    invariant
                        i <= params@.len(),
                        params@.len() == callback_params(*self).len(),
                        forall|k: int|
                            0 <= k < params@.len() ==> (#[trigger] params@[k]).0@
                                == callback_params(*self)[k].0 && params@[k].1@ == callback_params(
                                *self,
                            )[k].1,
                        self.response_mode == ResponseMode::Fragment,
                        text@ == form_text(callback_params(*self).subrange(0, i as int)),
                    decreases params@.len() - i,
                {
                    let ghost prefix = callback_params(*self).subrange(0, i + 1);
                    assert(prefix.drop_last() =~= callback_params(*self).subrange(0, i as int));
                    let pair = encode_form_pair(params[i].0.as_str(), params[i].1.as_str());
                    if i == 0 {
                        text = pair;
                    } else {
                        text = text.concat("&").concat(pair.as_str());
                        proof {
                            reveal_strlit("&");
                        }
                    }
                    assert(text@ =~= form_text(prefix));
                    i = i + 1;
                }
                assert(callback_params(*self).subrange(0, params@.len() as int) =~= callback_params(
                    *self,
                ));
                set_fragment(self.redirect_uri.as_str(), text.as_str())
            },
        }
    }
}

/// Once appending a pair fails, the whole fold fails.
proof fn lemma_query_pairs_none(url: Option<Seq<char>>, pairs: Seq<(Seq<char>, Seq<char>)>, k: int)
    requires
        0 < k <= pairs.len(),
        with_query_pairs(url, pairs.subrange(0, k)) is None,
    ensures
        with_query_pairs(url, pairs) is None,
    decreases pairs.len() - k,
{
    if k < pairs.len() {
        let next = pairs.subrange(0, k + 1);
        assert(next.drop_last() =~= pairs.subrange(0, k));
        lemma_query_pairs_none(url, pairs, k + 1);
    } else {
        assert(pairs.subrange(0, k) =~= pairs);
    }
}

} // verus!

use vstd::prelude::*;

verus! {

/// Public HTTPS endpoint tried when the caller's URL is blank or unreachable.
pub const FALLBACK_TLS_URL: &'static str = "https://speed.cloudflare.com/__down?bytes=25000000";

/// Plain-HTTP endpoint, for networks where TLS is intercepted or blocked.
pub const FALLBACK_PLAIN_URL: &'static str = "http://ipv4.download.thinkbroadband.com/10MB.zip";

/// Whether a character has Unicode's White_Space property.
pub uninterp spec fn white_space(c: char) -> bool;

/// Relies on `char::is_whitespace`: whether the character has Unicode's
/// White_Space property.
#[verifier::external_body]
fn is_whitespace_char(c: char) -> (r: bool)
    ensures
        r == white_space(c),
{
    c.is_whitespace()
}

/// A text that holds nothing but white space.
pub open spec fn blank(s: Seq<char>) -> bool {
    forall|i: int| 0 <= i < s.len() ==> white_space(#[trigger] s[i])
}

/// Tells whether a text is empty once surrounding white space is removed.
pub fn is_blank(s: &str) -> (r: bool)
    ensures
        r == blank(s@),
{
    let n = s.unicode_len();
    let mut i: usize = 0;
    while i < n
        invariant
            n == s@.len(),
            i <= n,
            forall|j: int| 0 <= j < i ==> white_space(#[trigger] s@[j]),
        decreases n - i,
    {
        let c = s.get_char(i);
        if !is_whitespace_char(c) {
            return false;
        }
        i = i + 1;
    }
    true
}

/// The URLs a download tries, in order: the caller's own unless blank,
/// then the HTTPS fallback, then the plain-HTTP fallback.
pub open spec fn candidate_urls(url: Seq<char>) -> Seq<Seq<char>> {
    let fallbacks = seq![FALLBACK_TLS_URL@, FALLBACK_PLAIN_URL@];
    if blank(url) {
        fallbacks
    } else {
        seq![url].add(fallbacks)
    }
}

/// Lists the endpoints a download tries, in the order it tries them.
pub fn download_candidates(url: &str) -> (r: Vec<String>)
    ensures
        r.deep_view() == candidate_urls(url@),
{
    let mut v: Vec<String> = Vec::new();
    if !is_blank(url) {
        v.push(String::from_str(url));
    }
    v.push(String::from_str(FALLBACK_TLS_URL));
    v.push(String::from_str(FALLBACK_PLAIN_URL));
    proof {
        if blank(url@) {
            assert(v.deep_view() =~= candidate_urls(url@));
        } else {
            assert(v.deep_view() =~= candidate_urls(url@));
        }
    }
    v
}

} // verus!

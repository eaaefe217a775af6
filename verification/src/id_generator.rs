//! Deterministic identifier generation.
//!
//! An [`IDGenerator`] is built once from the host's identity and then derives
//! the three identity strings used throughout the distribution network:
//!
//! - `host_id`, a pure rendering of the host identity;
//! - `task_id`, a canonical, content-addressable fingerprint of a download
//!   target, insensitive to query parameters that are not significant to task
//!   identity;
//! - `peer_id`, which embeds a freshly drawn random identifier so that it
//!   differs between calls.

use vstd::prelude::*;
use crate::decimal::{dec_of, u64_to_dec, lemma_dec_of_injective};
use crate::error::{DFError, ErrorType, ExternalError};
use crate::hashing::{hex_of, sha256_of, is_lower_hex_char, lemma_hex_of_shape, sha256_digest,
    hex_encode};
use crate::urls::{str_views, url_parse_ok, url_query_pairs, url_base, url_with_pairs,
    significant_pairs, pair_views, parse_query_pairs, rebuild_with_pairs, filter_significant};

verus! {

/// The abstract host identity an [`IDGenerator`] is built from.
pub ghost struct HostIdentity {
    /// The host's IP address.
    pub ip: Seq<char>,
    /// The host's name.
    pub hostname: Seq<char>,
    /// Whether the host is a seed peer.
    pub is_seed_peer: bool,
}

/// Derives the host, task and peer identifiers from an immutable host
/// identity.
#[derive(Debug)]
pub struct IDGenerator {
    ip: String,
    hostname: String,
    is_seed_peer: bool,
}

impl View for IDGenerator {
    type V = HostIdentity;

    closed spec fn view(&self) -> HostIdentity {
        HostIdentity { ip: self.ip@, hostname: self.hostname@, is_seed_peer: self.is_seed_peer }
    }
}

/// The host identifier: `"{ip}-{hostname}"`, with `"-seed"` appended for a
/// seed peer.
pub open spec fn host_id_seq(h: HostIdentity) -> Seq<char> {
    if h.is_seed_peer {
        h.ip + "-"@ + h.hostname + "-"@ + "seed"@
    } else {
        h.ip + "-"@ + h.hostname
    }
}

/// The peer identifier around a fresh random identifier `u`:
/// `"{ip}-{hostname}-{u}"`, with `"-seed"` appended for a seed peer.
pub open spec fn peer_id_seq(h: HostIdentity, u: Seq<char>) -> Seq<char> {
    if h.is_seed_peer {
        h.ip + "-"@ + h.hostname + "-"@ + u + "-"@ + "seed"@
    } else {
        h.ip + "-"@ + h.hostname + "-"@ + u
    }
}

/// Whether `i` is the position of a hyphen in the canonical hyphenated
/// identifier form.
pub open spec fn uuid_hyphen_pos(i: int) -> bool {
    i == 8 || i == 13 || i == 18 || i == 23
}

/// The character at position `i` fits the canonical hyphenated form of a
/// random (version 4) unique identifier.
pub open spec fn uuid_char_ok(s: Seq<char>, i: int) -> bool {
    if uuid_hyphen_pos(i) {
        s[i] == '-'
    } else if i == 14 {
        s[i] == '4'
    } else {
        is_lower_hex_char(s[i])
    }
}

/// Whether `s` is the canonical textual form of a version-4 unique
/// identifier: 36 characters, hyphens at positions 8, 13, 18 and 23, the
/// version digit `'4'` at position 14, lowercase hexadecimal elsewhere.
pub open spec fn is_uuid_v4_text(s: Seq<char>) -> bool {
    s.len() == 36 && forall|i: int| 0 <= i < 36 ==> #[trigger] uuid_char_ok(s, i)
}

/// Relies on `uuid::Uuid::new_v4` and its rendering: whatever random bits are
/// drawn, the rendering is the 36-character lowercase hyphenated form with
/// the version digit 4.
#[verifier::external_body]
fn fresh_uuid_string() -> (r: String)
    ensures
        is_uuid_v4_text(r@),
{
    uuid::Uuid::new_v4().to_string()
}

/// The view of an optional borrowed string.
pub open spec fn opt_str_view(s: Option<&str>) -> Option<Seq<char>> {
    match s {
        Some(x) => Some(x@),
        None => None,
    }
}

/// An optional hash-input part: absent parts contribute nothing, with no
/// placeholder or separator.
pub open spec fn opt_part(s: Option<Seq<char>>) -> Seq<char> {
    match s {
        Some(x) => x,
        None => Seq::empty(),
    }
}

/// The canonical URL for task identity: the URL's non-query parts, with only
/// the query pairs whose key is in `keep`, in their original order.
pub open spec fn canonical_url_seq(url: Seq<char>, keep: Seq<Seq<char>>) -> Seq<char> {
    url_with_pairs(url_base(url), significant_pairs(url_query_pairs(url), keep))
}

/// The hash pre-image of a task identifier: the canonical URL, the present
/// optional fields in order, and the decimal form of the piece length.
pub open spec fn task_preimage(
    canon: Seq<char>,
    digest: Option<Seq<char>>,
    tag: Option<Seq<char>>,
    application: Option<Seq<char>>,
    piece_length: u64,
) -> Seq<char> {
    canon + opt_part(digest) + opt_part(tag) + opt_part(application) + dec_of(piece_length as nat)
}

/// The task identifier: the SHA-256 digest of the task pre-image, rendered
/// as lowercase hexadecimal.
pub open spec fn task_id_seq(
    url: Seq<char>,
    digest: Option<Seq<char>>,
    tag: Option<Seq<char>>,
    application: Option<Seq<char>>,
    piece_length: u64,
    keep: Seq<Seq<char>>,
) -> Seq<char> {
    hex_of(
        sha256_of(
            task_preimage(canonical_url_seq(url, keep), digest, tag, application, piece_length),
        ),
    )
}

/// Whether `s` ends with the `"-seed"` suffix.
pub open spec fn ends_with_seed(s: Seq<char>) -> bool {
    s.len() >= 5 && s.subrange(s.len() - 5, s.len() as int) == "-seed"@
}

/// The host identifier is pure: equal host identities always render to equal
/// identifiers, in any process at any time.
pub proof fn lemma_host_id_pure(h1: HostIdentity, h2: HostIdentity)
    ensures
        h1 == h2 ==> host_id_seq(h1) == host_id_seq(h2),
{
}

/// A seed peer's host identifier always ends with `"-seed"`; a non-seed
/// host's identifier never does, as long as the hostname itself is not
/// `"seed"` and does not end with `"-seed"`.
pub proof fn lemma_host_id_seed_suffix(h: HostIdentity)
    ensures
        h.is_seed_peer ==> ends_with_seed(host_id_seq(h)),
        (!h.is_seed_peer && !ends_with_seed(h.hostname) && h.hostname != "seed"@)
            ==> !ends_with_seed(host_id_seq(h)),
{
    reveal_strlit("-");
    reveal_strlit("seed");
    reveal_strlit("-seed");
    let s = host_id_seq(h);
    if h.is_seed_peer {
        assert(s.subrange(s.len() - 5, s.len() as int) =~= "-seed"@);
    } else if !ends_with_seed(h.hostname) && h.hostname != "seed"@ {
        if ends_with_seed(s) {
            let hn = h.hostname.len() as int;
            let ip = h.ip.len() as int;
            let l = s.len() as int;
            if hn >= 5 {
                assert(h.hostname.subrange(hn - 5, hn) =~= s.subrange(l - 5, l));
                assert(ends_with_seed(h.hostname));
            } else if hn == 4 {
                assert(h.hostname =~= s.subrange(l - 5, l).subrange(1, 5));
                assert("seed"@ =~= "-seed"@.subrange(1, 5));
            } else {
                assert(s[ip] == '-');
                assert(s[ip] == s.subrange(l - 5, l)[4 - hn]);
                assert(s.subrange(l - 5, l)[4 - hn] == "-seed"@[4 - hn]);
            }
            assert(false);
        }
    }
}

/// The task identifier is deterministic: equal inputs always yield equal
/// identifiers, in any process at any time.
pub proof fn lemma_task_id_deterministic(
    u1: Seq<char>,
    u2: Seq<char>,
    digest1: Option<Seq<char>>,
    digest2: Option<Seq<char>>,
    tag1: Option<Seq<char>>,
    tag2: Option<Seq<char>>,
    application1: Option<Seq<char>>,
    application2: Option<Seq<char>>,
    piece_length1: u64,
    piece_length2: u64,
    keep1: Seq<Seq<char>>,
    keep2: Seq<Seq<char>>,
)
    ensures
        (u1 == u2 && digest1 == digest2 && tag1 == tag2 && application1 == application2
            && piece_length1 == piece_length2 && keep1 == keep2) ==> task_id_seq(
            u1,
            digest1,
            tag1,
            application1,
            piece_length1,
            keep1,
        ) == task_id_seq(u2, digest2, tag2, application2, piece_length2, keep2),
{
}

/// Changing the piece length while holding everything else fixed changes the
/// hash pre-image of the task identifier.
pub proof fn lemma_task_preimage_piece_length_sensitive(
    canon: Seq<char>,
    digest: Option<Seq<char>>,
    tag: Option<Seq<char>>,
    application: Option<Seq<char>>,
    piece_length1: u64,
    piece_length2: u64,
)
    ensures
        piece_length1 != piece_length2 ==> task_preimage(
            canon,
            digest,
            tag,
            application,
            piece_length1,
        ) != task_preimage(canon, digest, tag, application, piece_length2),
{
    if piece_length1 != piece_length2 {
        lemma_dec_of_injective(piece_length1 as nat, piece_length2 as nat);
        let prefix = canon + opt_part(digest) + opt_part(tag) + opt_part(application);
        let a = task_preimage(canon, digest, tag, application, piece_length1);
        let b = task_preimage(canon, digest, tag, application, piece_length2);
        if a == b {
            assert(a.subrange(prefix.len() as int, a.len() as int) =~= dec_of(
                piece_length1 as nat,
            ));
            assert(b.subrange(prefix.len() as int, b.len() as int) =~= dec_of(
                piece_length2 as nat,
            ));
            assert(false);
        }
    }
}

/// Task identity ignores insignificant query parameters: two URLs that agree
/// on their non-query parts and on their significant query pairs yield the
/// same task identifier.
pub proof fn lemma_task_id_query_insensitive(
    u1: Seq<char>,
    u2: Seq<char>,
    digest: Option<Seq<char>>,
    tag: Option<Seq<char>>,
    application: Option<Seq<char>>,
    piece_length: u64,
    keep: Seq<Seq<char>>,
)
    ensures
        (url_base(u1) == url_base(u2) && significant_pairs(url_query_pairs(u1), keep)
            == significant_pairs(url_query_pairs(u2), keep)) ==> task_id_seq(
            u1,
            digest,
            tag,
            application,
            piece_length,
            keep,
        ) == task_id_seq(u2, digest, tag, application, piece_length, keep),
{
}

impl IDGenerator {
    /// Builds a generator over the given host identity.
    pub fn new(ip: String, hostname: String, is_seed_peer: bool) -> (r: IDGenerator)
        ensures
            r@ == (HostIdentity { ip: ip@, hostname: hostname@, is_seed_peer }),
    {
        IDGenerator { ip, hostname, is_seed_peer }
    }

    /// Renders the host identifier. Pure: the result is a function of the
    /// host identity alone.
    pub fn host_id(&self) -> (r: String)
        ensures
            r@ == host_id_seq(self@),
    {
        let mut s = self.ip.clone();
        s.append("-");
        s.append(self.hostname.as_str());
        if self.is_seed_peer {
            s.append("-");
            s.append("seed");
        }
        s
    }

    /// Derives the task identifier for a download target.
    ///
    /// The URL is canonicalized by keeping only the query parameters named in
    /// `significant_query_params` (in their original order); the canonical
    /// URL, the present optional fields and the decimal piece length feed a
    /// SHA-256 digest, returned as a 64-character lowercase hexadecimal
    /// string. A string the URL parser rejects yields a parse-classified
    /// error carrying the parser's rendered cause.
    pub fn task_id(
        &self,
        url: &str,
        digest: Option<&str>,
        tag: Option<&str>,
        application: Option<&str>,
        piece_length: u64,
        significant_query_params: Vec<String>,
    ) -> (r: Result<String, DFError>)
        ensures
            r is Ok <==> url_parse_ok(url@),
            r is Ok ==> r->Ok_0@ == task_id_seq(
                url@,
                opt_str_view(digest),
                opt_str_view(tag),
                opt_str_view(application),
                piece_length,
                str_views(significant_query_params@),
            ),
            r is Ok ==> r->Ok_0@.len() == 64,
            r is Ok ==> forall|i: int|
                0 <= i < 64 ==> is_lower_hex_char(#[trigger] r->Ok_0@[i]),
            r is Err ==> (r->Err_0 matches DFError::ExternalError(e) && e.etype
                == ErrorType::ParseError && e.cause is Some),
    {
        let pairs = match parse_query_pairs(url) {
            Ok(pairs) => pairs,
            Err(cause) => {
                return Err(
                    DFError::from_external(
                        ExternalError::new(ErrorType::ParseError).with_cause(cause),
                    ),
                );
            },
        };
        let kept = filter_significant(pairs, &significant_query_params);
        let mut input = match rebuild_with_pairs(url, &kept) {
            Ok(canon) => canon,
            Err(cause) => {
                return Err(
                    DFError::from_external(
                        ExternalError::new(ErrorType::ParseError).with_cause(cause),
                    ),
                );
            },
        };
        let ghost canon_seq = input@;
        if let Some(d) = digest {
            input.append(d);
        }
        if let Some(t) = tag {
            input.append(t);
        }
        if let Some(a) = application {
            input.append(a);
        }
        let piece_length_dec = u64_to_dec(piece_length);
        input.append(piece_length_dec.as_str());
        proof {
            assert(canon_seq == canonical_url_seq(url@, str_views(significant_query_params@)));
            assert(input@ =~= task_preimage(
                canon_seq,
                opt_str_view(digest),
                opt_str_view(tag),
                opt_str_view(application),
                piece_length,
            ));
        }
        let digest_bytes = sha256_digest(input.as_str());
        let hex_string = hex_encode(&digest_bytes);
        proof {
            lemma_hex_of_shape(digest_bytes@);
        }
        Ok(hex_string)
    }

    /// Derives a fresh peer identifier. The result always begins with
    /// `"{ip}-{hostname}-"`; what follows is a freshly drawn version-4
    /// unique identifier (so repeated calls differ with overwhelming
    /// probability), and a seed peer's identifier additionally ends with
    /// `"-seed"`.
    pub fn peer_id(&self) -> (r: String)
        ensures
            exists|u: Seq<char>|
                #[trigger] is_uuid_v4_text(u) && r@ == peer_id_seq(self@, u),
            r@.len() >= self@.ip.len() + self@.hostname.len() + 2,
            r@.subrange(0, (self@.ip.len() + self@.hostname.len() + 2) as int) == self@.ip + "-"@
                + self@.hostname + "-"@,
    {
        let mut s = self.ip.clone();
        s.append("-");
        s.append(self.hostname.as_str());
        s.append("-");
        let ghost prefix = s@;
        let fresh = fresh_uuid_string();
        s.append(fresh.as_str());
        if self.is_seed_peer {
            s.append("-");
            s.append("seed");
        }
        proof {
            reveal_strlit("-");
            assert(is_uuid_v4_text(fresh@) && s@ == peer_id_seq(self@, fresh@));
            assert(s@.subrange(0, (self@.ip.len() + self@.hostname.len() + 2) as int)
                =~= prefix);
        }
        s
    }
}

} // verus!

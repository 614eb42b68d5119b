//! Site-wide federation policy and the checks on single fields of an
//! envelope: identifier validity, public addressing, matching identifiers.

use vstd::prelude::*;
use vstd::string::*;
use crate::error::ApubError;
use crate::iri::{ends_with, is_parse_of, parsed_url, public, public_text, Iri};

verus! {

/// What this server federates with.
#[derive(Clone, Debug, PartialEq, Eq)]
pub struct SitePolicy {
    /// This server's own host name.
    pub hostname: String,
    /// The scheme under which federation runs, such as `https`.
    pub protocol: String,
    pub federation_enabled: bool,
    /// Domains from which nothing is accepted.
    pub blocked: Vec<String>,
    /// If present, the only domains from which anything is accepted.
    pub allowed: Option<Vec<String>>,
}

/// The discriminant tag of an activity.
#[derive(Clone, Copy, Debug, PartialEq, Eq, Structural)]
pub enum ActivityKind {
    Add,
    Remove,
    Like,
    Dislike,
    Undo,
    Announce,
}

/// `name` is one of the strings of `list`.
pub open spec fn lists(list: Seq<String>, name: Seq<char>) -> bool {
    exists|i: int| 0 <= i < list.len() && #[trigger] list[i]@ == name
}

/// `key` is one of the identifiers of `list`.
pub open spec fn addresses(list: Seq<Iri>, key: Seq<char>) -> bool {
    exists|i: int| 0 <= i < list.len() && #[trigger] list[i]@ == key
}

/// At least one of the two addressing lists names the public address.
pub open spec fn is_public(to: Seq<Iri>, cc: Seq<Iri>) -> bool {
    addresses(to, public_text()) || addresses(cc, public_text())
}

/// The path segment that follows a community's identifier in the
/// identifier of its moderator list.
pub open spec fn moderators_suffix() -> Seq<char> {
    "/moderators"@
}

/// The community whose moderator list `target` is: `target` without the
/// moderator-list suffix, parsed.
pub open spec fn moderated_community(target: Seq<char>) -> Result<Seq<char>, ApubError> {
    if !ends_with(target, moderators_suffix()) {
        Err(ApubError::NotAuthorized)
    } else {
        match parsed_url(target.subrange(0, target.len() - moderators_suffix().len())) {
            Some(parts) => Ok(parts.0),
            None => Err(ApubError::MalformedEnvelope),
        }
    }
}

/// `target` is the moderator list of `community`.
pub open spec fn is_moderators_url_of(target: Seq<char>, community: Seq<char>) -> bool {
    parsed_url(community + moderators_suffix()) matches Some(parts) && parts.0 == target
}

impl ActivityKind {
    /// The kind as it appears in the path of an activity identifier.
    pub open spec fn path_name(self) -> Seq<char> {
        match self {
            ActivityKind::Add => "add"@,
            ActivityKind::Remove => "remove"@,
            ActivityKind::Like => "like"@,
            ActivityKind::Dislike => "dislike"@,
            ActivityKind::Undo => "undo"@,
            ActivityKind::Announce => "announce"@,
        }
    }

    /// The kind as it appears in the path of an activity identifier.
    pub fn as_path(self) -> (r: &'static str)
        ensures
            r@ == self.path_name(),
    {
        match self {
            ActivityKind::Add => "add",
            ActivityKind::Remove => "remove",
            ActivityKind::Like => "like",
            ActivityKind::Dislike => "dislike",
            ActivityKind::Undo => "undo",
            ActivityKind::Announce => "announce",
        }
    }
}

impl SitePolicy {
    /// Whether an activity with identifier `id` may come in: the
    /// identifier has a domain other than this server's own, federation is
    /// on, the scheme is the site's, the domain is not blocked and, where
    /// an allow list exists, is on it.
    pub open spec fn admits(&self, id: Iri) -> bool {
        match id.domain_view() {
            None => false,
            Some(domain) => {
                &&& domain != self.hostname@
                &&& self.federation_enabled
                &&& id.scheme_view() == self.protocol@
                &&& !lists(self.blocked@, domain)
                &&& (self.allowed matches Some(allowed) ==> lists(allowed@, domain))
            },
        }
    }

    /// The text of the identifier of a new activity of kind `kind` minted
    /// here with the fresh token `token`.
    pub open spec fn activity_id_text(&self, kind: ActivityKind, token: Seq<char>) -> Seq<char> {
        self.protocol@ + "://"@ + self.hostname@ + "/activities/"@ + kind.path_name() + "/"@ + token
    }
}

/// Whether `name` is one of the strings of `list`.
fn listed(list: &Vec<String>, name: &String) -> (r: bool)
    ensures
        r == lists(list@, name@),
{
    let mut i: usize = 0;
    while i < list.len()
        invariant
            i <= list.len(),
            forall|j: int| 0 <= j < i ==> #[trigger] list@[j]@ != name@,
        decreases list.len() - i,
    {
        if list[i] == *name {
            return true;
        }
        i += 1;
    }
    false
}

/// Whether `key` is one of the identifiers of `list`.
pub fn contains_iri(list: &Vec<Iri>, key: &Iri) -> (r: bool)
    ensures
        r == addresses(list@, key@),
{
    let mut i: usize = 0;
    while i < list.len()
        invariant
            i <= list.len(),
            forall|j: int| 0 <= j < i ==> #[trigger] list@[j]@ != key@,
        decreases list.len() - i,
    {
        if list[i].same(key) {
            return true;
        }
        i += 1;
    }
    false
}

/// The address that stands for "everyone".
pub fn public_address() -> (r: Iri)
    ensures
        r@ == public_text(),
{
    public()
}

/// Checks the identifier of an inbound activity against the site's policy.
pub fn check_apub_id_valid(id: &Iri, site: &SitePolicy) -> (r: Result<(), ApubError>)
    ensures
        r == if site.admits(*id) {
            Ok::<(), ApubError>(())
        } else {
            Err::<(), ApubError>(ApubError::InvalidIdentity)
        },
{
    let domain = match id.domain() {
        Some(d) => String::from_str(d),
        None => {
            return Err(ApubError::InvalidIdentity);
        },
    };
    if domain == site.hostname {
        return Err(ApubError::InvalidIdentity);
    }
    if !site.federation_enabled {
        return Err(ApubError::InvalidIdentity);
    }
    let scheme = String::from_str(id.scheme());
    if !(scheme == site.protocol) {
        return Err(ApubError::InvalidIdentity);
    }
    if listed(&site.blocked, &domain) {
        return Err(ApubError::InvalidIdentity);
    }
    match &site.allowed {
        Some(allowed) => {
            if !listed(allowed, &domain) {
                return Err(ApubError::InvalidIdentity);
            }
        },
        None => {},
    }
    Ok(())
}

/// Checks that the activity is addressed to the public.
pub fn verify_is_public(to: &Vec<Iri>, cc: &Vec<Iri>) -> (r: Result<(), ApubError>)
    ensures
        r == if is_public(to@, cc@) {
            Ok::<(), ApubError>(())
        } else {
            Err::<(), ApubError>(ApubError::AddressingPolicyViolation)
        },
{
    let everyone = public();
    if contains_iri(to, &everyone) || contains_iri(cc, &everyone) {
        Ok(())
    } else {
        Err(ApubError::AddressingPolicyViolation)
    }
}

/// Checks that a wrapped activity names the same actor as its wrapper.
pub fn verify_urls_match(a: &Iri, b: &Iri) -> (r: Result<(), ApubError>)
    ensures
        r == if a@ == b@ {
            Ok::<(), ApubError>(())
        } else {
            Err::<(), ApubError>(ApubError::ActorMismatch)
        },
{
    if a.same(b) {
        Ok(())
    } else {
        Err(ApubError::ActorMismatch)
    }
}

/// Mints the identifier of a new activity from the site's address, the
/// activity's kind and a token that the caller guarantees to be fresh.
pub fn generate_activity_id(kind: ActivityKind, site: &SitePolicy, token: &str) -> (r: Result<Iri, ApubError>)
    ensures
        is_parse_of(site.activity_id_text(kind, token@), r),
{
    let text = site.protocol.clone().concat("://").concat(site.hostname.as_str()).concat("/activities/").concat(
        kind.as_path(),
    ).concat("/").concat(token);
    Iri::parse(text.as_str())
}

/// The identifier of the moderator list of the community `community_id`.
pub fn generate_moderators_url(community_id: &Iri) -> (r: Result<Iri, ApubError>)
    ensures
        is_parse_of(community_id@ + moderators_suffix(), r),
{
    community_id.join("/moderators")
}

/// The community whose moderator list `target` denotes. A target that is
/// no moderator list is no plausible target of a moderation action.
pub fn community_of_moderators_url(target: &Iri) -> (r: Result<Iri, ApubError>)
    ensures
        match moderated_community(target@) {
            Ok(key) => r matches Ok(community) && community@ == key,
            Err(e) => r == Err::<Iri, ApubError>(e),
        },
{
    match target.strip_suffix("/moderators") {
        Some(Ok(community)) => Ok(community),
        Some(Err(e)) => Err(e),
        None => Err(ApubError::NotAuthorized),
    }
}

/// Checks that `target` is the moderator list of `community`.
pub fn verify_add_remove_moderator_target(target: &Iri, community: &Iri) -> (r: Result<(), ApubError>)
    ensures
        r == if is_moderators_url_of(target@, community@) {
            Ok::<(), ApubError>(())
        } else {
            Err::<(), ApubError>(ApubError::NotAuthorized)
        },
{
    match generate_moderators_url(community) {
        Ok(expected) => {
            if expected.same(target) {
                Ok(())
            } else {
                Err(ApubError::NotAuthorized)
            }
        },
        Err(_) => Err(ApubError::NotAuthorized),
    }
}

} // verus!

//! Registry installs: the receipt metadata that records where an installed
//! skill came from, what it is, and who published it.
use vstd::prelude::*;

use crate::json::{JsonNumber, JsonValue};
use crate::text::{blank_str, is_blank};

verus! {

/// How far the registry trusts a skill's publisher.
#[derive(Clone, Copy, Debug, PartialEq, Eq, Structural)]
pub enum TrustTier {
    FirstParty,
    Verified,
    Community,
}

/// Whether an install wrote the skill or found it in place already.
#[derive(Clone, Copy, Debug, PartialEq, Eq, Structural)]
pub enum InstallStatus {
    Installed,
    Unchanged,
}

/// The reference a caller asked to install.
#[derive(Clone, Debug, PartialEq, Eq)]
pub struct InstallCandidate {
    pub reference: String,
}

/// What installing a skill did.
#[derive(Clone, Debug, PartialEq, Eq)]
pub struct InstallLocalSkillResult {
    pub skill_id: Option<String>,
    pub version: Option<String>,
    pub digest: String,
    pub profile_digest: Option<String>,
    pub trust_tier: Option<TrustTier>,
    pub source_label: String,
    pub destination: String,
    pub status: InstallStatus,
}

/// The publisher of a registry skill.
#[derive(Clone, Debug, PartialEq, Eq)]
pub struct RegistryPublisher {
    pub kind: String,
    pub id: String,
    pub handle: Option<String>,
    pub display_name: Option<String>,
}

/// A skill acquired from a registry: its publisher and install count.
#[derive(Clone, Debug, PartialEq, Eq)]
pub struct AcquiredRegistrySkill {
    pub publisher: RegistryPublisher,
    pub install_count: u64,
}

/// What the install receipt metadata is made from.
#[derive(Clone, Copy, Debug)]
pub struct RegistryInstallMetadataInput<'a> {
    pub candidate: &'a InstallCandidate,
    pub install: &'a InstallLocalSkillResult,
    pub acquisition: Option<&'a AcquiredRegistrySkill>,
}

/// A metadata value as text: a string, a count, or an object of strings.
pub enum MetadataValue {
    Text(Seq<char>),
    Count(u64),
    Object(Seq<(Seq<char>, Seq<char>)>),
    Other,
}

/// The text of a string value; empty for any other.
pub open spec fn text_of(value: JsonValue) -> Seq<char> {
    match value {
        JsonValue::String(s) => s@,
        _ => Seq::empty(),
    }
}

/// A member value as the metadata reads it.
pub open spec fn metadata_value(value: JsonValue) -> MetadataValue {
    match value {
        JsonValue::String(s) => MetadataValue::Text(s@),
        JsonValue::Number(JsonNumber::U64(n)) => MetadataValue::Count(n),
        JsonValue::Object(members) => MetadataValue::Object(
            members@.map_values(|m: (String, JsonValue)| (m.0@, text_of(m.1))),
        ),
        _ => MetadataValue::Other,
    }
}

/// Metadata members as text.
pub open spec fn metadata_view(members: Seq<(String, JsonValue)>) -> Seq<(Seq<char>, MetadataValue)> {
    members.map_values(|m: (String, JsonValue)| (m.0@, metadata_value(m.1)))
}

/// The member `key` of a string that is set and not blank; none otherwise.
pub open spec fn optional_text_member(key: Seq<char>, value: Option<String>) -> Seq<(Seq<char>, MetadataValue)> {
    match value {
        Some(v) => if is_blank(v@) {
            Seq::empty()
        } else {
            seq![(key, MetadataValue::Text(v@))]
        },
        None => Seq::empty(),
    }
}

/// The same, for members of an object of strings.
pub open spec fn optional_text_pair(key: Seq<char>, value: Option<String>) -> Seq<(Seq<char>, Seq<char>)> {
    match value {
        Some(v) => if is_blank(v@) {
            Seq::empty()
        } else {
            seq![(key, v@)]
        },
        None => Seq::empty(),
    }
}

pub open spec fn trust_tier_text(tier: TrustTier) -> Seq<char> {
    match tier {
        TrustTier::FirstParty => "first_party"@,
        TrustTier::Verified => "verified"@,
        TrustTier::Community => "community"@,
    }
}

pub open spec fn install_status_text(status: InstallStatus) -> Seq<char> {
    match status {
        InstallStatus::Installed => "installed"@,
        InstallStatus::Unchanged => "unchanged"@,
    }
}

/// The members that describe a publisher: kind and id, then handle and
/// display name where they are set and not blank.
pub open spec fn publisher_members(publisher: RegistryPublisher) -> Seq<(Seq<char>, Seq<char>)> {
    seq![("kind"@, publisher.kind@), ("id"@, publisher.id@)] + optional_text_pair(
        "handle"@,
        publisher.handle,
    ) + optional_text_pair("display_name"@, publisher.display_name)
}

/// The install receipt metadata, member by member: the reference, the
/// skill's id, version, digest, profile digest and trust tier; the publisher
/// and install count of an acquired skill; then the source, destination and
/// status of the install. Optional strings that are unset or blank are left
/// out.
pub open spec fn install_metadata(
    candidate: InstallCandidate,
    install: InstallLocalSkillResult,
    acquisition: Option<AcquiredRegistrySkill>,
) -> Seq<(Seq<char>, MetadataValue)> {
    seq![("ref"@, MetadataValue::Text(candidate.reference@))] + optional_text_member(
        "skill_id"@,
        install.skill_id,
    ) + optional_text_member("version"@, install.version) + seq![
        ("digest"@, MetadataValue::Text(install.digest@)),
    ] + optional_text_member("profile_digest"@, install.profile_digest) + match install.trust_tier {
        Some(t) => seq![("trust_tier"@, MetadataValue::Text(trust_tier_text(t)))],
        None => Seq::empty(),
    } + match acquisition {
        Some(a) => seq![
            ("publisher"@, MetadataValue::Object(publisher_members(a.publisher))),
            ("install_count"@, MetadataValue::Count(a.install_count)),
        ],
        None => Seq::empty(),
    } + seq![
        ("source_label"@, MetadataValue::Text(install.source_label@)),
        ("destination"@, MetadataValue::Text(install.destination@)),
        ("status"@, MetadataValue::Text(install_status_text(install.status))),
    ]
}

fn push_text(members: &mut Vec<(String, JsonValue)>, key: &str, value: &str)
    ensures
        metadata_view(final(members)@) == metadata_view(old(members)@).push(
            (key@, MetadataValue::Text(value@)),
        ),
{
    let ghost before = members@;
    members.push((key.to_owned(), JsonValue::String(value.to_owned())));
    assert(metadata_view(members@) =~= metadata_view(before).push(
        (key@, MetadataValue::Text(value@)),
    ));
}

fn push_optional_text(members: &mut Vec<(String, JsonValue)>, key: &str, value: &Option<String>)
    ensures
        metadata_view(final(members)@) == metadata_view(old(members)@) + optional_text_member(
            key@,
            *value,
        ),
{
    match value {
        Some(v) => {
            if !blank_str(v.as_str()) {
                push_text(members, key, v.as_str());
            } else {
                assert(metadata_view(members@) =~= metadata_view(members@) + Seq::empty());
            }
        },
        None => {
            assert(metadata_view(members@) =~= metadata_view(members@) + Seq::empty());
        },
    }
}

fn push_pair(members: &mut Vec<(String, JsonValue)>, key: &str, value: &str)
    ensures
        final(members)@.map_values(|m: (String, JsonValue)| (m.0@, text_of(m.1))) == old(
            members,
        )@.map_values(|m: (String, JsonValue)| (m.0@, text_of(m.1))).push((key@, value@)),
{
    let ghost before = members@;
    members.push((key.to_owned(), JsonValue::String(value.to_owned())));
    assert(members@.map_values(|m: (String, JsonValue)| (m.0@, text_of(m.1))) =~= before.map_values(
        |m: (String, JsonValue)| (m.0@, text_of(m.1)),
    ).push((key@, value@)));
}

fn push_optional_pair(members: &mut Vec<(String, JsonValue)>, key: &str, value: &Option<String>)
    ensures
        final(members)@.map_values(|m: (String, JsonValue)| (m.0@, text_of(m.1))) == old(
            members,
        )@.map_values(|m: (String, JsonValue)| (m.0@, text_of(m.1))) + optional_text_pair(
            key@,
            *value,
        ),
{
    let ghost before = members@.map_values(|m: (String, JsonValue)| (m.0@, text_of(m.1)));
    match value {
        Some(v) => {
            if !blank_str(v.as_str()) {
                push_pair(members, key, v.as_str());
            } else {
                assert(before =~= before + Seq::empty());
            }
        },
        None => {
            assert(before =~= before + Seq::empty());
        },
    }
}

/// The members that describe a publisher.
fn publisher_metadata(publisher: &RegistryPublisher) -> (r: Vec<(String, JsonValue)>)
    ensures
        r@.map_values(|m: (String, JsonValue)| (m.0@, text_of(m.1))) == publisher_members(
            *publisher,
        ),
{
    let mut members: Vec<(String, JsonValue)> = Vec::new();
    assert(members@.map_values(|m: (String, JsonValue)| (m.0@, text_of(m.1))) =~= Seq::<
        (Seq<char>, Seq<char>),
    >::empty());
    push_pair(&mut members, "kind", publisher.kind.as_str());
    push_pair(&mut members, "id", publisher.id.as_str());
    push_optional_pair(&mut members, "handle", &publisher.handle);
    push_optional_pair(&mut members, "display_name", &publisher.display_name);
    proof {
        reveal_strlit("kind");
        reveal_strlit("id");
        reveal_strlit("handle");
        reveal_strlit("display_name");
        assert(members@.map_values(|m: (String, JsonValue)| (m.0@, text_of(m.1))) =~= publisher_members(
            *publisher,
        ));
    }
    members
}

fn trust_tier_value(tier: TrustTier) -> (r: &'static str)
    ensures
        r@ == trust_tier_text(tier),
{
    match tier {
        TrustTier::FirstParty => "first_party",
        TrustTier::Verified => "verified",
        TrustTier::Community => "community",
    }
}

/// The metadata that an install receipt records of a registry install.
pub fn registry_install_receipt_metadata(input: RegistryInstallMetadataInput<'_>) -> (r: Vec<
    (String, JsonValue),
>)
    ensures
        metadata_view(r@) == install_metadata(
            *input.candidate,
            *input.install,
            match input.acquisition {
                Some(a) => Some(*a),
                None => None,
            },
        ),
{
    let install = input.install;
    let mut members: Vec<(String, JsonValue)> = Vec::new();
    let ghost start = metadata_view(members@);
    assert(start =~= Seq::<(Seq<char>, MetadataValue)>::empty());
    push_text(&mut members, "ref", input.candidate.reference.as_str());
    push_optional_text(&mut members, "skill_id", &install.skill_id);
    push_optional_text(&mut members, "version", &install.version);
    push_text(&mut members, "digest", install.digest.as_str());
    push_optional_text(&mut members, "profile_digest", &install.profile_digest);
    let ghost head = metadata_view(members@);
    match install.trust_tier {
        Some(t) => push_text(&mut members, "trust_tier", trust_tier_value(t)),
        None => {},
    }
    let ghost tiered = metadata_view(members@);
    assert(tiered == head + match install.trust_tier {
        Some(t) => seq![("trust_tier"@, MetadataValue::Text(trust_tier_text(t)))],
        None => Seq::empty(),
    });
    match input.acquisition {
        Some(a) => {
            let ghost before = members@;
            let publisher = publisher_metadata(&a.publisher);
            members.push(("publisher".to_owned(), JsonValue::Object(publisher)));
            members.push(
                ("install_count".to_owned(), JsonValue::Number(JsonNumber::U64(a.install_count))),
            );
            proof {
                reveal_strlit("publisher");
                reveal_strlit("install_count");
                assert(metadata_view(members@) =~= metadata_view(before) + seq![
                    ("publisher"@, MetadataValue::Object(publisher_members(a.publisher))),
                    ("install_count"@, MetadataValue::Count(a.install_count)),
                ]);
            }
        },
        None => {},
    }
    let ghost acquired = metadata_view(members@);
    push_text(&mut members, "source_label", install.source_label.as_str());
    push_text(&mut members, "destination", install.destination.as_str());
    let status = match install.status {
        InstallStatus::Installed => "installed",
        InstallStatus::Unchanged => "unchanged",
    };
    push_text(&mut members, "status", status);
    proof {
        reveal_strlit("ref");
        reveal_strlit("skill_id");
        reveal_strlit("version");
        reveal_strlit("digest");
        reveal_strlit("profile_digest");
        reveal_strlit("trust_tier");
        reveal_strlit("source_label");
        reveal_strlit("destination");
        reveal_strlit("status");
        reveal_strlit("installed");
        reveal_strlit("unchanged");
        let acquisition = match input.acquisition {
            Some(a) => Some(*a),
            None => None,
        };
        let expected = install_metadata(*input.candidate, *input.install, acquisition);
        assert(metadata_view(members@) =~= acquired + seq![
            ("source_label"@, MetadataValue::Text(install.source_label@)),
            ("destination"@, MetadataValue::Text(install.destination@)),
            ("status"@, MetadataValue::Text(install_status_text(install.status))),
        ]);
        assert(metadata_view(members@) =~= expected);
    }
    members
}

} // verus!

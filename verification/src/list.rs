//! Listing the authoring primitives of a project: tools, skills, graphs,
//! packets and overlays. The library decides what an item says and in which
//! order items come; walking the project's directories is the caller's part.
use vstd::prelude::*;

use crate::records::KeyedRecords;
use crate::sorting::{SortOrder, chars_lt, lemma_chars_lt_strict, lemma_chars_lt_total, str_less};
use crate::text::{
    char_index_from, ends_with, ends_with_chars, find_char_from, rfind, rfind_chars, slice_of,
    chars_of, is_blank, lemma_char_index_from, split_once_at, split_once_char, str_eq, string_of,
    strip_prefix, strip_prefix_chars, trim, trim_chars,
};

verus! {

/// The kind of a listed item.
#[derive(Clone, Copy, Debug, PartialEq, Eq, Structural)]
pub enum RunxListItemKind {
    Tool,
    Skill,
    Graph,
    Packet,
    Overlay,
}

/// Where a listed item comes from.
#[derive(Clone, Copy, Debug, PartialEq, Eq, Structural)]
pub enum RunxListSource {
    Local,
    Workspace,
    Dependencies,
    BuiltIn,
}

/// Whether a listed item is valid.
#[derive(Clone, Copy, Debug, PartialEq, Eq, Structural)]
pub enum RunxListStatus {
    Valid,
    Invalid,
}

/// A packet that an item emits, under an output name.
#[derive(Clone, Debug, PartialEq, Eq)]
pub struct RunxListEmit {
    pub name: String,
    pub packet: Option<String>,
}

/// A listed item.
#[derive(Clone, Debug, PartialEq, Eq)]
pub struct RunxListItem {
    pub kind: RunxListItemKind,
    pub name: String,
    pub source: RunxListSource,
    pub path: String,
    pub status: RunxListStatus,
    pub diagnostics: Option<Vec<String>>,
    pub scopes: Option<Vec<String>>,
    pub emits: Option<Vec<RunxListEmit>>,
    pub fixtures: Option<u64>,
    pub harness_cases: Option<u64>,
    pub steps: Option<u64>,
    pub wraps: Option<String>,
}

/// The rank of a source in a listing.
pub open spec fn source_rank(source: RunxListSource) -> u8 {
    match source {
        RunxListSource::Local => 0,
        RunxListSource::Workspace => 1,
        RunxListSource::Dependencies => 2,
        RunxListSource::BuiltIn => 3,
    }
}

/// The rank of a kind in a listing.
pub open spec fn kind_rank(kind: RunxListItemKind) -> u8 {
    match kind {
        RunxListItemKind::Tool => 0,
        RunxListItemKind::Skill => 1,
        RunxListItemKind::Graph => 2,
        RunxListItemKind::Packet => 3,
        RunxListItemKind::Overlay => 4,
    }
}

/// The rank of a source in a listing.
pub fn source_order(source: RunxListSource) -> (r: u8)
    ensures
        r == source_rank(source),
{
    match source {
        RunxListSource::Local => 0,
        RunxListSource::Workspace => 1,
        RunxListSource::Dependencies => 2,
        RunxListSource::BuiltIn => 3,
    }
}

/// The rank of a kind in a listing.
pub fn kind_order(kind: RunxListItemKind) -> (r: u8)
    ensures
        r == kind_rank(kind),
{
    match kind {
        RunxListItemKind::Tool => 0,
        RunxListItemKind::Skill => 1,
        RunxListItemKind::Graph => 2,
        RunxListItemKind::Packet => 3,
        RunxListItemKind::Overlay => 4,
    }
}

impl View for RunxListItem {
    type V = (u8, u8, Seq<char>);

    /// What orders an item: its source's rank, its kind's rank, its name.
    open spec fn view(&self) -> (u8, u8, Seq<char>) {
        (source_rank(self.source), kind_rank(self.kind), self.name@)
    }
}

impl SortOrder for RunxListItem {
    /// By source, then kind, then name.
    open spec fn before(a: (u8, u8, Seq<char>), b: (u8, u8, Seq<char>)) -> bool {
        a.0 < b.0 || (a.0 == b.0 && (a.1 < b.1 || (a.1 == b.1 && chars_lt(a.2, b.2))))
    }

    proof fn lemma_strict_weak_order(
        a: (u8, u8, Seq<char>),
        b: (u8, u8, Seq<char>),
        c: (u8, u8, Seq<char>),
    ) {
        lemma_chars_lt_strict(a.2, b.2, c.2);
        lemma_chars_lt_strict(c.2, b.2, a.2);
        lemma_chars_lt_strict(b.2, a.2, c.2);
        lemma_chars_lt_strict(b.2, c.2, a.2);
        lemma_chars_lt_strict(a.2, c.2, b.2);
        lemma_chars_lt_strict(c.2, a.2, b.2);
        lemma_chars_lt_total(a.2, b.2);
        lemma_chars_lt_total(b.2, c.2);
        lemma_chars_lt_total(a.2, c.2);
    }

    fn is_before(&self, other: &Self) -> (r: bool) {
        let a_source = source_order(self.source);
        let b_source = source_order(other.source);
        let a_kind = kind_order(self.kind);
        let b_kind = kind_order(other.kind);
        a_source < b_source || (a_source == b_source && (a_kind < b_kind || (a_kind == b_kind
            && str_less(self.name.as_str(), other.name.as_str()))))
    }
}

/// Orders listed items by source, then kind, then name, keeping the order of
/// items that tie; the result holds the given items themselves, each as often
/// as it was given.
pub fn sort_list_items(items: Vec<RunxListItem>) -> (r: Vec<RunxListItem>)
    ensures
        crate::sorting::is_stable_sort::<RunxListItem>(
            crate::sorting::views(items@),
            crate::sorting::views(r@),
        ),
        r@.to_multiset() == items@.to_multiset(),
        crate::sorting::is_stable_sort_of(items@, r@),
{
    crate::sorting::stable_sort(items)
}

/// An item that could not be read: local, invalid, with one diagnostic.
pub fn invalid_item(kind: RunxListItemKind, name: String, path: String, diagnostic: &str) -> (r:
    RunxListItem)
    ensures
        r.kind == kind && r.name@ == name@ && r.path@ == path@ && r.source
            == RunxListSource::Local && r.status == RunxListStatus::Invalid,
        r.diagnostics matches Some(d) && d@.len() == 1 && d@[0]@ == diagnostic@,
        r.scopes is None && r.emits is None && r.fixtures is None && r.harness_cases is None
            && r.steps is None && r.wraps is None,
{
    let mut diagnostics: Vec<String> = Vec::new();
    diagnostics.push(String::from_str(diagnostic));
    RunxListItem {
        kind,
        name,
        source: RunxListSource::Local,
        path,
        status: RunxListStatus::Invalid,
        diagnostics: Some(diagnostics),
        scopes: None,
        emits: None,
        fixtures: None,
        harness_cases: None,
        steps: None,
        wraps: None,
    }
}

// ---------------------------------------------------------------------------
// Overlays
// ---------------------------------------------------------------------------

/// What a line of an overlay profile wraps: `wraps: <skill>` with surrounding
/// whitespace, and a skill that is not blank.
pub open spec fn line_wraps(line: Seq<char>) -> Option<Seq<char>> {
    match strip_prefix(trim(line), "wraps:"@) {
        Some(rest) => if trim(rest).len() > 0 {
            Some(trim(rest))
        } else {
            None
        },
        None => None,
    }
}

/// What an overlay profile wraps: the first of its lines that says.
pub open spec fn overlay_wraps_spec(contents: Seq<char>) -> Option<Seq<char>>
    decreases contents.len(),
{
    match split_once_char(contents, '\n') {
        Some((line, rest)) => {
            proof {
                lemma_char_index_from(contents, '\n', 0);
            }
            match line_wraps(line) {
                Some(skill) => Some(skill),
                None => overlay_wraps_spec(rest),
            }
        },
        None => line_wraps(contents),
    }
}

fn line_wraps_exec(line: &Vec<char>) -> (r: Option<Vec<char>>)
    ensures
        match r {
            Some(v) => line_wraps(line@) == Some(v@),
            None => line_wraps(line@) is None,
        },
{
    let trimmed = trim_chars(line);
    let prefix = chars_of("wraps:");
    match strip_prefix_chars(&trimmed, &prefix) {
        Some(rest) => {
            let value = trim_chars(&rest);
            if value.len() > 0 {
                Some(value)
            } else {
                None
            }
        },
        None => None,
    }
}

/// What an overlay profile wraps, from its first `wraps:` line.
pub fn overlay_wraps(contents: &str) -> (r: Option<String>)
    ensures
        match r {
            Some(v) => overlay_wraps_spec(contents@) == Some(v@),
            None => overlay_wraps_spec(contents@) is None,
        },
{
    let mut rest = chars_of(contents);
    loop
        invariant
            overlay_wraps_spec(contents@) == overlay_wraps_spec(rest@),
        decreases rest.len(),
    {
        match split_once_at(&rest, '\n') {
            Some((line, tail)) => {
                proof {
                    lemma_char_index_from(rest@, '\n', 0);
                }
                match line_wraps_exec(&line) {
                    Some(v) => return Some(string_of(&v)),
                    None => {
                        rest = tail;
                    },
                }
            },
            None => {
                return match line_wraps_exec(&rest) {
                    Some(v) => Some(string_of(&v)),
                    None => None,
                };
            },
        }
    }
}

// ---------------------------------------------------------------------------
// Emits
// ---------------------------------------------------------------------------

/// The artifacts that a tool or skill declares: named emits with their
/// packets, or one wrapped output with its packet. Named emits and packets
/// are listed by output name, in name order.
#[derive(Clone, Debug, PartialEq, Eq)]
pub struct SkillArtifactContract {
    pub named_emits: Option<Vec<String>>,
    pub packets: Option<Vec<(String, String)>>,
    pub wrap_as: Option<String>,
    pub packet: Option<String>,
}

/// The packet declared for an output name.
pub open spec fn packet_for(packets: Seq<(String, String)>, name: Seq<char>) -> Option<Seq<char>>
    decreases packets.len(),
{
    if packets.len() == 0 {
        None
    } else if packets[0].0@ == name {
        Some(packets[0].1@)
    } else {
        packet_for(packets.drop_first(), name)
    }
}

/// An emit as text.
pub open spec fn emit_view(emit: RunxListEmit) -> (Seq<char>, Option<Seq<char>>) {
    (
        emit.name@,
        match emit.packet {
            Some(p) => Some(p@),
            None => None,
        },
    )
}

/// What a tool emits: each named emit with its declared packet, or else the
/// wrapped output with the packet.
pub open spec fn tool_emits_spec(artifacts: SkillArtifactContract) -> Seq<
    (Seq<char>, Option<Seq<char>>),
> {
    match artifacts.named_emits {
        Some(names) => names@.map_values(
            |name: String|
                (
                    name@,
                    match artifacts.packets {
                        Some(packets) => packet_for(packets@, name@),
                        None => None,
                    },
                ),
        ),
        None => match artifacts.wrap_as {
            Some(name) => seq![
                (
                    name@,
                    match artifacts.packet {
                        Some(p) => Some(p@),
                        None => None,
                    },
                ),
            ],
            None => Seq::empty(),
        },
    }
}

fn packet_lookup(packets: &Vec<(String, String)>, name: &str) -> (r: Option<String>)
    ensures
        match r {
            Some(p) => packet_for(packets@, name@) == Some(p@),
            None => packet_for(packets@, name@) is None,
        },
{
    let mut i: usize = 0;
    assert(packets@.skip(0) =~= packets@);
    while i < packets.len()
        invariant
            i <= packets.len(),
            packet_for(packets@, name@) == packet_for(packets@.skip(i as int), name@),
        decreases packets.len() - i,
    {
        assert(packets@.skip(i as int)[0] == packets@[i as int]);
        assert(packets@.skip(i as int).drop_first() =~= packets@.skip(i + 1));
        if str_eq(packets[i].0.as_str(), name) {
            return Some(packets[i].1.clone());
        }
        i += 1;
    }
    None
}

/// What a tool emits.
pub fn tool_emits(artifacts: &SkillArtifactContract) -> (r: Vec<RunxListEmit>)
    ensures
        r@.map_values(|e: RunxListEmit| emit_view(e)) == tool_emits_spec(*artifacts),
{
    let mut out: Vec<RunxListEmit> = Vec::new();
    match &artifacts.named_emits {
        Some(names) => {
            let ghost expected = tool_emits_spec(*artifacts);
            let mut i: usize = 0;
            while i < names.len()
                invariant
                    i <= names.len(),
                    artifacts.named_emits == Some(*names),
                    expected == tool_emits_spec(*artifacts),
                    out@.map_values(|e: RunxListEmit| emit_view(e)) == expected.take(i as int),
                decreases names.len() - i,
            {
                let packet = match &artifacts.packets {
                    Some(packets) => packet_lookup(packets, names[i].as_str()),
                    None => None,
                };
                let ghost before = out@;
                out.push(RunxListEmit { name: names[i].clone(), packet });
                assert(out@.map_values(|e: RunxListEmit| emit_view(e)) =~= before.map_values(
                    |e: RunxListEmit| emit_view(e),
                ).push(expected[i as int]));
                assert(expected.take(i + 1) =~= expected.take(i as int).push(expected[i as int]));
                i += 1;
            }
            assert(expected.take(names.len() as int) =~= expected);
        },
        None => {
            match &artifacts.wrap_as {
                Some(name) => {
                    let packet = match &artifacts.packet {
                        Some(p) => Some(p.clone()),
                        None => None,
                    };
                    out.push(RunxListEmit { name: name.clone(), packet });
                },
                None => {},
            }
            assert(out@.map_values(|e: RunxListEmit| emit_view(e)) =~= tool_emits_spec(
                *artifacts,
            ));
        },
    }
    out
}


// ---------------------------------------------------------------------------
// Packets
// ---------------------------------------------------------------------------

/// A packet schema file as the listing read it.
#[derive(Clone, Debug, PartialEq, Eq)]
pub enum PacketFileRead {
    /// The file could not be read.
    Unreadable,
    /// Its text is not a packet schema.
    Invalid,
    /// A schema: its `x-runx-packet-id`, its `$id`, and its text.
    Schema { packet_id: Option<String>, schema_id: Option<String>, source: String },
}

/// A file that a packet glob of `package.json` matched, by its path
/// relative to the project.
#[derive(Clone, Debug, PartialEq, Eq)]
pub struct PacketFile {
    pub relative_path: String,
    pub read: PacketFileRead,
}

/// A packet glob of `package.json` and the files it matched, in order.
#[derive(Clone, Debug, PartialEq, Eq)]
pub struct PacketGlobListing {
    pub glob: String,
    pub files: Vec<PacketFile>,
}

/// What the project's `package.json` held.
#[derive(Clone, Debug, PartialEq, Eq)]
pub enum PackageJsonRead {
    /// There is none.
    Missing,
    /// It is not a package manifest.
    Invalid,
    /// Its `runx.packets` globs, each with the files it matched.
    Packets(Vec<PacketGlobListing>),
}

/// A packet item as text: its name, its path, and its diagnostic where it is
/// invalid.
pub type PacketItemView = (Seq<char>, Seq<char>, Option<Seq<char>>);

/// `item` is the local packet item that `v` describes.
pub open spec fn is_packet_item(item: RunxListItem, v: PacketItemView) -> bool {
    &&& item.kind == RunxListItemKind::Packet
    &&& item.source == RunxListSource::Local
    &&& item.name@ == v.0
    &&& item.path@ == v.1
    &&& item.scopes is None && item.emits is None && item.fixtures is None
    &&& item.harness_cases is None && item.steps is None && item.wraps is None
    &&& match v.2 {
        None => item.status == RunxListStatus::Valid && item.diagnostics is None,
        Some(d) => item.status == RunxListStatus::Invalid && (item.diagnostics matches Some(ds)
            && ds@.len() == 1 && ds@[0]@ == d),
    }
}

/// `items` are the packet items that `views` describe, in order.
pub open spec fn are_packet_items(items: Seq<RunxListItem>, views: Seq<PacketItemView>) -> bool {
    items.len() == views.len() && forall|k: int|
        0 <= k < items.len() ==> is_packet_item(#[trigger] items[k], views[k])
}

/// The id a packet schema declares: `x-runx-packet-id`, else `$id`.
pub open spec fn declared_packet_id(packet_id: Option<String>, schema_id: Option<String>) -> Option<
    Seq<char>,
> {
    match packet_id {
        Some(id) => Some(id@),
        None => match schema_id {
            Some(id) => Some(id@),
            None => None,
        },
    }
}

/// The item of one packet file, given the packets listed so far (id to
/// schema text), and the packets listed after it. A schema whose id was
/// listed before with another text collides; with the same text it is listed
/// again.
pub open spec fn packet_file_step(seen: Map<Seq<char>, Seq<char>>, file: PacketFile) -> (
    PacketItemView,
    Map<Seq<char>, Seq<char>>,
) {
    let path = file.relative_path@;
    match file.read {
        PacketFileRead::Schema { packet_id, schema_id, source } => match declared_packet_id(
            packet_id,
            schema_id,
        ) {
            None => ((path, path, Some("runx.packet.id.mismatch"@)), seen),
            Some(id) => if seen.contains_key(id) && seen[id] != source@ {
                ((id, path, Some("runx.packet.id.collision"@)), seen)
            } else {
                ((id, path, None), seen.insert(id, source@))
            },
        },
        _ => ((path, path, Some("runx.packet.schema.invalid"@)), seen),
    }
}

/// The items of a glob's files, in order, and the packets listed after them.
pub open spec fn packet_files_fold(seen: Map<Seq<char>, Seq<char>>, files: Seq<PacketFile>) -> (
    Seq<PacketItemView>,
    Map<Seq<char>, Seq<char>>,
)
    decreases files.len(),
{
    if files.len() == 0 {
        (Seq::empty(), seen)
    } else {
        let (items, after) = packet_files_fold(seen, files.drop_last());
        let (item, last) = packet_file_step(after, files.last());
        (items.push(item), last)
    }
}

/// The items of one glob: a missing reference where it matched no file.
pub open spec fn packet_glob_items(seen: Map<Seq<char>, Seq<char>>, glob: PacketGlobListing) -> (
    Seq<PacketItemView>,
    Map<Seq<char>, Seq<char>>,
) {
    if glob.files@.len() == 0 {
        (seq![(glob.glob@, "package.json"@, Some("runx.packet.ref.missing"@))], seen)
    } else {
        packet_files_fold(seen, glob.files@)
    }
}

/// The items of the globs, in order, and the packets they listed.
pub open spec fn packet_globs_fold(globs: Seq<PacketGlobListing>) -> (
    Seq<PacketItemView>,
    Map<Seq<char>, Seq<char>>,
)
    decreases globs.len(),
{
    if globs.len() == 0 {
        (Seq::empty(), Map::empty())
    } else {
        let (items, seen) = packet_globs_fold(globs.drop_last());
        let (more, after) = packet_glob_items(seen, globs.last());
        (items + more, after)
    }
}

/// The packet items of a project: none without a `package.json`; one invalid
/// item for a `package.json` that is not a manifest; otherwise one item per
/// glob that matched nothing and one per matched file.
pub open spec fn packet_items_spec(package: PackageJsonRead) -> Seq<PacketItemView> {
    match package {
        PackageJsonRead::Missing => Seq::empty(),
        PackageJsonRead::Invalid => seq![
            ("package.json"@, "package.json"@, Some("runx.packet.package.invalid"@)),
        ],
        PackageJsonRead::Packets(globs) => packet_globs_fold(globs@).0,
    }
}

/// A valid local packet item.
fn packet_item(name: String, path: String) -> (r: RunxListItem)
    ensures
        is_packet_item(r, (name@, path@, None)),
{
    RunxListItem {
        kind: RunxListItemKind::Packet,
        name,
        source: RunxListSource::Local,
        path,
        status: RunxListStatus::Valid,
        diagnostics: None,
        scopes: None,
        emits: None,
        fixtures: None,
        harness_cases: None,
        steps: None,
        wraps: None,
    }
}

fn packet_file_item(seen: &mut KeyedRecords<String>, file: &PacketFile) -> (r: RunxListItem)
    requires
        old(seen).wf(),
    ensures
        final(seen).wf(),
        is_packet_item(r, packet_file_step(old(seen)@, *file).0),
        final(seen)@ == packet_file_step(old(seen)@, *file).1,
{
    proof {
        reveal_strlit("runx.packet.id.mismatch");
        reveal_strlit("runx.packet.id.collision");
        reveal_strlit("runx.packet.schema.invalid");
    }
    let path = &file.relative_path;
    match &file.read {
        PacketFileRead::Schema { packet_id, schema_id, source } => {
            let id: &String = match packet_id {
                Some(id) => id,
                None => match schema_id {
                    Some(id) => id,
                    None => {
                        return invalid_item(
                            RunxListItemKind::Packet,
                            path.clone(),
                            path.clone(),
                            "runx.packet.id.mismatch",
                        );
                    },
                },
            };
            match seen.get(id.as_str()) {
                Some(existing) => {
                    if !str_eq(existing.as_str(), source.as_str()) {
                        return invalid_item(
                            RunxListItemKind::Packet,
                            id.clone(),
                            path.clone(),
                            "runx.packet.id.collision",
                        );
                    }
                    assert(seen@.insert(id@, source@) =~= seen@);
                },
                None => {
                    seen.insert_new(id.clone(), source.clone());
                },
            }
            packet_item(id.clone(), path.clone())
        },
        _ => invalid_item(
            RunxListItemKind::Packet,
            path.clone(),
            path.clone(),
            "runx.packet.schema.invalid",
        ),
    }
}

/// The packet items of a project, from what its `package.json` and packet
/// files held.
pub fn packet_list_items(package: &PackageJsonRead) -> (r: Vec<RunxListItem>)
    ensures
        are_packet_items(r@, packet_items_spec(*package)),
{
    proof {
        reveal_strlit("package.json");
        reveal_strlit("runx.packet.package.invalid");
        reveal_strlit("runx.packet.ref.missing");
    }
    let globs = match package {
        PackageJsonRead::Missing => return Vec::new(),
        PackageJsonRead::Invalid => {
            let mut items: Vec<RunxListItem> = Vec::new();
            items.push(
                invalid_item(
                    RunxListItemKind::Packet,
                    "package.json".to_owned(),
                    "package.json".to_owned(),
                    "runx.packet.package.invalid",
                ),
            );
            return items;
        },
        PackageJsonRead::Packets(globs) => globs,
    };
    let mut items: Vec<RunxListItem> = Vec::new();
    let mut seen: KeyedRecords<String> = KeyedRecords::new();
    let mut g: usize = 0;
    while g < globs.len()
        invariant
            g <= globs@.len(),
            seen.wf(),
            are_packet_items(items@, packet_globs_fold(globs@.take(g as int)).0),
            seen@ == packet_globs_fold(globs@.take(g as int)).1,
        decreases globs.len() - g,
    {
        let glob = &globs[g];
        proof {
            assert(globs@.take(g + 1).drop_last() =~= globs@.take(g as int));
        }
        let ghost prefix = items@;
        let ghost prefix_views = packet_globs_fold(globs@.take(g as int)).0;
        let ghost start = seen@;
        if glob.files.len() == 0 {
            items.push(
                invalid_item(
                    RunxListItemKind::Packet,
                    glob.glob.clone(),
                    "package.json".to_owned(),
                    "runx.packet.ref.missing",
                ),
            );
            proof {
                let more = packet_glob_items(start, *glob).0;
                assert(are_packet_items(items@, prefix_views + more)) by {
                    assert forall|k: int| 0 <= k < items@.len() implies is_packet_item(
                        #[trigger] items@[k],
                        (prefix_views + more)[k],
                    ) by {
                        if k < prefix.len() {
                            assert(items@[k] == prefix[k]);
                        }
                    }
                }
            }
        } else {
            let mut i: usize = 0;
            while i < glob.files.len()
                invariant
                    i <= glob.files@.len(),
                    glob.files@.len() > 0,
                    seen.wf(),
                    are_packet_items(
                        items@,
                        prefix_views + packet_files_fold(start, glob.files@.take(i as int)).0,
                    ),
                    seen@ == packet_files_fold(start, glob.files@.take(i as int)).1,
                decreases glob.files.len() - i,
            {
                let ghost before = items@;
                let ghost before_views = prefix_views + packet_files_fold(
                    start,
                    glob.files@.take(i as int),
                ).0;
                proof {
                    assert(glob.files@.take(i + 1).drop_last() =~= glob.files@.take(i as int));
                }
                let item = packet_file_item(&mut seen, &glob.files[i]);
                items.push(item);
                proof {
                    let after_views = prefix_views + packet_files_fold(
                        start,
                        glob.files@.take(i + 1),
                    ).0;
                    assert(after_views =~= before_views.push(
                        packet_file_step(
                            packet_files_fold(start, glob.files@.take(i as int)).1,
                            glob.files@[i as int],
                        ).0,
                    ));
                    assert forall|k: int| 0 <= k < items@.len() implies is_packet_item(
                        #[trigger] items@[k],
                        after_views[k],
                    ) by {
                        if k < before.len() {
                            assert(items@[k] == before[k]);
                        }
                    }
                }
                i += 1;
            }
            proof {
                assert(glob.files@.take(glob.files@.len() as int) =~= glob.files@);
            }
        }
        g += 1;
    }
    proof {
        assert(globs@.take(globs@.len() as int) =~= globs@);
    }
    items
}


// ---------------------------------------------------------------------------
// Packet globs
// ---------------------------------------------------------------------------

/// How a packet glob of `package.json` picks files: a glob without `*` names
/// one file; otherwise it picks the files of the directory before the first
/// `*` whose paths end with what follows it.
#[derive(Clone, Debug, PartialEq, Eq)]
pub enum LocalGlob {
    Literal(String),
    Suffix { base_dir: String, suffix: String },
}

/// A glob with backslashes read as slashes.
pub open spec fn forward_slashes(s: Seq<char>) -> Seq<char> {
    s.map_values(|c: char| if c == '\\' { '/' } else { c })
}

/// The directory part of a prefix: up to and with its last slash.
pub open spec fn dir_part(base: Seq<char>) -> Seq<char> {
    match rfind(base, seq!['/']) {
        Some(j) => base.subrange(0, j + 1),
        None => Seq::empty(),
    }
}

/// What a glob picks, as text: `(true, glob, "")` for a literal; otherwise
/// `(false, directory, suffix)`.
pub open spec fn local_glob_spec(glob: Seq<char>) -> (bool, Seq<char>, Seq<char>) {
    let normalized = forward_slashes(glob);
    match char_index_from(normalized, '*', 0) {
        None => (true, glob, Seq::empty()),
        Some(star) => (
            false,
            dir_part(normalized.subrange(0, star)),
            normalized.subrange(star + 1, normalized.len() as int),
        ),
    }
}

pub open spec fn local_glob_view(g: LocalGlob) -> (bool, Seq<char>, Seq<char>) {
    match g {
        LocalGlob::Literal(path) => (true, path@, Seq::empty()),
        LocalGlob::Suffix { base_dir, suffix } => (false, base_dir@, suffix@),
    }
}

/// How a packet glob picks files.
pub fn local_glob(glob: &str) -> (r: LocalGlob)
    ensures
        local_glob_view(r) == local_glob_spec(glob@),
{
    let chars = chars_of(glob);
    let mut normalized: Vec<char> = Vec::new();
    let mut i: usize = 0;
    while i < chars.len()
        invariant
            i <= chars@.len(),
            normalized@ == forward_slashes(chars@.take(i as int)),
        decreases chars.len() - i,
    {
        let c = chars[i];
        normalized.push(if c == '\\' { '/' } else { c });
        assert(forward_slashes(chars@.take(i + 1)) =~= forward_slashes(chars@.take(i as int)).push(
            if c == '\\' { '/' } else { c },
        ));
        i += 1;
    }
    assert(chars@.take(chars@.len() as int) =~= chars@);
    match find_char_from(&normalized, '*', 0) {
        None => LocalGlob::Literal(glob.to_owned()),
        Some(star) => {
            let base = slice_of(&normalized, 0, star);
            let slash = vec!['/'];
            let base_dir = match rfind_chars(&base, &slash) {
                Some(j) => slice_of(&base, 0, j + 1),
                None => Vec::new(),
            };
            assert(slash@ =~= seq!['/']);
            let suffix = slice_of(&normalized, star + 1, normalized.len());
            LocalGlob::Suffix { base_dir: string_of(&base_dir), suffix: string_of(&suffix) }
        },
    }
}

/// A directory entry belongs to a glob's files: a file whose path ends with
/// the glob's suffix.
pub fn glob_entry_matches(path: &str, is_file: bool, suffix: &str) -> (b: bool)
    ensures
        b == (is_file && ends_with(path@, suffix@)),
{
    is_file && ends_with_chars(&chars_of(path), &chars_of(suffix))
}

} // verus!

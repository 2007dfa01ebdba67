use runx_runtime::list::{
    glob_entry_matches, invalid_item, local_glob, overlay_wraps, packet_list_items,
    sort_list_items, tool_emits, LocalGlob, PackageJsonRead, PacketFile, PacketFileRead,
    PacketGlobListing, RunxListItem, RunxListItemKind, RunxListSource, RunxListStatus,
    SkillArtifactContract,
};

#[test]
fn overlay_wraps_reads_plain_wraps_line() {
    assert_eq!(
        overlay_wraps("name: demo\n  wraps: vendor/base\n"),
        Some("vendor/base".to_owned())
    );
}

#[test]
fn overlay_wraps_ignores_blank_values_and_takes_the_first() {
    assert_eq!(overlay_wraps("wraps:   \nwraps: a\nwraps: b"), Some("a".to_owned()));
    assert_eq!(overlay_wraps("name: demo\n"), None);
    assert_eq!(overlay_wraps("  wraps: x/y  \r\n"), Some("x/y".to_owned()));
}

fn valid_item(kind: RunxListItemKind, name: &str) -> RunxListItem {
    RunxListItem {
        kind,
        name: name.to_owned(),
        source: RunxListSource::Local,
        path: ".".to_owned(),
        status: RunxListStatus::Valid,
        diagnostics: None,
        scopes: None,
        emits: None,
        fixtures: None,
        harness_cases: None,
        steps: None,
        wraps: None,
    }
}

#[test]
fn sorts_by_kind_then_name() {
    let items = vec![
        valid_item(RunxListItemKind::Packet, "b"),
        valid_item(RunxListItemKind::Tool, "z"),
        valid_item(RunxListItemKind::Tool, "a"),
        valid_item(RunxListItemKind::Skill, "a"),
    ];
    let items = sort_list_items(items);
    assert_eq!(
        items
            .iter()
            .map(|item| (item.kind, item.name.as_str()))
            .collect::<Vec<_>>(),
        vec![
            (RunxListItemKind::Tool, "a"),
            (RunxListItemKind::Tool, "z"),
            (RunxListItemKind::Skill, "a"),
            (RunxListItemKind::Packet, "b"),
        ]
    );
}

#[test]
fn named_emit_lists_only_explicit_packet_binding() {
    let artifacts = SkillArtifactContract {
        named_emits: Some(vec!["plan".to_owned()]),
        packets: Some(vec![("plan".to_owned(), "runx.plan.v1".to_owned())]),
        wrap_as: None,
        packet: None,
    };
    let emits = tool_emits(&artifacts);
    assert_eq!(emits.len(), 1);
    assert_eq!(emits[0].name, "plan");
    assert_eq!(emits[0].packet.as_deref(), Some("runx.plan.v1"));
}

#[test]
fn named_emit_output_name_is_not_reported_as_a_packet() {
    let artifacts = SkillArtifactContract {
        named_emits: Some(vec!["plan".to_owned()]),
        packets: None,
        wrap_as: None,
        packet: None,
    };
    let emits = tool_emits(&artifacts);
    assert_eq!(emits.len(), 1);
    assert_eq!(emits[0].name, "plan");
    assert_eq!(emits[0].packet, None);
}

#[test]
fn wrapped_output_emits_its_packet() {
    let artifacts = SkillArtifactContract {
        named_emits: None,
        packets: None,
        wrap_as: Some("answer".to_owned()),
        packet: Some("runx.answer.v1".to_owned()),
    };
    let emits = tool_emits(&artifacts);
    assert_eq!(emits.len(), 1);
    assert_eq!(emits[0].name, "answer");
    assert_eq!(emits[0].packet.as_deref(), Some("runx.answer.v1"));
}

#[test]
fn invalid_items_carry_one_diagnostic() {
    let item = invalid_item(
        RunxListItemKind::Tool,
        "ns.tool".to_owned(),
        "tools/ns/tool/tool.yaml".to_owned(),
        "runx.tool.manifest.invalid",
    );
    assert_eq!(item.status, RunxListStatus::Invalid);
    assert_eq!(item.diagnostics, Some(vec!["runx.tool.manifest.invalid".to_owned()]));
}

fn schema_file(path: &str, packet_id: Option<&str>, schema_id: Option<&str>, source: &str) -> PacketFile {
    PacketFile {
        relative_path: path.to_owned(),
        read: PacketFileRead::Schema {
            packet_id: packet_id.map(str::to_owned),
            schema_id: schema_id.map(str::to_owned),
            source: source.to_owned(),
        },
    }
}

fn item_summary(items: &[RunxListItem]) -> Vec<(String, String, Option<String>)> {
    items
        .iter()
        .map(|item| {
            (
                item.name.clone(),
                item.path.clone(),
                item.diagnostics.as_ref().map(|d| d[0].clone()),
            )
        })
        .collect()
}

#[test]
fn packet_listing_reports_missing_refs_and_id_collisions() {
    let package = PackageJsonRead::Packets(vec![
        PacketGlobListing { glob: "packets/none/*.json".to_owned(), files: Vec::new() },
        PacketGlobListing {
            glob: "packets/*.schema.json".to_owned(),
            files: vec![
                schema_file("packets/a.schema.json", Some("runx.plan.v1"), None, "{a}"),
                schema_file("packets/b.schema.json", None, Some("runx.plan.v1"), "{b}"),
                schema_file("packets/c.schema.json", None, None, "{c}"),
                PacketFile {
                    relative_path: "packets/d.schema.json".to_owned(),
                    read: PacketFileRead::Unreadable,
                },
                schema_file("packets/e.schema.json", None, Some("runx.plan.v1"), "{a}"),
            ],
        },
    ]);
    let items = packet_list_items(&package);
    let s = |v: &str| v.to_owned();
    assert_eq!(
        item_summary(&items),
        vec![
            (s("packets/none/*.json"), s("package.json"), Some(s("runx.packet.ref.missing"))),
            (s("runx.plan.v1"), s("packets/a.schema.json"), None),
            (s("runx.plan.v1"), s("packets/b.schema.json"), Some(s("runx.packet.id.collision"))),
            (s("packets/c.schema.json"), s("packets/c.schema.json"), Some(s("runx.packet.id.mismatch"))),
            (s("packets/d.schema.json"), s("packets/d.schema.json"), Some(s("runx.packet.schema.invalid"))),
            (s("runx.plan.v1"), s("packets/e.schema.json"), None),
        ]
    );
    assert!(items.iter().all(|item| item.kind == RunxListItemKind::Packet));
    assert_eq!(items[1].status, RunxListStatus::Valid);
}

#[test]
fn packet_listing_without_or_with_invalid_package_json() {
    assert!(packet_list_items(&PackageJsonRead::Missing).is_empty());
    let items = packet_list_items(&PackageJsonRead::Invalid);
    assert_eq!(
        item_summary(&items),
        vec![("package.json".to_owned(), "package.json".to_owned(), Some("runx.packet.package.invalid".to_owned()))]
    );
}

#[test]
fn packet_globs_split_at_the_first_star() {
    assert_eq!(
        local_glob("packets\\sub\\*.schema.json"),
        LocalGlob::Suffix { base_dir: "packets/sub/".to_owned(), suffix: ".schema.json".to_owned() }
    );
    assert_eq!(
        local_glob("*.json"),
        LocalGlob::Suffix { base_dir: String::new(), suffix: ".json".to_owned() }
    );
    assert_eq!(local_glob("packets/plan.json"), LocalGlob::Literal("packets/plan.json".to_owned()));
    assert!(glob_entry_matches("/ws/packets/a.schema.json", true, ".schema.json"));
    assert!(!glob_entry_matches("/ws/packets/a.schema.json", false, ".schema.json"));
    assert!(!glob_entry_matches("/ws/packets/a.json", true, ".schema.json"));
}

#[test]
fn sorting_keeps_each_item_whole() {
    let mut first = valid_item(RunxListItemKind::Packet, "b");
    first.path = "packets/b.json".to_owned();
    let mut second = valid_item(RunxListItemKind::Tool, "a");
    second.path = "tools/a".to_owned();
    let items = sort_list_items(vec![first, second]);
    assert_eq!(items[0].name, "a");
    assert_eq!(items[0].path, "tools/a");
    assert_eq!(items[1].name, "b");
    assert_eq!(items[1].path, "packets/b.json");
}

#[test]
fn items_that_tie_keep_their_order() {
    let mut first = valid_item(RunxListItemKind::Skill, "same");
    first.path = "first".to_owned();
    let mut second = valid_item(RunxListItemKind::Skill, "same");
    second.path = "second".to_owned();
    let tool = valid_item(RunxListItemKind::Tool, "z");
    let items = sort_list_items(vec![first, tool, second]);
    let paths: Vec<&str> = items.iter().skip(1).map(|item| item.path.as_str()).collect();
    assert_eq!(items[0].name, "z");
    assert_eq!(paths, vec!["first", "second"]);
}

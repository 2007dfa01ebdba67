use runx_runtime::export::{
    ambiguous_official_skill_ref, export_skill, include_in_export, official_skill_name,
    skill_ref_candidates, sort_export_skills, unresolved_skill_ref, RunxExportLoadError,
    RunxExportSkillInput,
};

#[test]
fn skill_without_description_gets_the_default() {
    let skill = export_skill("demo".to_owned(), None, Vec::new(), "/s/demo".to_owned());
    assert_eq!(skill.description, "Run this skill through runx governance.");
    let skill = export_skill(
        "demo".to_owned(),
        Some("Says hi".to_owned()),
        vec![("message".to_owned(), RunxExportSkillInput { required: true, description: None })],
        "/s/demo".to_owned(),
    );
    assert_eq!(skill.description, "Says hi");
    assert_eq!(skill.inputs.len(), 1);
}

#[test]
fn internal_skills_are_exported_only_when_named() {
    assert!(include_in_export(false, false));
    assert!(!include_in_export(false, true));
    assert!(include_in_export(true, true));
}

#[test]
fn exported_skills_sort_by_name_stably() {
    let skill = |name: &str, dir: &str| export_skill(name.to_owned(), None, Vec::new(), dir.to_owned());
    let sorted = sort_export_skills(vec![
        skill("zeta", "/1"),
        skill("alpha", "/2"),
        skill("beta", "/3"),
        skill("alpha", "/4"),
    ]);
    let order: Vec<(&str, &str)> =
        sorted.iter().map(|s| (s.name.as_str(), s.abs_dir.as_str())).collect();
    assert_eq!(order, vec![("alpha", "/2"), ("alpha", "/4"), ("beta", "/3"), ("zeta", "/1")]);
}

#[test]
fn skill_references_resolve_under_skills_then_root() {
    assert_eq!(
        skill_ref_candidates("/repo", "echo"),
        vec!["/repo/skills/echo".to_owned(), "/repo/echo".to_owned()]
    );
    assert_eq!(skill_ref_candidates("/repo", "/abs/echo"), vec!["/abs/echo".to_owned()]);
}

#[test]
fn official_names_are_bare_or_runx_prefixed() {
    assert_eq!(official_skill_name("echo-1.0"), Some("echo-1.0".to_owned()));
    assert_eq!(official_skill_name("runx/echo"), Some("echo".to_owned()));
    assert_eq!(official_skill_name("runx/"), None);
    assert_eq!(official_skill_name("./skills/echo"), None);
    assert_eq!(official_skill_name("other/echo"), None);
}

#[test]
fn export_error_messages() {
    assert_eq!(
        unresolved_skill_ref("missing").to_message(),
        "skill reference missing does not resolve to a SKILL.md package"
    );
    assert_eq!(
        ambiguous_official_skill_ref("echo", "/repo/skills/echo"),
        RunxExportLoadError::InvalidArgs(
            "official skill reference echo is ambiguous in /repo/skills/echo; use an explicit skill path"
                .to_owned()
        )
    );
    let io = RunxExportLoadError::Io { context: "read /x".to_owned(), message: "denied".to_owned() };
    assert_eq!(io.to_message(), "read /x: denied");
}

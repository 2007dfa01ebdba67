//! Exporting skills: where a skill reference may point, which skills a
//! catalog export includes, and the exported record of each, in name order.
use vstd::prelude::*;

use crate::receipt_paths::{is_absolute, join_path, path_join};
use crate::sorting::{chars_lt, lemma_chars_lt_strict, lemma_chars_lt_total, str_less, SortOrder};
use crate::text::{
    all_alnum, ascii_alnum, ascii_lowercase, chars_of, concat3, lowercase_ascii, rfind,
    rfind_chars, slice_of, starts_with, string_of, strip_prefix, strip_prefix_chars,
};

verus! {

/// An input of an exported skill.
#[derive(Clone, Debug, PartialEq, Eq)]
pub struct RunxExportSkillInput {
    pub required: bool,
    pub description: Option<String>,
}

/// An exported skill: its name, description, inputs by name, and directory.
#[derive(Clone, Debug)]
pub struct RunxExportSkill {
    pub name: String,
    pub description: String,
    pub inputs: Vec<(String, RunxExportSkillInput)>,
    pub abs_dir: String,
}

/// Why skills could not be exported.
#[derive(Clone, Debug, PartialEq, Eq)]
pub enum RunxExportLoadError {
    InvalidArgs(String),
    Io { context: String, message: String },
    Parse(String),
}

impl RunxExportLoadError {
    /// The error as text: the message, or `<context>: <cause>`.
    pub fn to_message(&self) -> (r: String)
        ensures
            r@ == match self {
                RunxExportLoadError::InvalidArgs(m) => m@,
                RunxExportLoadError::Parse(m) => m@,
                RunxExportLoadError::Io { context, message } => context@ + ": "@ + message@,
            },
    {
        match self {
            RunxExportLoadError::InvalidArgs(m) => m.clone(),
            RunxExportLoadError::Parse(m) => m.clone(),
            RunxExportLoadError::Io { context, message } => concat3(
                context.as_str(),
                ": ",
                message.as_str(),
            ),
        }
    }
}

/// The description of a skill that declares none.
pub open spec fn default_description() -> Seq<char> {
    "Run this skill through runx governance."@
}

/// The exported record of a skill: its declared description, or the
/// default one.
pub fn export_skill(
    name: String,
    description: Option<String>,
    inputs: Vec<(String, RunxExportSkillInput)>,
    abs_dir: String,
) -> (s: RunxExportSkill)
    ensures
        s.name@ == name@,
        s.description@ == match description {
            Some(d) => d@,
            None => default_description(),
        },
        s.inputs@ == inputs@,
        s.abs_dir@ == abs_dir@,
{
    let description = match description {
        Some(d) => d,
        None => "Run this skill through runx governance.".to_owned(),
    };
    RunxExportSkill { name, description, inputs, abs_dir }
}

/// A discovered skill is exported unless its runner manifest marks it
/// internal; an explicitly named skill is always exported.
pub fn include_in_export(explicit: bool, internal: bool) -> (b: bool)
    ensures
        b == (explicit || !internal),
{
    explicit || !internal
}

impl View for RunxExportSkill {
    type V = Seq<char>;

    open spec fn view(&self) -> Seq<char> {
        self.name@
    }
}

impl SortOrder for RunxExportSkill {
    /// By name.
    open spec fn before(a: Seq<char>, b: Seq<char>) -> bool {
        chars_lt(a, b)
    }

    proof fn lemma_strict_weak_order(a: Seq<char>, b: Seq<char>, c: Seq<char>) {
        lemma_chars_lt_strict(a, b, c);
        lemma_chars_lt_strict(c, b, a);
        lemma_chars_lt_strict(b, a, c);
        lemma_chars_lt_strict(b, c, a);
        lemma_chars_lt_strict(a, c, b);
        lemma_chars_lt_strict(c, a, b);
        lemma_chars_lt_total(a, b);
        lemma_chars_lt_total(b, c);
        lemma_chars_lt_total(a, c);
    }

    fn is_before(&self, other: &Self) -> (r: bool) {
        str_less(self.name.as_str(), other.name.as_str())
    }
}

/// Exported skills in name order; skills of one name keep their order, and
/// the result holds the given skills themselves, each as often as it was given.
pub fn sort_export_skills(skills: Vec<RunxExportSkill>) -> (r: Vec<RunxExportSkill>)
    ensures
        crate::sorting::is_stable_sort::<RunxExportSkill>(
            crate::sorting::views(skills@),
            crate::sorting::views(r@),
        ),
        r@.to_multiset() == skills@.to_multiset(),
        crate::sorting::is_stable_sort_of(skills@, r@),
{
    crate::sorting::stable_sort(skills)
}

// ---------------------------------------------------------------------------
// Skill references
// ---------------------------------------------------------------------------

/// Where a reference may name a skill package, in the order they are tried:
/// an absolute path as it is, else under `<root>/skills`, then under the
/// root.
pub open spec fn skill_ref_candidates_spec(root: Seq<char>, reference: Seq<char>) -> Seq<Seq<char>> {
    if is_absolute(reference) {
        seq![reference]
    } else {
        seq![path_join(path_join(root, "skills"@), reference), path_join(root, reference)]
    }
}

pub fn skill_ref_candidates(root: &str, reference: &str) -> (r: Vec<String>)
    ensures
        r@.map_values(|s: String| s@) == skill_ref_candidates_spec(root@, reference@),
{
    let chars = chars_of(reference);
    let mut out: Vec<String> = Vec::new();
    if chars.len() > 0 && chars[0] == '/' {
        out.push(reference.to_owned());
    } else {
        let skills = join_path(root, "skills");
        out.push(join_path(skills.as_str(), reference));
        out.push(join_path(root, reference));
    }
    proof {
        assert(is_absolute(reference@) == (chars@.len() > 0 && chars@[0] == '/')) by {
            reveal_with_fuel(is_absolute, 1);
        }
    }
    assert(out@.map_values(|s: String| s@) =~= skill_ref_candidates_spec(root@, reference@));
    out
}

/// The characters an official skill name may hold.
pub open spec fn official_name_char(c: char) -> bool {
    crate::text::is_ascii_alnum(c) || c == '-' || c == '_' || c == '.'
}

pub open spec fn official_name_chars(s: Seq<char>) -> bool {
    forall|i: int| 0 <= i < s.len() ==> official_name_char(#[trigger] s[i])
}

/// The official skill a reference names: a bare name, or `runx/` and a
/// non-empty name.
pub open spec fn official_skill_name_spec(reference: Seq<char>) -> Option<Seq<char>> {
    if official_name_chars(reference) {
        Some(reference)
    } else {
        match strip_prefix(reference, "runx/"@) {
            Some(name) => if name.len() > 0 && official_name_chars(name) {
                Some(name)
            } else {
                None
            },
            None => None,
        }
    }
}

fn all_official_chars(s: &Vec<char>) -> (b: bool)
    ensures
        b == official_name_chars(s@),
{
    let mut i: usize = 0;
    while i < s.len()
        invariant
            i <= s@.len(),
            forall|j: int| 0 <= j < i ==> official_name_char(#[trigger] s@[j]),
        decreases s.len() - i,
    {
        let c = s[i];
        if !(ascii_alnum(c) || c == '-' || c == '_' || c == '.') {
            assert(!official_name_char(s@[i as int]));
            return false;
        }
        i += 1;
    }
    true
}

pub fn official_skill_name(reference: &str) -> (r: Option<String>)
    ensures
        match official_skill_name_spec(reference@) {
            Some(n) => r matches Some(x) && x@ == n,
            None => r is None,
        },
{
    let chars = chars_of(reference);
    if all_official_chars(&chars) {
        return Some(reference.to_owned());
    }
    let prefix = chars_of("runx/");
    match strip_prefix_chars(&chars, &prefix) {
        Some(name) => if name.len() > 0 && all_official_chars(&name) {
            Some(string_of(&name))
        } else {
            None
        },
        None => None,
    }
}

/// The message of a reference that names no skill package.
pub fn unresolved_skill_ref(reference: &str) -> (e: RunxExportLoadError)
    ensures
        e matches RunxExportLoadError::InvalidArgs(m) && m@ == "skill reference "@ + reference@
            + " does not resolve to a SKILL.md package"@,
{
    RunxExportLoadError::InvalidArgs(
        concat3("skill reference ", reference, " does not resolve to a SKILL.md package"),
    )
}

/// The message of an official reference that names several versions.
pub fn ambiguous_official_skill_ref(reference: &str, candidate: &str) -> (e: RunxExportLoadError)
    ensures
        e matches RunxExportLoadError::InvalidArgs(m) && m@ == "official skill reference "@
            + reference@ + " is ambiguous in "@ + candidate@ + "; use an explicit skill path"@,
{
    let a = concat3("official skill reference ", reference, " is ambiguous in ");
    RunxExportLoadError::InvalidArgs(
        concat3(a.as_str(), candidate, "; use an explicit skill path"),
    )
}

} // verus!

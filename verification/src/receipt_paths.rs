//! Where the local receipt store lives, and the public label that names it
//! without leaking absolute paths.
//!
//! Paths are Unix path strings. Lexical normalization works on their
//! components: empty and `.` components vanish, `..` removes the previous
//! component when there is one and is kept otherwise.
use vstd::prelude::*;

use crate::env::EnvVars;
use crate::text::{chars_of, extend_chars, extend_str, string_of};

verus! {

pub const RUNTIME_RECEIPTS_DIR_CONFIG_KEY: &'static str = "runtime.receipts.dir";

pub const RUNX_RECEIPT_DIR_ENV: &'static str = "RUNX_RECEIPT_DIR";

pub const RUNX_PROJECT_DIR_ENV: &'static str = "RUNX_PROJECT_DIR";

pub const RUNX_CWD_ENV: &'static str = "RUNX_CWD";

pub const INIT_CWD_ENV: &'static str = "INIT_CWD";

// ---------------------------------------------------------------------------
// The path model
// ---------------------------------------------------------------------------

/// A lexically normalized path: whether it is rooted, and its components.
pub struct PathModel {
    pub absolute: bool,
    pub segments: Seq<Seq<char>>,
}

pub open spec fn parent_dir() -> Seq<char> {
    seq!['.', '.']
}

pub open spec fn cur_dir() -> Seq<char> {
    seq!['.']
}

/// Adds one raw component to normalized components.
pub open spec fn push_component(segs: Seq<Seq<char>>, comp: Seq<char>) -> Seq<Seq<char>> {
    if comp.len() == 0 || comp == cur_dir() {
        segs
    } else if comp == parent_dir() {
        if segs.len() > 0 {
            segs.drop_last()
        } else {
            segs.push(comp)
        }
    } else {
        segs.push(comp)
    }
}

/// Reads `s[i..]` one character at a time; `cur` is the component being read.
pub open spec fn scan_components(
    s: Seq<char>,
    i: int,
    segs: Seq<Seq<char>>,
    cur: Seq<char>,
) -> Seq<Seq<char>>
    decreases s.len() - i,
{
    if i < 0 || i >= s.len() {
        push_component(segs, cur)
    } else if s[i] == '/' {
        scan_components(s, i + 1, push_component(segs, cur), Seq::empty())
    } else {
        scan_components(s, i + 1, segs, cur.push(s[i]))
    }
}

/// `s` is rooted.
pub open spec fn is_absolute(s: Seq<char>) -> bool {
    s.len() > 0 && s[0] == '/'
}

/// The lexically normalized form of the path `s`.
pub open spec fn normalize(s: Seq<char>) -> PathModel {
    PathModel { absolute: is_absolute(s), segments: scan_components(s, 0, Seq::empty(), Seq::empty()) }
}

/// `segs` joined by `/`.
pub open spec fn join_segments(segs: Seq<Seq<char>>) -> Seq<char>
    decreases segs.len(),
{
    if segs.len() == 0 {
        Seq::empty()
    } else if segs.len() == 1 {
        segs[0]
    } else {
        join_segments(segs.drop_last()) + seq!['/'] + segs.last()
    }
}

/// The path string of a model.
pub open spec fn render(m: PathModel) -> Seq<char> {
    if m.absolute {
        seq!['/'] + join_segments(m.segments)
    } else {
        join_segments(m.segments)
    }
}

/// `lexical_normalize` on path strings.
pub open spec fn normalized(s: Seq<char>) -> Seq<char> {
    render(normalize(s))
}

/// `Path::join`: an absolute `p` replaces `base`.
pub open spec fn path_join(base: Seq<char>, p: Seq<char>) -> Seq<char> {
    if is_absolute(p) || base.len() == 0 {
        p
    } else if base.last() == '/' {
        base + p
    } else {
        base + seq!['/'] + p
    }
}

/// `Path::strip_prefix` on normalized paths: the components of `path` after
/// those of `base`.
pub open spec fn strip_prefix(path: PathModel, base: PathModel) -> Option<Seq<Seq<char>>> {
    if base.absolute && !path.absolute {
        None
    } else if !base.absolute && path.absolute && base.segments.len() > 0 {
        None
    } else if base.segments.len() <= path.segments.len() && path.segments.subrange(
        0,
        base.segments.len() as int,
    ) == base.segments {
        Some(path.segments.subrange(base.segments.len() as int, path.segments.len() as int))
    } else {
        None
    }
}

/// The display label of relative components (`.` for none).
pub open spec fn path_label(segs: Seq<Seq<char>>) -> Seq<char> {
    if segs.len() == 0 {
        cur_dir()
    } else {
        join_segments(segs)
    }
}

// ---------------------------------------------------------------------------
// Executable path operations
// ---------------------------------------------------------------------------

fn is_cur_dir(c: &Vec<char>) -> (b: bool)
    ensures
        b == (c@ == cur_dir()),
{
    let r = c.len() == 1 && c[0] == '.';
    assert(r ==> c@ =~= cur_dir());
    r
}

fn is_parent_dir(c: &Vec<char>) -> (b: bool)
    ensures
        b == (c@ == parent_dir()),
{
    let r = c.len() == 2 && c[0] == '.' && c[1] == '.';
    assert(r ==> c@ =~= parent_dir());
    r
}

/// The view of a vector of components.
pub open spec fn segments_view(v: Seq<Vec<char>>) -> Seq<Seq<char>> {
    v.map_values(|c: Vec<char>| c@)
}

fn push_component_exec(segs: &mut Vec<Vec<char>>, comp: Vec<char>)
    ensures
        segments_view(final(segs)@) == push_component(segments_view(old(segs)@), comp@),
{
    let ghost before = segments_view(segs@);
    if comp.len() == 0 || is_cur_dir(&comp) {
    } else if is_parent_dir(&comp) {
        if segs.len() > 0 {
            segs.pop();
            assert(segments_view(segs@) =~= before.drop_last());
        } else {
            segs.push(comp);
            assert(segments_view(segs@) =~= before.push(comp@));
        }
    } else {
        segs.push(comp);
        assert(segments_view(segs@) =~= before.push(comp@));
    }
}

/// The normalized components of the path `s`.
fn normalize_components(s: &Vec<char>) -> (r: Vec<Vec<char>>)
    ensures
        segments_view(r@) == normalize(s@).segments,
{
    let mut segs: Vec<Vec<char>> = Vec::new();
    let mut cur: Vec<char> = Vec::new();
    let mut i: usize = 0;
    assert(segments_view(segs@) =~= Seq::<Seq<char>>::empty());
    while i < s.len()
        invariant
            i <= s.len(),
            scan_components(s@, i as int, segments_view(segs@), cur@) == scan_components(
                s@,
                0,
                Seq::empty(),
                Seq::empty(),
            ),
        decreases s.len() - i,
    {
        if s[i] == '/' {
            let done = cur;
            cur = Vec::new();
            push_component_exec(&mut segs, done);
        } else {
            cur.push(s[i]);
        }
        i += 1;
    }
    push_component_exec(&mut segs, cur);
    segs
}

/// Joins components with `/`.
fn join_segments_exec(segs: &Vec<Vec<char>>) -> (r: Vec<char>)
    ensures
        r@ == join_segments(segments_view(segs@)),
{
    let mut out: Vec<char> = Vec::new();
    let mut i: usize = 0;
    while i < segs.len()
        invariant
            i <= segs.len(),
            out@ == join_segments(segments_view(segs@.take(i as int))),
        decreases segs.len() - i,
    {
        let ghost prefix = segments_view(segs@.take(i as int));
        let ghost next = segments_view(segs@.take(i + 1));
        assert(next.drop_last() =~= prefix);
        assert(next.last() == segs@[i as int]@);
        if i > 0 {
            out.push('/');
        }
        extend_chars(&mut out, &segs[i]);
        proof {
            if i > 0 {
                assert(out@ =~= join_segments(prefix) + seq!['/'] + segs@[i as int]@);
            } else {
                assert(out@ =~= segs@[0]@);
            }
        }
        i += 1;
    }
    assert(segs@.take(segs.len() as int) =~= segs@);
    out
}

fn render_exec(absolute: bool, segs: &Vec<Vec<char>>) -> (r: Vec<char>)
    ensures
        r@ == render(PathModel { absolute, segments: segments_view(segs@) }),
{
    let body = join_segments_exec(segs);
    if absolute {
        let mut out: Vec<char> = Vec::new();
        out.push('/');
        extend_chars(&mut out, &body);
        assert(out@ =~= seq!['/'] + body@);
        out
    } else {
        body
    }
}

/// Lexical normalization of a path given as characters.
fn normalized_chars(s: &Vec<char>) -> (r: Vec<char>)
    ensures
        r@ == normalized(s@),
{
    let segs = normalize_components(s);
    let absolute = s.len() > 0 && s[0] == '/';
    render_exec(absolute, &segs)
}

/// Removes `.` components and resolves `..` components without touching the
/// filesystem.
pub fn lexical_normalize(path: &str) -> (r: String)
    ensures
        r@ == normalized(path@),
{
    let s = chars_of(path);
    let n = normalized_chars(&s);
    string_of(&n)
}

fn path_join_chars(base: &Vec<char>, p: &Vec<char>) -> (r: Vec<char>)
    ensures
        r@ == path_join(base@, p@),
{
    if (p.len() > 0 && p[0] == '/') || base.len() == 0 {
        let mut out: Vec<char> = Vec::new();
        extend_chars(&mut out, p);
        assert(out@ =~= p@);
        out
    } else {
        let mut out: Vec<char> = Vec::new();
        extend_chars(&mut out, base);
        if base[base.len() - 1] != '/' {
            out.push('/');
        }
        extend_chars(&mut out, p);
        assert(out@ =~= path_join(base@, p@));
        out
    }
}

/// `Path::join` on path strings.
pub fn join_path(base: &str, p: &str) -> (r: String)
    ensures
        r@ == path_join(base@, p@),
{
    let b = chars_of(base);
    let q = chars_of(p);
    let r = path_join_chars(&b, &q);
    string_of(&r)
}

// ---------------------------------------------------------------------------
// Stable hashes of external paths
// ---------------------------------------------------------------------------

pub open spec fn fnv_offset_basis() -> u64 {
    0xcbf29ce484222325u64
}

pub open spec fn fnv_prime() -> u64 {
    0x100000001b3u64
}

/// 64-bit FNV-1a over `bytes`.
pub open spec fn fnv1a(bytes: Seq<u8>) -> u64
    decreases bytes.len(),
{
    if bytes.len() == 0 {
        fnv_offset_basis()
    } else {
        (fnv1a(bytes.drop_last()) ^ (bytes.last() as u64)).wrapping_mul(fnv_prime())
    }
}

/// The lower-case hex digit for `d < 16`.
pub open spec fn hex_digit(d: nat) -> char {
    if d < 10 {
        (d + 48) as char
    } else {
        (d + 87) as char
    }
}

/// The `width` low hex digits of `n`, most significant first (`{:0width$x}`).
pub open spec fn hex_fixed(n: nat, width: nat) -> Seq<char>
    decreases width,
{
    if width == 0 {
        Seq::empty()
    } else {
        hex_fixed(n / 16, (width - 1) as nat).push(hex_digit(n % 16))
    }
}

fn hex_digit_exec(d: u64) -> (c: char)
    requires
        d < 16,
    ensures
        c == hex_digit(d as nat),
{
    let code: u8 = if d < 10 {
        (d + 48) as u8
    } else {
        (d + 87) as u8
    };
    code as char
}

/// The `width` low hex digits of `n`.
pub fn hex_fixed_exec(n: u64, width: usize) -> (r: Vec<char>)
    ensures
        r@ == hex_fixed(n as nat, width as nat),
    decreases width,
{
    if width == 0 {
        Vec::new()
    } else {
        let mut r = hex_fixed_exec(n / 16, width - 1);
        r.push(hex_digit_exec(n % 16));
        r
    }
}

/// The UTF-8 encoding of a string.
pub open spec fn utf8(s: Seq<char>) -> Seq<u8> {
    vstd::utf8::encode_utf8(s)
}

fn fnv1a_exec(bytes: &[u8]) -> (h: u64)
    ensures
        h == fnv1a(bytes@),
{
    let mut hash: u64 = 0xcbf29ce484222325u64;
    let mut i: usize = 0;
    while i < bytes.len()
        invariant
            i <= bytes@.len(),
            hash == fnv1a(bytes@.take(i as int)),
        decreases bytes.len() - i,
    {
        assert(bytes@.take(i + 1).drop_last() =~= bytes@.take(i as int));
        hash = (hash ^ (bytes[i] as u64)).wrapping_mul(0x100000001b3u64);
        i += 1;
    }
    assert(bytes@.take(bytes@.len() as int) =~= bytes@);
    hash
}

/// The 16-digit FNV-1a hash of a path's UTF-8 bytes.
pub open spec fn path_hash(path: Seq<char>) -> Seq<char> {
    hex_fixed(fnv1a(utf8(path)) as nat, 16)
}

fn stable_path_hash(path: &Vec<char>) -> (r: Vec<char>)
    ensures
        r@ == path_hash(path@),
{
    let s = string_of(path);
    let h = fnv1a_exec(s.as_str().as_bytes());
    hex_fixed_exec(h, 16)
}

// ---------------------------------------------------------------------------
// Receipt store labels
// ---------------------------------------------------------------------------

/// A label for a receipt store that never holds an absolute path.
#[derive(Clone, Debug, PartialEq, Eq)]
pub struct ReceiptStoreLabel(pub String);

impl ReceiptStoreLabel {
    pub fn as_str(&self) -> (r: &str)
        ensures
            r@ == self.0@,
    {
        self.0.as_str()
    }
}

/// The public face of a receipt store: its label.
#[derive(Clone, Debug, PartialEq, Eq)]
pub struct ReceiptStorePublicProjection {
    label: ReceiptStoreLabel,
}

pub open spec fn receipt_store_summary(label: Seq<char>) -> Seq<char> {
    seq!['r', 'e', 'c', 'e', 'i', 'p', 't', ' ', 's', 't', 'o', 'r', 'e', ':', ' '] + label
}

impl ReceiptStorePublicProjection {
    pub closed spec fn label_view(&self) -> Seq<char> {
        self.label.0@
    }

    pub fn label(&self) -> (r: &ReceiptStoreLabel)
        ensures
            r.0@ == self.label_view(),
    {
        &self.label
    }

    /// `receipt store: <label>`.
    pub fn summary(&self) -> (r: String)
        ensures
            r@ == receipt_store_summary(self.label_view()),
    {
        let mut out = chars_of("receipt store: ");
        proof {
            reveal_strlit("receipt store: ");
        }
        extend_str(&mut out, self.label.0.as_str());
        assert(out@ =~= receipt_store_summary(self.label_view()));
        string_of(&out)
    }
}

pub open spec fn runx_project_prefix() -> Seq<char> {
    seq!['r', 'u', 'n', 'x', '-', 'p', 'r', 'o', 'j', 'e', 'c', 't', ':']
}

pub open spec fn external_store_prefix() -> Seq<char> {
    seq![
        'e',
        'x',
        't',
        'e',
        'r',
        'n',
        'a',
        'l',
        '-',
        'r',
        'e',
        'c',
        'e',
        'i',
        'p',
        't',
        '-',
        's',
        't',
        'o',
        'r',
        'e',
        ':',
    ]
}

/// The label of `receipt_dir`: relative to the workspace when it lies in the
/// project `.runx` directory and the workspace, relative to the project
/// directory when it lies only there, and a hash of the path otherwise.
pub open spec fn store_label(
    receipt_dir: Seq<char>,
    workspace_base: Seq<char>,
    project_runx_dir: Seq<char>,
) -> Seq<char> {
    let dir = normalize(receipt_dir);
    match strip_prefix(dir, normalize(project_runx_dir)) {
        Some(in_project) => match strip_prefix(dir, normalize(workspace_base)) {
            Some(in_workspace) => path_label(in_workspace),
            None => runx_project_prefix() + path_label(in_project),
        },
        None => external_store_prefix() + path_hash(render(dir)),
    }
}


/// A path component as normalization keeps it: not empty, and free of `/`.
pub open spec fn plain_component(c: Seq<char>) -> bool {
    c.len() > 0 && !c.contains('/')
}

pub open spec fn plain_components(segs: Seq<Seq<char>>) -> bool {
    forall|k: int| 0 <= k < segs.len() ==> plain_component(#[trigger] segs[k])
}

proof fn lemma_push_component_plain(segs: Seq<Seq<char>>, comp: Seq<char>)
    requires
        plain_components(segs),
        !comp.contains('/'),
    ensures
        plain_components(push_component(segs, comp)),
{
    let r = push_component(segs, comp);
    assert forall|k: int| 0 <= k < r.len() implies plain_component(#[trigger] r[k]) by {
        if k < segs.len() {
            assert(r[k] == segs[k]);
        }
    }
}

proof fn lemma_scan_components_plain(s: Seq<char>, i: int, segs: Seq<Seq<char>>, cur: Seq<char>)
    requires
        plain_components(segs),
        !cur.contains('/'),
    ensures
        plain_components(scan_components(s, i, segs, cur)),
    decreases s.len() - i,
{
    if i < 0 || i >= s.len() {
        lemma_push_component_plain(segs, cur);
    } else if s[i] == '/' {
        lemma_push_component_plain(segs, cur);
        lemma_scan_components_plain(s, i + 1, push_component(segs, cur), Seq::empty());
    } else {
        assert(!cur.push(s[i]).contains('/')) by {
            assert forall|k: int| 0 <= k < cur.push(s[i]).len() implies cur.push(s[i])[k] != '/' by {
                if k < cur.len() {
                    assert(cur.push(s[i])[k] == cur[k]);
                }
            }
        }
        lemma_scan_components_plain(s, i + 1, segs, cur.push(s[i]));
    }
}

proof fn lemma_join_segments_head(segs: Seq<Seq<char>>)
    requires
        segs.len() > 0,
        segs[0].len() > 0,
    ensures
        join_segments(segs).len() > 0,
        join_segments(segs)[0] == segs[0][0],
    decreases segs.len(),
{
    if segs.len() > 1 {
        lemma_join_segments_head(segs.drop_last());
    }
}

/// The public label of a receipt store never holds an absolute path: it is
/// relative to the workspace or the project, or names an external store by
/// a hash.
pub proof fn lemma_store_label_not_absolute(
    receipt_dir: Seq<char>,
    workspace_base: Seq<char>,
    project_runx_dir: Seq<char>,
)
    ensures
        !is_absolute(store_label(receipt_dir, workspace_base, project_runx_dir)),
{
    let dir = normalize(receipt_dir);
    lemma_scan_components_plain(receipt_dir, 0, Seq::empty(), Seq::empty());
    let label = store_label(receipt_dir, workspace_base, project_runx_dir);
    match strip_prefix(dir, normalize(project_runx_dir)) {
        Some(in_project) => match strip_prefix(dir, normalize(workspace_base)) {
            Some(in_workspace) => {
                if in_workspace.len() > 0 {
                    let base_len = normalize(workspace_base).segments.len() as int;
                    assert(in_workspace[0] == dir.segments[base_len]);
                    assert(plain_component(dir.segments[base_len]));
                    assert(in_workspace[0][0] != '/') by {
                        assert(!in_workspace[0].contains('/'));
                    }
                    lemma_join_segments_head(in_workspace);
                }
            },
            None => {
                assert(label[0] == 'r');
            },
        },
        None => {
            assert(label[0] == 'e');
        },
    }
}

fn strip_prefix_exec(
    path_abs: bool,
    path: &Vec<Vec<char>>,
    base_abs: bool,
    base: &Vec<Vec<char>>,
) -> (r: Option<Vec<Vec<char>>>)
    ensures
        r matches Some(rest) ==> strip_prefix(
            PathModel { absolute: path_abs, segments: segments_view(path@) },
            PathModel { absolute: base_abs, segments: segments_view(base@) },
        ) == Some(segments_view(rest@)),
        r is None ==> strip_prefix(
            PathModel { absolute: path_abs, segments: segments_view(path@) },
            PathModel { absolute: base_abs, segments: segments_view(base@) },
        ) is None,
{
    let ghost pv = segments_view(path@);
    let ghost bv = segments_view(base@);
    if base_abs && !path_abs {
        return None;
    }
    if !base_abs && path_abs && base.len() > 0 {
        return None;
    }
    if base.len() > path.len() {
        return None;
    }
    let mut i: usize = 0;
    while i < base.len()
        invariant
            base.len() <= path.len(),
            i <= base.len(),
            pv == segments_view(path@),
            bv == segments_view(base@),
            forall|j: int| 0 <= j < i ==> pv[j] == bv[j],
        decreases base.len() - i,
    {
        if !crate::text::chars_eq(&path[i], &base[i]) {
            assert(pv.subrange(0, bv.len() as int)[i as int] != bv[i as int]);
            return None;
        }
        i += 1;
    }
    assert(pv.subrange(0, bv.len() as int) =~= bv);
    let mut rest: Vec<Vec<char>> = Vec::new();
    let mut k: usize = base.len();
    while k < path.len()
        invariant
            base.len() <= k <= path.len(),
            pv == segments_view(path@),
            segments_view(rest@) == pv.subrange(bv.len() as int, k as int),
            bv.len() == base.len(),
        decreases path.len() - k,
    {
        let ghost before = segments_view(rest@);
        rest.push(path[k].clone());
        assert(segments_view(rest@) =~= before.push(pv[k as int]));
        assert(pv.subrange(bv.len() as int, k as int).push(pv[k as int]) =~= pv.subrange(
            bv.len() as int,
            k + 1,
        ));
        k += 1;
    }
    Some(rest)
}

fn path_label_exec(segs: &Vec<Vec<char>>) -> (r: Vec<char>)
    ensures
        r@ == path_label(segments_view(segs@)),
{
    if segs.len() == 0 {
        let mut r: Vec<char> = Vec::new();
        r.push('.');
        assert(r@ =~= cur_dir());
        r
    } else {
        join_segments_exec(segs)
    }
}

fn absolute_chars(s: &Vec<char>) -> (b: bool)
    ensures
        b == is_absolute(s@),
{
    s.len() > 0 && s[0] == '/'
}

/// The public label of a receipt store.
pub fn safe_receipt_store_label(
    receipt_dir: &str,
    workspace_base: &str,
    project_runx_dir: &str,
) -> (r: ReceiptStoreLabel)
    ensures
        r.0@ == store_label(receipt_dir@, workspace_base@, project_runx_dir@),
{
    let dir = chars_of(receipt_dir);
    let ws = chars_of(workspace_base);
    let proj = chars_of(project_runx_dir);
    let dir_segs = normalize_components(&dir);
    let ws_segs = normalize_components(&ws);
    let proj_segs = normalize_components(&proj);
    let dir_abs = absolute_chars(&dir);
    match strip_prefix_exec(dir_abs, &dir_segs, absolute_chars(&proj), &proj_segs) {
        Some(in_project) => match strip_prefix_exec(
            dir_abs,
            &dir_segs,
            absolute_chars(&ws),
            &ws_segs,
        ) {
            Some(in_workspace) => ReceiptStoreLabel(string_of(&path_label_exec(&in_workspace))),
            None => {
                let mut out = chars_of("runx-project:");
                proof {
                    reveal_strlit("runx-project:");
                }
                let label = path_label_exec(&in_project);
                extend_chars(&mut out, &label);
                assert(out@ =~= runx_project_prefix() + label@);
                ReceiptStoreLabel(string_of(&out))
            },
        },
        None => {
            let mut out = chars_of("external-receipt-store:");
            proof {
                reveal_strlit("external-receipt-store:");
            }
            let rendered = render_exec(dir_abs, &dir_segs);
            let hash = stable_path_hash(&rendered);
            extend_chars(&mut out, &hash);
            assert(out@ =~= external_store_prefix() + hash@);
            ReceiptStoreLabel(string_of(&out))
        },
    }
}

/// The public projection of a receipt store.
pub fn safe_receipt_store_projection(
    receipt_dir: &str,
    workspace_base: &str,
    project_runx_dir: &str,
) -> (r: ReceiptStorePublicProjection)
    ensures
        r.label_view() == store_label(receipt_dir@, workspace_base@, project_runx_dir@),
{
    ReceiptStorePublicProjection {
        label: safe_receipt_store_label(receipt_dir, workspace_base, project_runx_dir),
    }
}

// ---------------------------------------------------------------------------
// Resolving the store location
// ---------------------------------------------------------------------------

/// Runtime configuration of the receipt directory.
#[derive(Clone, Debug, Default, PartialEq, Eq)]
pub struct RuntimeReceiptConfig {
    pub dir: Option<String>,
}

/// Which input decided the receipt directory.
#[derive(Clone, Copy, Debug, PartialEq, Eq)]
pub enum ReceiptPathSource {
    ExplicitInput,
    RuntimeConfig,
    Environment,
    ProjectDefault,
}

/// The inputs that decide where receipts go. `process_cwd` is the directory
/// of the running process, used when `cwd` is relative.
#[derive(Clone, Copy, Debug)]
pub struct ReceiptPathInputs<'a> {
    pub explicit_dir: Option<&'a str>,
    pub runtime_config: Option<&'a RuntimeReceiptConfig>,
    pub env: &'a EnvVars,
    pub cwd: &'a str,
    pub process_cwd: &'a str,
}

/// The receipt directory and what decided it.
#[derive(Clone, Debug, PartialEq, Eq)]
pub struct ResolvedReceiptPath {
    pub path: String,
    pub source: ReceiptPathSource,
    pub label: ReceiptStoreLabel,
    pub project_runx_dir: String,
    pub workspace_base: String,
}

impl ResolvedReceiptPath {
    pub fn public_projection(&self) -> (r: ReceiptStorePublicProjection)
        ensures
            r.label_view() == self.label.0@,
    {
        ReceiptStorePublicProjection { label: ReceiptStoreLabel(self.label.0.clone()) }
    }
}

/// A variable's value when it is set and not blank.
pub open spec fn env_path_spec(env: Map<Seq<char>, Seq<char>>, key: Seq<char>) -> Option<
    Seq<char>,
> {
    if env.contains_key(key) && !crate::text::is_blank(env[key]) {
        Some(env[key])
    } else {
        None
    }
}

/// `cwd` made absolute against the process directory, normalized.
pub open spec fn absolute_cwd(cwd: Seq<char>, process_cwd: Seq<char>) -> Seq<char> {
    normalized(path_join(process_cwd, cwd))
}

/// `path` resolved against `cwd`, normalized.
pub open spec fn resolve_from_cwd(path: Seq<char>, cwd: Seq<char>, process_cwd: Seq<char>) -> Seq<
    char,
> {
    normalized(path_join(absolute_cwd(cwd, process_cwd), path))
}

/// `path` resolved against the workspace base, normalized.
pub open spec fn resolve_from_base(path: Seq<char>, base: Seq<char>) -> Seq<char> {
    normalized(path_join(base, path))
}

pub open spec fn runx_dir_name() -> Seq<char> {
    seq!['.', 'r', 'u', 'n', 'x']
}

pub open spec fn receipts_dir_name() -> Seq<char> {
    seq!['r', 'e', 'c', 'e', 'i', 'p', 't', 's']
}

/// The workspace base: `RUNX_CWD`, else `INIT_CWD`, resolved against `cwd`;
/// else `cwd` itself.
pub open spec fn workspace_base_spec(
    env: Map<Seq<char>, Seq<char>>,
    cwd: Seq<char>,
    process_cwd: Seq<char>,
) -> Seq<char> {
    match env_path_spec(env, seq!['R', 'U', 'N', 'X', '_', 'C', 'W', 'D']) {
        Some(p) => resolve_from_cwd(p, cwd, process_cwd),
        None => match env_path_spec(env, seq!['I', 'N', 'I', 'T', '_', 'C', 'W', 'D']) {
            Some(p) => resolve_from_cwd(p, cwd, process_cwd),
            None => absolute_cwd(cwd, process_cwd),
        },
    }
}

pub open spec fn project_dir_env_name() -> Seq<char> {
    seq!['R', 'U', 'N', 'X', '_', 'P', 'R', 'O', 'J', 'E', 'C', 'T', '_', 'D', 'I', 'R']
}

pub open spec fn receipt_dir_env_name() -> Seq<char> {
    seq!['R', 'U', 'N', 'X', '_', 'R', 'E', 'C', 'E', 'I', 'P', 'T', '_', 'D', 'I', 'R']
}

/// The project `.runx` directory: `RUNX_PROJECT_DIR` resolved against the
/// workspace base, else `<workspace>/.runx`.
pub open spec fn project_runx_dir_spec(env: Map<Seq<char>, Seq<char>>, workspace_base: Seq<char>) -> Seq<
    char,
> {
    match env_path_spec(env, project_dir_env_name()) {
        Some(p) => resolve_from_base(p, workspace_base),
        None => normalized(path_join(workspace_base, runx_dir_name())),
    }
}

fn env_path(env: &EnvVars, key: &str) -> (r: Option<String>)
    requires
        env.wf(),
    ensures
        r matches Some(v) ==> env_path_spec(env@, key@) == Some(v@),
        r is None ==> env_path_spec(env@, key@) is None,
{
    env.non_blank(key)
}

fn normalize_joined(base: &str, p: &str) -> (r: String)
    ensures
        r@ == normalized(path_join(base@, p@)),
{
    let b = chars_of(base);
    let q = chars_of(p);
    let j = path_join_chars(&b, &q);
    let n = normalized_chars(&j);
    string_of(&n)
}

fn absolute_cwd_exec(cwd: &str, process_cwd: &str) -> (r: String)
    ensures
        r@ == absolute_cwd(cwd@, process_cwd@),
{
    normalize_joined(process_cwd, cwd)
}

/// The workspace base directory.
pub fn resolve_workspace_base(env: &EnvVars, cwd: &str, process_cwd: &str) -> (r: String)
    requires
        env.wf(),
    ensures
        r@ == workspace_base_spec(env@, cwd@, process_cwd@),
{
    proof {
        reveal_strlit("RUNX_CWD");
        reveal_strlit("INIT_CWD");
        assert(RUNX_CWD_ENV@ =~= seq!['R', 'U', 'N', 'X', '_', 'C', 'W', 'D']);
        assert(INIT_CWD_ENV@ =~= seq!['I', 'N', 'I', 'T', '_', 'C', 'W', 'D']);
    }
    let chosen = match env_path(env, RUNX_CWD_ENV) {
        Some(p) => Some(p),
        None => env_path(env, INIT_CWD_ENV),
    };
    match chosen {
        Some(p) => {
            let base = absolute_cwd_exec(cwd, process_cwd);
            normalize_joined(base.as_str(), p.as_str())
        },
        None => absolute_cwd_exec(cwd, process_cwd),
    }
}

/// The project `.runx` directory.
pub fn resolve_project_runx_dir(env: &EnvVars, workspace_base: &str) -> (r: String)
    requires
        env.wf(),
    ensures
        r@ == project_runx_dir_spec(env@, workspace_base@),
{
    proof {
        reveal_strlit("RUNX_PROJECT_DIR");
        reveal_strlit(".runx");
        assert(RUNX_PROJECT_DIR_ENV@ =~= project_dir_env_name());
        assert(".runx"@ =~= runx_dir_name());
    }
    match env_path(env, RUNX_PROJECT_DIR_ENV) {
        Some(p) => normalize_joined(workspace_base, p.as_str()),
        None => normalize_joined(workspace_base, ".runx"),
    }
}

/// Where receipts go, and why: an explicit directory first, then the runtime
/// configuration, then `RUNX_RECEIPT_DIR`, then `<project>/.runx/receipts`.
pub open spec fn receipt_path_spec(
    explicit_dir: Option<Seq<char>>,
    config_dir: Option<Seq<char>>,
    env: Map<Seq<char>, Seq<char>>,
    workspace_base: Seq<char>,
    project_runx_dir: Seq<char>,
) -> (Seq<char>, ReceiptPathSource) {
    match explicit_dir {
        Some(p) => (resolve_from_base(p, workspace_base), ReceiptPathSource::ExplicitInput),
        None => match config_dir {
            Some(p) => (resolve_from_base(p, workspace_base), ReceiptPathSource::RuntimeConfig),
            None => match env_path_spec(env, receipt_dir_env_name()) {
                Some(p) => (resolve_from_base(p, workspace_base), ReceiptPathSource::Environment),
                None => (
                    normalized(path_join(project_runx_dir, receipts_dir_name())),
                    ReceiptPathSource::ProjectDefault,
                ),
            },
        },
    }
}

pub open spec fn config_dir_of(config: Option<&RuntimeReceiptConfig>) -> Option<Seq<char>> {
    match config {
        Some(c) => match c.dir {
            Some(d) => Some(d@),
            None => None,
        },
        None => None,
    }
}

pub open spec fn explicit_dir_of(dir: Option<&str>) -> Option<Seq<char>> {
    match dir {
        Some(d) => Some(d@),
        None => None,
    }
}

/// Resolves the receipt directory and its public label.
pub fn resolve_receipt_path(inputs: ReceiptPathInputs<'_>) -> (r: ResolvedReceiptPath)
    requires
        inputs.env.wf(),
    ensures
        r.workspace_base@ == workspace_base_spec(inputs.env@, inputs.cwd@, inputs.process_cwd@),
        r.project_runx_dir@ == project_runx_dir_spec(inputs.env@, r.workspace_base@),
        (r.path@, r.source) == receipt_path_spec(
            explicit_dir_of(inputs.explicit_dir),
            config_dir_of(inputs.runtime_config),
            inputs.env@,
            r.workspace_base@,
            r.project_runx_dir@,
        ),
        r.label.0@ == store_label(r.path@, r.workspace_base@, r.project_runx_dir@),
{
    let workspace_base = resolve_workspace_base(inputs.env, inputs.cwd, inputs.process_cwd);
    let project_runx_dir = resolve_project_runx_dir(inputs.env, workspace_base.as_str());
    proof {
        reveal_strlit("RUNX_RECEIPT_DIR");
        reveal_strlit("receipts");
        assert(RUNX_RECEIPT_DIR_ENV@ =~= receipt_dir_env_name());
        assert("receipts"@ =~= receipts_dir_name());
    }
    let config_dir: Option<&String> = match inputs.runtime_config {
        Some(config) => config.dir.as_ref(),
        None => None,
    };
    let (path, source) = match inputs.explicit_dir {
        Some(p) => (normalize_joined(workspace_base.as_str(), p), ReceiptPathSource::ExplicitInput),
        None => match config_dir {
            Some(p) => (
                normalize_joined(workspace_base.as_str(), p.as_str()),
                ReceiptPathSource::RuntimeConfig,
            ),
            None => match env_path(inputs.env, RUNX_RECEIPT_DIR_ENV) {
                Some(p) => (
                    normalize_joined(workspace_base.as_str(), p.as_str()),
                    ReceiptPathSource::Environment,
                ),
                None => (
                    normalize_joined(project_runx_dir.as_str(), "receipts"),
                    ReceiptPathSource::ProjectDefault,
                ),
            },
        },
    };
    let label = safe_receipt_store_label(
        path.as_str(),
        workspace_base.as_str(),
        project_runx_dir.as_str(),
    );
    ResolvedReceiptPath { path, source, label, project_runx_dir, workspace_base }
}

} // verus!
